//! Classification of file extensions into trackable content types.

use vstd::prelude::*;
use vstd::string::StringExecFns;

verus! {

/// The content type that a trackable file extension stands for.
#[derive(Clone, Copy, Debug, PartialEq, Eq, Structural)]
pub enum ExtensionType {
    Text,
    Markdown,
}

impl ExtensionType {
    /// The numeric tag of the type; zero is kept free for "unsupported".
    pub open spec fn tag(self) -> int {
        match self {
            ExtensionType::Text => 1,
            ExtensionType::Markdown => 2,
        }
    }

    /// Returns the numeric tag of the type.
    pub fn code(self) -> (r: i32)
        ensures
            r == self.tag(),
            r != 0,
    {
        match self {
            ExtensionType::Text => 1,
            ExtensionType::Markdown => 2,
        }
    }
}

/// The extensions of plain text files.
pub open spec fn text_extensions() -> Seq<Seq<char>> {
    seq![
        "c"@,
        "conf"@,
        "cpp"@,
        "css"@,
        "csv"@,
        "h"@,
        "html"@,
        "ini"@,
        "java"@,
        "js"@,
        "json"@,
        "kt"@,
        "log"@,
        "py"@,
        "rs"@,
        "sh"@,
        "toml"@,
        "ts"@,
        "txt"@,
        "xml"@,
        "yaml"@,
        "yml"@,
    ]
}

/// The extensions of Markdown files.
pub open spec fn markdown_extensions() -> Seq<Seq<char>> {
    seq!["markdown"@, "md"@]
}

/// The content type of an extension: text if the extension is one of plain
/// text, Markdown if it is one of Markdown, none otherwise. The extension is
/// taken as it is, without its dot and without folding its case.
pub open spec fn extension_type_spec(extension: Seq<char>) -> Option<ExtensionType> {
    if text_extensions().contains(extension) {
        Some(ExtensionType::Text)
    } else if markdown_extensions().contains(extension) {
        Some(ExtensionType::Markdown)
    } else {
        None
    }
}

/// The views of the strings of a table.
pub open spec fn views(table: Seq<&'static str>) -> Seq<Seq<char>> {
    table.map_values(|s: &'static str| s@)
}

fn text_table() -> (table: Vec<&'static str>)
    ensures
        views(table@) == text_extensions(),
{
    let table = vec![
        "c",
        "conf",
        "cpp",
        "css",
        "csv",
        "h",
        "html",
        "ini",
        "java",
        "js",
        "json",
        "kt",
        "log",
        "py",
        "rs",
        "sh",
        "toml",
        "ts",
        "txt",
        "xml",
        "yaml",
        "yml",
    ];
    assert(views(table@) =~= text_extensions());
    table
}

fn markdown_table() -> (table: Vec<&'static str>)
    ensures
        views(table@) == markdown_extensions(),
{
    let table = vec!["markdown", "md"];
    assert(views(table@) =~= markdown_extensions());
    table
}

/// Whether `table` holds `extension`.
fn table_contains(table: &Vec<&'static str>, extension: &str) -> (found: bool)
    ensures
        found == views(table@).contains(extension@),
{
    let wanted = String::from_str(extension);
    let mut i: usize = 0;
    while i < table.len()
        invariant
            i <= table.len(),
            wanted@ == extension@,
            forall|j: int| 0 <= j < i ==> views(table@)[j] != extension@,
        decreases table.len() - i,
    {
        let entry = String::from_str(table[i]);
        if entry == wanted {
            assert(views(table@)[i as int] == extension@);
            return true;
        }
        i += 1;
    }
    false
}

/// The content type of `extension`, if it is a trackable one.
pub fn extension_type(extension: &str) -> (kind: Option<ExtensionType>)
    ensures
        kind == extension_type_spec(extension@),
{
    if table_contains(&text_table(), extension) {
        return Some(ExtensionType::Text);
    }
    if table_contains(&markdown_table(), extension) {
        return Some(ExtensionType::Markdown);
    }
    None
}

/// Whether files with `extension` are trackable.
pub fn is_extension_supported(extension: &str) -> (supported: bool)
    ensures
        supported == extension_type_spec(extension@).is_some(),
{
    extension_type(extension).is_some()
}

/// The numeric tag to report for `extension`: the tag of its content type,
/// or zero if it is not trackable.
pub fn extension_code(extension: &str) -> (code: i32)
    ensures
        code == match extension_type_spec(extension@) {
            Some(kind) => kind.tag(),
            None => 0,
        },
{
    match extension_type(extension) {
        Some(kind) => kind.code(),
        None => 0,
    }
}

} // verus!
