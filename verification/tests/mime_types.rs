use gitnote_sync::mime_types::{
    extension_code, extension_type, is_extension_supported, ExtensionType,
};

#[test]
fn test1() {
    assert!(is_extension_supported("md"));
    assert!(is_extension_supported("txt"));
    assert!(!is_extension_supported("bin"));
}

#[test]
fn extension_type_tells_text_from_markdown() {
    assert_eq!(extension_type("txt"), Some(ExtensionType::Text));
    assert_eq!(extension_type("json"), Some(ExtensionType::Text));
    assert_eq!(extension_type("md"), Some(ExtensionType::Markdown));
    assert_eq!(extension_type("markdown"), Some(ExtensionType::Markdown));
    assert_eq!(extension_type("bin"), None);
    assert_eq!(extension_type(""), None);
}

#[test]
fn extension_is_taken_literally() {
    assert_eq!(extension_type("TXT"), None);
    assert_eq!(extension_type(".txt"), None);
    assert_eq!(extension_type("tx"), None);
    assert_eq!(extension_type("txt "), None);
}

#[test]
fn extension_code_keeps_zero_for_unsupported() {
    assert_eq!(extension_code("txt"), 1);
    assert_eq!(extension_code("md"), 2);
    assert_eq!(extension_code("png"), 0);
    assert_eq!(ExtensionType::Text.code(), 1);
    assert_eq!(ExtensionType::Markdown.code(), 2);
}
