//! The files that the engine expects below the home directory: the
//! configuration that marks every directory as safe, and the known-hosts
//! file of the SSH transport. Deciding their places and their content is
//! done here; creating them is left to the caller.

use vstd::prelude::*;
use vstd::string::{StrSliceExecFns, StringExecFns};

verus! {

/// The path of `name` below the directory `dir`: the two joined by one
/// slash, unless `dir` is empty or ends in a slash already.
pub open spec fn join_spec(dir: Seq<char>, name: Seq<char>) -> Seq<char> {
    if dir.len() == 0 {
        name
    } else if dir.last() == '/' {
        dir + name
    } else {
        dir + seq!['/'] + name
    }
}

/// The path of `name` below the directory `dir`.
pub fn join_path(dir: &str, name: &str) -> (path: String)
    ensures
        path@ == join_spec(dir@, name@),
{
    let len = dir.unicode_len();
    let mut path = String::from_str(dir);
    if len > 0 && dir.get_char(len - 1) != '/' {
        proof {
            reveal_strlit("/");
            assert("/"@ =~= seq!['/']);
        }
        path.append("/");
    }
    path.append(name);
    assert(dir@.len() == 0 ==> path@ =~= name@);
    path
}

/// The place of the configuration file below `home`.
pub fn git_config_path(home: &str) -> (path: String)
    ensures
        path@ == join_spec(home@, ".gitconfig"@),
{
    join_path(home, ".gitconfig")
}

/// The place of the SSH directory below `home`.
pub fn ssh_directory(home: &str) -> (path: String)
    ensures
        path@ == join_spec(home@, ".ssh"@),
{
    join_path(home, ".ssh")
}

/// The place of the known-hosts file below `home`.
pub fn known_hosts_path(home: &str) -> (path: String)
    ensures
        path@ == join_spec(join_spec(home@, ".ssh"@), "known_hosts"@),
{
    let directory = ssh_directory(home);
    join_path(directory.as_str(), "known_hosts")
}

/// The content of the configuration file: every directory is safe, whoever
/// owns it.
pub fn git_config_content() -> (content: &'static str)
    ensures
        content@ == "[safe]\n\tdirectory = *"@,
{
    "[safe]\n\tdirectory = *"
}

/// Whether the configuration file is to be written: only where there is
/// none yet, so that a configuration that is there is never overwritten.
pub fn writes_git_config(exists: bool) -> (write: bool)
    ensures
        write == !exists,
{
    !exists
}

/// A path below a directory starts with the directory and ends with the
/// name, and joining adds at most one character between them.
pub proof fn lemma_join_keeps_both(dir: Seq<char>, name: Seq<char>)
    ensures
        dir.is_prefix_of(join_spec(dir, name)),
        name.is_suffix_of(join_spec(dir, name)),
        dir.len() + name.len() <= join_spec(dir, name).len() <= dir.len() + name.len() + 1,
{
    let joined = join_spec(dir, name);
    assert(joined.subrange(0, dir.len() as int) =~= dir);
    assert(joined.subrange(joined.len() - name.len(), joined.len() as int) =~= name);
}

} // verus!
