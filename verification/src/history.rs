//! The last-modified time of each tracked file, mined from the history.

use crate::backend::{
    changed_entries,
    commit_seconds,
    commit_tree,
    find_commit,
    first_parent,
    head_reference,
    new_revwalk,
    peel_to_commit,
    revwalk_collect,
    revwalk_push_head,
    revwalk_set_sorting,
    tree_entries,
    tree_has_path,
};
use crate::error::{backend_error, lemma_arose_in, Stage, SyncError};
use crate::mime_types::{extension_type_spec, is_extension_supported};
use crate::session::{operation_post, Session};
use vstd::prelude::*;
use vstd::string::{StrSliceExecFns, StringExecFns};

verus! {

/// One entry met while walking a tree.
#[derive(Debug)]
pub struct TreeItem {
    /// The directory of the entry, relative to the root of the tree: empty,
    /// or ending in a slash.
    pub root: String,
    /// The name of the entry, if it is valid UTF-8.
    pub name: Option<String>,
    /// Whether the entry is a blob, that is, a file.
    pub is_blob: bool,
}

/// Whether `p` is the place of the last dot of `name`.
pub open spec fn is_last_dot(name: Seq<char>, p: int) -> bool {
    &&& 0 <= p < name.len()
    &&& name[p] == '.'
    &&& forall|j: int| p < j < name.len() ==> name[j] != '.'
}

/// Whether `extension` is the extension of the file name `name`: what
/// follows its last dot, where that dot is not its first character and the
/// name is not the parent directory's.
pub open spec fn is_extension_of(name: Seq<char>, extension: Seq<char>) -> bool {
    exists|p: int|
        #![trigger is_last_dot(name, p)]
        {
            &&& is_last_dot(name, p)
            &&& p > 0
            &&& name != seq!['.', '.']
            &&& extension == name.subrange(p + 1, name.len() as int)
        }
}

/// Whether the file name `name` has an extension.
pub open spec fn has_extension(name: Seq<char>) -> bool {
    exists|extension: Seq<char>| #[trigger] is_extension_of(name, extension)
}

/// A file name has at most one extension.
pub proof fn lemma_extension_unique(name: Seq<char>, a: Seq<char>, b: Seq<char>)
    requires
        is_extension_of(name, a),
        is_extension_of(name, b),
    ensures
        a == b,
{
    let p = choose|p: int|
        #![trigger is_last_dot(name, p)]
        is_last_dot(name, p) && a == name.subrange(p + 1, name.len() as int);
    let q = choose|q: int|
        #![trigger is_last_dot(name, q)]
        is_last_dot(name, q) && b == name.subrange(q + 1, name.len() as int);
    assert(p == q);
}

/// The extension of the file name `name`, if it has one. `name` is one
/// component of a path: it holds no separator.
pub fn extension_of(name: &str) -> (extension: Option<String>)
    ensures
        extension matches Some(e) ==> is_extension_of(name@, e@),
        extension is None ==> !has_extension(name@),
{
    let len = name.unicode_len();
    let mut i: usize = len;
    while i > 0
        invariant
            i <= len,
            len == name@.len(),
            forall|j: int| i <= j < len ==> name@[j] != '.',
        decreases i,
    {
        i -= 1;
        if name.get_char(i) == '.' {
            assert(is_last_dot(name@, i as int));
            let parent_dir = len == 2 && name.get_char(0) == '.';
            if i == 0 || parent_dir {
                assert(parent_dir && i == 1 ==> name@ =~= seq!['.', '.']);
                assert forall|e: Seq<char>| !#[trigger] is_extension_of(name@, e) by {
                    if is_extension_of(name@, e) {
                        let p = choose|p: int|
                            #![trigger is_last_dot(name@, p)]
                            is_last_dot(name@, p) && p > 0 && name@ != seq!['.', '.'];
                        assert(p == i);
                    }
                }
                return None;
            }
            assert(name@ != seq!['.', '.']) by {
                if name@ == seq!['.', '.'] {
                    assert(name@.len() == 2);
                    assert(name@[0] == '.');
                }
            }
            let rest = name.substring_char(i + 1, len);
            return Some(String::from_str(rest));
        }
    }
    assert forall|e: Seq<char>| !#[trigger] is_extension_of(name@, e) by {
        if is_extension_of(name@, e) {
            let p = choose|p: int| #![trigger is_last_dot(name@, p)] is_last_dot(name@, p);
            assert(name@[p] == '.');
        }
    }
    None
}

/// Whether the entry is a tracked file: a blob whose name is valid UTF-8
/// and has an extension that stands for a trackable content type.
pub open spec fn is_tracked(item: TreeItem) -> bool {
    &&& item.is_blob
    &&& item.name matches Some(name)
    &&& exists|e: Seq<char>|
        #![trigger is_extension_of(name@, e)]
        is_extension_of(name@, e) && extension_type_spec(e).is_some()
}

/// The path of the entry, relative to the root of the tree: its directory
/// followed by its name.
pub open spec fn item_path(item: TreeItem) -> Seq<char> {
    item.root@ + item.name.unwrap()@
}

/// The path of the entry if it is a tracked file, nothing otherwise.
pub fn tracked_path(item: &TreeItem) -> (path: Option<String>)
    ensures
        path is Some <==> is_tracked(*item),
        path matches Some(p) ==> p@ == item_path(*item),
{
    if !item.is_blob {
        return None;
    }
    let name = match &item.name {
        Some(name) => name,
        None => {
            return None;
        },
    };
    let extension = match extension_of(name.as_str()) {
        Some(extension) => extension,
        None => {
            return None;
        },
    };
    if !is_extension_supported(extension.as_str()) {
        proof {
            assert forall|e: Seq<char>|
                #![trigger is_extension_of(name@, e)]
                is_extension_of(name@, e) implies !extension_type_spec(e).is_some() by {
                lemma_extension_unique(name@, e, extension@);
            }
        }
        return None;
    }
    let mut path = item.root.clone();
    path.append(name.as_str());
    Some(path)
}

/// Whether the text holds a NUL character.
pub fn has_nul(text: &str) -> (found: bool)
    ensures
        found == text@.contains('\0'),
{
    let len = text.unicode_len();
    let mut i: usize = 0;
    while i < len
        invariant
            i <= len,
            len == text@.len(),
            forall|j: int| 0 <= j < i ==> text@[j] != '\0',
        decreases len - i,
    {
        if text.get_char(i) == '\0' {
            return true;
        }
        i += 1;
    }
    false
}

/// What one commit of the history tells about one path.
#[derive(Clone, Copy, Debug, PartialEq, Eq, Structural)]
pub struct CommitFacts {
    /// Whether the tree of the commit holds the path.
    pub present: bool,
    /// Whether the commit has a parent. Looked at only where the path is
    /// present.
    pub has_parent: bool,
    /// How many entries at the path differ between the tree of the first
    /// parent and the tree of the commit. Looked at only where the commit
    /// has a parent.
    pub changed: usize,
    /// The commit time, in seconds since the epoch.
    pub seconds: i64,
}

impl CommitFacts {
    /// Whether the commit modified the path: its tree holds the path, and
    /// either it has no parent, so that it introduced the path, or the path
    /// differs from its first parent's.
    pub open spec fn modifies_spec(self) -> bool {
        self.present && (!self.has_parent || self.changed > 0)
    }

    /// The commit time in milliseconds since the epoch.
    pub open spec fn millis_spec(self) -> int {
        self.seconds * 1000
    }

    /// Whether the commit modified the path.
    pub fn modifies(&self) -> (r: bool)
        ensures
            r == self.modifies_spec(),
    {
        self.present && (!self.has_parent || self.changed > 0)
    }

    /// The commit time in milliseconds since the epoch, or nothing where it
    /// does not fit.
    pub fn millis(&self) -> (r: Option<i64>)
        ensures
            r matches Some(ms) ==> ms == self.millis_spec(),
            r is Some <==> i64::MIN <= self.millis_spec() <= i64::MAX,
    {
        self.seconds.checked_mul(1000)
    }
}

/// Whether `i` is the place of the first commit of `facts`, taken in the
/// order of the walk, that modified the path.
pub open spec fn is_first_modifying(facts: Seq<CommitFacts>, i: int) -> bool {
    &&& 0 <= i < facts.len()
    &&& facts[i].modifies_spec()
    &&& forall|j: int| 0 <= j < i ==> !facts[j].modifies_spec()
}

/// The last-modified time of a path, in milliseconds since the epoch, given
/// what the commits of the history tell about it, newest first: the time of
/// the first commit that modified it. There is none where no commit
/// modified the path, or where that time does not fit.
pub open spec fn last_modified_spec(facts: Seq<CommitFacts>) -> Option<i64>
    decreases facts.len(),
{
    if facts.len() == 0 {
        None
    } else if facts[0].modifies_spec() {
        if i64::MIN <= facts[0].millis_spec() <= i64::MAX {
            Some(facts[0].millis_spec() as i64)
        } else {
            None
        }
    } else {
        last_modified_spec(facts.drop_first())
    }
}

/// The recursive and the positional reading of the last-modified time
/// agree: it is the time of the commit at the first modifying place, and
/// there is none where there is no such place.
pub proof fn lemma_last_modified_is_first(facts: Seq<CommitFacts>)
    ensures
        (forall|i: int| 0 <= i < facts.len() ==> !(#[trigger] facts[i]).modifies_spec())
            ==> last_modified_spec(facts) is None,
        forall|i: int| #[trigger]
            is_first_modifying(facts, i) ==> last_modified_spec(facts) == (if i64::MIN
                <= facts[i].millis_spec() <= i64::MAX {
                Some(facts[i].millis_spec() as i64)
            } else {
                None
            }),
    decreases facts.len(),
{
    if facts.len() > 0 && !facts[0].modifies_spec() {
        let rest = facts.drop_first();
        lemma_last_modified_is_first(rest);
        assert forall|i: int| #[trigger] is_first_modifying(facts, i) implies last_modified_spec(
            facts,
        ) == (if i64::MIN <= facts[i].millis_spec() <= i64::MAX {
            Some(facts[i].millis_spec() as i64)
        } else {
            None
        }) by {
            assert(i > 0);
            assert(rest[i - 1] == facts[i]);
            assert forall|j: int| 0 <= j < i - 1 implies !rest[j].modifies_spec() by {
                assert(rest[j] == facts[j + 1]);
            }
            assert(is_first_modifying(rest, i - 1));
        }
        if forall|i: int| 0 <= i < facts.len() ==> !(#[trigger] facts[i]).modifies_spec() {
            assert forall|i: int| 0 <= i < rest.len() implies !(#[trigger] rest[i]).modifies_spec() by {
                assert(rest[i] == facts[i + 1]);
            }
        }
    } else if facts.len() > 0 {
        assert forall|i: int| #[trigger] is_first_modifying(facts, i) implies i == 0 by {}
    }
}

/// The last-modified time of a path, given what the commits of the history
/// tell about it, newest first.
pub fn last_modified(facts: &Vec<CommitFacts>) -> (time: Option<i64>)
    ensures
        time == last_modified_spec(facts@),
{
    let mut i: usize = 0;
    while i < facts.len()
        invariant
            i <= facts.len(),
            forall|j: int| 0 <= j < i ==> !(#[trigger] facts@[j]).modifies_spec(),
        decreases facts.len() - i,
    {
        if facts[i].modifies() {
            proof {
                assert(is_first_modifying(facts@, i as int));
                lemma_last_modified_is_first(facts@);
            }
            return facts[i].millis();
        }
        i += 1;
    }
    proof {
        lemma_last_modified_is_first(facts@);
    }
    None
}

/// A tracked path with its last-modified time in milliseconds since the
/// epoch.
#[derive(Debug)]
pub struct Stamp {
    pub path: String,
    pub millis: i64,
}

/// The timestamp map: for each tracked path its last-modified time. No path
/// occurs twice.
#[derive(Debug)]
pub struct Timestamps {
    stamps: Vec<Stamp>,
}

/// Whether `i` is a place in `stamps` that holds `path`.
pub open spec fn holds_path(stamps: Seq<Stamp>, i: int, path: Seq<char>) -> bool {
    0 <= i < stamps.len() && stamps[i].path@ == path
}

/// Whether no path occurs twice in `stamps`.
pub open spec fn distinct_paths(stamps: Seq<Stamp>) -> bool {
    forall|i: int, j: int|
        0 <= i < stamps.len() && 0 <= j < stamps.len() && i != j ==> stamps[i].path@
            != stamps[j].path@
}

/// The map that `stamps` stands for.
pub open spec fn stamps_map(stamps: Seq<Stamp>) -> Map<Seq<char>, i64> {
    Map::new(
        |path: Seq<char>| exists|i: int| holds_path(stamps, i, path),
        |path: Seq<char>| stamps[choose|i: int| holds_path(stamps, i, path)].millis,
    )
}

impl View for Timestamps {
    type V = Map<Seq<char>, i64>;

    closed spec fn view(&self) -> Map<Seq<char>, i64> {
        stamps_map(self.stamps@)
    }
}

impl Timestamps {
    /// Whether no path occurs twice.
    pub closed spec fn wf(&self) -> bool {
        distinct_paths(self.stamps@)
    }

    /// The stamps of the map, in the order in which their paths were first
    /// inserted.
    pub closed spec fn stamps_spec(&self) -> Seq<Stamp> {
        self.stamps@
    }

    /// A map without paths.
    pub fn new() -> (map: Timestamps)
        ensures
            map.wf(),
            map@ == Map::<Seq<char>, i64>::empty(),
            map.stamps_spec().len() == 0,
    {
        let map = Timestamps { stamps: Vec::new() };
        assert(map@ =~= Map::<Seq<char>, i64>::empty());
        map
    }

    /// The time of `path`, if the map holds it.
    pub fn get(&self, path: &str) -> (time: Option<i64>)
        requires
            self.wf(),
        ensures
            time == (if self@.contains_key(path@) {
                Some(self@[path@])
            } else {
                None
            }),
    {
        let wanted = String::from_str(path);
        let mut i: usize = 0;
        while i < self.stamps.len()
            invariant
                i <= self.stamps.len(),
                wanted@ == path@,
                self.wf(),
                forall|j: int| 0 <= j < i ==> self.stamps@[j].path@ != path@,
            decreases self.stamps.len() - i,
        {
            if self.stamps[i].path == wanted {
                proof {
                    let k = choose|k: int| holds_path(self.stamps@, k, path@);
                    assert(holds_path(self.stamps@, i as int, path@));
                    assert(k == i);
                }
                return Some(self.stamps[i].millis);
            }
            i += 1;
        }
        None
    }

    /// Sets the time of `path`, replacing the time it had if the map held
    /// it already.
    pub fn insert(&mut self, path: String, millis: i64)
        requires
            old(self).wf(),
        ensures
            final(self).wf(),
            final(self)@ == old(self)@.insert(path@, millis),
            old(self).stamps_spec().len() <= final(self).stamps_spec().len() <= old(
                self,
            ).stamps_spec().len() + 1,
    {
        let ghost before = self.stamps@;
        let mut i: usize = 0;
        while i < self.stamps.len()
            invariant
                i <= self.stamps.len(),
                self.stamps@ == before,
                before == old(self).stamps@,
                distinct_paths(before),
                forall|j: int| 0 <= j < i ==> before[j].path@ != path@,
            decreases self.stamps.len() - i,
        {
            if self.stamps[i].path == path {
                self.stamps.set(i, Stamp { path, millis });
                proof {
                    let after = self.stamps@;
                    assert forall|j: int| 0 <= j < after.len() implies after[j].path@
                        == before[j].path@ by {}
                    lemma_stamps_map_insert(before, after, path@, millis, i as int);
                }
                return ;
            }
            i += 1;
        }
        self.stamps.push(Stamp { path, millis });
        proof {
            let after = self.stamps@;
            assert forall|j: int| 0 <= j < before.len() implies after[j] == before[j] by {}
            lemma_stamps_map_insert(before, after, path@, millis, before.len() as int);
        }
    }

    /// The number of paths in the map.
    pub fn len(&self) -> (n: usize)
        ensures
            n == self.stamps_spec().len(),
    {
        self.stamps.len()
    }

    /// The stamps of the map: each path of the map once, with its time.
    pub fn stamps(&self) -> (stamps: &Vec<Stamp>)
        requires
            self.wf(),
        ensures
            stamps@ == self.stamps_spec(),
            distinct_paths(stamps@),
            stamps_map(stamps@) == self@,
    {
        &self.stamps
    }
}

/// Writing `millis` for `path` at place `at` of a sequence of stamps,
/// either over the stamp that held `path` or behind the last stamp where
/// none did, is inserting the pair into the map that the stamps stand for,
/// and keeps the paths distinct.
proof fn lemma_stamps_map_insert(
    before: Seq<Stamp>,
    after: Seq<Stamp>,
    path: Seq<char>,
    millis: i64,
    at: int,
)
    requires
        distinct_paths(before),
        0 <= at <= before.len(),
        at < before.len() ==> before[at].path@ == path && after.len() == before.len(),
        at == before.len() ==> after.len() == before.len() + 1 && forall|j: int|
            0 <= j < before.len() ==> before[j].path@ != path,
        after[at].path@ == path,
        after[at].millis == millis,
        forall|j: int| 0 <= j < before.len() && j != at ==> after[j] == before[j],
    ensures
        distinct_paths(after),
        stamps_map(after) == stamps_map(before).insert(path, millis),
{
    assert forall|i: int, j: int|
        0 <= i < after.len() && 0 <= j < after.len() && i != j implies after[i].path@
        != after[j].path@ by {
        if i != at && j != at {
            assert(after[i] == before[i] && after[j] == before[j]);
        } else if i == at {
            assert(after[j] == before[j]);
        } else {
            assert(after[i] == before[i]);
        }
    }
    let expected = stamps_map(before).insert(path, millis);
    assert forall|k: Seq<char>| stamps_map(after).dom().contains(k) <==> expected.dom().contains(
        k,
    ) by {
        if stamps_map(after).dom().contains(k) {
            let i = choose|i: int| holds_path(after, i, k);
            if i != at {
                assert(holds_path(before, i, k));
            }
        }
        if expected.dom().contains(k) {
            if k == path {
                assert(holds_path(after, at, k));
            } else {
                let i = choose|i: int| holds_path(before, i, k);
                assert(i != at);
                assert(holds_path(after, i, k));
            }
        }
    }
    assert forall|k: Seq<char>| stamps_map(after).dom().contains(k) implies stamps_map(after)[k]
        == expected[k] by {
        let i = choose|i: int| holds_path(after, i, k);
        if k == path {
            assert(holds_path(after, at, k));
            assert(i == at);
        } else {
            assert(i != at);
            assert(holds_path(before, i, k));
            let j = choose|j: int| holds_path(before, j, k);
            assert(j == i);
        }
    }
    assert(stamps_map(after) =~= expected);
}

/// The backend's flag that orders a walk by commit time, newest first.
pub const SORT_BY_TIME: u32 = 2;

/// The identifiers of the commits that can be reached from HEAD of `repo`,
/// ordered by commit time, newest first.
pub fn walk_history(repo: &git2::Repository) -> (r: Result<Vec<git2::Oid>, SyncError>)
    ensures
        r matches Err(e) ==> e.arose_in(Stage::Read),
{
    let mut walk = match new_revwalk(repo) {
        Ok(walk) => walk,
        Err(e) => {
            return Err(backend_error(Stage::Read, "revwalk", &e));
        },
    };
    if let Err(e) = revwalk_push_head(&mut walk) {
        return Err(backend_error(Stage::Read, "push_head", &e));
    }
    if let Err(e) = revwalk_set_sorting(&mut walk, SORT_BY_TIME) {
        return Err(backend_error(Stage::Read, "set_sorting", &e));
    }
    match revwalk_collect(walk) {
        Ok(history) => Ok(history),
        Err(e) => Err(backend_error(Stage::Read, "revwalk", &e)),
    }
}

/// What the commit `id` of `repo` tells about `path`. The parent is looked
/// at only where the tree of the commit holds the path, and the difference
/// to the parent only where there is a parent. The path is taken
/// literally: characters that a pattern would give a meaning to stand for
/// themselves. No tree holds a path with a NUL character in it.
pub fn commit_facts(repo: &git2::Repository, id: git2::Oid, path: &str) -> (r: Result<
    CommitFacts,
    SyncError,
>)
    ensures
        r matches Ok(facts) ==> (path@.contains('\0') ==> !facts.present),
        r matches Err(e) ==> e.arose_in(Stage::Read),
        r matches Ok(facts) ==> (!facts.present ==> !facts.has_parent) && (!facts.has_parent
            ==> facts.changed == 0),
{
    facts_of(repo, id, path, !has_nul(path))
}

/// What the commit `id` of `repo` tells about `path`, given whether the
/// path is free of NUL characters.
fn facts_of(repo: &git2::Repository, id: git2::Oid, path: &str, clean: bool) -> (r: Result<
    CommitFacts,
    SyncError,
>)
    requires
        clean == !path@.contains('\0'),
    ensures
        r matches Ok(facts) ==> (!clean ==> !facts.present),
        r matches Err(e) ==> e.arose_in(Stage::Read),
        r matches Ok(facts) ==> (!facts.present ==> !facts.has_parent) && (!facts.has_parent
            ==> facts.changed == 0),
{
    let commit = match find_commit(repo, id) {
        Ok(commit) => commit,
        Err(e) => {
            return Err(backend_error(Stage::Read, "find_commit", &e));
        },
    };
    let tree = match commit_tree(&commit) {
        Ok(tree) => tree,
        Err(e) => {
            return Err(backend_error(Stage::Read, "tree", &e));
        },
    };
    let seconds = commit_seconds(&commit);
    if !clean || !tree_has_path(&tree, path) {
        return Ok(CommitFacts { present: false, has_parent: false, changed: 0, seconds });
    }
    let parent = match first_parent(&commit) {
        Some(parent) => parent,
        None => {
            return Ok(CommitFacts { present: true, has_parent: false, changed: 0, seconds });
        },
    };
    let parent_tree = match commit_tree(&parent) {
        Ok(tree) => tree,
        Err(e) => {
            return Err(backend_error(Stage::Read, "tree", &e));
        },
    };
    match changed_entries(repo, &parent_tree, &tree, path, true) {
        Ok(changed) => Ok(CommitFacts { present: true, has_parent: true, changed, seconds }),
        Err(e) => Err(backend_error(Stage::Read, "diff_tree_to_tree", &e)),
    }
}

/// Whether `time` is the last-modified time that some commits tell, no
/// more of them than `limit`.
pub open spec fn is_mined_time(time: Option<i64>, limit: int) -> bool {
    exists|facts: Seq<CommitFacts>|
        facts.len() <= limit && #[trigger] last_modified_spec(facts) == time
}

/// The last-modified time of `path` in `repo`, in milliseconds since the
/// epoch: the commits of `history` are visited in their order until one
/// modified the path, and its time is the answer. No later commit is
/// visited. There is no answer where no commit of `history` modified the
/// path; of an empty history nothing is read, and there is no answer.
pub fn find_timestamp(repo: &git2::Repository, history: &Vec<git2::Oid>, path: &str) -> (r: Result<
    Option<i64>,
    SyncError,
>)
    ensures
        r matches Err(e) ==> e.arose_in(Stage::Read),
        r matches Ok(time) ==> is_mined_time(time, history.len() as int),
        r matches Ok(Some(ms)) ==> ms % 1000 == 0,
        history.len() == 0 ==> r matches Ok(None),
{
    let clean = !has_nul(path);
    let mut visited: Vec<CommitFacts> = Vec::new();
    let mut i: usize = 0;
    while i < history.len()
        invariant
            i <= history.len(),
            visited.len() == i,
            clean == !path@.contains('\0'),
            forall|j: int| 0 <= j < visited.len() ==> !(#[trigger] visited@[j]).modifies_spec(),
        decreases history.len() - i,
    {
        let facts = match facts_of(repo, history[i], path, clean) {
            Ok(facts) => facts,
            Err(e) => {
                return Err(e);
            },
        };
        visited.push(facts);
        if facts.modifies() {
            let time = last_modified(&visited);
            proof {
                assert(is_first_modifying(visited@, i as int));
                lemma_last_modified_is_first(visited@);
            }
            return Ok(time);
        }
        i += 1;
    }
    proof {
        lemma_last_modified_is_first(visited@);
    }
    Ok(None)
}

/// Whether `name` is the name of a tracked file: it has an extension that
/// stands for a trackable content type.
pub open spec fn is_tracked_name(name: Seq<char>) -> bool {
    exists|e: Seq<char>|
        #![trigger is_extension_of(name, e)]
        is_extension_of(name, e) && extension_type_spec(e).is_some()
}

/// Whether `path` is `name` below the directory `root`, and `name` the
/// name of a tracked file.
pub open spec fn names_tracked_file(path: Seq<char>, root: Seq<char>, name: Seq<char>) -> bool {
    path == root + name && is_tracked_name(name)
}

/// Whether `path` can be the path of a tracked file: it ends in a name
/// with an extension that stands for a trackable content type.
pub open spec fn is_path_of_tracked_file(path: Seq<char>) -> bool {
    exists|root: Seq<char>, name: Seq<char>| #[trigger] names_tracked_file(path, root, name)
}

/// The path of a tracked file among `items` ends in a name with a
/// trackable extension.
pub proof fn lemma_tracked_path_has_tracked_name(items: Seq<TreeItem>, path: Seq<char>)
    requires
        is_tracked_path(items, path),
    ensures
        is_path_of_tracked_file(path),
{
    let i = choose|i: int|
        0 <= i < items.len() && is_tracked(#[trigger] items[i]) && item_path(items[i]) == path;
    let name = items[i].name.unwrap()@;
    let e = choose|e: Seq<char>|
        #![trigger is_extension_of(name, e)]
        is_extension_of(name, e) && extension_type_spec(e).is_some();
    assert(is_extension_of(name, e) && extension_type_spec(e).is_some());
    assert(names_tracked_file(path, items[i].root@, name));
}

/// Whether `path` is the path of a tracked file among `items`.
pub open spec fn is_tracked_path(items: Seq<TreeItem>, path: Seq<char>) -> bool {
    exists|i: int| 0 <= i < items.len() && is_tracked(#[trigger] items[i]) && item_path(items[i]) == path
}

/// Whether none of `items` is a tracked file.
pub open spec fn none_tracked(items: Seq<TreeItem>) -> bool {
    forall|i: int| 0 <= i < items.len() ==> !is_tracked(#[trigger] items[i])
}

/// Whether the item at place `i` is a tracked file with the path `path`
/// for which a time was found.
pub open spec fn stamps_path(
    items: Seq<TreeItem>,
    times: Seq<Option<i64>>,
    i: int,
    path: Seq<char>,
) -> bool {
    &&& 0 <= i < items.len()
    &&& i < times.len()
    &&& is_tracked(items[i])
    &&& item_path(items[i]) == path
    &&& times[i] is Some
}

/// Whether no item behind place `i` is a tracked file with the path `path`
/// for which a time was found.
pub open spec fn none_stamps_later(
    items: Seq<TreeItem>,
    times: Seq<Option<i64>>,
    i: int,
    path: Seq<char>,
) -> bool {
    forall|j: int| i < j < items.len() ==> !#[trigger] stamps_path(items, times, j, path)
}

/// The timestamp map that the items of a tree give with the times found
/// for them, one for each item: every tracked file for which a time was
/// found is in the map under its path, with that time; where two items
/// have one path, the later one counts.
pub open spec fn stamped_spec(items: Seq<TreeItem>, times: Seq<Option<i64>>) -> Map<
    Seq<char>,
    i64,
>
    decreases items.len(),
{
    if items.len() == 0 || times.len() != items.len() {
        Map::empty()
    } else {
        let before = stamped_spec(items.drop_last(), times.drop_last());
        if is_tracked(items.last()) && times.last() is Some {
            before.insert(item_path(items.last()), times.last()->Some_0)
        } else {
            before
        }
    }
}

/// What the timestamp map of items and times holds: its paths are those of
/// the tracked files for which a time was found, each of its times is the
/// time found for an item with that path, and it is the time of the last
/// such item.
pub proof fn lemma_stamped(items: Seq<TreeItem>, times: Seq<Option<i64>>)
    requires
        times.len() == items.len(),
    ensures
        forall|path: Seq<char>| #[trigger]
            stamped_spec(items, times).contains_key(path) <==> exists|i: int| #[trigger]
                stamps_path(items, times, i, path),
        forall|path: Seq<char>| #[trigger]
            stamped_spec(items, times).contains_key(path) ==> exists|i: int| #[trigger]
                stamps_path(items, times, i, path) && stamped_spec(items, times)[path]
                    == times[i]->Some_0,
        forall|i: int, path: Seq<char>| #[trigger]
            stamps_path(items, times, i, path) && none_stamps_later(items, times, i, path)
                ==> stamped_spec(items, times)[path] == times[i]->Some_0,
    decreases items.len(),
{
    let all = stamped_spec(items, times);
    if items.len() == 0 {
        assert forall|path: Seq<char>| #[trigger] all.contains_key(path) <==> exists|i: int| #[trigger]
                stamps_path(items, times, i, path) by {}
    } else {
        let n = items.len() - 1;
        let fewer = items.drop_last();
        let earlier = times.drop_last();
        let before = stamped_spec(fewer, earlier);
        lemma_stamped(fewer, earlier);
        let last_path = item_path(items[n]);
        let last_counts = is_tracked(items[n]) && times[n] is Some;
        assert forall|i: int, path: Seq<char>| 0 <= i < n implies (stamps_path(
            fewer,
            earlier,
            i,
            path,
        ) <==> stamps_path(items, times, i, path)) by {
            assert(fewer[i] == items[i]);
            assert(earlier[i] == times[i]);
        }
        assert forall|path: Seq<char>| #[trigger] all.contains_key(path) <==> exists|i: int| #[trigger]
                stamps_path(items, times, i, path) by {
            if all.contains_key(path) {
                if last_counts && path == last_path {
                    assert(stamps_path(items, times, n, path));
                } else {
                    assert(before.contains_key(path));
                    let i = choose|i: int| #[trigger] stamps_path(fewer, earlier, i, path);
                    assert(stamps_path(items, times, i, path));
                }
            }
            if exists|i: int| #[trigger] stamps_path(items, times, i, path) {
                let i = choose|i: int| #[trigger] stamps_path(items, times, i, path);
                if i < n {
                    assert(stamps_path(fewer, earlier, i, path));
                    assert(before.contains_key(path));
                }
            }
        }
        assert forall|path: Seq<char>| #[trigger] all.contains_key(path) implies exists|i: int| #[trigger]
                stamps_path(items, times, i, path) && all[path] == times[i]->Some_0 by {
            if last_counts && path == last_path {
                assert(stamps_path(items, times, n, path) && all[path] == times[n]->Some_0);
            } else {
                assert(before.contains_key(path));
                let i = choose|i: int| #[trigger]
                    stamps_path(fewer, earlier, i, path) && before[path] == earlier[i]->Some_0;
                assert(earlier[i] == times[i]);
                assert(stamps_path(items, times, i, path) && all[path] == times[i]->Some_0);
            }
        }
        assert forall|i: int, path: Seq<char>| #[trigger]
            stamps_path(items, times, i, path) && none_stamps_later(
                items,
                times,
                i,
                path,
            ) implies all[path] == times[i]->Some_0 by {
            if i < n {
                assert(!stamps_path(items, times, n, path));
                assert(stamps_path(fewer, earlier, i, path));
                assert forall|j: int| i < j < fewer.len() implies !#[trigger] stamps_path(
                    fewer,
                    earlier,
                    j,
                    path,
                ) by {
                    assert(!stamps_path(items, times, j, path));
                }
                assert(none_stamps_later(fewer, earlier, i, path));
                assert(earlier[i] == times[i]);
                assert(all[path] == before[path]);
            }
        }
    }
}

/// Builds the timestamp map of the items of a tree from the times found
/// for them, one for each item: every tracked file for which a time was
/// found is put into the map under its path, with that time.
pub fn stamp_tracked(items: &Vec<TreeItem>, times: &Vec<Option<i64>>) -> (map: Timestamps)
    requires
        times.len() == items.len(),
    ensures
        map.wf(),
        map@ == stamped_spec(items@, times@),
        map.stamps_spec().len() <= items.len(),
        forall|path: Seq<char>| #[trigger]
            map@.contains_key(path) <==> exists|i: int| #[trigger]
                stamps_path(items@, times@, i, path),
        forall|i: int, path: Seq<char>| #[trigger]
            stamps_path(items@, times@, i, path) && none_stamps_later(items@, times@, i, path)
                ==> map@[path] == times@[i]->Some_0,
{
    let mut map = Timestamps::new();
    let mut i: usize = 0;
    assert(items@.take(0).len() == 0);
    while i < items.len()
        invariant
            i <= items.len(),
            times.len() == items.len(),
            map.wf(),
            map.stamps_spec().len() <= i,
            map@ == stamped_spec(items@.take(i as int), times@.take(i as int)),
        decreases items.len() - i,
    {
        proof {
            let next = (i + 1) as int;
            assert(items@.take(next).drop_last() =~= items@.take(i as int));
            assert(times@.take(next).drop_last() =~= times@.take(i as int));
            assert(items@.take(next).last() == items@[i as int]);
            assert(times@.take(next).last() == times@[i as int]);
        }
        if let Some(path) = tracked_path(&items[i]) {
            if let Some(time) = times[i] {
                map.insert(path, time);
            }
        }
        i += 1;
    }
    proof {
        assert(items@.take(items.len() as int) =~= items@);
        assert(times@.take(times.len() as int) =~= times@);
        lemma_stamped(items@, times@);
    }
    map
}

/// Whether `times` can be the times found for `items` in a history of
/// `limit` commits: there is one for each item, only a tracked file has
/// one, each is a last-modified time that some commits of the history
/// tell, and each is a whole number of seconds, given in milliseconds.
pub open spec fn are_found_times(items: Seq<TreeItem>, times: Seq<Option<i64>>, limit: int) -> bool {
    &&& times.len() == items.len()
    &&& forall|i: int|
        0 <= i < times.len() ==> (#[trigger] times[i] matches Some(time) ==> is_tracked(items[i])
            && time % 1000 == 0)
    &&& forall|i: int| 0 <= i < times.len() ==> is_mined_time(#[trigger] times[i], limit)
    &&& limit == 0 ==> forall|i: int| 0 <= i < times.len() ==> #[trigger] times[i] is None
}

/// Whether `map` is the timestamp map that `items` give with times found
/// for them in a history of `limit` commits.
pub open spec fn is_collected(
    map: Map<Seq<char>, i64>,
    items: Seq<TreeItem>,
    times: Seq<Option<i64>>,
    limit: int,
) -> bool {
    are_found_times(items, times, limit) && map == stamped_spec(items, times)
}

/// No commits tell no time.
pub proof fn lemma_none_is_mined(limit: int)
    requires
        0 <= limit,
    ensures
        is_mined_time(None, limit),
{
    assert(last_modified_spec(Seq::<CommitFacts>::empty()) == None::<i64>);
}

/// The times found for the items of a tree in `history`: for each tracked
/// file the last-modified time that the history tells for its path, and
/// none for every other item. A file for which the history tells none, or
/// for which reading the history fails, has none.
pub fn find_times(
    repo: &git2::Repository,
    history: &Vec<git2::Oid>,
    items: &Vec<TreeItem>,
) -> (times: Vec<Option<i64>>)
    ensures
        are_found_times(items@, times@, history.len() as int),
{
    let mut times: Vec<Option<i64>> = Vec::new();
    let mut i: usize = 0;
    while i < items.len()
        invariant
            i <= items.len(),
            times.len() == i,
            are_found_times(items@.take(i as int), times@, history.len() as int),
        decreases items.len() - i,
    {
        let time = match tracked_path(&items[i]) {
            Some(path) => match find_timestamp(repo, history, path.as_str()) {
                Ok(found) => found,
                Err(_) => None,
            },
            None => None,
        };
        proof {
            lemma_none_is_mined(history.len() as int);
            let next = (i + 1) as int;
            let longer = times@.push(time);
            assert forall|j: int| 0 <= j < longer.len() implies (#[trigger] longer[j] matches Some(
                t,
            ) ==> is_tracked(items@.take(next)[j]) && t % 1000 == 0) by {
                if j < i {
                    assert(longer[j] == times@[j]);
                    assert(items@.take(next)[j] == items@.take(i as int)[j]);
                }
            }
            assert forall|j: int| 0 <= j < longer.len() implies is_mined_time(
                #[trigger] longer[j],
                history.len() as int,
            ) by {
                if j < i {
                    assert(longer[j] == times@[j]);
                }
            }
            assert(history.len() == 0 ==> forall|j: int|
                0 <= j < longer.len() ==> #[trigger] longer[j] is None) by {
                if history.len() == 0 {
                    assert forall|j: int| 0 <= j < longer.len() implies #[trigger] longer[j] is None by {
                        if j < i {
                            assert(longer[j] == times@[j]);
                        }
                    }
                }
            }
        }
        times.push(time);
        i += 1;
    }
    assert(items@.take(items.len() as int) =~= items@);
    times
}

/// The timestamp map of the tracked files among `items`: each is given the
/// last-modified time that `history` tells for its path. A file for which
/// the history tells none, or for which reading the history fails, is left
/// out. So the map holds at most one path for each item, and none at all
/// where the history is empty or no item is a tracked file.
pub fn collect_timestamps(
    repo: &git2::Repository,
    history: &Vec<git2::Oid>,
    items: &Vec<TreeItem>,
) -> (map: Timestamps)
    ensures
        map.wf(),
        exists|times: Seq<Option<i64>>| #[trigger]
            is_collected(map@, items@, times, history.len() as int),
        forall|path: Seq<char>| map@.contains_key(path) ==> is_tracked_path(items@, path),
        forall|path: Seq<char>| map@.contains_key(path) ==> #[trigger] map@[path] % 1000 == 0,
        map.stamps_spec().len() <= items.len(),
        history.len() == 0 || none_tracked(items@) ==> map@ == Map::<Seq<char>, i64>::empty(),
{
    let times = find_times(repo, history, items);
    let map = stamp_tracked(items, &times);
    proof {
        assert(is_collected(map@, items@, times@, history.len() as int));
        lemma_collected(map@, items@, times@, history.len() as int);
    }
    map
}

/// What holds of every timestamp map that items give with times found for
/// them: each of its paths is the path of a tracked file among the items,
/// each of its times is a whole number of seconds in milliseconds, and it
/// is empty where the history is empty or no item is a tracked file.
pub proof fn lemma_collected(
    map: Map<Seq<char>, i64>,
    items: Seq<TreeItem>,
    times: Seq<Option<i64>>,
    limit: int,
)
    requires
        is_collected(map, items, times, limit),
    ensures
        forall|path: Seq<char>| map.contains_key(path) ==> is_tracked_path(items, path),
        forall|path: Seq<char>|
            map.contains_key(path) ==> is_path_of_tracked_file(path) && #[trigger] map[path] % 1000
                == 0,
        limit == 0 || none_tracked(items) ==> map == Map::<Seq<char>, i64>::empty(),
{
    lemma_stamped(items, times);
    assert forall|path: Seq<char>| map.contains_key(path) implies is_tracked_path(items, path)
        && is_path_of_tracked_file(path) && #[trigger] map[path] % 1000 == 0 by {
        let i = choose|i: int| #[trigger]
            stamps_path(items, times, i, path) && map[path] == times[i]->Some_0;
        assert(is_tracked(items[i]) && item_path(items[i]) == path);
        assert(is_tracked_path(items, path));
        lemma_tracked_path_has_tracked_name(items, path);
        assert(times[i] is Some);
    }
    if limit == 0 || none_tracked(items) {
        assert forall|path: Seq<char>| !map.contains_key(path) by {
            if map.contains_key(path) {
                let i = choose|i: int| #[trigger] stamps_path(items, times, i, path);
                assert(times[i] is Some);
                assert(is_tracked(items[i]));
            }
        }
        assert(map =~= Map::<Seq<char>, i64>::empty());
    }
}

/// Whether `map` is the timestamp map of the entries of some tree with
/// times found for them in some history.
pub open spec fn is_timestamp_map(map: Map<Seq<char>, i64>) -> bool {
    exists|items: Seq<TreeItem>, times: Seq<Option<i64>>, limit: int| #[trigger]
        is_collected(map, items, times, limit)
}

/// The timestamp map of `repo`: for each tracked file in the tree of the
/// commit at HEAD, the time of the newest commit that modified it. Every
/// path of the map ends in a name with a trackable extension, and every
/// time is a whole number of seconds, given in milliseconds.
pub fn mine_timestamps(repo: &git2::Repository) -> (r: Result<Timestamps, SyncError>)
    ensures
        r matches Ok(map) ==> map.wf() && is_timestamp_map(map@),
        r matches Ok(map) ==> forall|path: Seq<char>| #[trigger]
            map@.contains_key(path) ==> is_path_of_tracked_file(path) && map@[path] % 1000 == 0,
        r matches Err(e) ==> e.arose_in(Stage::Resolve) || e.arose_in(Stage::Read),
{
    let head = match head_reference(repo) {
        Ok(head) => head,
        Err(e) => {
            return Err(backend_error(Stage::Resolve, "head", &e));
        },
    };
    let commit = match peel_to_commit(&head) {
        Ok(commit) => commit,
        Err(e) => {
            return Err(backend_error(Stage::Read, "peel_to_commit", &e));
        },
    };
    let tree = match commit_tree(&commit) {
        Ok(tree) => tree,
        Err(e) => {
            return Err(backend_error(Stage::Read, "tree", &e));
        },
    };
    let items = match tree_entries(&tree, git2::TreeWalkMode::PreOrder) {
        Ok(items) => items,
        Err(e) => {
            return Err(backend_error(Stage::Read, "walk", &e));
        },
    };
    let history = match walk_history(repo) {
        Ok(history) => history,
        Err(_) => Vec::new(),
    };
    let map = collect_timestamps(repo, &history, &items);
    proof {
        let times = choose|times: Seq<Option<i64>>| #[trigger]
            is_collected(map@, items@, times, history.len() as int);
        assert(is_collected(map@, items@, times, history.len() as int));
        assert forall|path: Seq<char>| #[trigger] map@.contains_key(path) implies
            is_path_of_tracked_file(path) && map@[path] % 1000 == 0 by {
            lemma_tracked_path_has_tracked_name(items@, path);
        }
    }
    Ok(map)
}

/// The timestamp map of the active repository. It is built anew on each
/// call, from the entries of the tree at HEAD and the times found for
/// them: every path of the map ends in a name with a trackable extension,
/// and every time is a whole number of seconds, given in milliseconds.
pub fn get_timestamps(session: &mut Session) -> (r: Result<Timestamps, SyncError>)
    ensures
        operation_post(old(session)@, final(session)@, r),
        final(session).handle() == old(session).handle(),
        r matches Ok(map) ==> map.wf() && is_timestamp_map(map@),
        r matches Ok(map) ==> forall|path: Seq<char>| #[trigger]
            map@.contains_key(path) ==> is_path_of_tracked_file(path) && map@[path] % 1000 == 0,
{
    let outcome = match session.repository("get_timestamps") {
        Ok(repo) => mine_timestamps(repo),
        Err(e) => {
            return Err(e);
        },
    };
    proof {
        if let Err(e) = &outcome {
            if e.arose_in(Stage::Read) {
                lemma_arose_in(*e, Stage::Read);
            } else {
                lemma_arose_in(*e, Stage::Resolve);
            }
        }
    }
    session.settle(outcome)
}

} // verus!
