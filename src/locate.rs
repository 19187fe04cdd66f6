use vstd::prelude::*;
use vstd::string::StringExecFns;

verus! {

/// A place where dictionary shards may be installed.
#[derive(Debug, Clone, Copy, PartialEq, Eq)]
pub enum Root {
    /// `./dict`, beside the current working directory.
    Local,
    /// `dict` under the user's per-application data directory.
    User,
    /// `/usr/share/dibble/dict`, the system-wide installation.
    System,
}

/// The place of a root in the search, from 0 for the first searched.
pub open spec fn rank(r: Root) -> nat {
    match r {
        Root::Local => 0,
        Root::User => 1,
        Root::System => 2,
    }
}

/// The roots in the order in which they are searched.
pub open spec fn search_order() -> Seq<Root> {
    seq![Root::Local, Root::User, Root::System]
}

/// The root searched after `r`, if any.
pub open spec fn after(r: Root) -> Option<Root> {
    match r {
        Root::Local => Some(Root::User),
        Root::User => Some(Root::System),
        Root::System => None,
    }
}

/// Where a search for a shard stands.
#[derive(Debug, Clone, Copy, PartialEq, Eq)]
pub enum Search {
    /// The shard file under this root is to be opened next.
    Probe(Root),
    /// The shard file under this root opened: it is the one to read.
    Found(Root),
    /// No root holds the shard.
    Exhausted,
}

/// What follows an attempt to open the shard file under `at`.
pub open spec fn step(at: Root, opened: bool) -> Search {
    if opened {
        Search::Found(at)
    } else {
        match after(at) {
            Some(n) => Search::Probe(n),
            None => Search::Exhausted,
        }
    }
}

/// Where a search that starts at `at` ends, when `opened[rank(r)]` tells
/// whether the shard file under root `r` opens.
pub open spec fn outcome_from(at: Root, opened: Seq<bool>) -> Search
    decreases 2 - rank(at),
{
    match step(at, opened[rank(at) as int]) {
        Search::Probe(n) => if rank(n) > rank(at) {
            outcome_from(n, opened)
        } else {
            Search::Exhausted
        },
        s => s,
    }
}

/// Where a whole search ends.
pub open spec fn outcome(opened: Seq<bool>) -> Search {
    outcome_from(Root::Local, opened)
}

/// A search begins with the local root.
pub fn search_start() -> (r: Search)
    ensures
        r == Search::Probe(search_order()[0]),
{
    Search::Probe(Root::Local)
}

/// Decides what follows an attempt to open the shard file under `at`: the
/// first root whose file opens is used, and a failure to open only moves the
/// search to the next root.
pub fn search_step(at: Root, opened: bool) -> (r: Search)
    ensures
        r == step(at, opened),
{
    if opened {
        Search::Found(at)
    } else {
        match at {
            Root::Local => Search::Probe(Root::User),
            Root::User => Search::Probe(Root::System),
            Root::System => Search::Exhausted,
        }
    }
}

/// The first root wins: a search ends at the first root, in search order,
/// whose shard file opens, whatever the later roots hold, and is exhausted
/// when none opens.
pub proof fn lemma_first_open_root_wins(opened: Seq<bool>)
    requires
        opened.len() == 3,
    ensures
        forall|r: Root|
            #[trigger] outcome(opened) == Search::Found(r) <==> opened[rank(r) as int] && forall|
                j: int,
            |
                0 <= j < rank(r) ==> !opened[j],
        outcome(opened) == Search::Exhausted <==> forall|j: int| 0 <= j < 3 ==> !opened[j],
        outcome(opened) is Found || outcome(opened) is Exhausted,
{
    reveal_with_fuel(outcome_from, 3);
}

/// A shard found under the local root is always the one used.
pub proof fn lemma_local_wins(opened: Seq<bool>)
    requires
        opened.len() == 3,
        opened[0],
    ensures
        outcome(opened) == Search::Found(Root::Local),
{
    reveal_with_fuel(outcome_from, 3);
}

/// The directory of shards under a root; `data_dir` is the user's
/// per-application data directory.
pub open spec fn root_dir(root: Root, data_dir: Seq<char>) -> Seq<char> {
    match root {
        Root::Local => "./dict"@,
        Root::User => data_dir + "/dict"@,
        Root::System => "/usr/share/dibble/dict"@,
    }
}

/// The file that holds shard `rel` under a root.
pub open spec fn shard_file_of(root: Root, data_dir: Seq<char>, rel: Seq<char>) -> Seq<char> {
    root_dir(root, data_dir) + "/"@ + rel
}

/// Builds the path of shard `rel` under a root.
pub fn shard_file(root: Root, data_dir: &str, rel: &str) -> (r: String)
    ensures
        r@ == shard_file_of(root, data_dir@, rel@),
{
    let dir = match root {
        Root::Local => String::from_str("./dict"),
        Root::User => String::from_str(data_dir).concat("/dict"),
        Root::System => String::from_str("/usr/share/dibble/dict"),
    };
    dir.concat("/").concat(rel)
}

/// The report given when no root holds shard `rel`; it names the user and
/// system paths that were searched.
pub open spec fn not_found_report(data_dir: Seq<char>, rel: Seq<char>) -> Seq<char> {
    "Dictionary file not found. Searched:\n  - "@ + shard_file_of(Root::User, data_dir, rel)
        + "\n  - "@ + shard_file_of(Root::System, data_dir, rel)
}

/// Builds the report given when no root holds shard `rel`.
pub fn not_found_message(data_dir: &str, rel: &str) -> (r: String)
    ensures
        r@ == not_found_report(data_dir@, rel@),
{
    let user = shard_file(Root::User, data_dir, rel);
    let system = shard_file(Root::System, data_dir, rel);
    String::from_str("Dictionary file not found. Searched:\n  - ").concat(user.as_str()).concat(
        "\n  - ",
    ).concat(system.as_str())
}

} // verus!
