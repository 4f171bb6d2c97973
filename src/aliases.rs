//! The alias table: short names and the command lines they expand to.

use vstd::prelude::*;
use vstd::string::StringExecFns;

verus! {

/// A short name and its expansion.
#[derive(Clone, Debug, PartialEq, Eq)]
pub struct AliasEntry {
    pub name: String,
    pub expansion: String,
}

pub open spec fn aliases_spec() -> Seq<(Seq<char>, Seq<char>)> {
    seq![
        ("ls"@, "ls --color=auto"@),
        ("l"@, "ls --color=auto"@),
        ("c"@, "cd"@),
        ("g"@, "git"@),
        ("v"@, "vim"@),
        ("V"@, "nvim"@),
        ("la"@, "ls -a --color=auto"@),
        ("t"@, "task"@),
    ]
}

pub open spec fn entry_view(e: AliasEntry) -> (Seq<char>, Seq<char>) {
    (e.name@, e.expansion@)
}

pub open spec fn entries_view(t: Seq<AliasEntry>) -> Seq<(Seq<char>, Seq<char>)> {
    t.map_values(|e: AliasEntry| entry_view(e))
}

/// Every name is non-empty and no two entries share a name.
pub open spec fn names_unique_nonempty(t: Seq<(Seq<char>, Seq<char>)>) -> bool {
    &&& forall|i: int| 0 <= i < t.len() ==> (#[trigger] t[i]).0.len() > 0
    &&& forall|i: int, j: int|
        0 <= i < t.len() && 0 <= j < t.len() && i != j ==> #[trigger] t[i].0 != #[trigger] t[j].0
}

fn entry(name: &str, expansion: &str) -> (r: AliasEntry)
    ensures
        entry_view(r) == (name@, expansion@),
{
    AliasEntry { name: String::from_str(name), expansion: String::from_str(expansion) }
}

/// Every name of the alias table is non-empty, and no name occurs twice.
pub proof fn lemma_alias_names_unique_nonempty()
    ensures
        names_unique_nonempty(aliases_spec()),
{
    reveal_strlit("ls");
    reveal_strlit("l");
    reveal_strlit("c");
    reveal_strlit("g");
    reveal_strlit("v");
    reveal_strlit("V");
    reveal_strlit("la");
    reveal_strlit("t");
    let t = aliases_spec();
    assert forall|i: int, j: int|
        0 <= i < t.len() && 0 <= j < t.len() && i != j implies #[trigger] t[i].0
        != #[trigger] t[j].0 by {
        if t[i].0.len() == t[j].0.len() {
            assert(t[i].0[0] != t[j].0[0] || t[i].0[1] != t[j].0[1]);
        }
    }
}

/// The alias table, in the order in which it is registered.
pub fn alias_table() -> (r: Vec<AliasEntry>)
    ensures
        entries_view(r@) =~= aliases_spec(),
        names_unique_nonempty(entries_view(r@)),
{
    let mut r: Vec<AliasEntry> = Vec::new();
    r.push(entry("ls", "ls --color=auto"));
    r.push(entry("l", "ls --color=auto"));
    r.push(entry("c", "cd"));
    r.push(entry("g", "git"));
    r.push(entry("v", "vim"));
    r.push(entry("V", "nvim"));
    r.push(entry("la", "ls -a --color=auto"));
    r.push(entry("t", "task"));
    proof {
        lemma_alias_names_unique_nonempty();
    }
    r
}

} // verus!
