//! The key bindings and what each one does when pressed.

use vstd::prelude::*;
use vstd::string::StringExecFns;

verus! {

/// What a bound key asks for.
#[derive(Clone, Copy, Debug, PartialEq, Eq)]
pub enum KeyAction {
    ClearScreen,
    FuzzySearch,
}

/// A chord, such as `C-l`, with its description and action.
#[derive(Clone, Debug, PartialEq, Eq)]
pub struct KeyBinding {
    pub chord: String,
    pub description: String,
    pub action: KeyAction,
}

/// A program to start, with its arguments.
#[derive(Clone, Debug, PartialEq, Eq)]
pub struct ProcessCommand {
    pub program: String,
    pub args: Vec<String>,
}

/// What the shell does when a bound key is pressed.
#[derive(Clone, Debug, PartialEq, Eq)]
pub enum KeyEffect {
    /// Start one program and do not wait for it.
    Spawn(ProcessCommand),
    /// Run the programs with the output of each piped into the next.
    Pipeline(Vec<ProcessCommand>),
    /// Print a message on standard error and start nothing.
    Diagnostic(String),
}

pub open spec fn chords(t: Seq<KeyBinding>) -> Seq<Seq<char>> {
    t.map_values(|b: KeyBinding| b.chord@)
}

/// No two entries of the table share a chord.
pub open spec fn chords_unique(t: Seq<KeyBinding>) -> bool {
    forall|i: int, j: int|
        0 <= i < t.len() && 0 <= j < t.len() && i != j ==> #[trigger] t[i].chord@
            != #[trigger] t[j].chord@
}

pub open spec fn command_view(c: ProcessCommand) -> (Seq<char>, Seq<Seq<char>>) {
    (c.program@, c.args@.map_values(|a: String| a@))
}

/// Is the effect a program started, or a pipeline of them?
pub open spec fn spawns(e: KeyEffect) -> bool {
    !(e is Diagnostic)
}

pub open spec fn bindings_spec() -> Seq<(Seq<char>, Seq<char>, KeyAction)> {
    seq![
        ("C-l"@, "Clear the screen"@, KeyAction::ClearScreen),
        ("C-f"@, "Fuzzy search"@, KeyAction::FuzzySearch),
    ]
}

pub open spec fn fuzzy_unset_message() -> Seq<char> {
    "FUZZY_DIRS env var not specified"@
}

fn binding(chord: &str, description: &str, action: KeyAction) -> (r: KeyBinding)
    ensures
        r.chord@ == chord@,
        r.description@ == description@,
        r.action == action,
{
    KeyBinding { chord: String::from_str(chord), description: String::from_str(description), action }
}

/// The table of bound chords.
pub fn key_bindings() -> (r: Vec<KeyBinding>)
    ensures
        r@.len() == bindings_spec().len(),
        forall|i: int|
            0 <= i < r@.len() ==> (#[trigger] r@[i]).chord@ == bindings_spec()[i].0
                && r@[i].description@ == bindings_spec()[i].1 && r@[i].action
                == bindings_spec()[i].2,
        chords_unique(r@),
{
    let mut r: Vec<KeyBinding> = Vec::new();
    r.push(binding("C-l", "Clear the screen", KeyAction::ClearScreen));
    r.push(binding("C-f", "Fuzzy search", KeyAction::FuzzySearch));
    proof {
        lemma_key_chords_unique(r@);
    }
    r
}

/// The chords of the table are unique.
pub proof fn lemma_key_chords_unique(t: Seq<KeyBinding>)
    requires
        t.len() == bindings_spec().len(),
        forall|i: int| 0 <= i < t.len() ==> (#[trigger] t[i]).chord@ == bindings_spec()[i].0,
    ensures
        chords_unique(t),
{
    reveal_strlit("C-l");
    reveal_strlit("C-f");
    assert(t[0].chord@[2] != t[1].chord@[2]);
}

fn command(program: &str, args: Vec<String>) -> (r: ProcessCommand)
    ensures
        r.program@ == program@,
        r.args == args,
{
    ProcessCommand { program: String::from_str(program), args }
}

/// What pressing a key bound to `action` does; `fuzzy_dirs` is the value of
/// the `FUZZY_DIRS` variable, if it is set.
pub fn key_effect(action: KeyAction, fuzzy_dirs: Option<String>) -> (r: KeyEffect)
    ensures
        action == KeyAction::ClearScreen ==> (r matches KeyEffect::Spawn(c)
            && command_view(c) == ("clear"@, Seq::<Seq<char>>::empty())),
        action == KeyAction::FuzzySearch && fuzzy_dirs.is_none() ==> (r matches KeyEffect::Diagnostic(m)
            && m@ == fuzzy_unset_message()),
        action == KeyAction::FuzzySearch && fuzzy_dirs.is_some() ==> (r matches KeyEffect::Pipeline(p)
            && p@.len() == 2 && command_view(p@[0]) == ("fdfind"@, seq!["."@, "-t"@, "d"@])
            && command_view(p@[1]) == ("fzf"@, Seq::<Seq<char>>::empty())),
        spawns(r) <==> !(action == KeyAction::FuzzySearch && fuzzy_dirs.is_none()),
{
    match action {
        KeyAction::ClearScreen => {
            let c = command("clear", Vec::new());
            assert(c.args@.map_values(|a: String| a@) =~= Seq::<Seq<char>>::empty());
            KeyEffect::Spawn(c)
        },
        KeyAction::FuzzySearch => {
            match fuzzy_dirs {
                None => KeyEffect::Diagnostic(String::from_str("FUZZY_DIRS env var not specified")),
                Some(_) => {
                    let mut args: Vec<String> = Vec::new();
                    args.push(String::from_str("."));
                    args.push(String::from_str("-t"));
                    args.push(String::from_str("d"));
                    let finder = command("fdfind", args);
                    let picker = command("fzf", Vec::new());
                    assert(finder.args@.map_values(|a: String| a@) =~= seq!["."@, "-t"@, "d"@]);
                    assert(picker.args@.map_values(|a: String| a@) =~= Seq::<Seq<char>>::empty());
                    let mut p: Vec<ProcessCommand> = Vec::new();
                    p.push(finder);
                    p.push(picker);
                    KeyEffect::Pipeline(p)
                },
            }
        },
    }
}

} // verus!
