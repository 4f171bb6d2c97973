use std::collections::HashSet;

use pinosh::aliases::{alias_table, AliasEntry};
use pinosh::keys::{key_bindings, key_effect, KeyAction, KeyEffect, ProcessCommand};
use pinosh::prompt::{prompt_left, prompt_right, Color, LineMode, Span};
use pinosh::startup::{
    config_subdir, plan_startup, welcome_banner, CompletionRule, PluginKind, StartupError,
};

fn s(t: &str) -> String {
    t.to_string()
}

fn plain(t: &str) -> Span {
    Span { text: s(t), color: None, bold: false }
}

#[test]
fn alias_names_are_unique_and_nonempty() {
    let table = alias_table();
    assert_eq!(table.len(), 8);
    let mut seen = HashSet::new();
    for e in &table {
        assert!(!e.name.is_empty());
        assert!(seen.insert(e.name.clone()));
    }
}

#[test]
fn alias_table_contents() {
    let table = alias_table();
    assert_eq!(table[0], AliasEntry { name: s("ls"), expansion: s("ls --color=auto") });
    assert_eq!(table[1], AliasEntry { name: s("l"), expansion: s("ls --color=auto") });
    assert_eq!(table[5], AliasEntry { name: s("V"), expansion: s("nvim") });
    assert_eq!(table[6], AliasEntry { name: s("la"), expansion: s("ls -a --color=auto") });
    assert_eq!(table[7], AliasEntry { name: s("t"), expansion: s("task") });
}

#[test]
fn key_chords_are_unique() {
    let table = key_bindings();
    assert_eq!(table.len(), 2);
    let chords: HashSet<_> = table.iter().map(|b| b.chord.clone()).collect();
    assert_eq!(chords.len(), table.len());
    assert_eq!(table[0].chord, "C-l");
    assert_eq!(table[0].description, "Clear the screen");
    assert_eq!(table[0].action, KeyAction::ClearScreen);
    assert_eq!(table[1].chord, "C-f");
    assert_eq!(table[1].action, KeyAction::FuzzySearch);
}

#[test]
fn clear_screen_spawns_clear() {
    let e = key_effect(KeyAction::ClearScreen, None);
    assert_eq!(e, KeyEffect::Spawn(ProcessCommand { program: s("clear"), args: vec![] }));
}

#[test]
fn fuzzy_search_without_dirs_reports_and_spawns_nothing() {
    let e = key_effect(KeyAction::FuzzySearch, None);
    assert_eq!(e, KeyEffect::Diagnostic(s("FUZZY_DIRS env var not specified")));
}

#[test]
fn fuzzy_search_with_dirs_runs_pipeline() {
    let e = key_effect(KeyAction::FuzzySearch, Some(s("/home/me/src")));
    assert_eq!(
        e,
        KeyEffect::Pipeline(vec![
            ProcessCommand { program: s("fdfind"), args: vec![s("."), s("-t"), s("d")] },
            ProcessCommand { program: s("fzf"), args: vec![] },
        ])
    );
}

#[test]
fn startup_without_openai_key_has_no_assistant() {
    let plan = plan_startup(Some(s("/usr/bin:/bin")), None).unwrap();
    assert!(!plan.plugins.contains(&PluginKind::Assistant));
    assert_eq!(plan.assistant_key, None);
    assert_eq!(
        plan.plugins,
        vec![
            PluginKind::CommandTimer,
            PluginKind::FileHistory,
            PluginKind::DirParse,
            PluginKind::Mux
        ]
    );
    assert_eq!(plan.notices, vec![s("Missing OPENAI_KEY, skipping open_ai package")]);
}

#[test]
fn startup_with_openai_key_adds_assistant_first() {
    let plan = plan_startup(Some(s("/bin")), Some(s("k-123"))).unwrap();
    assert_eq!(plan.plugins[0], PluginKind::Assistant);
    assert_eq!(plan.plugins.len(), 5);
    assert_eq!(plan.assistant_key, Some(s("k-123")));
    assert!(plan.notices.is_empty());
    assert_eq!(plan.env_overrides, vec![(s("SHELL_NAME"), s("pinosh"))]);
    assert_eq!(
        plan.completion_rules,
        vec![CompletionRule::PathCommands(s("/bin")), CompletionRule::BuiltinCommands]
    );
}

#[test]
fn startup_without_path_fails() {
    assert_eq!(plan_startup(None, Some(s("k"))), Err(StartupError::MissingPath));
    assert_eq!(plan_startup(None, None), Err(StartupError::MissingPath));
}

#[test]
fn config_dir_and_banner() {
    assert_eq!(config_subdir(), ".config/pinosh");
    let banner = welcome_banner();
    assert!(banner.contains("pinosaur's shell"));
    assert!(banner.starts_with('\n'));
    assert!(banner.ends_with("###############################\n"));
}

#[test]
fn left_prompt_insert_mode() {
    let r = prompt_left(LineMode::Insert, Some(s("pino")), s("src"));
    assert_eq!(
        r,
        vec![
            plain(" "),
            Span { text: s("pino"), color: Some(Color::Blue), bold: false },
            plain(" "),
            Span { text: s("src"), color: Some(Color::White), bold: true },
            plain(" "),
            Span { text: s(">"), color: Some(Color::Cyan), bold: false },
            plain(" "),
        ]
    );
}

#[test]
fn left_prompt_normal_mode_without_user() {
    let r = prompt_left(LineMode::Normal, None, s("~"));
    assert_eq!(r[1].text, "");
    assert_eq!(r[5], Span { text: s(":"), color: Some(Color::Yellow), bold: false });
}

#[test]
fn right_prompt_with_all_state() {
    let r = prompt_right(Some(s("main")), Some(s("1.5s")), s("bash"));
    assert_eq!(
        r,
        vec![
            Span { text: s("git:main "), color: Some(Color::Blue), bold: false },
            plain("1.5s"),
            plain("bash"),
        ]
    );
}

#[test]
fn right_prompt_before_plugins_have_state() {
    let r = prompt_right(None, None, s("bash"));
    assert_eq!(r.len(), 3);
    assert_eq!(r[0].text, "");
    assert_eq!(r[1].text, "");
    assert_eq!(r[2], plain("bash"));
}
