//! What startup does, decided from the environment that it reads.

use vstd::prelude::*;
use vstd::string::StringExecFns;

verus! {

/// A plugin that the shell is built with.
#[derive(Clone, Copy, Debug, PartialEq, Eq)]
pub enum PluginKind {
    /// The assistant, which needs an API key.
    Assistant,
    CommandTimer,
    FileHistory,
    DirParse,
    Mux,
}

/// A completion rule, offered where a command name is expected.
#[derive(Clone, Debug, PartialEq, Eq)]
pub enum CompletionRule {
    /// The executables found in the directories of this search path.
    PathCommands(String),
    /// The shell's builtin commands.
    BuiltinCommands,
}

/// Everything that startup sets up besides the tables.
#[derive(Clone, Debug, PartialEq, Eq)]
pub struct StartupPlan {
    /// Variables set in the shell's environment after it is loaded.
    pub env_overrides: Vec<(String, String)>,
    pub completion_rules: Vec<CompletionRule>,
    /// The plugins, in the order in which they are added.
    pub plugins: Vec<PluginKind>,
    /// The key that the assistant plugin is made with, if it is added.
    pub assistant_key: Option<String>,
    /// Lines printed on standard output while the shell is built.
    pub notices: Vec<String>,
}

/// Why startup cannot go on.
#[derive(Clone, Copy, Debug, PartialEq, Eq)]
pub enum StartupError {
    /// `PATH` is not set.
    MissingPath,
}

pub open spec fn shell_name_spec() -> Seq<char> {
    "pinosh"@
}

pub open spec fn missing_key_notice() -> Seq<char> {
    "Missing OPENAI_KEY, skipping open_ai package"@
}

/// The plugins that are always added, in order.
pub open spec fn base_plugins() -> Seq<PluginKind> {
    seq![PluginKind::CommandTimer, PluginKind::FileHistory, PluginKind::DirParse, PluginKind::Mux]
}

pub open spec fn plugins_spec(has_key: bool) -> Seq<PluginKind> {
    if has_key {
        seq![PluginKind::Assistant] + base_plugins()
    } else {
        base_plugins()
    }
}

pub open spec fn has_assistant(p: Seq<PluginKind>) -> bool {
    exists|i: int| 0 <= i < p.len() && p[i] == PluginKind::Assistant
}

/// The configuration directory, relative to the home directory.
pub fn config_subdir() -> (r: String)
    ensures
        r@ == ".config/pinosh"@,
{
    String::from_str(".config/pinosh")
}

/// The plan of startup, from the values of `PATH` and `OPENAI_KEY` (`None`
/// where a variable is not set).
pub fn plan_startup(path: Option<String>, openai_key: Option<String>) -> (r: Result<
    StartupPlan,
    StartupError,
>)
    ensures
        path.is_none() <==> r == Err::<StartupPlan, StartupError>(StartupError::MissingPath),
        r matches Ok(plan) ==> {
            &&& plan.env_overrides@.len() == 1
            &&& plan.env_overrides@[0].0@ == "SHELL_NAME"@
            &&& plan.env_overrides@[0].1@ == shell_name_spec()
            &&& plan.completion_rules@.len() == 2
            &&& plan.completion_rules@[0] matches CompletionRule::PathCommands(p) && path
                == Some(p)
            &&& plan.completion_rules@[1] == CompletionRule::BuiltinCommands
            &&& plan.plugins@ == plugins_spec(openai_key.is_some())
            &&& plan.assistant_key == openai_key
            &&& openai_key.is_some() ==> plan.notices@.len() == 0
            &&& openai_key.is_none() ==> plan.notices@.len() == 1 && plan.notices@[0]@
                == missing_key_notice()
        },
        path.is_some() && openai_key.is_none() ==> (r matches Ok(plan) && !has_assistant(
            plan.plugins@,
        ) && plan.assistant_key.is_none()),
{
    let path = match path {
        Some(p) => p,
        None => {
            return Err(StartupError::MissingPath);
        },
    };
    let mut env_overrides: Vec<(String, String)> = Vec::new();
    env_overrides.push((String::from_str("SHELL_NAME"), String::from_str("pinosh")));
    let mut completion_rules: Vec<CompletionRule> = Vec::new();
    completion_rules.push(CompletionRule::PathCommands(path));
    completion_rules.push(CompletionRule::BuiltinCommands);
    let mut plugins: Vec<PluginKind> = Vec::new();
    let mut notices: Vec<String> = Vec::new();
    if openai_key.is_some() {
        plugins.push(PluginKind::Assistant);
    } else {
        notices.push(String::from_str("Missing OPENAI_KEY, skipping open_ai package"));
    }
    plugins.push(PluginKind::CommandTimer);
    plugins.push(PluginKind::FileHistory);
    plugins.push(PluginKind::DirParse);
    plugins.push(PluginKind::Mux);
    assert(plugins@ =~= plugins_spec(openai_key.is_some()));
    Ok(StartupPlan { env_overrides, completion_rules, plugins, assistant_key: openai_key, notices })
}

/// The banner printed once the shell has started.
pub fn welcome_banner() -> (r: String)
    ensures
        r@ == banner_spec(),
{
    String::from_str(
        r#"
         _                 _     
   _ __ (_)_ __   ___  ___| |__  
  | '_ \| | '_ \ / _ \/ __| '_ \ 
  | |_) | | | | | (_) \__ \ | | |
  | .__/|_|_| |_|\___/|___/_| |_|
  |_| pinosaur's shell

  ###############################
"#,
    )
}

pub open spec fn banner_spec() -> Seq<char> {
    r#"
         _                 _     
   _ __ (_)_ __   ___  ___| |__  
  | '_ \| | '_ \ / _ \/ __| '_ \ 
  | |_) | | | | | (_) \__ \ | | |
  | .__/|_|_| |_|\___/|___/_| |_|
  |_| pinosaur's shell

  ###############################
"#@
}

} // verus!
