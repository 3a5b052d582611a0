//! What one command-line invocation should do.
//!
//! Argument parsing stays outside; the parsed invocation comes in as plain
//! values, and the verified planner decides which of the tool's actions
//! run, in which order, with which inputs.

use vstd::prelude::*;

verus! {

/// The flags of the `config` subcommand.
pub struct ConfigCmd {
    pub init: bool,
    pub endpoint: Option<String>,
    pub api_key: Option<String>,
    pub default_lang: Option<String>,
}

/// One parsed invocation: an optional text to translate, an optional
/// target-language override, and an optional `config` subcommand.
pub struct CliInput {
    pub text: Option<String>,
    pub lang: Option<String>,
    pub config: Option<ConfigCmd>,
}

/// What the tool does for one invocation.
pub enum Plan {
    /// Load the configuration, translate the text, print the result.
    Translate { text: String, lang_override: Option<String> },
    /// Initialize the configuration interactively and apply the targeted
    /// key updates, in the order they stand in `updates`.
    Configure { init: bool, updates: Vec<(String, String)> },
    /// Show the usage text and exit with failure.
    ShowHelp,
}

/// The key updates a `config` invocation applies: one per given flag, in
/// the fixed order endpoint, then API key, then default language.
pub open spec fn planned_updates(c: ConfigCmd) -> Seq<(Seq<char>, Seq<char>)> {
    (match c.endpoint {
        Some(v) => seq![("endpoint"@, v@)],
        None => Seq::empty(),
    }) + (match c.api_key {
        Some(v) => seq![("api_key"@, v@)],
        None => Seq::empty(),
    }) + (match c.default_lang {
        Some(v) => seq![("default_lang"@, v@)],
        None => Seq::empty(),
    })
}

/// Decides what an invocation does: a given text is translated, with the
/// language override passed along; otherwise a `config` subcommand is
/// applied; otherwise only the usage text is shown.
pub fn plan_invocation(cli: CliInput) -> (r: Plan)
    ensures
        cli.text matches Some(t) ==> (r matches Plan::Translate { text, lang_override } && text == t
            && lang_override == cli.lang),
        cli.text is None ==> match cli.config {
            Some(c) => r matches Plan::Configure { init, updates } && init == c.init
                && updates.deep_view() == planned_updates(c),
            None => r matches Plan::ShowHelp,
        },
{
    let CliInput { text, lang, config } = cli;
    match text {
        Some(t) => Plan::Translate { text: t, lang_override: lang },
        None => match config {
            Some(c) => {
                let ghost spec_cmd = c;
                let mut updates: Vec<(String, String)> = Vec::new();
                let init = c.init;
                match c.endpoint {
                    Some(v) => updates.push(("endpoint".to_owned(), v)),
                    None => (),
                }
                match c.api_key {
                    Some(v) => updates.push(("api_key".to_owned(), v)),
                    None => (),
                }
                match c.default_lang {
                    Some(v) => updates.push(("default_lang".to_owned(), v)),
                    None => (),
                }
                proof {
                    assert(updates.deep_view() =~~= planned_updates(spec_cmd));
                }
                Plan::Configure { init, updates }
            },
            None => Plan::ShowHelp,
        },
    }
}

/// The target language of one translation: the `--lang` override where it
/// was given, the configured default otherwise.
pub fn resolve_lang(lang_flag: Option<String>, default_lang: String) -> (r: String)
    ensures
        r@ == match lang_flag {
            Some(l) => l@,
            None => default_lang@,
        },
{
    match lang_flag {
        Some(l) => l,
        None => default_lang,
    }
}

/// The process exit code: zero exactly on success.
pub fn exit_code(succeeded: bool) -> (r: i32)
    ensures
        r == if succeeded {
            0i32
        } else {
            1i32
        },
{
    if succeeded {
        0
    } else {
        1
    }
}

} // verus!
