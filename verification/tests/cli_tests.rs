use dpl::cli::{exit_code, plan_invocation, resolve_lang, CliInput, ConfigCmd, Plan};
use dpl::config::DplConfig;
use dpl::deepl::build_request;
use dpl::error::DplError;

#[test]
fn configured_default_language_is_used_without_an_override() {
    let text = "endpoint = \"https://api-free.deepl.com/v2/translate\"\napi_key = \"k1\"\ndefault_lang = \"DE\"\n";
    let cfg = DplConfig::load_config(Some(text)).unwrap();
    let lang = resolve_lang(None, cfg.default_lang.clone());
    assert_eq!(lang, "DE");
    let req = build_request(&cfg.endpoint, &cfg.api_key, "hello", &lang);
    assert_eq!(req.endpoint, "https://api-free.deepl.com/v2/translate");
    assert_eq!(req.body, b"text=hello&target_lang=DE".to_vec());
}

#[test]
fn lang_flag_overrides_the_configured_default() {
    let lang = resolve_lang(Some("FR".to_string()), "DE".to_string());
    assert_eq!(lang, "FR");
    let plan = plan_invocation(CliInput {
        text: Some("hello".to_string()),
        lang: Some("FR".to_string()),
        config: None,
    });
    match plan {
        Plan::Translate { text, lang_override } => {
            assert_eq!(text, "hello");
            assert_eq!(lang_override, Some("FR".to_string()));
        }
        _ => panic!("a given text must be translated"),
    }
}

#[test]
fn config_flags_become_updates_in_a_fixed_order() {
    let plan = plan_invocation(CliInput {
        text: None,
        lang: None,
        config: Some(ConfigCmd {
            init: false,
            endpoint: Some("e".to_string()),
            api_key: None,
            default_lang: Some("DE".to_string()),
        }),
    });
    match plan {
        Plan::Configure { init, updates } => {
            assert!(!init);
            assert_eq!(
                updates,
                vec![
                    ("endpoint".to_string(), "e".to_string()),
                    ("default_lang".to_string(), "DE".to_string()),
                ]
            );
        }
        _ => panic!("config flags must configure"),
    }
}

#[test]
fn init_flag_is_passed_through() {
    let plan = plan_invocation(CliInput {
        text: None,
        lang: None,
        config: Some(ConfigCmd {
            init: true,
            endpoint: None,
            api_key: None,
            default_lang: None,
        }),
    });
    match plan {
        Plan::Configure { init, updates } => {
            assert!(init);
            assert!(updates.is_empty());
        }
        _ => panic!("config flags must configure"),
    }
}

#[test]
fn an_empty_invocation_only_shows_help() {
    let plan = plan_invocation(CliInput { text: None, lang: None, config: None });
    assert!(matches!(plan, Plan::ShowHelp));
    assert_eq!(exit_code(false), 1);
}

#[test]
fn exit_codes_follow_success() {
    assert_eq!(exit_code(true), 0);
    assert_eq!(exit_code(false), 1);
}

#[test]
fn every_error_reaches_the_user_with_exit_failure() {
    let errors = vec![
        DplError::ConfigNotFound,
        DplError::ConfigParseError,
        DplError::ConfigWriteError,
        DplError::NetworkError,
        DplError::ApiError,
        DplError::DecodeError,
        DplError::EmptyResult,
    ];
    for e in errors {
        assert!(!e.message().is_empty());
        assert_eq!(exit_code(false), 1);
    }
}
