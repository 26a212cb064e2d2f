use std::path::PathBuf;

use profitreport::{
    print_profit_report, secret_from_output, secret_from_text, AccountConfig, Action,
    AuthorizationMethod, Config, Connection, Event, KimaiConfig, ProfitReportError, ReportRun,
};

fn password_account(host: &str, user: &str, password: &str) -> AccountConfig {
    AccountConfig {
        kimai: KimaiConfig {
            host: host.to_string(),
            auth_method: AuthorizationMethod::Password {
                user: user.to_string(),
                password: password.to_string(),
            },
        },
    }
}

fn pass_account(host: &str, user: &str, pass_path: &str) -> AccountConfig {
    AccountConfig {
        kimai: KimaiConfig {
            host: host.to_string(),
            auth_method: AuthorizationMethod::Pass {
                user: user.to_string(),
                pass_path: pass_path.to_string(),
            },
        },
    }
}

fn acme_config() -> Config {
    let mut config = Config::new("acme".to_string());
    config.insert_account(
        "acme".to_string(),
        password_account("https://kimai.example", "bob", "hunter2"),
    );
    config
}

fn parsing_state(account: Option<&str>) -> ReportRun {
    ReportRun::Parsing { account: account.map(|a| a.to_string()) }
}

#[test]
fn resolve_named_account() {
    let mut config = acme_config();
    config.insert_account("other".to_string(), pass_account("https://o.example", "eve", "kimai/eve"));
    let a = config.resolve_account(Some("other".to_string())).unwrap();
    assert_eq!(*a, pass_account("https://o.example", "eve", "kimai/eve"));
    let b = config.resolve_account(Some("acme".to_string())).unwrap();
    assert_eq!(*b, password_account("https://kimai.example", "bob", "hunter2"));
}

#[test]
fn resolve_unknown_name_fails() {
    let config = acme_config();
    let r = config.resolve_account(Some("missing".to_string()));
    assert_eq!(r, Err(ProfitReportError::AccountNotFound("missing".to_string())));
}

#[test]
fn resolve_is_exact_match() {
    let config = acme_config();
    let r = config.resolve_account(Some("ACME".to_string()));
    assert_eq!(r, Err(ProfitReportError::AccountNotFound("ACME".to_string())));
    let r = config.resolve_account(Some("acme ".to_string()));
    assert_eq!(r, Err(ProfitReportError::AccountNotFound("acme ".to_string())));
}

#[test]
fn resolve_default_matches_named_default() {
    let config = acme_config();
    assert_eq!(config.resolve_account(None), config.resolve_account(Some("acme".to_string())));
}

#[test]
fn default_account_checked_only_when_selected() {
    let mut config = Config::new("nowhere".to_string());
    config.insert_account("acme".to_string(), password_account("h", "u", "p"));
    assert_eq!(config.default_account(), "nowhere");
    assert!(config.resolve_account(Some("acme".to_string())).is_ok());
    assert_eq!(
        config.resolve_account(None),
        Err(ProfitReportError::AccountNotFound("nowhere".to_string()))
    );
}

#[test]
fn resolve_in_empty_config() {
    let config = Config::new("acme".to_string());
    assert_eq!(
        config.resolve_account(None),
        Err(ProfitReportError::AccountNotFound("acme".to_string()))
    );
}

#[test]
fn insert_replaces_same_name() {
    let mut config = acme_config();
    config.insert_account("acme".to_string(), password_account("h2", "u2", "p2"));
    assert_eq!(*config.resolve_account(None).unwrap(), password_account("h2", "u2", "p2"));
}

#[test]
fn inline_credential_unchanged() {
    let mut config = Config::new("a".to_string());
    config.insert_account("a".to_string(), password_account("https://h", "u", "s"));
    let (state, action) = parsing_state(None).step(Event::Parsed(Ok(config)));
    assert!(matches!(state, ReportRun::Fetching));
    match action {
        Action::Fetch(c) => assert_eq!(
            c,
            Connection {
                host: "https://h".to_string(),
                user: "u".to_string(),
                password: "s".to_string()
            }
        ),
        other => panic!("unexpected action {:?}", other),
    }
}

#[test]
fn lookup_output_is_trimmed() {
    assert_eq!(secret_from_output(b"topsecret\n"), Ok("topsecret".to_string()));
    assert_eq!(secret_from_output(b"  topsecret \r\n"), Ok("topsecret".to_string()));
    assert_eq!(secret_from_text("\tkey with space\n"), "key with space");
}

#[test]
fn lookup_empty_output_is_a_secret() {
    assert_eq!(secret_from_output(b""), Ok(String::new()));
    assert_eq!(secret_from_output(b"\n"), Ok(String::new()));
}

#[test]
fn lookup_invalid_utf8_fails() {
    let r = secret_from_output(&[0x66, 0xff, 0x0a]);
    assert!(matches!(r, Err(ProfitReportError::Utf8(_))));
}

#[test]
fn lookup_flow_builds_connection() {
    let mut config = Config::new("acme".to_string());
    config.insert_account("acme".to_string(), pass_account("https://k.example", "ann", "kimai/ann"));
    let (state, action) = parsing_state(None).step(Event::Parsed(Ok(config)));
    match action {
        Action::LookupSecret(key) => assert_eq!(key, "kimai/ann"),
        other => panic!("unexpected action {:?}", other),
    }
    let (state, action) = state.step(Event::SecretLooked(Ok(b"topsecret\n".to_vec())));
    assert!(matches!(state, ReportRun::Fetching));
    match action {
        Action::Fetch(c) => assert_eq!(
            c,
            Connection {
                host: "https://k.example".to_string(),
                user: "ann".to_string(),
                password: "topsecret".to_string()
            }
        ),
        other => panic!("unexpected action {:?}", other),
    }
}

#[test]
fn lookup_failures_finish_run() {
    let state = ReportRun::LookingUp { host: "h".to_string(), user: "u".to_string() };
    let (state, action) = state.step(Event::SecretLooked(Err("no such program".to_string())));
    assert!(matches!(state, ReportRun::Finished));
    match action {
        Action::Finish(r) => assert_eq!(r, Err(ProfitReportError::IO("no such program".to_string()))),
        other => panic!("unexpected action {:?}", other),
    }
    let state = ReportRun::LookingUp { host: "h".to_string(), user: "u".to_string() };
    let (_, action) = state.step(Event::SecretLooked(Ok(vec![0xc3, 0x28])));
    assert!(matches!(action, Action::Finish(Err(ProfitReportError::Utf8(_)))));
}

#[test]
fn explicit_path_used_unchecked() {
    let path = PathBuf::from("/definitely/not/here/config.toml");
    let (state, action) = print_profit_report(Some(path.clone()), None);
    assert!(matches!(state, ReportRun::Reading { account: None }));
    match action {
        Action::ReadConfig(p) => assert_eq!(p, path),
        other => panic!("unexpected action {:?}", other),
    }
}

#[test]
fn search_when_no_path_given() {
    let (state, action) = print_profit_report(None, Some("acme".to_string()));
    assert!(matches!(action, Action::SearchConfig));
    match state {
        ReportRun::Searching { account } => assert_eq!(account, Some("acme".to_string())),
        other => panic!("unexpected state {:?}", other),
    }
}

#[test]
fn search_without_file_fails() {
    let (state, _) = print_profit_report(None, None);
    let (state, action) = state.step(Event::Searched(Ok(None)));
    assert!(matches!(state, ReportRun::Finished));
    match action {
        Action::Finish(r) => assert_eq!(r, Err(ProfitReportError::ConfigNotFound)),
        other => panic!("unexpected action {:?}", other),
    }
}

#[test]
fn search_error_and_found_file() {
    let (state, _) = print_profit_report(None, None);
    let (_, action) = state.step(Event::Searched(Err("HOME is not set".to_string())));
    match action {
        Action::Finish(r) => assert_eq!(r, Err(ProfitReportError::Xdg("HOME is not set".to_string()))),
        other => panic!("unexpected action {:?}", other),
    }
    let (state, _) = print_profit_report(None, None);
    let found = PathBuf::from("/home/u/.config/profitreport/config.toml");
    let (state, action) = state.step(Event::Searched(Ok(Some(found.clone()))));
    assert!(matches!(state, ReportRun::Reading { account: None }));
    match action {
        Action::ReadConfig(p) => assert_eq!(p, found),
        other => panic!("unexpected action {:?}", other),
    }
}

#[test]
fn read_and_parse_failures() {
    let (state, _) = print_profit_report(Some(PathBuf::from("c.toml")), None);
    let (_, action) = state.step(Event::Read(Err("No such file or directory".to_string())));
    match action {
        Action::Finish(r) => {
            assert_eq!(r, Err(ProfitReportError::IO("No such file or directory".to_string())))
        }
        other => panic!("unexpected action {:?}", other),
    }
    let (state, _) = print_profit_report(Some(PathBuf::from("c.toml")), None);
    let (state, action) = state.step(Event::Read(Ok("x = 1".to_string())));
    match action {
        Action::ParseConfig(text) => assert_eq!(text, "x = 1"),
        other => panic!("unexpected action {:?}", other),
    }
    let (state, action) = state.step(Event::Parsed(Err("missing field `accounts`".to_string())));
    assert!(matches!(state, ReportRun::Finished));
    match action {
        Action::Finish(r) => {
            assert_eq!(r, Err(ProfitReportError::Toml("missing field `accounts`".to_string())))
        }
        other => panic!("unexpected action {:?}", other),
    }
}

#[test]
fn end_to_end_default_account() {
    let (state, action) = print_profit_report(None, None);
    assert!(matches!(action, Action::SearchConfig));
    let path = PathBuf::from("/etc/xdg/profitreport/config.toml");
    let (state, _) = state.step(Event::Searched(Ok(Some(path))));
    let (state, _) = state.step(Event::Read(Ok("default_account = \"acme\"".to_string())));
    let (state, action) = state.step(Event::Parsed(Ok(acme_config())));
    match action {
        Action::Fetch(c) => assert_eq!(
            c,
            Connection {
                host: "https://kimai.example".to_string(),
                user: "bob".to_string(),
                password: "hunter2".to_string()
            }
        ),
        other => panic!("unexpected action {:?}", other),
    }
    let (state, action) = state.step(Event::Fetched(Ok("[]".to_string())));
    assert!(matches!(state, ReportRun::Finished));
    match action {
        Action::Finish(r) => assert_eq!(r, Ok("[]".to_string())),
        other => panic!("unexpected action {:?}", other),
    }
}

#[test]
fn end_to_end_missing_account() {
    let (state, _) = print_profit_report(
        Some(PathBuf::from("config.toml")),
        Some("missing".to_string()),
    );
    let (state, _) = state.step(Event::Read(Ok(String::new())));
    let (state, action) = state.step(Event::Parsed(Ok(acme_config())));
    assert!(matches!(state, ReportRun::Finished));
    match action {
        Action::Finish(r) => {
            assert_eq!(r, Err(ProfitReportError::AccountNotFound("missing".to_string())))
        }
        other => panic!("unexpected action {:?}", other),
    }
}

#[test]
fn fetch_failure_finishes_run() {
    let (state, action) = ReportRun::Fetching.step(Event::Fetched(Err("401 Unauthorized".to_string())));
    assert!(matches!(state, ReportRun::Finished));
    match action {
        Action::Finish(r) => {
            assert_eq!(r, Err(ProfitReportError::Kimai("401 Unauthorized".to_string())))
        }
        other => panic!("unexpected action {:?}", other),
    }
}

#[test]
fn accepts_only_awaited_event() {
    assert!(ReportRun::Fetching.accepts(&Event::Fetched(Ok(String::new()))));
    assert!(!ReportRun::Fetching.accepts(&Event::Read(Ok(String::new()))));
    assert!(!ReportRun::Finished.accepts(&Event::Fetched(Ok(String::new()))));
}

#[test]
fn error_messages() {
    assert_eq!(ProfitReportError::IO("denied".to_string()).message(), "IO Error: denied");
    assert_eq!(ProfitReportError::Kimai("down".to_string()).message(), "Kimai Error: down");
    assert_eq!(ProfitReportError::Toml("bad".to_string()).message(), "TOML Error: bad");
    assert_eq!(ProfitReportError::Xdg("home".to_string()).message(), "XDG Error: home");
    assert_eq!(ProfitReportError::Utf8("byte".to_string()).message(), "UTF-8 Error: byte");
    assert_eq!(ProfitReportError::Other("x".to_string()).message(), "Other Error: x");
    assert_eq!(
        ProfitReportError::ConfigNotFound.message(),
        "Config Error: No config file found"
    );
    assert_eq!(
        ProfitReportError::AccountNotFound("missing".to_string()).message(),
        "Config Error: Given account not found in config: missing"
    );
    assert_eq!(ProfitReportError::IO("e".to_string()).label(), "IO Error");
}
