//! One report run as a state machine: each step takes what the outside world
//! reported and says what to do next, until the run is finished.
use vstd::prelude::*;

use std::path::PathBuf;

use crate::config::{is_account_not_found, opt_name, AccountConfig, AuthorizationMethod, Config};
use crate::credential::{secret_from_output, trimmed, utf8_decoded, Connection};
use crate::error::ProfitReportError;

verus! {

/// `std::path::PathBuf`, carried through a run unread.
#[verifier::external_type_specification]
#[verifier::external_body]
pub struct ExPathBuf(PathBuf);

/// What the caller is asked to do next.
#[derive(Debug)]
pub enum Action {
    /// Look for `config.toml` in the per-user configuration directories,
    /// user-specific ones before system-wide ones.
    SearchConfig,
    /// Read this configuration file as text.
    ReadConfig(PathBuf),
    /// Parse this text into a configuration.
    ParseConfig(String),
    /// Run the secret lookup with this key as its only argument and capture
    /// its standard output.
    LookupSecret(String),
    /// Fetch the customers through this connection and render them.
    Fetch(Connection),
    /// The run is over: the rendered report to print, or why it failed.
    Finish(Result<String, ProfitReportError>),
}

/// What the caller reports back after doing what it was asked.
#[derive(Debug)]
pub enum Event {
    /// The configuration file found, none, or why the search failed.
    Searched(Result<Option<PathBuf>, String>),
    /// The file's text, or why it could not be read.
    Read(Result<String, String>),
    /// The parsed configuration, or the parser's diagnostic.
    Parsed(Result<Config, String>),
    /// The lookup's standard output, or why it could not be run.
    SecretLooked(Result<Vec<u8>, String>),
    /// The rendered customers, or the server's error.
    Fetched(Result<String, String>),
}

/// Where a run stands, and what it still has to remember.
#[derive(Debug)]
pub enum ReportRun {
    Searching { account: Option<String> },
    Reading { account: Option<String> },
    Parsing { account: Option<String> },
    LookingUp { host: String, user: String },
    Fetching,
    Finished,
}

impl ReportRun {
    /// The event is the one this state waits for.
    pub open spec fn accepts_spec(&self, event: &Event) -> bool {
        match (self, event) {
            (ReportRun::Searching { .. }, Event::Searched(_)) => true,
            (ReportRun::Reading { .. }, Event::Read(_)) => true,
            (ReportRun::Parsing { .. }, Event::Parsed(_)) => true,
            (ReportRun::LookingUp { .. }, Event::SecretLooked(_)) => true,
            (ReportRun::Fetching, Event::Fetched(_)) => true,
            _ => false,
        }
    }

    pub fn accepts(&self, event: &Event) -> (r: bool)
        ensures
            r == self.accepts_spec(event),
    {
        match (self, event) {
            (ReportRun::Searching { .. }, Event::Searched(_)) => true,
            (ReportRun::Reading { .. }, Event::Read(_)) => true,
            (ReportRun::Parsing { .. }, Event::Parsed(_)) => true,
            (ReportRun::LookingUp { .. }, Event::SecretLooked(_)) => true,
            (ReportRun::Fetching, Event::Fetched(_)) => true,
            _ => false,
        }
    }
}

/// The step after the account has been selected: an account whose password
/// stands inline goes straight to the fetch; one whose password is looked up
/// asks for the lookup first.
pub open spec fn after_selection(account: AccountConfig, r: (ReportRun, Action)) -> bool {
    match account.kimai.auth_method {
        AuthorizationMethod::Password { user, password } => r == (
            ReportRun::Fetching,
            Action::Fetch(Connection { host: account.kimai.host, user, password }),
        ),
        AuthorizationMethod::Pass { user, pass_path } => r == (
            ReportRun::LookingUp { host: account.kimai.host, user },
            Action::LookupSecret(pass_path),
        ),
    }
}

/// The step after the configuration has been parsed.
pub open spec fn after_parse(config: Config, account: Option<String>, r: (ReportRun, Action)) -> bool {
    match config@.resolved(opt_name(account)) {
        Some(selected) => after_selection(selected, r),
        None => r.0 == ReportRun::Finished && match r.1 {
            Action::Finish(Err(e)) => is_account_not_found(
                e,
                config@.effective_name(opt_name(account)),
            ),
            _ => false,
        },
    }
}

/// The step after the secret lookup has printed `output`.
pub open spec fn after_lookup(host: String, user: String, output: Vec<u8>, r: (ReportRun, Action)) -> bool {
    match utf8_decoded(output@) {
        Some(text) => r.0 == ReportRun::Fetching && match r.1 {
            Action::Fetch(c) => c.host == host && c.user == user && c.password@ == trimmed(text),
            _ => false,
        },
        None => r.0 == ReportRun::Finished && r.1 matches Action::Finish(Err(ProfitReportError::Utf8(_))),
    }
}

/// Builds the connection for a selected account, or asks for its secret.
fn select(account: &AccountConfig) -> (r: (ReportRun, Action))
    ensures
        after_selection(*account, r),
{
    match &account.kimai.auth_method {
        AuthorizationMethod::Password { user, password } => (
            ReportRun::Fetching,
            Action::Fetch(
                Connection {
                    host: account.kimai.host.clone(),
                    user: user.clone(),
                    password: password.clone(),
                },
            ),
        ),
        AuthorizationMethod::Pass { user, pass_path } => (
            ReportRun::LookingUp { host: account.kimai.host.clone(), user: user.clone() },
            Action::LookupSecret(pass_path.clone()),
        ),
    }
}

/// Starts a report run. An explicit configuration path is used as it is,
/// whether or not the file exists; without one the configuration file is
/// searched for. `account` overrides the configured default account.
pub fn print_profit_report(config_path: Option<PathBuf>, account: Option<String>) -> (r: (
    ReportRun,
    Action,
))
    ensures
        match config_path {
            Some(path) => r == (ReportRun::Reading { account }, Action::ReadConfig(path)),
            None => r == (ReportRun::Searching { account }, Action::SearchConfig),
        },
{
    match config_path {
        Some(path) => (ReportRun::Reading { account }, Action::ReadConfig(path)),
        None => (ReportRun::Searching { account }, Action::SearchConfig),
    }
}

impl ReportRun {
    /// Takes the outcome of the last action and decides the next one. Every
    /// failure finishes the run at once with its error; no step is retried.
    pub fn step(self, event: Event) -> (r: (ReportRun, Action))
        requires
            self.accepts_spec(&event),
        ensures
            match (self, event) {
                (ReportRun::Searching { account }, Event::Searched(found)) => match found {
                    Ok(Some(path)) => r == (ReportRun::Reading { account }, Action::ReadConfig(path)),
                    Ok(None) => r == (
                        ReportRun::Finished,
                        Action::Finish(Err(ProfitReportError::ConfigNotFound)),
                    ),
                    Err(e) => r == (
                        ReportRun::Finished,
                        Action::Finish(Err(ProfitReportError::Xdg(e))),
                    ),
                },
                (ReportRun::Reading { account }, Event::Read(read)) => match read {
                    Ok(text) => r == (ReportRun::Parsing { account }, Action::ParseConfig(text)),
                    Err(e) => r == (
                        ReportRun::Finished,
                        Action::Finish(Err(ProfitReportError::IO(e))),
                    ),
                },
                (ReportRun::Parsing { account }, Event::Parsed(parsed)) => match parsed {
                    Ok(config) => after_parse(config, account, r),
                    Err(e) => r == (
                        ReportRun::Finished,
                        Action::Finish(Err(ProfitReportError::Toml(e))),
                    ),
                },
                (ReportRun::LookingUp { host, user }, Event::SecretLooked(looked)) => match looked {
                    Ok(output) => after_lookup(host, user, output, r),
                    Err(e) => r == (
                        ReportRun::Finished,
                        Action::Finish(Err(ProfitReportError::IO(e))),
                    ),
                },
                (ReportRun::Fetching, Event::Fetched(fetched)) => match fetched {
                    Ok(report) => r == (ReportRun::Finished, Action::Finish(Ok(report))),
                    Err(e) => r == (
                        ReportRun::Finished,
                        Action::Finish(Err(ProfitReportError::Kimai(e))),
                    ),
                },
                _ => false,
            },
    {
        match (self, event) {
            (ReportRun::Searching { account }, Event::Searched(found)) => match found {
                Ok(Some(path)) => (ReportRun::Reading { account }, Action::ReadConfig(path)),
                Ok(None) => (ReportRun::Finished, Action::Finish(Err(ProfitReportError::ConfigNotFound))),
                Err(e) => (ReportRun::Finished, Action::Finish(Err(ProfitReportError::Xdg(e)))),
            },
            (ReportRun::Reading { account }, Event::Read(read)) => match read {
                Ok(text) => (ReportRun::Parsing { account }, Action::ParseConfig(text)),
                Err(e) => (ReportRun::Finished, Action::Finish(Err(ProfitReportError::IO(e)))),
            },
            (ReportRun::Parsing { account }, Event::Parsed(parsed)) => match parsed {
                Ok(config) => match config.resolve_account(account) {
                    Ok(selected) => select(selected),
                    Err(e) => (ReportRun::Finished, Action::Finish(Err(e))),
                },
                Err(e) => (ReportRun::Finished, Action::Finish(Err(ProfitReportError::Toml(e)))),
            },
            (ReportRun::LookingUp { host, user }, Event::SecretLooked(looked)) => match looked {
                Ok(output) => match secret_from_output(output.as_slice()) {
                    Ok(password) => (ReportRun::Fetching, Action::Fetch(Connection { host, user, password })),
                    Err(e) => (ReportRun::Finished, Action::Finish(Err(e))),
                },
                Err(e) => (ReportRun::Finished, Action::Finish(Err(ProfitReportError::IO(e)))),
            },
            (ReportRun::Fetching, Event::Fetched(fetched)) => match fetched {
                Ok(report) => (ReportRun::Finished, Action::Finish(Ok(report))),
                Err(e) => (ReportRun::Finished, Action::Finish(Err(ProfitReportError::Kimai(e)))),
            },
            _ => unreached(),
        }
    }
}

} // verus!
