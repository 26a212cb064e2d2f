//! Account selection, credential acquisition and run orchestration for a
//! profit report drawn from a Kimai time-tracking server.
use vstd::prelude::*;

pub mod config;
pub mod credential;
pub mod error;
pub mod report;

pub use config::{AccountConfig, AuthorizationMethod, Config, KimaiConfig};
pub use credential::{secret_from_output, secret_from_text, Connection};
pub use error::ProfitReportError;
pub use report::{print_profit_report, Action, Event, ReportRun};

verus! {

} // verus!
