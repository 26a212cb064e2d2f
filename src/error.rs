//! The errors that end a report run.
use vstd::prelude::*;

verus! {

/// Every failure that can end a report run. Each carries the human-readable
/// detail of what went wrong, where there is one.
#[derive(Debug, Clone, PartialEq, Eq)]
pub enum ProfitReportError {
    /// The time-tracking server could not be reached or refused the request.
    Kimai(String),
    /// A file or a process could not be read.
    IO(String),
    /// The configuration text does not have the expected shape.
    Toml(String),
    /// The per-user configuration directories could not be determined.
    Xdg(String),
    /// The output of the secret lookup is not valid UTF-8.
    Utf8(String),
    /// No configuration file was given and none was found.
    ConfigNotFound,
    /// The selected account (named here) is not defined in the configuration.
    AccountNotFound(String),
    /// Any other failure.
    Other(String),
}

impl ProfitReportError {
    /// The heading under which the error is reported.
    pub open spec fn label_of(&self) -> Seq<char> {
        match self {
            ProfitReportError::Kimai(_) => "Kimai Error"@,
            ProfitReportError::IO(_) => "IO Error"@,
            ProfitReportError::Toml(_) => "TOML Error"@,
            ProfitReportError::Xdg(_) => "XDG Error"@,
            ProfitReportError::Utf8(_) => "UTF-8 Error"@,
            ProfitReportError::ConfigNotFound => "Config Error"@,
            ProfitReportError::AccountNotFound(_) => "Config Error"@,
            ProfitReportError::Other(_) => "Other Error"@,
        }
    }

    /// The detail that follows the heading.
    pub open spec fn detail_of(&self) -> Seq<char> {
        match self {
            ProfitReportError::Kimai(e) => e@,
            ProfitReportError::IO(e) => e@,
            ProfitReportError::Toml(e) => e@,
            ProfitReportError::Xdg(e) => e@,
            ProfitReportError::Utf8(e) => e@,
            ProfitReportError::ConfigNotFound => "No config file found"@,
            ProfitReportError::AccountNotFound(name) => "Given account not found in config: "@ + name@,
            ProfitReportError::Other(e) => e@,
        }
    }

    /// The single line shown to the user: heading, colon, detail.
    pub open spec fn message_of(&self) -> Seq<char> {
        self.label_of() + ": "@ + self.detail_of()
    }

    pub fn label(&self) -> (r: &'static str)
        ensures
            r@ == self.label_of(),
    {
        match self {
            ProfitReportError::Kimai(_) => "Kimai Error",
            ProfitReportError::IO(_) => "IO Error",
            ProfitReportError::Toml(_) => "TOML Error",
            ProfitReportError::Xdg(_) => "XDG Error",
            ProfitReportError::Utf8(_) => "UTF-8 Error",
            ProfitReportError::ConfigNotFound => "Config Error",
            ProfitReportError::AccountNotFound(_) => "Config Error",
            ProfitReportError::Other(_) => "Other Error",
        }
    }

    /// Renders the error as one line of text.
    pub fn message(&self) -> (r: String)
        ensures
            r@ == self.message_of(),
    {
        let mut r = String::from_str(self.label());
        r.append(": ");
        match self {
            ProfitReportError::Kimai(e) => r.append(e.as_str()),
            ProfitReportError::IO(e) => r.append(e.as_str()),
            ProfitReportError::Toml(e) => r.append(e.as_str()),
            ProfitReportError::Xdg(e) => r.append(e.as_str()),
            ProfitReportError::Utf8(e) => r.append(e.as_str()),
            ProfitReportError::ConfigNotFound => r.append("No config file found"),
            ProfitReportError::AccountNotFound(name) => {
                r.append("Given account not found in config: ");
                r.append(name.as_str());
            },
            ProfitReportError::Other(e) => r.append(e.as_str()),
        }
        r
    }
}

} // verus!
