//! What one HTTP exchange says about the health of a service.

use vstd::prelude::*;
use vstd::string::StringExecFns;
use crate::status::{is_success, push_status_text, status_text, success_range};

verus! {

/// How the GET request of one check ended.
#[derive(Clone, Copy, Debug, PartialEq, Eq)]
pub enum Outcome {
    /// A response arrived, with this status code.
    Responded(u16),
    /// No response arrived: the name did not resolve, the connection or the
    /// TLS handshake failed, or the request timed out.
    Unreachable,
}

/// The result of one check.
#[derive(Debug, PartialEq, Eq)]
pub enum CheckResult {
    /// The service answered with a success status.
    Healthy,
    /// The service is unavailable; `diagnostic` tells a person why.
    Unhealthy { diagnostic: String },
}

impl View for CheckResult {
    type V = Option<Seq<char>>;

    /// The diagnostic of an unhealthy result, `None` for a healthy one.
    open spec fn view(&self) -> Option<Seq<char>> {
        match self {
            CheckResult::Healthy => None,
            CheckResult::Unhealthy { diagnostic } => Some(diagnostic@),
        }
    }
}

/// The diagnostic for a response whose status is no success.
pub open spec fn bad_status_diagnostic(url: Seq<char>, status: u16) -> Seq<char> {
    "Failed to get "@ + url + " - "@ + status_text(status)
}

/// The diagnostic for a request that got no response.
pub open spec fn unreachable_diagnostic(url: Seq<char>) -> Seq<char> {
    "Failed to connect to "@ + url
}

/// The view of the result that a check of `url` owes for `outcome`.
pub open spec fn classification(url: Seq<char>, outcome: Outcome) -> Option<Seq<char>> {
    match outcome {
        Outcome::Responded(status) => if success_range(status) {
            None
        } else {
            Some(bad_status_diagnostic(url, status))
        },
        Outcome::Unreachable => Some(unreachable_diagnostic(url)),
    }
}

/// The line that states the health of `url`.
pub open spec fn state_line(url: Seq<char>, healthy: bool) -> Seq<char> {
    if healthy {
        url + " is up"@
    } else {
        url + " is down"@
    }
}

/// Classifies the outcome of a GET request to `url`.
///
/// The result is healthy exactly when a response with a status in 200..=299
/// arrived. Any other status gives a diagnostic that names the URL and the
/// status; no response at all gives one that names the URL and says that
/// connecting failed.
pub fn classify(url: &str, outcome: Outcome) -> (result: CheckResult)
    ensures
        result@ == classification(url@, outcome),
        result is Healthy <==> (outcome matches Outcome::Responded(status) && 200 <= status <= 299),
{
    match outcome {
        Outcome::Responded(status) => {
            if is_success(status) {
                CheckResult::Healthy
            } else {
                let mut diagnostic = String::from_str("Failed to get ");
                diagnostic.append(url);
                diagnostic.append(" - ");
                push_status_text(&mut diagnostic, status);
                CheckResult::Unhealthy { diagnostic }
            }
        },
        Outcome::Unreachable => {
            let mut diagnostic = String::from_str("Failed to connect to ");
            diagnostic.append(url);
            CheckResult::Unhealthy { diagnostic }
        },
    }
}

/// Words the informational record of a check of `url`: the URL, then
/// `is up` for a healthy result and `is down` for an unhealthy one.
pub fn state_report(url: &str, result: &CheckResult) -> (line: String)
    ensures
        line@ == state_line(url@, result is Healthy),
{
    let mut line = String::from_str(url);
    match result {
        CheckResult::Healthy => line.append(" is up"),
        CheckResult::Unhealthy { .. } => line.append(" is down"),
    }
    line
}

} // verus!
