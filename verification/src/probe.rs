//! The probe: a target URL and the HTTP client that checks of it go through.

use vstd::prelude::*;
use crate::client::{build_client, describe};
use crate::user_agent::{header_value, lemma_header_value_bytes, DEFAULT_USER_AGENT};
use crate::verdict::{classification, classify, state_line, state_report, CheckResult, Outcome};
use reqwest::blocking::Client;

verus! {

/// The HTTP client of a probe could not be set up.
#[derive(Debug, PartialEq, Eq)]
pub struct ConfigurationError {
    /// What the HTTP client said went wrong.
    pub cause: String,
}

/// A probe of the availability of one web service.
///
/// It is built once and checked many times. A check sends one GET request
/// to `url` through the probe's client and classifies what came back with
/// [`WebAvailability::classify`]; nothing is kept from one check to the next.
pub struct WebAvailability {
    /// The URL that is checked.
    pub url: String,
    web_client: Client,
}

impl WebAvailability {
    /// The URL that is checked, as a sequence of characters.
    pub closed spec fn target(self) -> Seq<char> {
        self.url@
    }

    /// The client that the probe's requests go through.
    pub closed spec fn web_client(self) -> Client {
        self.web_client
    }

    /// A probe of `url` that announces itself with [`DEFAULT_USER_AGENT`].
    ///
    /// Fails where the HTTP client cannot be set up. The client is a
    /// blocking one: this must not be called from inside an async runtime.
    pub fn new(url: &str) -> (made: Result<Self, ConfigurationError>)
        ensures
            made matches Ok(probe) ==> probe.target() == url@,
    {
        Self::with_user_agent(url, DEFAULT_USER_AGENT)
    }

    /// A probe of `url` that announces itself as `user_agent`.
    ///
    /// A user agent that no HTTP header can carry is a configuration error.
    /// So is any other failure to set up the HTTP client. The client is a
    /// blocking one: this must not be called from inside an async runtime.
    pub fn with_user_agent(url: &str, user_agent: &str) -> (made: Result<Self, ConfigurationError>)
        ensures
            made matches Ok(probe) ==> probe.target() == url@,
            !header_value(user_agent@) ==> made is Err,
    {
        proof {
            lemma_header_value_bytes(user_agent@);
        }
        Self::from_built(url, build_client(user_agent))
    }

    /// A probe of `url` that sends its requests through `web_client`.
    pub fn with_client(url: &str, web_client: Client) -> (probe: Self)
        ensures
            probe.target() == url@,
            probe.web_client() == web_client,
    {
        WebAvailability { url: url.to_owned(), web_client }
    }

    /// Makes a probe of `url` from the outcome of building its client: the
    /// probe around the client that was built, or the configuration error
    /// for the failure.
    pub fn from_built(
        url: &str,
        built: Result<Client, reqwest::Error>,
    ) -> (made: Result<Self, ConfigurationError>)
        ensures
            built matches Ok(web_client) ==> made matches Ok(probe) && probe.target() == url@
                && probe.web_client() == web_client,
            built is Err ==> made is Err,
    {
        match built {
            Ok(web_client) => Ok(Self::with_client(url, web_client)),
            Err(error) => Err(ConfigurationError { cause: describe(&error) }),
        }
    }

    /// The client to send the GET request of a check through.
    pub fn client(&self) -> (web_client: &Client)
        ensures
            *web_client == self.web_client(),
    {
        &self.web_client
    }

    /// Classifies the outcome of a GET request to the probe's URL.
    pub fn classify(&self, outcome: Outcome) -> (result: CheckResult)
        ensures
            result@ == classification(self.target(), outcome),
            result is Healthy <==> (outcome matches Outcome::Responded(status) && 200 <= status
                <= 299),
    {
        classify(self.url.as_str(), outcome)
    }

    /// Words the informational record of a check that ended in `result`.
    pub fn report(&self, result: &CheckResult) -> (line: String)
        ensures
            line@ == state_line(self.target(), result is Healthy),
    {
        state_report(self.url.as_str(), result)
    }
}

} // verus!
