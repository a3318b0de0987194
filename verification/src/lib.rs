//! An availability probe for a web service.
//!
//! A [`WebAvailability`] holds the URL of a service and the HTTP client that
//! requests to it go through. A check is one GET request to that URL. How
//! the request ended is an [`Outcome`]; [`WebAvailability::classify`] turns
//! it into a [`CheckResult`]: healthy for a response with a status in
//! 200..=299, unhealthy with a diagnostic for any other status and for a
//! request that got no response. A service that cannot be reached is a
//! result, never an error; only building a probe can fail, with a
//! [`ConfigurationError`].
//!
//! The library sends nothing itself. Its caller sends the request through
//! [`WebAvailability::client`] and hands back how it ended.

pub mod client;
pub mod laws;
pub mod probe;
pub mod status;
pub mod text;
pub mod user_agent;
pub mod verdict;

pub use probe::{ConfigurationError, WebAvailability};
pub use reqwest::blocking::Client;
pub use status::is_success;
pub use user_agent::DEFAULT_USER_AGENT;
pub use verdict::{classify, state_report, CheckResult, Outcome};
