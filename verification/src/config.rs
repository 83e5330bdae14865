//! The process-wide configuration and the mock-mode rule.
//!
//! The configuration is built once when the process starts and is only read
//! afterwards, so request handlers can share it without locking.

use crate::text::{eq_ignore_ascii_case, eq_ignoring_ascii_case, same_text};
use vstd::prelude::*;
use vstd::string::StringExecFns;

verus! {

/// The one spelling that switches a flag on.
pub const FLAG_ON: &'static str = "true";

/// The salt that is used where none is configured.
pub const DEFAULT_NULLIFIER_SALT: &'static str = "vh-nullifier-salt";

/// What the process was started with.
#[derive(Debug, Clone, PartialEq, Eq)]
pub struct Config {
    /// Forces mock mode on for every request.
    pub force_mock: bool,
    /// The secret that is hashed into every nullifier.
    pub nullifier_salt: String,
}

/// A configuration, its salt as a sequence of characters.
pub struct ConfigView {
    pub force_mock: bool,
    pub nullifier_salt: Seq<char>,
}

impl View for Config {
    type V = ConfigView;

    open spec fn view(&self) -> ConfigView {
        ConfigView { force_mock: self.force_mock, nullifier_salt: self.nullifier_salt@ }
    }
}

impl Config {
    /// The configuration for the two settings as they were found at startup,
    /// `None` for one that is not set. Mock mode is forced only by the exact
    /// text `true`; an unset salt falls back to the default one.
    pub fn from_settings(e2e_mode: Option<&str>, nullifier_salt: Option<&str>) -> (config: Config)
        ensures
            config@.force_mock == (e2e_mode matches Some(flag) && flag@ == FLAG_ON@),
            config@.nullifier_salt == match nullifier_salt {
                Some(salt) => salt@,
                None => DEFAULT_NULLIFIER_SALT@,
            },
    {
        let force_mock = match e2e_mode {
            Some(flag) => same_text(flag, FLAG_ON),
            None => false,
        };
        let salt = match nullifier_salt {
            Some(salt) => String::from_str(salt),
            None => String::from_str(DEFAULT_NULLIFIER_SALT),
        };
        Config { force_mock, nullifier_salt: salt }
    }
}

/// Whether a request with this header value asks for mock mode: the header
/// is there and reads `true`, in any case of its letters.
pub open spec fn header_requests_mock(mock_header: Option<Seq<char>>) -> bool {
    mock_header matches Some(value) && eq_ignoring_ascii_case(value, FLAG_ON@)
}

/// Mock mode is on where the configuration forces it, and otherwise where
/// the request asks for it.
pub open spec fn mock_enabled(force_mock: bool, mock_header: Option<Seq<char>>) -> bool {
    force_mock || header_requests_mock(mock_header)
}

/// Resolves mock mode for one request.
pub fn is_mock_enabled(config: &Config, mock_header: &Option<String>) -> (enabled: bool)
    ensures
        enabled == mock_enabled(config@.force_mock, mock_header.deep_view()),
{
    if config.force_mock {
        return true;
    }
    match mock_header {
        Some(value) => eq_ignore_ascii_case(value.as_str(), FLAG_ON),
        None => false,
    }
}

/// Where the configuration forces mock mode, no header switches it off.
pub proof fn lemma_forced_mock_overrides_header(mock_header: Option<Seq<char>>)
    ensures
        mock_enabled(true, mock_header),
{
}

} // verus!
