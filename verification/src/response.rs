//! What is sent back: the session on success, the error payload on failure,
//! and the health report.
//!
//! Every payload carries the environment label. The disclaimer is part of
//! the session and of the health report only; an error payload carries the
//! label without it.

use crate::score::TrustScore;
use crate::text::{append_decimal, decimal_text};
use vstd::prelude::*;
use vstd::string::StringExecFns;

verus! {

/// The label of the deployment that this service stands for.
pub const ENVIRONMENT: &'static str = "DEV";

/// The notice that goes out with every session and health report.
pub const DISCLAIMER: &'static str =
    "Development build: attestation is checked heuristically and must not be relied on in production.";

/// How every session token begins.
pub const SESSION_TAG: &'static str = "session-";

/// What the health report says of a running service.
pub const HEALTHY: &'static str = "ok";

/// The HTTP status of a success.
pub const STATUS_OK: u16 = 200;

/// The HTTP status of a request that was turned away.
pub const STATUS_BAD_REQUEST: u16 = 400;

/// The HTTP status of a request with a method that is not served.
pub const STATUS_METHOD_NOT_ALLOWED: u16 = 405;

/// The HTTP status of a failure that was not foreseen.
pub const STATUS_INTERNAL_ERROR: u16 = 500;

/// The payload of a successful verification.
#[derive(Debug, Clone, PartialEq, Eq)]
pub struct SessionResponse {
    pub token: String,
    pub trust_score: TrustScore,
    pub nullifier: String,
    pub environment: &'static str,
    pub disclaimer: &'static str,
}

/// A session payload, each text as its sequence of characters and the score
/// in hundredths.
pub struct SessionView {
    pub token: Seq<char>,
    pub trust_score: int,
    pub nullifier: Seq<char>,
    pub environment: Seq<char>,
    pub disclaimer: Seq<char>,
}

impl View for SessionResponse {
    type V = SessionView;

    open spec fn view(&self) -> SessionView {
        SessionView {
            token: self.token@,
            trust_score: self.trust_score@,
            nullifier: self.nullifier@,
            environment: self.environment@,
            disclaimer: self.disclaimer@,
        }
    }
}

/// The payload of a failure, with the HTTP status that it goes out under.
#[derive(Debug, Clone, Copy, PartialEq, Eq)]
pub struct ErrorResponse {
    pub status: u16,
    pub success: bool,
    pub error: &'static str,
    pub error_code: &'static str,
    pub environment: &'static str,
}

/// An error payload, each text as its sequence of characters.
pub struct ErrorView {
    pub status: u16,
    pub success: bool,
    pub error: Seq<char>,
    pub error_code: Seq<char>,
    pub environment: Seq<char>,
}

impl View for ErrorResponse {
    type V = ErrorView;

    open spec fn view(&self) -> ErrorView {
        ErrorView {
            status: self.status,
            success: self.success,
            error: self.error@,
            error_code: self.error_code@,
            environment: self.environment@,
        }
    }
}

/// The payload of the health report.
#[derive(Debug, Clone, Copy, PartialEq, Eq)]
pub struct HealthResponse {
    pub status: &'static str,
    pub environment: &'static str,
    pub disclaimer: &'static str,
}

/// A health report, each text as its sequence of characters.
pub struct HealthView {
    pub status: Seq<char>,
    pub environment: Seq<char>,
    pub disclaimer: Seq<char>,
}

impl View for HealthResponse {
    type V = HealthView;

    open spec fn view(&self) -> HealthView {
        HealthView {
            status: self.status@,
            environment: self.environment@,
            disclaimer: self.disclaimer@,
        }
    }
}

/// The session token that is minted at `now`: the tag, then the timestamp
/// as a decimal numeral.
pub open spec fn session_token_text(now: u64) -> Seq<char> {
    SESSION_TAG@ + decimal_text(now as nat)
}

/// Mints the session token for the timestamp `now`. Two tokens minted in the
/// same second are the same token.
pub fn session_token(now: u64) -> (token: String)
    ensures
        token@ == session_token_text(now),
{
    let mut token = String::from_str(SESSION_TAG);
    append_decimal(&mut token, now);
    token
}

/// Puts a session together from its score, its nullifier and the time at
/// which its token is minted, and marks it with the environment label and
/// the disclaimer.
pub fn assemble_session(trust_score: TrustScore, nullifier: String, now: u64) -> (session:
    SessionResponse)
    ensures
        session@ == (SessionView {
            token: session_token_text(now),
            trust_score: trust_score@,
            nullifier: nullifier@,
            environment: ENVIRONMENT@,
            disclaimer: DISCLAIMER@,
        }),
{
    SessionResponse {
        token: session_token(now),
        trust_score,
        nullifier,
        environment: ENVIRONMENT,
        disclaimer: DISCLAIMER,
    }
}

/// The health report of a running service.
pub fn health() -> (report: HealthResponse)
    ensures
        report@ == (HealthView {
            status: HEALTHY@,
            environment: ENVIRONMENT@,
            disclaimer: DISCLAIMER@,
        }),
{
    HealthResponse { status: HEALTHY, environment: ENVIRONMENT, disclaimer: DISCLAIMER }
}

} // verus!
