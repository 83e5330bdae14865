//! The path of one request: validation, then mock-mode resolution and
//! scoring, nullifier derivation, and assembly of the session.
//!
//! Nothing is kept from one request to the next. A request that breaks a
//! validation rule leaves by the one error exit, before any scoring or
//! hashing takes place.

use crate::clock::current_timestamp;
use crate::config::{is_mock_enabled, mock_enabled, Config, ConfigView};
use crate::nullifier::{derive_nullifier, nullifier_text};
use crate::payload::{AttestationPayload, PayloadView};
use crate::rejection::Rejection;
use crate::response::{
    assemble_session, session_token_text, SessionResponse, SessionView, DISCLAIMER, ENVIRONMENT,
    STATUS_BAD_REQUEST, STATUS_INTERNAL_ERROR, STATUS_METHOD_NOT_ALLOWED, STATUS_OK,
};
use crate::score::{platform_score, score_payload, FULL_TRUST, NO_TRUST};
use crate::validate::{first_violation, validate_payload};
use vstd::prelude::*;

verus! {

/// The session that is owed to a request that passes validation.
pub open spec fn session_at(
    config: ConfigView,
    mock_header: Option<Seq<char>>,
    payload: PayloadView,
    now: u64,
) -> SessionView {
    SessionView {
        token: session_token_text(now),
        trust_score: platform_score(
            payload.platform,
            payload.integrity_token,
            mock_enabled(config.force_mock, mock_header),
        ),
        nullifier: nullifier_text(config.nullifier_salt, payload.device_key),
        environment: ENVIRONMENT@,
        disclaimer: DISCLAIMER@,
    }
}

/// What a request is answered with at `now`: the rejection for the first
/// rule it breaks, else its session.
pub open spec fn verification_at(
    config: ConfigView,
    mock_header: Option<Seq<char>>,
    payload: PayloadView,
    now: u64,
) -> Result<SessionView, Rejection> {
    match first_violation(payload) {
        Some(error) => Err(Rejection::Invalid(error)),
        None => Ok(session_at(config, mock_header, payload, now)),
    }
}

/// The HTTP status that an outcome is answered with.
pub open spec fn status_of(outcome: Result<SessionView, Rejection>) -> u16 {
    match outcome {
        Ok(_) => STATUS_OK,
        Err(rejection) => rejection.status(),
    }
}

/// What an outcome holds, the session by its view.
pub open spec fn outcome_view(outcome: Result<SessionResponse, Rejection>) -> Result<
    SessionView,
    Rejection,
> {
    match outcome {
        Ok(session) => Ok(session@),
        Err(rejection) => Err(rejection),
    }
}

/// Answers one request at the time `now`: validates it, and where it passes,
/// scores its token, derives its nullifier and assembles the session.
pub fn verify_at(
    config: &Config,
    mock_header: &Option<String>,
    payload: &AttestationPayload,
    now: u64,
) -> (outcome: Result<SessionResponse, Rejection>)
    ensures
        outcome_view(outcome) == verification_at(
            config@,
            mock_header.deep_view(),
            payload@,
            now,
        ),
        first_violation(payload@) matches Some(error) ==> outcome == Err::<
            SessionResponse,
            Rejection,
        >(Rejection::Invalid(error)),
        first_violation(payload@) is None ==> outcome is Ok,
{
    match validate_payload(payload) {
        Err(error) => {
            return Err(Rejection::Invalid(error));
        },
        Ok(_) => {},
    }
    let mock_mode = is_mock_enabled(config, mock_header);
    let trust_score = score_payload(payload, mock_mode);
    let nullifier = derive_nullifier(config.nullifier_salt.as_str(), payload.device_key.as_str());
    Ok(assemble_session(trust_score, nullifier, now))
}

/// Answers one request at the current time: the outcome is that of
/// `verify_at` for the reading of the clock, whatever that reading is.
pub fn handle_verify(
    config: &Config,
    mock_header: &Option<String>,
    payload: &AttestationPayload,
) -> (outcome: Result<SessionResponse, Rejection>)
    ensures
        exists|now: u64|
            outcome_view(outcome) == #[trigger] verification_at(
                config@,
                mock_header.deep_view(),
                payload@,
                now,
            ),
        first_violation(payload@) matches Some(error) ==> outcome == Err::<
            SessionResponse,
            Rejection,
        >(Rejection::Invalid(error)),
        first_violation(payload@) is None ==> outcome is Ok,
{
    let now = current_timestamp();
    verify_at(config, mock_header, payload, now)
}

/// The HTTP status that an outcome is answered with.
pub fn reply_status(outcome: &Result<SessionResponse, Rejection>) -> (status: u16)
    ensures
        status == status_of(outcome_view(*outcome)),
{
    match outcome {
        Ok(_) => STATUS_OK,
        Err(Rejection::Invalid(_)) => STATUS_BAD_REQUEST,
        Err(Rejection::InvalidHeader) => STATUS_BAD_REQUEST,
        Err(Rejection::MethodNotAllowed) => STATUS_METHOD_NOT_ALLOWED,
        Err(Rejection::Internal) => STATUS_INTERNAL_ERROR,
    }
}

/// Validation is a gate: a request that breaks a rule is answered with the
/// rejection for the first rule it breaks and with the status of a bad
/// request, whatever the configuration, the header and the time are.
pub proof fn lemma_invalid_request_is_rejected(
    config: ConfigView,
    mock_header: Option<Seq<char>>,
    payload: PayloadView,
    now: u64,
)
    requires
        first_violation(payload) is Some,
    ensures
        verification_at(config, mock_header, payload, now) == Err::<SessionView, Rejection>(
            Rejection::Invalid(first_violation(payload)->0),
        ),
        status_of(verification_at(config, mock_header, payload, now)) == STATUS_BAD_REQUEST,
{
}

/// A request that breaks no rule is answered with a session whose score is
/// on the scale, whose nullifier is that of its device key under the
/// configured salt, and which carries the environment label and the
/// disclaimer.
pub proof fn lemma_valid_request_gets_session(
    config: ConfigView,
    mock_header: Option<Seq<char>>,
    payload: PayloadView,
    now: u64,
)
    requires
        first_violation(payload) is None,
    ensures
        verification_at(config, mock_header, payload, now) matches Ok(session) && {
            &&& NO_TRUST <= session.trust_score <= FULL_TRUST
            &&& session.nullifier == nullifier_text(config.nullifier_salt, payload.device_key)
            &&& session.environment == ENVIRONMENT@
            &&& session.disclaimer == DISCLAIMER@
        },
        status_of(verification_at(config, mock_header, payload, now)) == STATUS_OK,
{
}

/// In mock mode every request that breaks no rule is trusted in full,
/// whatever its platform and its token are.
pub proof fn lemma_mock_session_is_trusted_in_full(
    config: ConfigView,
    mock_header: Option<Seq<char>>,
    payload: PayloadView,
    now: u64,
)
    requires
        first_violation(payload) is None,
        mock_enabled(config.force_mock, mock_header),
    ensures
        verification_at(config, mock_header, payload, now) matches Ok(session)
            && session.trust_score == FULL_TRUST,
{
}

/// The time of a request shows in its session token and nowhere else.
pub proof fn lemma_time_shows_in_the_token_only(
    config: ConfigView,
    mock_header: Option<Seq<char>>,
    payload: PayloadView,
    earlier: u64,
    later: u64,
)
    ensures
        verification_at(config, mock_header, payload, earlier) matches Ok(first) ==> {
            &&& verification_at(config, mock_header, payload, later) matches Ok(second)
            &&& second == (SessionView { token: session_token_text(later), ..first })
        },
        verification_at(config, mock_header, payload, earlier) is Err ==> verification_at(
            config,
            mock_header,
            payload,
            later,
        ) == verification_at(config, mock_header, payload, earlier),
{
}

} // verus!
