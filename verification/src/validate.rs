//! Structural and size limits on the request fields.
//!
//! The rules are evaluated in a fixed order and the first one that fails
//! decides the error; errors are never aggregated.

use crate::payload::{AttestationPayload, PayloadView};
use crate::text::{is_blank, is_blank_text, longer_than};
use vstd::prelude::*;

verus! {

/// The most characters an integrity token may have.
pub const MAX_INTEGRITY_TOKEN_CHARS: usize = 4096;

/// The most characters a device key may have.
pub const MAX_DEVICE_KEY_CHARS: usize = 512;

/// The most characters a nonce may have.
pub const MAX_NONCE_CHARS: usize = 256;

/// Why a request was turned away before any scoring took place.
#[derive(Debug, Clone, Copy, PartialEq, Eq, Structural)]
pub enum ValidationError {
    MissingIntegrityToken,
    IntegrityTokenTooLong,
    MissingDeviceKey,
    DeviceKeyTooLong,
    MissingNonce,
    NonceTooLong,
}

impl ValidationError {
    /// The machine-readable code of this error.
    pub open spec fn code_text(self) -> Seq<char> {
        match self {
            ValidationError::MissingIntegrityToken => "MISSING_INTEGRITY_TOKEN"@,
            ValidationError::IntegrityTokenTooLong => "INTEGRITY_TOKEN_TOO_LONG"@,
            ValidationError::MissingDeviceKey => "MISSING_DEVICE_KEY"@,
            ValidationError::DeviceKeyTooLong => "DEVICE_KEY_TOO_LONG"@,
            ValidationError::MissingNonce => "MISSING_NONCE"@,
            ValidationError::NonceTooLong => "NONCE_TOO_LONG"@,
        }
    }

    /// The human-readable message of this error.
    pub open spec fn message_text(self) -> Seq<char> {
        match self {
            ValidationError::MissingIntegrityToken => "integrity_token required"@,
            ValidationError::IntegrityTokenTooLong => "integrity_token too long"@,
            ValidationError::MissingDeviceKey => "device_key required"@,
            ValidationError::DeviceKeyTooLong => "device_key too long"@,
            ValidationError::MissingNonce => "nonce required"@,
            ValidationError::NonceTooLong => "nonce too long"@,
        }
    }

    /// The machine-readable code, whose spelling is part of the external
    /// interface.
    pub fn code(&self) -> (s: &'static str)
        ensures
            s@ == self.code_text(),
    {
        match self {
            ValidationError::MissingIntegrityToken => "MISSING_INTEGRITY_TOKEN",
            ValidationError::IntegrityTokenTooLong => "INTEGRITY_TOKEN_TOO_LONG",
            ValidationError::MissingDeviceKey => "MISSING_DEVICE_KEY",
            ValidationError::DeviceKeyTooLong => "DEVICE_KEY_TOO_LONG",
            ValidationError::MissingNonce => "MISSING_NONCE",
            ValidationError::NonceTooLong => "NONCE_TOO_LONG",
        }
    }

    /// The human-readable message.
    pub fn message(&self) -> (s: &'static str)
        ensures
            s@ == self.message_text(),
    {
        match self {
            ValidationError::MissingIntegrityToken => "integrity_token required",
            ValidationError::IntegrityTokenTooLong => "integrity_token too long",
            ValidationError::MissingDeviceKey => "device_key required",
            ValidationError::DeviceKeyTooLong => "device_key too long",
            ValidationError::MissingNonce => "nonce required",
            ValidationError::NonceTooLong => "nonce too long",
        }
    }
}

/// The first rule that `p` breaks, in the order in which the rules are
/// checked: the integrity token, then the device key, then the nonce, and for
/// each of them first that it is not blank, then that it is not too long.
pub open spec fn first_violation(p: PayloadView) -> Option<ValidationError> {
    if is_blank_text(p.integrity_token) {
        Some(ValidationError::MissingIntegrityToken)
    } else if p.integrity_token.len() > MAX_INTEGRITY_TOKEN_CHARS {
        Some(ValidationError::IntegrityTokenTooLong)
    } else if is_blank_text(p.device_key) {
        Some(ValidationError::MissingDeviceKey)
    } else if p.device_key.len() > MAX_DEVICE_KEY_CHARS {
        Some(ValidationError::DeviceKeyTooLong)
    } else if is_blank_text(p.nonce) {
        Some(ValidationError::MissingNonce)
    } else if p.nonce.len() > MAX_NONCE_CHARS {
        Some(ValidationError::NonceTooLong)
    } else {
        None
    }
}

/// Checks the request against the rules and reports the first one broken.
pub fn validate_payload(payload: &AttestationPayload) -> (r: Result<(), ValidationError>)
    ensures
        r == match first_violation(payload@) {
            Some(e) => Err::<(), ValidationError>(e),
            None => Ok(()),
        },
{
    if is_blank(payload.integrity_token.as_str()) {
        return Err(ValidationError::MissingIntegrityToken);
    }
    if longer_than(payload.integrity_token.as_str(), MAX_INTEGRITY_TOKEN_CHARS) {
        return Err(ValidationError::IntegrityTokenTooLong);
    }
    if is_blank(payload.device_key.as_str()) {
        return Err(ValidationError::MissingDeviceKey);
    }
    if longer_than(payload.device_key.as_str(), MAX_DEVICE_KEY_CHARS) {
        return Err(ValidationError::DeviceKeyTooLong);
    }
    if is_blank(payload.nonce.as_str()) {
        return Err(ValidationError::MissingNonce);
    }
    if longer_than(payload.nonce.as_str(), MAX_NONCE_CHARS) {
        return Err(ValidationError::NonceTooLong);
    }
    Ok(())
}

/// A request whose device key is blank is never reported as lacking its
/// nonce: the device key is checked first. Where the integrity token passes
/// its two rules, the report is that the device key is missing, whatever the
/// nonce holds.
pub proof fn lemma_device_key_reported_before_nonce(p: PayloadView)
    requires
        is_blank_text(p.device_key),
    ensures
        first_violation(p) != Some(ValidationError::MissingNonce),
        first_violation(p) != Some(ValidationError::NonceTooLong),
        !is_blank_text(p.integrity_token) && p.integrity_token.len() <= MAX_INTEGRITY_TOKEN_CHARS
            ==> first_violation(p) == Some(ValidationError::MissingDeviceKey),
{
}

} // verus!
