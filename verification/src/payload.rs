//! The attestation request as the transport hands it over.

use vstd::prelude::*;

verus! {

/// The platform that issued the integrity token.
#[derive(Debug, Clone, Copy, PartialEq, Eq, Structural)]
pub enum Platform {
    Ios,
    Android,
    Web,
}

/// One attestation request. It lives for the duration of one request and is
/// never stored.
#[derive(Debug, Clone, PartialEq, Eq)]
pub struct AttestationPayload {
    pub platform: Platform,
    pub integrity_token: String,
    pub device_key: String,
    pub nonce: String,
}

/// What a request holds, each text as its sequence of characters.
pub struct PayloadView {
    pub platform: Platform,
    pub integrity_token: Seq<char>,
    pub device_key: Seq<char>,
    pub nonce: Seq<char>,
}

impl View for AttestationPayload {
    type V = PayloadView;

    open spec fn view(&self) -> PayloadView {
        PayloadView {
            platform: self.platform,
            integrity_token: self.integrity_token@,
            device_key: self.device_key@,
            nonce: self.nonce@,
        }
    }
}

} // verus!
