//! One scoring strategy per platform.
//!
//! A trust score is held in hundredths, from 0 for no trust to 100 for full
//! trust. Each strategy is a function of the integrity token and the
//! mock-mode flag and of nothing else.

use crate::payload::{AttestationPayload, PayloadView, Platform};
use crate::text::{longer_than, same_text, starts_with};
use vstd::prelude::*;

verus! {

/// Full trust, in hundredths.
pub const FULL_TRUST: u8 = 100;

/// The trust given to a web token that merely looks non-trivial.
pub const PLAUSIBLE_TRUST: u8 = 80;

/// The trust given to a mobile token that cannot be told apart from a
/// forged one.
pub const AMBIGUOUS_TRUST: u8 = 50;

/// No trust.
pub const NO_TRUST: u8 = 0;

/// The web token that is trusted in full.
pub const WEB_TEST_TOKEN: &'static str = "test-token";

/// A web token must have more characters than this to look non-trivial.
pub const WEB_TRIVIAL_CHARS: usize = 8;

/// How an iOS token that is trusted in full begins.
pub const APPLE_PREFIX: &'static str = "apple-";

/// How an Android token that is trusted in full begins.
pub const GOOGLE_PREFIX: &'static str = "google-";

/// A trust score: a number of hundredths between 0 and 100.
#[derive(Debug, Clone, Copy, PartialEq, Eq)]
pub struct TrustScore {
    hundredths: u8,
}

impl View for TrustScore {
    type V = int;

    closed spec fn view(&self) -> int {
        self.hundredths as int
    }
}

impl TrustScore {
    #[verifier::type_invariant]
    closed spec fn within_scale(self) -> bool {
        self.hundredths <= FULL_TRUST
    }

    /// The score of `hundredths`, where that is on the scale.
    pub fn new(hundredths: u8) -> (score: Option<TrustScore>)
        ensures
            score is Some <==> hundredths <= FULL_TRUST,
            score matches Some(s) ==> s@ == hundredths,
    {
        if hundredths <= FULL_TRUST {
            Some(TrustScore { hundredths })
        } else {
            None
        }
    }

    /// The score in hundredths.
    pub fn hundredths(&self) -> (h: u8)
        ensures
            h == self@,
            h <= FULL_TRUST,
    {
        proof {
            use_type_invariant(self);
        }
        self.hundredths
    }
}

/// The score of a web token.
pub open spec fn web_score(token: Seq<char>, mock_mode: bool) -> int {
    if mock_mode || token == WEB_TEST_TOKEN@ {
        FULL_TRUST as int
    } else if token.len() > WEB_TRIVIAL_CHARS {
        PLAUSIBLE_TRUST as int
    } else {
        NO_TRUST as int
    }
}

/// The score of an iOS token.
pub open spec fn apple_score(token: Seq<char>, mock_mode: bool) -> int {
    if mock_mode || APPLE_PREFIX@.is_prefix_of(token) {
        FULL_TRUST as int
    } else {
        AMBIGUOUS_TRUST as int
    }
}

/// The score of an Android token.
pub open spec fn google_score(token: Seq<char>, mock_mode: bool) -> int {
    if mock_mode || GOOGLE_PREFIX@.is_prefix_of(token) {
        FULL_TRUST as int
    } else {
        AMBIGUOUS_TRUST as int
    }
}

/// The score of a token under the strategy of its platform.
pub open spec fn platform_score(platform: Platform, token: Seq<char>, mock_mode: bool) -> int {
    match platform {
        Platform::Web => web_score(token, mock_mode),
        Platform::Ios => apple_score(token, mock_mode),
        Platform::Android => google_score(token, mock_mode),
    }
}

/// Scores a web token: full trust in mock mode and for the test token, else
/// by whether the token has more than a trivial number of characters.
pub fn verify_web(payload: &AttestationPayload, mock_mode: bool) -> (score: TrustScore)
    ensures
        score@ == web_score(payload@.integrity_token, mock_mode),
        NO_TRUST <= score@ <= FULL_TRUST,
        mock_mode ==> score@ == FULL_TRUST,
{
    let token = payload.integrity_token.as_str();
    if mock_mode || same_text(token, WEB_TEST_TOKEN) {
        return TrustScore { hundredths: FULL_TRUST };
    }
    if longer_than(token, WEB_TRIVIAL_CHARS) {
        TrustScore { hundredths: PLAUSIBLE_TRUST }
    } else {
        TrustScore { hundredths: NO_TRUST }
    }
}

/// Scores an iOS token: full trust in mock mode and for a token with the
/// Apple prefix; any other token is kept, at half trust.
pub fn verify_apple(payload: &AttestationPayload, mock_mode: bool) -> (score: TrustScore)
    ensures
        score@ == apple_score(payload@.integrity_token, mock_mode),
        NO_TRUST <= score@ <= FULL_TRUST,
        mock_mode ==> score@ == FULL_TRUST,
{
    if mock_mode {
        return TrustScore { hundredths: FULL_TRUST };
    }
    if starts_with(payload.integrity_token.as_str(), APPLE_PREFIX) {
        TrustScore { hundredths: FULL_TRUST }
    } else {
        TrustScore { hundredths: AMBIGUOUS_TRUST }
    }
}

/// Scores an Android token: full trust in mock mode and for a token with the
/// Google prefix; any other token is kept, at half trust.
pub fn verify_google(payload: &AttestationPayload, mock_mode: bool) -> (score: TrustScore)
    ensures
        score@ == google_score(payload@.integrity_token, mock_mode),
        NO_TRUST <= score@ <= FULL_TRUST,
        mock_mode ==> score@ == FULL_TRUST,
{
    if mock_mode {
        return TrustScore { hundredths: FULL_TRUST };
    }
    if starts_with(payload.integrity_token.as_str(), GOOGLE_PREFIX) {
        TrustScore { hundredths: FULL_TRUST }
    } else {
        TrustScore { hundredths: AMBIGUOUS_TRUST }
    }
}

/// Scores the token of `payload` under the strategy of its platform.
pub fn score_payload(payload: &AttestationPayload, mock_mode: bool) -> (score: TrustScore)
    ensures
        score@ == platform_score(payload@.platform, payload@.integrity_token, mock_mode),
        NO_TRUST <= score@ <= FULL_TRUST,
        mock_mode ==> score@ == FULL_TRUST,
{
    match payload.platform {
        Platform::Web => verify_web(payload, mock_mode),
        Platform::Ios => verify_apple(payload, mock_mode),
        Platform::Android => verify_google(payload, mock_mode),
    }
}

/// Every score lies on the scale from no trust to full trust.
pub proof fn lemma_score_on_scale(platform: Platform, token: Seq<char>, mock_mode: bool)
    ensures
        NO_TRUST <= platform_score(platform, token, mock_mode) <= FULL_TRUST,
{
}

/// Mock mode gives full trust on every platform, whatever the token holds.
pub proof fn lemma_mock_mode_gives_full_trust(platform: Platform, token: Seq<char>)
    ensures
        platform_score(platform, token, true) == FULL_TRUST,
{
}

/// Scoring keeps no state: two scores of the same platform, token and mode
/// are the same score.
pub proof fn lemma_scoring_is_repeatable(
    first: TrustScore,
    second: TrustScore,
    p: PayloadView,
    mock_mode: bool,
)
    requires
        first@ == platform_score(p.platform, p.integrity_token, mock_mode),
        second@ == platform_score(p.platform, p.integrity_token, mock_mode),
    ensures
        first == second,
{
}

} // verus!
