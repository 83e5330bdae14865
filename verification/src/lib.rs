//! Device-attestation verification for development and testing.
//!
//! A request names a platform and carries an integrity token, a device key
//! and a nonce. It is validated, its token is scored by the strategy of its
//! platform, its device key is mapped to a nullifier, and the three are
//! sent back as a session. The scoring is heuristic: it looks at the shape
//! of the token and checks no signature, so every session says that it is
//! not fit for production.

pub mod clock;
pub mod config;
pub mod handler;
pub mod nullifier;
pub mod payload;
pub mod rejection;
pub mod response;
pub mod score;
pub mod text;
pub mod validate;
