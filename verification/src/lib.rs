//! SigV4 challenge-response authentication for Amazon Keyspaces.
//!
//! The service sends a one-time nonce; the client derives a signing key that
//! is scoped to a date, a region and the service, signs a canonical form of
//! the request with it, and answers with the signature and the metadata the
//! service needs to check it. The secret key itself never leaves the client.
//!
//! The crate is organised leaves first:
//!
//! * [`digest`]: SHA-256, HMAC-SHA256 and hexadecimal text, computed by
//!   `ring` and `data-encoding`;
//! * [`timestamp`]: a UTC instant with millisecond precision and its two
//!   textual forms, written by `chrono`;
//! * [`text`]: facts about texts and their UTF-8 encoding;
//! * [`crypto`]: the signing engine, and [`laws`]: what holds of all that it
//!   signs;
//! * [`challenge`], [`error`], [`session`]: one round of the handshake as a
//!   state machine that performs no I/O;
//! * [`authenticator`]: the factory of sessions.
pub mod authenticator;
pub mod challenge;
pub mod crypto;
pub mod digest;
pub mod error;
pub mod laws;
pub mod session;
pub mod text;
pub mod timestamp;

pub use authenticator::AwsKeyspacesAuthenticator;
pub use challenge::extract_nonce;
pub use crypto::build_signed_response;
pub use error::AuthError;
pub use session::{
    AwsKeyspacesAuthenticatorSession, CredentialSourceConfig, Credentials, SessionState,
};
pub use timestamp::Timestamp;
