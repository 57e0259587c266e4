//! The ways in which one round of the handshake fails.
use vstd::prelude::*;
use vstd::string::*;

verus! {

/// Why a session failed. Every failure ends the session: none is retried.
///
/// No variant carries the secret key or anything derived from it.
#[derive(Debug, PartialEq, Eq)]
pub enum AuthError {
    /// The challenge is not UTF-8 text.
    InvalidChallengeEncoding,
    /// The challenge does not begin with `nonce=`.
    MissingNoncePrefix,
    /// The configuration names no region.
    MissingRegion,
    /// The configuration holds no source of credentials.
    MissingCredentialSource,
    /// The source of credentials failed; the text is the cause as the source
    /// described it.
    CredentialSourceError(String),
    /// A challenge arrived when none was expected.
    ProtocolSequenceViolation,
}

impl AuthError {
    /// The words of [`AuthError::message`].
    pub open spec fn message_text(self) -> Seq<char> {
        match self {
            AuthError::InvalidChallengeEncoding => "Expected utf-8 challenge."@,
            AuthError::MissingNoncePrefix => "Expected \"nonce=\" in challenge."@,
            AuthError::MissingRegion => "Region must be defined in the configuration."@,
            AuthError::MissingCredentialSource => "The configuration does not deliver any credentials provider."@,
            AuthError::CredentialSourceError(cause) => "Cannot get AWS credentials: "@ + cause@,
            AuthError::ProtocolSequenceViolation => "Challenge received out of order."@,
        }
    }

    /// The failure in words, for a log or for the peer.
    pub fn message(&self) -> (text: String)
        ensures
            text@ == self.message_text(),
    {
        match self {
            AuthError::InvalidChallengeEncoding => String::from_str("Expected utf-8 challenge."),
            AuthError::MissingNoncePrefix => String::from_str("Expected \"nonce=\" in challenge."),
            AuthError::MissingRegion => String::from_str(
                "Region must be defined in the configuration.",
            ),
            AuthError::MissingCredentialSource => String::from_str(
                "The configuration does not deliver any credentials provider.",
            ),
            AuthError::CredentialSourceError(cause) => {
                let mut text = String::from_str("Cannot get AWS credentials: ");
                text.append(cause.as_str());
                text
            },
            AuthError::ProtocolSequenceViolation => String::from_str(
                "Challenge received out of order.",
            ),
        }
    }
}

} // verus!
