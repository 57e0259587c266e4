//! One round of the handshake, as a state machine that performs no I/O.
//!
//! A session is handed what arrives: the challenge of the service, then what
//! the source of credentials answered, then the notice of success. Between
//! the first and the second the caller asks the source of credentials; the
//! session itself never waits for anything.
use vstd::prelude::*;
use vstd::string::*;
use vstd::utf8::*;
use crate::challenge::{challenge_nonce, extract_nonce};
use crate::crypto::{
    build_signed_response, can_sign, optional_text, signature_of, signed_response_text,
    signing_inputs_fit,
};
use crate::digest::HEX_DIGEST_LEN;
use crate::error::AuthError;
use crate::timestamp::{Instant, Timestamp};

verus! {

/// Where a session stands in its round.
#[derive(Clone, Copy, Debug, PartialEq, Eq, Structural)]
pub enum SessionState {
    /// Made, and silent so far.
    Started,
    /// The mechanism is advertised; the challenge is awaited.
    AwaitingChallenge,
    /// The challenge holds a nonce; the credentials are awaited.
    ChallengeReceived,
    /// The response is made. Nothing more is expected but the notice of
    /// success.
    Completed,
    /// The round failed. A new session is needed to try again.
    Failed,
}

/// Credentials as their source hands them out. The secret is never written
/// anywhere but into the key of a signature.
pub struct Credentials {
    pub access_key_id: String,
    pub secret_access_key: String,
    pub session_token: Option<String>,
}

/// What a session needs to know of the configuration of the source of
/// credentials: the region, if one is set, and whether there is a provider
/// of credentials to ask.
pub struct CredentialSourceConfig {
    pub region: Option<String>,
    pub has_credentials_provider: bool,
}

/// The view of a text that may be absent.
pub open spec fn optional_string_text(text: Option<String>) -> Option<Seq<char>> {
    match text {
        Some(t) => Some(t@),
        None => None,
    }
}

impl CredentialSourceConfig {
    /// A copy of the configuration.
    pub fn duplicate(&self) -> (copy: CredentialSourceConfig)
        ensures
            copy == *self,
    {
        let region = match &self.region {
            Some(region) => Some(region.clone()),
            None => None,
        };
        CredentialSourceConfig { region, has_credentials_provider: self.has_credentials_provider }
    }
}

/// A session as the contracts see it.
pub struct SessionModel {
    pub state: SessionState,
    pub region: Option<Seq<char>>,
    pub has_credentials_provider: bool,
    /// The nonce of the challenge, once there is one.
    pub nonce: Seq<char>,
}

/// What a challenge brings about: the nonce to keep, or the failure. A
/// challenge is expected once, while the session awaits it; it has to carry
/// a nonce; then the region has to be set and a provider of credentials has
/// to be there, in this order.
pub open spec fn challenge_outcome(m: SessionModel, challenge: Seq<u8>) -> Result<
    Seq<char>,
    AuthError,
> {
    if m.state != SessionState::AwaitingChallenge {
        Err(AuthError::ProtocolSequenceViolation)
    } else if challenge_nonce(challenge) is Err {
        Err(challenge_nonce(challenge)->Err_0)
    } else if m.region is None {
        Err(AuthError::MissingRegion)
    } else if !m.has_credentials_provider {
        Err(AuthError::MissingCredentialSource)
    } else {
        Ok(challenge_nonce(challenge)->Ok_0)
    }
}

/// The session after a challenge.
pub open spec fn after_challenge(m: SessionModel, challenge: Seq<u8>) -> SessionModel {
    match challenge_outcome(m, challenge) {
        Ok(nonce) => SessionModel { state: SessionState::ChallengeReceived, nonce, ..m },
        Err(_) => SessionModel { state: SessionState::Failed, ..m },
    }
}

/// The bytes of a challenge whose token may be absent: an absent token is a
/// challenge of no bytes.
pub open spec fn token_challenge(token: Option<&[u8]>) -> Seq<u8> {
    match token {
        Some(bytes) => bytes@,
        None => Seq::empty(),
    }
}

/// Whether a session that holds a nonce can sign with these credentials at
/// this instant: see [`signing_inputs_fit`].
pub open spec fn credentials_fit(m: SessionModel, credentials: Credentials, now: Instant) -> bool {
    m.region matches Some(region) ==> signing_inputs_fit(
        region,
        m.nonce,
        credentials.access_key_id@,
        credentials.secret_access_key@,
        now,
    )
}

/// The bytes that answer the challenge of a session in `region`.
pub open spec fn challenge_response(
    region: Seq<char>,
    nonce: Seq<char>,
    credentials: Credentials,
    now: Instant,
) -> Seq<u8> {
    encode_utf8(
        signed_response_text(
            region,
            nonce,
            credentials.access_key_id@,
            credentials.secret_access_key@,
            optional_string_text(credentials.session_token),
            now,
        ),
    )
}

/// The bytes that advertise the mechanism: the letters `SigV4` and two
/// bytes of zero.
pub open spec fn mechanism_advertisement() -> Seq<u8> {
    seq![83u8, 105u8, 103u8, 86u8, 52u8, 0u8, 0u8]
}

/// One round of the handshake on one connection.
pub struct AwsKeyspacesAuthenticatorSession {
    config: CredentialSourceConfig,
    state: SessionState,
    nonce: String,
}

impl View for AwsKeyspacesAuthenticatorSession {
    type V = SessionModel;

    closed spec fn view(&self) -> SessionModel {
        SessionModel {
            state: self.state,
            region: optional_string_text(self.config.region),
            has_credentials_provider: self.config.has_credentials_provider,
            nonce: self.nonce@,
        }
    }
}

impl AwsKeyspacesAuthenticatorSession {
    /// A session holds a nonce only where its configuration lets it go on.
    #[verifier::type_invariant]
    closed spec fn can_go_on(self) -> bool {
        self.state == SessionState::ChallengeReceived ==> self.config.region is Some
            && self.config.has_credentials_provider
    }

    /// A new session for `config`, and the bytes that advertise the
    /// mechanism. The session is made, speaks, and awaits the challenge.
    pub fn start(config: CredentialSourceConfig) -> (started: (
        Vec<u8>,
        AwsKeyspacesAuthenticatorSession,
    ))
        ensures
            started.0@ == mechanism_advertisement(),
            started.1@ == (SessionModel {
                state: SessionState::AwaitingChallenge,
                region: optional_string_text(config.region),
                has_credentials_provider: config.has_credentials_provider,
                nonce: Seq::empty(),
            }),
    {
        let mut session = AwsKeyspacesAuthenticatorSession {
            config,
            state: SessionState::Started,
            nonce: String::new(),
        };
        let advertisement = session.advertise();
        (advertisement, session)
    }

    /// Speaks first: hands out the advertisement and awaits the challenge.
    fn advertise(&mut self) -> (advertisement: Vec<u8>)
        requires
            old(self).state == SessionState::Started,
        ensures
            advertisement@ == mechanism_advertisement(),
            final(self)@ == (SessionModel { state: SessionState::AwaitingChallenge, ..old(self)@ }),
    {
        let advertisement: Vec<u8> = vec![83u8, 105u8, 103u8, 86u8, 52u8, 0u8, 0u8];
        self.state = SessionState::AwaitingChallenge;
        advertisement
    }

    /// Where the session stands.
    pub fn state(&self) -> (state: SessionState)
        ensures
            state == self@.state,
    {
        self.state
    }

    /// Takes the challenge of the service. On success the session holds the
    /// nonce, and the caller asks the source of credentials and hands the
    /// answer to [`Self::on_credentials`]. Every failure is final.
    pub fn on_challenge(&mut self, challenge: &[u8]) -> (taken: Result<(), AuthError>)
        ensures
            final(self)@ == after_challenge(old(self)@, challenge@),
            match challenge_outcome(old(self)@, challenge@) {
                Ok(_) => taken is Ok,
                Err(error) => taken == Err::<(), AuthError>(error),
            },
    {
        if self.state != SessionState::AwaitingChallenge {
            self.state = SessionState::Failed;
            return Err(AuthError::ProtocolSequenceViolation);
        }
        let nonce = match extract_nonce(challenge) {
            Ok(nonce) => nonce,
            Err(error) => {
                self.state = SessionState::Failed;
                return Err(error);
            },
        };
        if self.config.region.is_none() {
            self.state = SessionState::Failed;
            return Err(AuthError::MissingRegion);
        }
        if !self.config.has_credentials_provider {
            self.state = SessionState::Failed;
            return Err(AuthError::MissingCredentialSource);
        }
        self.nonce = nonce;
        self.state = SessionState::ChallengeReceived;
        Ok(())
    }

    /// Takes the challenge as a transport hands it over, with a token that
    /// may be absent. An absent token carries no nonce: it is taken as a
    /// challenge of no bytes, so that a session that awaits its challenge
    /// fails for want of the prefix. In all else this is
    /// [`Self::on_challenge`].
    pub fn evaluate_challenge(&mut self, token: Option<&[u8]>) -> (taken: Result<(), AuthError>)
        ensures
            final(self)@ == after_challenge(old(self)@, token_challenge(token)),
            match challenge_outcome(old(self)@, token_challenge(token)) {
                Ok(_) => taken is Ok,
                Err(error) => taken == Err::<(), AuthError>(error),
            },
            token is None && old(self)@.state == SessionState::AwaitingChallenge ==> taken == Err::<
                (),
                AuthError,
            >(AuthError::MissingNoncePrefix),
    {
        match token {
            Some(bytes) => self.on_challenge(bytes),
            None => {
                let empty: Vec<u8> = Vec::new();
                proof {
                    reveal_strlit("nonce=");
                    assert(valid_utf8(empty@));
                    assert(decode_utf8(empty@).len() == 0);
                }
                self.on_challenge(empty.as_slice())
            },
        }
    }

    /// Whether [`Self::on_credentials`] can be called with these
    /// credentials at this instant.
    pub fn can_sign_with(&self, credentials: &Credentials, now: Timestamp) -> (fits: bool)
        ensures
            fits == credentials_fit(self@, *credentials, now@),
    {
        match &self.config.region {
            Some(region) => can_sign(
                region.as_str(),
                self.nonce.as_str(),
                credentials.access_key_id.as_str(),
                credentials.secret_access_key.as_str(),
                now,
            ),
            None => true,
        }
    }

    /// Takes what the source of credentials answered, and the instant at
    /// which it did. With credentials, the session signs the nonce and hands
    /// out the bytes of the response, in which the signature has 64
    /// characters; with the cause of a failure, it fails. Out of turn it
    /// fails too. Every failure is final.
    pub fn on_credentials(
        &mut self,
        outcome: Result<Credentials, String>,
        now: Timestamp,
    ) -> (made: Result<Vec<u8>, AuthError>)
        requires
            old(self)@.state == SessionState::ChallengeReceived ==> (outcome matches Ok(credentials)
                ==> credentials_fit(old(self)@, credentials, now@)),
        ensures
            final(self)@.region == old(self)@.region,
            final(self)@.has_credentials_provider == old(self)@.has_credentials_provider,
            final(self)@.nonce == old(self)@.nonce,
            old(self)@.state != SessionState::ChallengeReceived ==> made == Err::<
                Vec<u8>,
                AuthError,
            >(AuthError::ProtocolSequenceViolation) && final(self)@.state == SessionState::Failed,
            old(self)@.state == SessionState::ChallengeReceived ==> match outcome {
                Ok(credentials) => {
                    &&& old(self)@.region matches Some(region)
                    &&& made matches Ok(response)
                    &&& response@ == challenge_response(region, old(self)@.nonce, credentials, now@)
                    &&& signature_of(
                        region,
                        old(self)@.nonce,
                        credentials.access_key_id@,
                        credentials.secret_access_key@,
                        now@,
                    ).len() == HEX_DIGEST_LEN
                    &&& final(self)@.state == SessionState::Completed
                },
                Err(cause) => {
                    &&& made == Err::<Vec<u8>, AuthError>(AuthError::CredentialSourceError(cause))
                    &&& final(self)@.state == SessionState::Failed
                },
            },
    {
        proof {
            use_type_invariant(&*self);
        }
        if self.state != SessionState::ChallengeReceived {
            self.state = SessionState::Failed;
            return Err(AuthError::ProtocolSequenceViolation);
        }
        let credentials = match outcome {
            Ok(credentials) => credentials,
            Err(cause) => {
                self.state = SessionState::Failed;
                return Err(AuthError::CredentialSourceError(cause));
            },
        };
        let session_token = match &credentials.session_token {
            Some(token) => Some(token.as_str()),
            None => None,
        };
        let response = match &self.config.region {
            Some(region) => build_signed_response(
                region.as_str(),
                self.nonce.as_str(),
                credentials.access_key_id.as_str(),
                credentials.secret_access_key.as_str(),
                session_token,
                now,
            ),
            None => {
                proof {
                    assert(false);
                }
                String::new()
            },
        };
        self.state = SessionState::Completed;
        Ok(response.as_str().as_bytes_vec())
    }

    /// Takes the notice of success. Nothing is computed and nothing
    /// changes.
    pub fn on_success(&mut self, token: &[u8]) -> (acknowledged: Result<(), AuthError>)
        ensures
            acknowledged is Ok,
            final(self)@ == old(self)@,
    {
        Ok(())
    }
}

} // verus!
