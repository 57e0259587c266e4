//! The factory of sessions.
use std::sync::Arc;
use vstd::prelude::*;
use crate::session::{
    mechanism_advertisement, optional_string_text, AwsKeyspacesAuthenticatorSession,
    CredentialSourceConfig, SessionModel, SessionState,
};

verus! {

/// Starts a session of SigV4 authentication for each connection that asks
/// for one. It holds the configuration and nothing else, and never changes.
pub struct AwsKeyspacesAuthenticator {
    config: CredentialSourceConfig,
}

impl AwsKeyspacesAuthenticator {
    /// The configuration that every session of this authenticator gets.
    pub closed spec fn config(&self) -> CredentialSourceConfig {
        self.config
    }

    /// An authenticator for `config`, ready to be shared.
    pub fn new(config: CredentialSourceConfig) -> (made: Arc<AwsKeyspacesAuthenticator>)
        ensures
            made.config() == config,
    {
        Arc::new(AwsKeyspacesAuthenticator { config })
    }

    /// A new session, and the bytes that advertise the mechanism. The name
    /// of the authenticator that the service announced plays no part.
    pub fn start_authentication_session(&self, authenticator_name: &str) -> (started: (
        Vec<u8>,
        AwsKeyspacesAuthenticatorSession,
    ))
        ensures
            started.0@ == mechanism_advertisement(),
            started.1@ == (SessionModel {
                state: SessionState::AwaitingChallenge,
                region: optional_string_text(self.config().region),
                has_credentials_provider: self.config().has_credentials_provider,
                nonce: Seq::empty(),
            }),
    {
        AwsKeyspacesAuthenticatorSession::start(self.config.duplicate())
    }
}

} // verus!
