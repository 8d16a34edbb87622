//! Error types of the library.

use vstd::prelude::*;

verus! {

/// One of the three fields that together make up a stored session.
#[derive(Debug, Clone, Copy, PartialEq, Eq, Structural)]
pub enum SessionField {
    DeviceId,
    AccessToken,
    UserId,
}

/// Why an operation on the credential vault failed.
#[derive(Debug, Clone, Copy, PartialEq, Eq, Structural)]
pub enum VaultError {
    /// No credential record exists; a login has to come first.
    NoCredentialRow,
    /// The record exists but the named session field is empty.
    MissingField(SessionField),
    /// The record is absent, or the decrypted bytes are no text: the
    /// passphrase is wrong or the record is damaged.
    DecryptError,
}

/// The sentence of a vault error.
pub open spec fn vault_error_text(error: VaultError) -> Seq<char> {
    match error {
        VaultError::NoCredentialRow =>
            "No credentials row found to update session. Please login first."@,
        VaultError::MissingField(SessionField::DeviceId) => "Session device_id is NULL"@,
        VaultError::MissingField(SessionField::AccessToken) => "Session access_token is NULL"@,
        VaultError::MissingField(SessionField::UserId) => "Session user_id is NULL"@,
        VaultError::DecryptError => "Failed to decrypt password"@,
    }
}

impl VaultError {
    /// A sentence for logs and responses.
    pub fn message(&self) -> (out: String)
        ensures
            out@ == vault_error_text(*self),
    {
        match self {
            VaultError::NoCredentialRow =>
                "No credentials row found to update session. Please login first.".to_owned(),
            VaultError::MissingField(SessionField::DeviceId) =>
                "Session device_id is NULL".to_owned(),
            VaultError::MissingField(SessionField::AccessToken) =>
                "Session access_token is NULL".to_owned(),
            VaultError::MissingField(SessionField::UserId) => "Session user_id is NULL".to_owned(),
            VaultError::DecryptError => "Failed to decrypt password".to_owned(),
        }
    }
}

/// Why an operation of the bot failed.
#[derive(Debug, Clone, Copy, PartialEq, Eq, Structural)]
pub enum BotError {
    /// The operation needs a live connection and there is none.
    NotConnected,
    /// The server refused the login.
    AuthFailure,
    /// The verification request, or its challenge, did not turn up within
    /// the attempts allowed.
    NotFound,
    /// The engine or the server refused a call.
    RemoteRejected,
    /// The other device offered a verification method other than the short
    /// authentication string.
    Unsupported,
    /// A user id or a room id is not well-formed.
    InvalidIdentifier,
    /// An observation was handed in that the operation was not waiting for.
    OutOfTurn,
}

/// The sentence of a bot error.
pub open spec fn bot_error_text(error: BotError) -> Seq<char> {
    match error {
        BotError::NotConnected => "Not connected"@,
        BotError::AuthFailure => "Login was refused"@,
        BotError::NotFound => "Verification not found after retries"@,
        BotError::RemoteRejected => "The request was rejected"@,
        BotError::Unsupported => "Unsupported verification type"@,
        BotError::InvalidIdentifier => "Invalid identifier"@,
        BotError::OutOfTurn => "Unexpected observation"@,
    }
}

impl BotError {
    /// A sentence for logs and responses.
    pub fn message(&self) -> (out: String)
        ensures
            out@ == bot_error_text(*self),
    {
        match self {
            BotError::NotConnected => "Not connected".to_owned(),
            BotError::AuthFailure => "Login was refused".to_owned(),
            BotError::NotFound => "Verification not found after retries".to_owned(),
            BotError::RemoteRejected => "The request was rejected".to_owned(),
            BotError::Unsupported => "Unsupported verification type".to_owned(),
            BotError::InvalidIdentifier => "Invalid identifier".to_owned(),
            BotError::OutOfTurn => "Unexpected observation".to_owned(),
        }
    }
}

} // verus!
