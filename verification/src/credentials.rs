//! The credential vault: one record with the account's user name, its
//! encrypted password and, once logged in, the session that lets the next
//! start resume without the password.
//!
//! The vault works on the record in memory. Whoever owns the storage loads
//! the record before an operation and writes it back after one that changed
//! it; each operation reads or replaces the one record as a whole.

use vstd::prelude::*;
use vstd::utf8::encode_utf8;
use crate::cipher::{
    decrypt_password,
    decrypt_spec,
    encrypt_password,
    encrypt_spec,
    keys_agree,
    keystream_byte,
    passphrase_key,
};
use crate::error::{SessionField, VaultError};

verus! {

/// The stored record.
#[derive(Debug, Clone)]
pub struct CredentialRecord {
    pub username: String,
    pub password_encrypted: Vec<u8>,
    pub device_id: Option<String>,
    pub access_token_encrypted: Option<Vec<u8>>,
    pub user_id: Option<String>,
}

/// What a record holds, as plain sequences.
pub struct RecordView {
    pub username: Seq<char>,
    pub password_encrypted: Seq<u8>,
    pub device_id: Option<Seq<char>>,
    pub access_token_encrypted: Option<Seq<u8>>,
    pub user_id: Option<Seq<char>>,
}

impl View for CredentialRecord {
    type V = RecordView;

    open spec fn view(&self) -> RecordView {
        RecordView {
            username: self.username@,
            password_encrypted: self.password_encrypted@,
            device_id: match self.device_id {
                Some(s) => Some(s@),
                None => None,
            },
            access_token_encrypted: match self.access_token_encrypted {
                Some(b) => Some(b@),
                None => None,
            },
            user_id: match self.user_id {
                Some(s) => Some(s@),
                None => None,
            },
        }
    }
}

impl RecordView {
    /// The three session fields are present together or absent together.
    pub open spec fn wf(self) -> bool {
        &&& self.device_id is Some <==> self.access_token_encrypted is Some
        &&& self.device_id is Some <==> self.user_id is Some
    }
}

/// The view of a record that may be absent.
pub open spec fn record_view(record: Option<CredentialRecord>) -> Option<RecordView> {
    match record {
        Some(r) => Some(r@),
        None => None,
    }
}

/// The record that `store_credentials` leaves behind: the user name, the
/// encrypted password, and no session.
pub open spec fn stored_record(
    username: Seq<char>,
    password: Seq<char>,
    passphrase: Seq<char>,
) -> RecordView {
    RecordView {
        username,
        password_encrypted: encrypt_spec(password, passphrase),
        device_id: None,
        access_token_encrypted: None,
        user_id: None,
    }
}

/// What `get_credentials` returns on a vault.
pub open spec fn retrieve_spec(vault: Option<RecordView>, passphrase: Seq<char>) -> Result<
    (Seq<char>, Seq<char>),
    VaultError,
> {
    match vault {
        None => Err(VaultError::DecryptError),
        Some(r) => match decrypt_spec(r.password_encrypted, passphrase) {
            Some(password) => Ok((r.username, password)),
            None => Err(VaultError::DecryptError),
        },
    }
}

/// A session is stored: all three fields are present and none is empty.
pub open spec fn session_present(vault: Option<RecordView>) -> bool {
    match vault {
        None => false,
        Some(r) => {
            &&& r.device_id matches Some(d) && d.len() > 0
            &&& r.access_token_encrypted matches Some(t) && t.len() > 0
            &&& r.user_id matches Some(u) && u.len() > 0
        },
    }
}

/// The record with a new session in place of whatever session it had.
pub open spec fn with_session(
    record: RecordView,
    device_id: Seq<char>,
    access_token: Seq<char>,
    user_id: Seq<char>,
    passphrase: Seq<char>,
) -> RecordView {
    RecordView {
        device_id: Some(device_id),
        access_token_encrypted: Some(encrypt_spec(access_token, passphrase)),
        user_id: Some(user_id),
        ..record
    }
}

/// The record without its session.
pub open spec fn without_session(record: RecordView) -> RecordView {
    RecordView { device_id: None, access_token_encrypted: None, user_id: None, ..record }
}

/// The vault after `clear_session`.
pub open spec fn cleared(vault: Option<RecordView>) -> Option<RecordView> {
    match vault {
        None => None,
        Some(r) => Some(without_session(r)),
    }
}

/// What `get_session` returns on a vault: device id, access token, user id.
pub open spec fn session_spec(vault: Option<RecordView>, passphrase: Seq<char>) -> Result<
    (Seq<char>, Seq<char>, Seq<char>),
    VaultError,
> {
    match vault {
        None => Err(VaultError::NoCredentialRow),
        Some(r) => match (r.device_id, r.access_token_encrypted, r.user_id) {
            (None, _, _) => Err(VaultError::MissingField(SessionField::DeviceId)),
            (Some(_), None, _) => Err(VaultError::MissingField(SessionField::AccessToken)),
            (Some(_), Some(_), None) => Err(VaultError::MissingField(SessionField::UserId)),
            (Some(d), Some(t), Some(u)) => match decrypt_spec(t, passphrase) {
                Some(token) => Ok((d, token, u)),
                None => Err(VaultError::DecryptError),
            },
        },
    }
}

/// The view of a result that holds two texts.
pub open spec fn pair_view(r: Result<(String, String), VaultError>) -> Result<
    (Seq<char>, Seq<char>),
    VaultError,
> {
    match r {
        Ok((a, b)) => Ok((a@, b@)),
        Err(e) => Err(e),
    }
}

/// The view of a result that holds three texts.
pub open spec fn triple_view(r: Result<(String, String, String), VaultError>) -> Result<
    (Seq<char>, Seq<char>, Seq<char>),
    VaultError,
> {
    match r {
        Ok((a, b, c)) => Ok((a@, b@, c@)),
        Err(e) => Err(e),
    }
}

/// The vault. It knows where its record is kept and holds the record, if
/// there is one.
#[derive(Debug, Clone)]
pub struct CredentialStore {
    db_path: String,
    record: Option<CredentialRecord>,
}

impl View for CredentialStore {
    type V = Option<RecordView>;

    closed spec fn view(&self) -> Option<RecordView> {
        record_view(self.record)
    }
}

impl CredentialStore {
    /// Where the record is kept.
    pub closed spec fn path(&self) -> Seq<char> {
        self.db_path@
    }

    /// The record, if there is one, keeps its session fields together.
    pub open spec fn wf(&self) -> bool {
        self@ matches Some(r) ==> r.wf()
    }

    /// An empty vault for the storage at `db_path`.
    pub fn new(db_path: &str) -> (store: Self)
        ensures
            store@ is None,
            store.path() == db_path@,
            store.wf(),
    {
        CredentialStore { db_path: db_path.to_owned(), record: None }
    }

    /// A vault for the storage at `db_path` that holds what was read from it.
    pub fn with_record(db_path: &str, record: Option<CredentialRecord>) -> (store: Self)
        ensures
            store@ == record_view(record),
            store.path() == db_path@,
    {
        CredentialStore { db_path: db_path.to_owned(), record }
    }

    /// Where the record is kept.
    pub fn db_path(&self) -> (out: &str)
        ensures
            out@ == self.path(),
    {
        self.db_path.as_str()
    }

    /// The record as it has to be written back.
    pub fn record(&self) -> (out: &Option<CredentialRecord>)
        ensures
            record_view(*out) == self@,
    {
        &self.record
    }

    /// True exactly when a credential record exists.
    pub fn credentials_exist(&self) -> (out: bool)
        ensures
            out == (self@ is Some),
    {
        self.record.is_some()
    }

    /// Replaces the record by one that holds `username` and the password,
    /// encrypted under `sqlite_password`. A session stored before is gone.
    pub fn store_credentials(&mut self, username: &str, password: &str, sqlite_password: &str)
        ensures
            final(self)@ == Some(stored_record(username@, password@, sqlite_password@)),
            final(self).path() == old(self).path(),
            final(self).wf(),
    {
        let encrypted = encrypt_password(password, sqlite_password);
        self.record = Some(
            CredentialRecord {
                username: username.to_owned(),
                password_encrypted: encrypted,
                device_id: None,
                access_token_encrypted: None,
                user_id: None,
            },
        );
    }

    /// The user name and the password, decrypted under `sqlite_password`.
    /// Fails with `DecryptError` where there is no record or the decrypted
    /// bytes are no text.
    pub fn get_credentials(&self, sqlite_password: &str) -> (out: Result<
        (String, String),
        VaultError,
    >)
        ensures
            pair_view(out) == retrieve_spec(self@, sqlite_password@),
    {
        match &self.record {
            None => Err(VaultError::DecryptError),
            Some(r) => {
                match decrypt_password(r.password_encrypted.as_slice(), sqlite_password) {
                    Ok(password) => Ok((r.username.clone(), password)),
                    Err(_) => Err(VaultError::DecryptError),
                }
            },
        }
    }

    /// True exactly when all three session fields are present and none is
    /// empty.
    pub fn session_exists(&self) -> (out: bool)
        ensures
            out == session_present(self@),
    {
        match &self.record {
            None => false,
            Some(r) => match (&r.device_id, &r.access_token_encrypted, &r.user_id) {
                (Some(d), Some(t), Some(u)) => {
                    !d.as_str().is_empty() && t.len() > 0 && !u.as_str().is_empty()
                },
                _ => false,
            },
        }
    }

    /// Stores a session beside the password: the device id and the user id
    /// as they are, the access token encrypted under `sqlite_password`.
    /// Fails with `NoCredentialRow`, and changes nothing, where no record
    /// exists yet.
    pub fn store_session(
        &mut self,
        device_id: &str,
        access_token: &str,
        user_id: &str,
        sqlite_password: &str,
    ) -> (out: Result<(), VaultError>)
        ensures
            final(self).path() == old(self).path(),
            match old(self)@ {
                None => out == Err::<(), VaultError>(VaultError::NoCredentialRow) && final(self)@
                    == old(self)@,
                Some(r) => out is Ok && final(self)@ == Some(
                    with_session(r, device_id@, access_token@, user_id@, sqlite_password@),
                ),
            },
            out is Ok ==> final(self).wf(),
    {
        let encrypted = encrypt_password(access_token, sqlite_password);
        match self.record.take() {
            None => Err(VaultError::NoCredentialRow),
            Some(r) => {
                self.record = Some(
                    CredentialRecord {
                        username: r.username,
                        password_encrypted: r.password_encrypted,
                        device_id: Some(device_id.to_owned()),
                        access_token_encrypted: Some(encrypted),
                        user_id: Some(user_id.to_owned()),
                    },
                );
                Ok(())
            },
        }
    }

    /// The stored session: device id, access token decrypted under
    /// `sqlite_password`, user id. Fails with `NoCredentialRow` where there
    /// is no record, with `MissingField` naming the first session field
    /// that is absent, and with `DecryptError` where the decrypted token is
    /// no text.
    pub fn get_session(&self, sqlite_password: &str) -> (out: Result<
        (String, String, String),
        VaultError,
    >)
        ensures
            triple_view(out) == session_spec(self@, sqlite_password@),
    {
        match &self.record {
            None => Err(VaultError::NoCredentialRow),
            Some(r) => {
                let device_id = match &r.device_id {
                    Some(d) => d.clone(),
                    None => { return Err(VaultError::MissingField(SessionField::DeviceId)); },
                };
                let encrypted = match &r.access_token_encrypted {
                    Some(t) => t,
                    None => { return Err(VaultError::MissingField(SessionField::AccessToken)); },
                };
                let user_id = match &r.user_id {
                    Some(u) => u.clone(),
                    None => { return Err(VaultError::MissingField(SessionField::UserId)); },
                };
                match decrypt_password(encrypted.as_slice(), sqlite_password) {
                    Ok(token) => Ok((device_id, token, user_id)),
                    Err(_) => Err(VaultError::DecryptError),
                }
            },
        }
    }

    /// Removes the session and keeps the user name and the password, so
    /// that a session that was logged out is never resumed.
    pub fn clear_session(&mut self)
        ensures
            final(self)@ == cleared(old(self)@),
            final(self).path() == old(self).path(),
            final(self).wf(),
    {
        match self.record.take() {
            None => {},
            Some(r) => {
                self.record = Some(
                    CredentialRecord {
                        username: r.username,
                        password_encrypted: r.password_encrypted,
                        device_id: None,
                        access_token_encrypted: None,
                        user_id: None,
                    },
                );
            },
        }
    }
}

/// Storing a password and retrieving it under the same passphrase gives the
/// user name and the password back.
pub proof fn lemma_store_then_retrieve(
    username: Seq<char>,
    password: Seq<char>,
    passphrase: Seq<char>,
)
    ensures
        retrieve_spec(Some(stored_record(username, password, passphrase)), passphrase) == Ok::<
            (Seq<char>, Seq<char>),
            VaultError,
        >((username, password)),
{
    crate::cipher::lemma_encrypt_decrypt_round_trip(password, passphrase);
}

/// Retrieving under another passphrase gives the stored password back only
/// where the keystreams of the two passphrases agree over the whole length
/// of the password. Wherever they differ at one position that the password
/// reaches, the result is an error or another text.
pub proof fn lemma_retrieve_with_other_passphrase(
    username: Seq<char>,
    password: Seq<char>,
    passphrase: Seq<char>,
    other: Seq<char>,
)
    ensures
        retrieve_spec(Some(stored_record(username, password, passphrase)), other) == Ok::<
            (Seq<char>, Seq<char>),
            VaultError,
        >((username, password)) <==> keys_agree(
            passphrase_key(passphrase),
            passphrase_key(other),
            encode_utf8(password).len(),
        ),
{
    crate::cipher::lemma_decrypt_with_other_passphrase(password, passphrase, other);
}

/// Retrieving under a passphrase whose keystream differs from the stored
/// one at a position that the password reaches never gives the password
/// back.
pub proof fn lemma_wrong_passphrase_never_gives_password(
    username: Seq<char>,
    password: Seq<char>,
    passphrase: Seq<char>,
    other: Seq<char>,
    at: int,
)
    requires
        0 <= at < encode_utf8(password).len(),
        keystream_byte(passphrase_key(passphrase), at) != keystream_byte(
            passphrase_key(other),
            at,
        ),
    ensures
        retrieve_spec(Some(stored_record(username, password, passphrase)), other) != Ok::<
            (Seq<char>, Seq<char>),
            VaultError,
        >((username, password)),
{
    lemma_retrieve_with_other_passphrase(username, password, passphrase, other);
}

/// No session exists once the session was cleared.
pub proof fn lemma_no_session_after_clear(vault: Option<RecordView>)
    ensures
        !session_present(cleared(vault)),
{
}

/// Once a session was stored beside a password, a session exists exactly
/// when none of its three parts is empty.
pub proof fn lemma_session_exists_after_store(
    username: Seq<char>,
    password: Seq<char>,
    device_id: Seq<char>,
    access_token: Seq<char>,
    user_id: Seq<char>,
    passphrase: Seq<char>,
)
    ensures
        session_present(
            Some(
                with_session(
                    stored_record(username, password, passphrase),
                    device_id,
                    access_token,
                    user_id,
                    passphrase,
                ),
            ),
        ) <==> device_id.len() > 0 && access_token.len() > 0 && user_id.len() > 0,
{
    lemma_empty_text_empty_bytes(access_token);
}

/// A stored session is read back as it was stored, under the same
/// passphrase.
pub proof fn lemma_store_session_then_get(
    record: RecordView,
    device_id: Seq<char>,
    access_token: Seq<char>,
    user_id: Seq<char>,
    passphrase: Seq<char>,
)
    ensures
        session_spec(
            Some(with_session(record, device_id, access_token, user_id, passphrase)),
            passphrase,
        ) == Ok::<(Seq<char>, Seq<char>, Seq<char>), VaultError>(
            (device_id, access_token, user_id),
        ),
{
    crate::cipher::lemma_encrypt_decrypt_round_trip(access_token, passphrase);
}

/// Clearing the session leaves the stored password readable.
pub proof fn lemma_clear_keeps_credentials(vault: Option<RecordView>, passphrase: Seq<char>)
    ensures
        retrieve_spec(cleared(vault), passphrase) == retrieve_spec(vault, passphrase),
{
}

/// A text is empty exactly when its UTF-8 encoding is.
pub proof fn lemma_empty_text_empty_bytes(text: Seq<char>)
    ensures
        encode_utf8(text).len() == 0 <==> text.len() == 0,
{
    vstd::utf8::encode_utf8_decode_utf8(text);
    vstd::utf8::encode_utf8_valid_utf8(text);
    if encode_utf8(text).len() == 0 {
        assert(vstd::utf8::decode_utf8(encode_utf8(text)).len() == 0);
    }
}

} // verus!
