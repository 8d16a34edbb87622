//! The repeating-keystream cipher that protects stored secrets.
//!
//! The keystream is the SHA-256 digest of the vault passphrase, repeated as
//! often as the data is long; each data byte is combined with its keystream
//! byte by exclusive or. The scheme is its own inverse and carries no
//! authentication: a changed ciphertext decrypts to changed bytes without any
//! sign of tampering.

use vstd::prelude::*;
use vstd::utf8::{decode_utf8, encode_utf8, valid_utf8};
use crate::digest::{sha256, sha256_digest, DIGEST_LEN};
use crate::error::VaultError;

verus! {

/// The byte of the keystream at position `i`: the key, repeated. An empty
/// key gives a keystream of zeros, which changes nothing.
pub open spec fn keystream_byte(key: Seq<u8>, i: int) -> u8 {
    if key.len() == 0 {
        0
    } else {
        key[i % (key.len() as int)]
    }
}

/// `data` combined byte by byte, by exclusive or, with the keystream of
/// `key`.
pub open spec fn keystream_xor(data: Seq<u8>, key: Seq<u8>) -> Seq<u8> {
    Seq::new(data.len(), |i: int| data[i] ^ keystream_byte(key, i))
}

/// The keystream that a passphrase stands for.
pub open spec fn passphrase_key(passphrase: Seq<char>) -> Seq<u8> {
    sha256(encode_utf8(passphrase))
}

/// Ciphertext of a secret text under a passphrase.
pub open spec fn encrypt_spec(secret: Seq<char>, passphrase: Seq<char>) -> Seq<u8> {
    keystream_xor(encode_utf8(secret), passphrase_key(passphrase))
}

/// The bytes that a ciphertext decrypts to under a passphrase, before they
/// are read as text.
pub open spec fn decrypt_bytes_spec(encrypted: Seq<u8>, passphrase: Seq<char>) -> Seq<u8> {
    keystream_xor(encrypted, passphrase_key(passphrase))
}

/// The text that a ciphertext decrypts to, if its bytes are UTF-8.
pub open spec fn decrypt_spec(encrypted: Seq<u8>, passphrase: Seq<char>) -> Option<Seq<char>> {
    let plain = decrypt_bytes_spec(encrypted, passphrase);
    if valid_utf8(plain) {
        Some(decode_utf8(plain))
    } else {
        None
    }
}

/// Two keys give the same keystream over the first `len` positions.
pub open spec fn keys_agree(key_a: Seq<u8>, key_b: Seq<u8>, len: nat) -> bool {
    forall|i: int| 0 <= i < len ==> keystream_byte(key_a, i) == keystream_byte(key_b, i)
}

/// Applying the same keystream twice gives the data back.
pub proof fn lemma_keystream_involution(data: Seq<u8>, key: Seq<u8>)
    ensures
        keystream_xor(keystream_xor(data, key), key) == data,
{
    let twice = keystream_xor(keystream_xor(data, key), key);
    assert forall|i: int| 0 <= i < data.len() implies twice[i] == data[i] by {
        let d = data[i];
        let k = keystream_byte(key, i);
        assert((d ^ k) ^ k == d) by (bit_vector);
    }
    assert(twice =~= data);
}

/// Decrypting with another key gives the data back exactly when the two
/// keystreams agree over the length of the data.
pub proof fn lemma_keystream_other_key(data: Seq<u8>, key_a: Seq<u8>, key_b: Seq<u8>)
    ensures
        keystream_xor(keystream_xor(data, key_a), key_b) == data <==> keys_agree(
            key_a,
            key_b,
            data.len(),
        ),
{
    let twice = keystream_xor(keystream_xor(data, key_a), key_b);
    assert forall|i: int| 0 <= i < data.len() implies (twice[i] == data[i] <==> keystream_byte(
        key_a,
        i,
    ) == keystream_byte(key_b, i)) by {
        let d = data[i];
        let a = keystream_byte(key_a, i);
        let b = keystream_byte(key_b, i);
        assert(((d ^ a) ^ b == d) <==> (a == b)) by (bit_vector);
    }
    if keys_agree(key_a, key_b, data.len()) {
        assert(twice =~= data);
    }
}

/// Calls `String::from_utf8`. Trusted: the bytes are accepted exactly when
/// they are well-formed UTF-8, and the text then holds the characters that
/// they encode.
#[verifier::external_body]
pub(crate) fn string_from_utf8(bytes: Vec<u8>) -> (out: Option<String>)
    ensures
        out is Some <==> valid_utf8(bytes@),
        out matches Some(text) ==> text@ == decode_utf8(bytes@),
{
    String::from_utf8(bytes).ok()
}

/// Combines `data` with the repeated `key`.
pub fn xor_with_key(data: &[u8], key: &[u8]) -> (out: Vec<u8>)
    ensures
        out@ == keystream_xor(data@, key@),
{
    let mut out: Vec<u8> = Vec::with_capacity(data.len());
    let mut i: usize = 0;
    while i < data.len()
        invariant
            i <= data.len(),
            out@ == keystream_xor(data@, key@).take(i as int),
        decreases data.len() - i,
    {
        let byte = if key.len() == 0 {
            let d = data[i];
            assert(d ^ 0u8 == d) by (bit_vector);
            d
        } else {
            data[i] ^ key[i % key.len()]
        };
        out.push(byte);
        i += 1;
        assert(out@ =~= keystream_xor(data@, key@).take(i as int));
    }
    assert(out@ =~= keystream_xor(data@, key@));
    out
}

/// Encrypts a secret text under a passphrase.
pub fn encrypt_password(password: &str, sqlite_password: &str) -> (out: Vec<u8>)
    ensures
        out@ == encrypt_spec(password@, sqlite_password@),
        passphrase_key(sqlite_password@).len() == DIGEST_LEN,
{
    let key = sha256_digest(sqlite_password.as_bytes());
    xor_with_key(password.as_bytes(), key.as_slice())
}

/// Decrypts a ciphertext under a passphrase. Fails where the decrypted bytes
/// are no UTF-8 text, as happens with a wrong passphrase or a damaged
/// ciphertext.
pub fn decrypt_password(encrypted: &[u8], sqlite_password: &str) -> (out: Result<
    String,
    VaultError,
>)
    ensures
        out is Ok <==> decrypt_spec(encrypted@, sqlite_password@) is Some,
        out matches Ok(text) ==> Some(text@) == decrypt_spec(encrypted@, sqlite_password@),
        out matches Err(e) ==> e == VaultError::DecryptError,
        passphrase_key(sqlite_password@).len() == DIGEST_LEN,
{
    let key = sha256_digest(sqlite_password.as_bytes());
    let plain = xor_with_key(encrypted, key.as_slice());
    match string_from_utf8(plain) {
        Some(text) => Ok(text),
        None => Err(VaultError::DecryptError),
    }
}

/// Encrypting and then decrypting under one passphrase gives the secret back.
pub proof fn lemma_encrypt_decrypt_round_trip(secret: Seq<char>, passphrase: Seq<char>)
    ensures
        decrypt_spec(encrypt_spec(secret, passphrase), passphrase) == Some(secret),
{
    lemma_keystream_involution(encode_utf8(secret), passphrase_key(passphrase));
    vstd::utf8::encode_utf8_valid_utf8(secret);
    vstd::utf8::encode_utf8_decode_utf8(secret);
}

/// Decrypting under another passphrase gives the secret back exactly when
/// the two passphrases' keystreams agree over the length of the secret.
pub proof fn lemma_decrypt_with_other_passphrase(
    secret: Seq<char>,
    passphrase: Seq<char>,
    other: Seq<char>,
)
    ensures
        decrypt_spec(encrypt_spec(secret, passphrase), other) == Some(secret) <==> keys_agree(
            passphrase_key(passphrase),
            passphrase_key(other),
            encode_utf8(secret).len(),
        ),
{
    let bytes = encode_utf8(secret);
    let key_a = passphrase_key(passphrase);
    let key_b = passphrase_key(other);
    lemma_keystream_other_key(bytes, key_a, key_b);
    vstd::utf8::encode_utf8_valid_utf8(secret);
    vstd::utf8::encode_utf8_decode_utf8(secret);
    let plain = keystream_xor(keystream_xor(bytes, key_a), key_b);
    if decrypt_spec(encrypt_spec(secret, passphrase), other) == Some(secret) {
        assert(valid_utf8(plain));
        assert(decode_utf8(plain) == secret);
        vstd::utf8::decode_utf8_encode_utf8(plain);
        assert(plain == bytes);
    }
}

} // verus!
