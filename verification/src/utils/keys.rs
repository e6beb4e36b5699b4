//! Key material of one user: generation, the stored forms of both halves,
//! and reading them back.
//!
//! The public half is kept in the user record as the base64 text of its
//! PKCS#1 PEM text. The private half is kept as PEM text in trusted storage,
//! under a path that the user's identifier alone decides. Nothing is cached:
//! every use reads the stored form again.

use crate::error::KeyError;
use crate::models::User;
use crate::trusted::{
    base64_decode, base64_encode, base64_standard_decoded, base64_standard_encoded,
    rsa_generate_key_pair, rsa_key_pair, rsa_modulus_len, rsa_private_key_parses,
    rsa_private_pem_parses,
    rsa_public_key_parses, rsa_public_pem_parses, string_from_utf8, uuid_hyphenated,
    uuid_to_string,
};
use vstd::prelude::*;
use vstd::utf8::{decode_utf8, encode_utf8, valid_utf8};

verus! {

/// Size in bits of the modulus of a generated key.
pub const RSA_KEY_BITS: usize = 2048;

/// The longest key text, in bytes, that is given a stored form.
pub const MAX_KEY_TEXT_BYTES: usize = 0x3fff_ffff;

/// The public half of a user's key: the PKCS#1 PEM text of an RSA public key.
#[derive(Debug)]
pub struct PublicKeyMaterial {
    pub pem: String,
}

/// The private half of a user's key: the PKCS#1 PEM text of an RSA private
/// key. It is read afresh from trusted storage for every decryption and
/// dropped after it.
#[derive(Debug)]
pub struct PrivateKeyMaterial {
    pub pem: String,
}

/// A freshly generated key pair with the two things that are persisted: the
/// stored form of the public half, for the user record, and the path in
/// trusted storage under which the private text is written.
#[derive(Debug)]
pub struct GeneratedKey {
    pub public_key: PublicKeyMaterial,
    pub private_key: PrivateKeyMaterial,
    pub public_key_b64: String,
    pub private_key_path: String,
}

/// `stored` is the stored form of the public key text `pem`, and reads back
/// as its bytes.
pub open spec fn is_stored_form_of(stored: Seq<char>, pem: Seq<char>) -> bool {
    &&& stored == base64_standard_encoded(encode_utf8(pem))
    &&& base64_standard_decoded(stored) == Some(encode_utf8(pem))
}

/// The key text that a stored public key reads back as: `Decode` where the
/// stored form is no base64 text, its bytes no UTF-8, or the text no key.
pub open spec fn decode_public_key_spec(stored: Seq<char>) -> Result<Seq<char>, KeyError> {
    match base64_standard_decoded(stored) {
        Some(bytes) => if valid_utf8(bytes) && rsa_public_key_parses(decode_utf8(bytes)) {
            Ok(decode_utf8(bytes))
        } else {
            Err(KeyError::Decode)
        },
        None => Err(KeyError::Decode),
    }
}

/// The public key of a user record: `NotFound` where the record holds none.
pub open spec fn fetch_public_spec(public_key: Option<String>) -> Result<Seq<char>, KeyError> {
    match public_key {
        Some(stored) => decode_public_key_spec(stored@),
        None => Err(KeyError::NotFound),
    }
}

/// The private key of a trusted-storage entry: `NotFound` where there is no
/// entry, `Decode` where its text is no key.
pub open spec fn fetch_private_spec(entry: Option<String>) -> Result<Seq<char>, KeyError> {
    match entry {
        Some(pem) => if rsa_private_key_parses(pem@) {
            Ok(pem@)
        } else {
            Err(KeyError::Decode)
        },
        None => Err(KeyError::NotFound),
    }
}

/// The directory of trusted storage that holds the private keys.
pub open spec fn private_keys_dir() -> Seq<char> {
    "assets/private_keys"@
}

/// The path of a user's private key in trusted storage: the user's
/// identifier in hyphenated form, with the extension `.pem`, in the directory
/// of private keys.
pub open spec fn private_key_path_spec(user_id: u128) -> Seq<char> {
    private_keys_dir() + "/"@ + uuid_hyphenated(user_id) + ".pem"@
}

/// A generated key is well formed: its halves are a key pair that the cipher
/// reads back, with a modulus of `RSA_KEY_BITS` bits; the stored form is that
/// of the public half, and the path is the user's.
pub open spec fn is_key_of(generated: GeneratedKey, user_id: u128) -> bool {
    &&& rsa_key_pair(generated.public_key.pem@, generated.private_key.pem@)
    &&& rsa_modulus_len(generated.public_key.pem@) * 8 == RSA_KEY_BITS
    &&& rsa_public_key_parses(generated.public_key.pem@)
    &&& rsa_private_key_parses(generated.private_key.pem@)
    &&& is_stored_form_of(generated.public_key_b64@, generated.public_key.pem@)
    &&& generated.private_key_path@ == private_key_path_spec(user_id)
}

/// The path in trusted storage under which a user's private key is kept.
pub fn private_key_path(user_id: u128) -> (r: String)
    ensures
        r@ == private_key_path_spec(user_id),
{
    let mut path = "assets/private_keys".to_owned();
    path.append("/");
    path.append(uuid_to_string(user_id).as_str());
    path.append(".pem");
    path
}

/// The stored form of a public key: the base64 text of its PEM text. `None`
/// where the text is longer than `MAX_KEY_TEXT_BYTES`.
pub fn encode_public_key(key: &PublicKeyMaterial) -> (r: Option<String>)
    ensures
        r is Some <==> encode_utf8(key.pem@).len() <= MAX_KEY_TEXT_BYTES,
        r matches Some(stored) ==> is_stored_form_of(stored@, key.pem@),
{
    let bytes = key.pem.as_str().as_bytes();
    if bytes.len() > MAX_KEY_TEXT_BYTES {
        None
    } else {
        Some(base64_encode(bytes))
    }
}

/// Reads a stored public key back into key material.
pub fn decode_public_key(stored: &str) -> (r: Result<PublicKeyMaterial, KeyError>)
    ensures
        match r {
            Ok(key) => decode_public_key_spec(stored@) == Ok::<Seq<char>, KeyError>(key.pem@),
            Err(e) => decode_public_key_spec(stored@) == Err::<Seq<char>, KeyError>(e),
        },
{
    let bytes = match base64_decode(stored) {
        Some(bytes) => bytes,
        None => {
            return Err(KeyError::Decode);
        },
    };
    let pem = match string_from_utf8(bytes) {
        Some(pem) => pem,
        None => {
            return Err(KeyError::Decode);
        },
    };
    if rsa_public_pem_parses(pem.as_str()) {
        Ok(PublicKeyMaterial { pem })
    } else {
        Err(KeyError::Decode)
    }
}

/// The public key of `user`, read from the user record.
pub fn fetch_public(user: &User) -> (r: Result<PublicKeyMaterial, KeyError>)
    ensures
        match r {
            Ok(key) => fetch_public_spec(user.public_key) == Ok::<Seq<char>, KeyError>(key.pem@),
            Err(e) => fetch_public_spec(user.public_key) == Err::<Seq<char>, KeyError>(e),
        },
{
    match &user.public_key {
        Some(stored) => decode_public_key(stored.as_str()),
        None => Err(KeyError::NotFound),
    }
}

/// The private key of a user, from the entry that trusted storage holds for
/// the user, `None` where it holds none.
pub fn fetch_private(entry: Option<String>) -> (r: Result<PrivateKeyMaterial, KeyError>)
    ensures
        match r {
            Ok(key) => fetch_private_spec(entry) == Ok::<Seq<char>, KeyError>(key.pem@),
            Err(e) => fetch_private_spec(entry) == Err::<Seq<char>, KeyError>(e),
        },
{
    match entry {
        Some(pem) => if rsa_private_pem_parses(pem.as_str()) {
            Ok(PrivateKeyMaterial { pem })
        } else {
            Err(KeyError::Decode)
        },
        None => Err(KeyError::NotFound),
    }
}

/// Generates the key pair of the user `user_id`: an RSA key of
/// `RSA_KEY_BITS` bits, with the stored form of its public half and the path
/// for its private half. Persisting the two is the caller's part. Fails with
/// `KeyGeneration` where the generator fails.
pub fn generate_key(user_id: u128) -> (r: Result<GeneratedKey, KeyError>)
    ensures
        r matches Ok(generated) ==> is_key_of(generated, user_id),
        r matches Err(e) ==> e == KeyError::KeyGeneration,
{
    let (public_pem, private_pem) = match rsa_generate_key_pair(RSA_KEY_BITS) {
        Some(pair) => pair,
        None => {
            return Err(KeyError::KeyGeneration);
        },
    };
    let public_key = PublicKeyMaterial { pem: public_pem };
    let public_key_b64 = match encode_public_key(&public_key) {
        Some(stored) => stored,
        None => {
            return Err(KeyError::KeyGeneration);
        },
    };
    Ok(
        GeneratedKey {
            public_key,
            private_key: PrivateKeyMaterial { pem: private_pem },
            public_key_b64,
            private_key_path: private_key_path(user_id),
        },
    )
}

/// The outcome of persisting a generated key, from the outcomes of the two
/// writes: the key counts as stored only where both the user record and
/// trusted storage took their half. After any other outcome the user is
/// keyless and the failure is reported.
pub fn key_store_outcome(public_key_saved: bool, private_key_written: bool) -> (r: Result<
    (),
    KeyError,
>)
    ensures
        r is Ok <==> public_key_saved && private_key_written,
        r matches Err(e) ==> e == KeyError::Persistence,
{
    if public_key_saved && private_key_written {
        Ok(())
    } else {
        Err(KeyError::Persistence)
    }
}

} // verus!
