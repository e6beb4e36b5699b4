//! The calls into other crates, each behind a contract that Verus takes on
//! trust. Every other module of the library is proved against these
//! contracts; nothing here is proved.

use aes::Aes256;
use base64::engine::general_purpose::STANDARD;
use base64::Engine;
use block_modes::block_padding::Pkcs7;
use block_modes::{BlockMode, Cbc};
use chrono::DateTime;
use rand::rngs::OsRng;
use rand::Rng;
use rsa::pkcs1::{
    DecodeRsaPrivateKey, DecodeRsaPublicKey, EncodeRsaPrivateKey, EncodeRsaPublicKey, LineEnding,
};
use rsa::{Pkcs1v15Encrypt, RsaPrivateKey, RsaPublicKey};
use uuid::Uuid;
use vstd::prelude::*;
use vstd::utf8::{decode_utf8, valid_utf8};

verus! {

/// The AES-256 ciphertext of `data` in CBC mode with PKCS#7 padding, under
/// the 32-byte `key` and the 16-byte `iv`.
pub uninterp spec fn aes256_cbc_pkcs7_encrypted(key: Seq<u8>, iv: Seq<u8>, data: Seq<u8>) -> Seq<u8>;

/// What AES-256 decryption in CBC mode gives for `ciphertext` under the
/// 32-byte `key` and the 16-byte `iv` once the PKCS#7 padding is taken off;
/// `None` where the length is no multiple of the block size or the padding is
/// malformed.
pub uninterp spec fn aes256_cbc_pkcs7_decrypted(
    key: Seq<u8>,
    iv: Seq<u8>,
    ciphertext: Seq<u8>,
) -> Option<Seq<u8>>;

/// What RSA decryption with PKCS#1 v1.5 padding gives for `ciphertext` under
/// the private key written in `private_pem` (PKCS#1, PEM), computed with the
/// private exponent alone; `None` where the text is no such key or the
/// decryption is refused.
pub uninterp spec fn rsa_pkcs1v15_decrypted(private_pem: Seq<char>, ciphertext: Seq<u8>) -> Option<
    Seq<u8>,
>;

/// Whether `public_pem` and `private_pem` are the PKCS#1 PEM texts of the two
/// halves of one RSA key as `RsaPrivateKey::new` makes them: a modulus of at
/// least 2048 bits that is the product of two distinct primes, the public
/// exponent 65537, and the private exponent that inverts it. The generator
/// tests its primes by chance, to an error that cryptography accepts; this
/// library accepts it with it.
pub uninterp spec fn rsa_key_pair(public_pem: Seq<char>, private_pem: Seq<char>) -> bool;

/// The length in bytes of the modulus of the RSA public key written in
/// `public_pem` (PKCS#1, PEM): what `PublicKeyParts::size` gives for it.
pub uninterp spec fn rsa_modulus_len(public_pem: Seq<char>) -> nat;

/// Whether `pem` is read as an RSA public key in PKCS#1 PEM form.
pub uninterp spec fn rsa_public_key_parses(pem: Seq<char>) -> bool;

/// Whether `pem` is read as an RSA private key in PKCS#1 PEM form.
pub uninterp spec fn rsa_private_key_parses(pem: Seq<char>) -> bool;

/// The standard base64 text, padded, of `bytes`.
pub uninterp spec fn base64_standard_encoded(bytes: Seq<u8>) -> Seq<char>;

/// The bytes that `text` stands for in standard padded base64; `None` where
/// it is no such text.
pub uninterp spec fn base64_standard_decoded(text: Seq<char>) -> Option<Seq<u8>>;

/// The lower-case hyphenated text of the UUID whose 128 bits are `id`.
pub uninterp spec fn uuid_hyphenated(id: u128) -> Seq<char>;

/// The 128 bits of the UUID that `text` is read as; `None` where it is read
/// as none.
pub uninterp spec fn uuid_parsed(text: Seq<char>) -> Option<u128>;

/// The instant that `text` gives as an RFC 3339 date and time, in
/// microseconds since the Unix epoch; `None` where it is no such text.
pub uninterp spec fn rfc3339_micros(text: Seq<char>) -> Option<i64>;

/// Whether `text` is an e-mail address by the rules of the HTML5 standard.
pub uninterp spec fn email_is_valid(text: Seq<char>) -> bool;

/// `Rng::try_fill` of `rand` on the thread-local generator, into a fresh
/// buffer of `len` bytes. Nothing is claimed of the bytes but their number;
/// `None` is the generator's error.
#[verifier::external_body]
pub(crate) fn random_bytes(len: usize) -> (r: Option<Vec<u8>>)
    ensures
        r matches Some(bytes) ==> bytes@.len() == len,
{
    let mut bytes = vec![0u8; len];
    match rand::thread_rng().try_fill(&mut bytes[..]) {
        Ok(()) => Some(bytes),
        Err(_) => None,
    }
}

/// `Cbc::<Aes256, Pkcs7>::new_from_slices` followed by `encrypt_vec`, of
/// `block-modes`. The cipher is refused exactly when the key is not 32 bytes
/// or the initialization vector not 16. The ciphertext is the payload padded
/// up to the next whole block (a full block where it already fills its last
/// one), and decrypting it under the same key and vector gives the payload
/// back, as the crate documents.
#[verifier::external_body]
pub(crate) fn aes256_cbc_encrypt(key: &[u8], iv: &[u8], data: &[u8]) -> (r: Option<Vec<u8>>)
    requires
        data@.len() + 16 <= isize::MAX,
    ensures
        r is Some <==> (key@.len() == 32 && iv@.len() == 16),
        r matches Some(c) ==> c@ == aes256_cbc_pkcs7_encrypted(key@, iv@, data@),
        r matches Some(c) ==> c@.len() == (data@.len() / 16 + 1) * 16,
        r matches Some(c) ==> aes256_cbc_pkcs7_decrypted(key@, iv@, c@) == Some(data@),
{
    match Cbc::<Aes256, Pkcs7>::new_from_slices(key, iv) {
        Ok(cipher) => Some(cipher.encrypt_vec(data)),
        Err(_) => None,
    }
}

/// `Cbc::<Aes256, Pkcs7>::new_from_slices` followed by `decrypt_vec`, of
/// `block-modes`, for a key of 32 bytes and a vector of 16, which the cipher
/// always accepts. The call fails where the ciphertext is empty or no whole
/// number of blocks, or where the decrypted data does not end in PKCS#7
/// padding; the padding is at least one byte.
#[verifier::external_body]
pub(crate) fn aes256_cbc_decrypt(key: &[u8], iv: &[u8], ciphertext: &[u8]) -> (r: Option<Vec<u8>>)
    requires
        key@.len() == 32,
        iv@.len() == 16,
    ensures
        match r {
            Some(data) => aes256_cbc_pkcs7_decrypted(key@, iv@, ciphertext@) == Some(data@),
            None => aes256_cbc_pkcs7_decrypted(key@, iv@, ciphertext@) is None,
        },
        ciphertext@.len() == 0 || ciphertext@.len() % 16 != 0 ==> r is None,
        r matches Some(data) ==> data@.len() < ciphertext@.len(),
{
    match Cbc::<Aes256, Pkcs7>::new_from_slices(key, iv) {
        Ok(cipher) => cipher.decrypt_vec(ciphertext).ok(),
        Err(_) => None,
    }
}

/// `RsaPrivateKey::from_pkcs1_pem`, `clear_precomputed` and
/// `RsaPrivateKey::decrypt` with `Pkcs1v15Encrypt`, of `rsa`. Without a
/// generator the call blinds nothing, so its result is a function of the key
/// text and the ciphertext. The values that the crate precomputes from the
/// two primes are cleared first: with them the decryption takes a number of
/// steps that grows with the quotient of the primes, which a key text may
/// make as large as it likes; without them it is one exponentiation by the
/// private exponent, which returns for every key that is read.
#[verifier::external_body]
pub(crate) fn rsa_pkcs1v15_decrypt(private_pem: &str, ciphertext: &[u8]) -> (r: Option<Vec<u8>>)
    ensures
        match r {
            Some(message) => rsa_pkcs1v15_decrypted(private_pem@, ciphertext@) == Some(message@),
            None => rsa_pkcs1v15_decrypted(private_pem@, ciphertext@) is None,
        },
{
    match RsaPrivateKey::from_pkcs1_pem(private_pem) {
        Ok(mut key) => {
            key.clear_precomputed();
            key.decrypt(Pkcs1v15Encrypt, ciphertext).ok()
        },
        Err(_) => None,
    }
}

/// `RsaPublicKey::from_pkcs1_pem` followed by `RsaPublicKey::encrypt` with
/// `Pkcs1v15Encrypt`, of `rsa`, on the thread-local generator. The padding is
/// random, so the result has no name. For a public key that belongs to a key
/// pair and a message of at most 245 bytes the call succeeds; whatever comes
/// out is as long as the key's modulus; and it decrypts, under the private
/// half of any such pair, to the message.
#[verifier::external_body]
pub(crate) fn rsa_pkcs1v15_encrypt(public_pem: &str, message: &[u8]) -> (r: Option<Vec<u8>>)
    ensures
        message@.len() <= 245 && (exists|private_pem: Seq<char>|
            rsa_key_pair(public_pem@, private_pem)) ==> r is Some,
        r matches Some(c) ==> c@.len() == rsa_modulus_len(public_pem@),
        r matches Some(c) ==> forall|private_pem: Seq<char>| #[trigger]
            rsa_key_pair(public_pem@, private_pem) ==> rsa_pkcs1v15_decrypted(private_pem, c@)
                == Some(message@),
{
    match RsaPublicKey::from_pkcs1_pem(public_pem) {
        Ok(key) => key.encrypt(&mut rand::thread_rng(), Pkcs1v15Encrypt, message).ok(),
        Err(_) => None,
    }
}

/// `RsaPrivateKey::new` of `rsa` on the operating system's generator, then
/// `RsaPublicKey::from` and `to_pkcs1_pem` with line feeds for both halves:
/// the public text first. What comes out is a key pair whose modulus has
/// exactly `bits` bits, and the crate reads both texts back as the keys they
/// were written from.
#[verifier::external_body]
pub(crate) fn rsa_generate_key_pair(bits: usize) -> (r: Option<(String, String)>)
    requires
        2048 <= bits <= 4096,
    ensures
        r matches Some(pair) ==> rsa_key_pair(pair.0@, pair.1@),
        r matches Some(pair) ==> rsa_modulus_len(pair.0@) == (bits + 7) / 8,
        r matches Some(pair) ==> rsa_public_key_parses(pair.0@),
        r matches Some(pair) ==> rsa_private_key_parses(pair.1@),
{
    let private_key = RsaPrivateKey::new(&mut OsRng, bits).ok()?;
    let public_pem = RsaPublicKey::from(&private_key).to_pkcs1_pem(LineEnding::LF).ok()?;
    let private_pem = private_key.to_pkcs1_pem(LineEnding::LF).ok()?;
    Some((public_pem, private_pem.to_string()))
}

/// `RsaPublicKey::from_pkcs1_pem` of `rsa`: whether the text is read as a key.
#[verifier::external_body]
pub(crate) fn rsa_public_pem_parses(pem: &str) -> (r: bool)
    ensures
        r == rsa_public_key_parses(pem@),
{
    RsaPublicKey::from_pkcs1_pem(pem).is_ok()
}

/// `RsaPrivateKey::from_pkcs1_pem` of `rsa`: whether the text is read as a
/// key.
#[verifier::external_body]
pub(crate) fn rsa_private_pem_parses(pem: &str) -> (r: bool)
    ensures
        r == rsa_private_key_parses(pem@),
{
    RsaPrivateKey::from_pkcs1_pem(pem).is_ok()
}

/// `Engine::encode` of `base64` on the `STANDARD` engine. The crate panics
/// where the length of the text overflows, which the bound keeps out.
/// Decoding the text gives the bytes back.
#[verifier::external_body]
pub(crate) fn base64_encode(bytes: &[u8]) -> (r: String)
    requires
        bytes@.len() <= 0x3fff_ffff,
    ensures
        r@ == base64_standard_encoded(bytes@),
        base64_standard_decoded(r@) == Some(bytes@),
{
    STANDARD.encode(bytes)
}

/// `Engine::decode` of `base64` on the `STANDARD` engine.
#[verifier::external_body]
pub(crate) fn base64_decode(text: &str) -> (r: Option<Vec<u8>>)
    ensures
        match r {
            Some(bytes) => base64_standard_decoded(text@) == Some(bytes@),
            None => base64_standard_decoded(text@) is None,
        },
{
    STANDARD.decode(text).ok()
}

/// `String::from_utf8` of std: the text that the bytes encode, where they
/// are valid UTF-8, and an error where they are not.
#[verifier::external_body]
pub(crate) fn string_from_utf8(bytes: Vec<u8>) -> (r: Option<String>)
    ensures
        r is Some <==> valid_utf8(bytes@),
        r matches Some(text) ==> text@ == decode_utf8(bytes@),
{
    String::from_utf8(bytes).ok()
}

/// `Uuid::from_u128` of `uuid` and the `Display` of the result, which is the
/// hyphenated form: 32 hexadecimal digits and four hyphens.
#[verifier::external_body]
pub(crate) fn uuid_to_string(id: u128) -> (r: String)
    ensures
        r@ == uuid_hyphenated(id),
        r@.len() == 36,
{
    Uuid::from_u128(id).to_string()
}

/// `Uuid::parse_str` of `uuid`, and `Uuid::as_u128` of what it reads.
#[verifier::external_body]
pub(crate) fn uuid_parse(text: &str) -> (r: Option<u128>)
    ensures
        r == uuid_parsed(text@),
{
    match Uuid::parse_str(text) {
        Ok(id) => Some(id.as_u128()),
        Err(_) => None,
    }
}

/// `DateTime::parse_from_rfc3339` of `chrono`, and `timestamp_micros` of what
/// it reads. The empty text is no date.
#[verifier::external_body]
pub(crate) fn parse_rfc3339_micros(text: &str) -> (r: Option<i64>)
    ensures
        r == rfc3339_micros(text@),
        text@.len() == 0 ==> r is None,
{
    match DateTime::parse_from_rfc3339(text) {
        Ok(instant) => Some(instant.timestamp_micros()),
        Err(_) => None,
    }
}

/// `validate_email` of `validator`. The empty text is no address.
#[verifier::external_body]
pub(crate) fn validate_email(text: &str) -> (r: bool)
    ensures
        r == email_is_valid(text@),
        text@.len() == 0 ==> !r,
{
    validator::validate_email(text)
}

} // verus!
