//! Sealing a payload for one recipient.

use crate::error::CipherError;
use crate::trusted::{
    aes256_cbc_encrypt, aes256_cbc_pkcs7_decrypted, aes256_cbc_pkcs7_encrypted, random_bytes,
    rsa_key_pair, rsa_modulus_len, rsa_pkcs1v15_decrypted, rsa_pkcs1v15_encrypt,
};
use crate::utils::keys::PublicKeyMaterial;
use vstd::prelude::*;

verus! {

/// Length in bytes of the symmetric key.
pub const AES_KEY_LEN: usize = 32;

/// Length in bytes of the initialization vector, which is the cipher's block.
pub const AES_IV_LEN: usize = 16;

/// The wrapped key, the ciphertext and the initialization vector seal
/// `file_data` for the holder of the private half of `public_pem`, under the
/// symmetric key `key`: the ciphertext is that of the payload under the key
/// and the vector, and decrypts back to it; the wrapped key is as long as
/// the modulus of the public key, and every private half of the pair unwraps
/// it to the key.
pub open spec fn sealed_with(
    key: Seq<u8>,
    file_data: Seq<u8>,
    public_pem: Seq<char>,
    encrypted_aes_key: Seq<u8>,
    encrypted_data: Seq<u8>,
    iv: Seq<u8>,
) -> bool {
    &&& key.len() == AES_KEY_LEN
    &&& iv.len() == AES_IV_LEN
    &&& encrypted_data == aes256_cbc_pkcs7_encrypted(key, iv, file_data)
    &&& aes256_cbc_pkcs7_decrypted(key, iv, encrypted_data) == Some(file_data)
    &&& encrypted_aes_key.len() == rsa_modulus_len(public_pem)
    &&& forall|private_pem: Seq<char>| #[trigger]
        rsa_key_pair(public_pem, private_pem) ==> rsa_pkcs1v15_decrypted(
            private_pem,
            encrypted_aes_key,
        ) == Some(key)
}

/// Length of the ciphertext of a payload of `len` bytes: the payload padded
/// up to the next whole block, a full block of padding where it ends on one.
pub open spec fn sealed_len(len: nat) -> nat {
    ((len / 16 + 1) * 16) as nat
}

/// The wrapped key, the ciphertext and the initialization vector seal
/// `file_data` for the holder of the private half of `public_pem`: under some
/// symmetric key they are sealed with it, the ciphertext has the length of
/// the padded payload, and the wrapped key that of the key's modulus.
pub open spec fn sealed_for(
    file_data: Seq<u8>,
    public_pem: Seq<char>,
    encrypted_aes_key: Seq<u8>,
    encrypted_data: Seq<u8>,
    iv: Seq<u8>,
) -> bool {
    &&& encrypted_data.len() == sealed_len(file_data.len())
    &&& encrypted_aes_key.len() == rsa_modulus_len(public_pem)
    &&& exists|key: Seq<u8>| #[trigger]
        sealed_with(key, file_data, public_pem, encrypted_aes_key, encrypted_data, iv)
}

/// The result of sealing once the two ciphers have answered: `CipherSetup`
/// where the block cipher refused the key or the vector, `KeyWrap` where the
/// public key could not wrap the symmetric key, else the wrapped key, the
/// ciphertext and the vector, in this order.
pub fn seal_result(
    iv: Vec<u8>,
    encrypted_data: Option<Vec<u8>>,
    encrypted_aes_key: Option<Vec<u8>>,
) -> (r: Result<(Vec<u8>, Vec<u8>, Vec<u8>), CipherError>)
    ensures
        match (encrypted_data, encrypted_aes_key) {
            (Some(d), Some(k)) => r == Ok::<_, CipherError>((k, d, iv)),
            (Some(_), None) => r == Err::<(Vec<u8>, Vec<u8>, Vec<u8>), _>(CipherError::KeyWrap),
            (None, _) => r == Err::<(Vec<u8>, Vec<u8>, Vec<u8>), _>(CipherError::CipherSetup),
        },
{
    match encrypted_data {
        Some(d) => match encrypted_aes_key {
            Some(k) => Ok((k, d, iv)),
            None => Err(CipherError::KeyWrap),
        },
        None => Err(CipherError::CipherSetup),
    }
}

/// Seals `file_data` under a symmetric key and an initialization vector
/// that the caller has drawn: encrypts the payload with AES-256 in CBC mode
/// with PKCS#7 padding, and wraps the key with RSA under PKCS#1 v1.5 padding.
/// Returns the wrapped key, the ciphertext and the vector, in this order.
///
/// `CipherSetup` comes exactly where the key is not 32 bytes or the vector
/// not 16, and `KeyWrap` only where the public key could not wrap the key,
/// which never happens to a public key that belongs to a key pair.
pub fn seal_with(
    key: Vec<u8>,
    iv: Vec<u8>,
    file_data: Vec<u8>,
    user_public_key: &PublicKeyMaterial,
) -> (r: Result<(Vec<u8>, Vec<u8>, Vec<u8>), CipherError>)
    requires
        file_data@.len() + 16 <= isize::MAX,
    ensures
        r matches Ok((encrypted_aes_key, encrypted_data, vector)) ==> vector@ == iv@
            && encrypted_data@.len() == sealed_len(file_data@.len()) && sealed_with(
            key@,
            file_data@,
            user_public_key.pem@,
            encrypted_aes_key@,
            encrypted_data@,
            vector@,
        ),
        (r matches Err(CipherError::CipherSetup)) <==> (key@.len() != AES_KEY_LEN || iv@.len()
            != AES_IV_LEN),
        r matches Err(e) ==> e == CipherError::CipherSetup || e == CipherError::KeyWrap,
        r matches Err(CipherError::KeyWrap) ==> forall|private_pem: Seq<char>|
            !rsa_key_pair(user_public_key.pem@, private_pem),
        (key@.len() == AES_KEY_LEN && iv@.len() == AES_IV_LEN && exists|private_pem: Seq<char>|
            rsa_key_pair(user_public_key.pem@, private_pem)) ==> r is Ok,
{
    let encrypted_data = aes256_cbc_encrypt(key.as_slice(), iv.as_slice(), file_data.as_slice());
    let encrypted_aes_key = rsa_pkcs1v15_encrypt(user_public_key.pem.as_str(), key.as_slice());
    seal_result(iv, encrypted_data, encrypted_aes_key)
}

/// Seals `file_data` for the holder of the private half of
/// `user_public_key`: draws a fresh 256-bit key and a fresh 128-bit
/// initialization vector, and seals the payload with them as `seal_with`
/// does.
///
/// The key and the vector are drawn anew in every call, so nothing is
/// promised of how the results of two calls on one input relate. For a
/// public key that belongs to a key pair the only failure left is that of
/// the random generator.
pub fn encrypt_file(file_data: Vec<u8>, user_public_key: &PublicKeyMaterial) -> (r: Result<
    (Vec<u8>, Vec<u8>, Vec<u8>),
    CipherError,
>)
    requires
        file_data@.len() + 16 <= isize::MAX,
    ensures
        r matches Ok((encrypted_aes_key, encrypted_data, iv)) ==> sealed_for(
            file_data@,
            user_public_key.pem@,
            encrypted_aes_key@,
            encrypted_data@,
            iv@,
        ),
        r matches Err(e) ==> e == CipherError::CipherSetup || e == CipherError::KeyWrap,
        r matches Err(CipherError::KeyWrap) ==> forall|private_pem: Seq<char>|
            !rsa_key_pair(user_public_key.pem@, private_pem),
{
    let key = match random_bytes(AES_KEY_LEN) {
        Some(key) => key,
        None => {
            return Err(CipherError::CipherSetup);
        },
    };
    let iv = match random_bytes(AES_IV_LEN) {
        Some(iv) => iv,
        None => {
            return Err(CipherError::CipherSetup);
        },
    };
    seal_with(key, iv, file_data, user_public_key)
}

} // verus!
