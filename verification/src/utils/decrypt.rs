//! Opening a sealed payload.

use crate::error::CipherError;
use crate::trusted::{
    aes256_cbc_decrypt, aes256_cbc_pkcs7_decrypted, rsa_pkcs1v15_decrypt, rsa_pkcs1v15_decrypted,
};
use crate::utils::encrypt::{AES_IV_LEN, AES_KEY_LEN};
use crate::utils::keys::PrivateKeyMaterial;
use vstd::prelude::*;

verus! {

/// The payload once the symmetric key is unwrapped: `CipherSetup` where the
/// key is not 32 bytes or the vector not 16, `Padding` where the ciphertext
/// does not decrypt to validly padded data, else the data without its padding.
pub open spec fn open_with_key(key: Seq<u8>, encrypted_file_data: Seq<u8>, iv: Seq<u8>) -> Result<
    Seq<u8>,
    CipherError,
> {
    if key.len() != AES_KEY_LEN || iv.len() != AES_IV_LEN {
        Err(CipherError::CipherSetup)
    } else {
        match aes256_cbc_pkcs7_decrypted(key, iv, encrypted_file_data) {
            Some(data) => Ok(data),
            None => Err(CipherError::Padding),
        }
    }
}

/// What `decrypt_file` returns: `KeyUnwrap` where the private key does not
/// unwrap the symmetric key, else what the unwrapped key opens.
pub open spec fn decrypt_file_spec(
    encrypted_aes_key: Seq<u8>,
    encrypted_file_data: Seq<u8>,
    iv: Seq<u8>,
    private_pem: Seq<char>,
) -> Result<Seq<u8>, CipherError> {
    match rsa_pkcs1v15_decrypted(private_pem, encrypted_aes_key) {
        Some(key) => open_with_key(key, encrypted_file_data, iv),
        None => Err(CipherError::KeyUnwrap),
    }
}

/// Whether what a decryption returned is `expected`, the bytes taken by
/// their view.
pub open spec fn opens_to(
    r: Result<Vec<u8>, CipherError>,
    expected: Result<Seq<u8>, CipherError>,
) -> bool {
    match r {
        Ok(data) => expected == Ok::<Seq<u8>, CipherError>(data@),
        Err(e) => expected == Err::<Seq<u8>, CipherError>(e),
    }
}

/// Decrypts the ciphertext with an already unwrapped symmetric key.
pub fn decrypt_with_key(key: &[u8], encrypted_file_data: &[u8], iv: &[u8]) -> (r: Result<
    Vec<u8>,
    CipherError,
>)
    ensures
        opens_to(r, open_with_key(key@, encrypted_file_data@, iv@)),
        encrypted_file_data@.len() == 0 || encrypted_file_data@.len() % 16 != 0 ==> r is Err,
        r matches Ok(data) ==> data@.len() < encrypted_file_data@.len(),
{
    if key.len() != AES_KEY_LEN || iv.len() != AES_IV_LEN {
        return Err(CipherError::CipherSetup);
    }
    match aes256_cbc_decrypt(key, iv, encrypted_file_data) {
        Some(data) => Ok(data),
        None => Err(CipherError::Padding),
    }
}

/// Opens a sealed payload: unwraps the symmetric key with the recipient's
/// private key, then decrypts the ciphertext with AES-256 in CBC mode under
/// that key and the stored initialization vector, and takes off the PKCS#7
/// padding.
///
/// A ciphertext that is empty or no whole number of blocks is never opened,
/// and what is opened is shorter than the ciphertext.
pub fn decrypt_payload(
    encrypted_aes_key: &[u8],
    encrypted_file_data: &[u8],
    iv: &[u8],
    user_private_key: &PrivateKeyMaterial,
) -> (r: Result<Vec<u8>, CipherError>)
    ensures
        opens_to(
            r,
            decrypt_file_spec(encrypted_aes_key@, encrypted_file_data@, iv@, user_private_key.pem@),
        ),
        encrypted_file_data@.len() == 0 || encrypted_file_data@.len() % 16 != 0 ==> r is Err,
        r matches Ok(data) ==> data@.len() < encrypted_file_data@.len(),
{
    match rsa_pkcs1v15_decrypt(user_private_key.pem.as_str(), encrypted_aes_key) {
        Some(key) => decrypt_with_key(key.as_slice(), encrypted_file_data, iv),
        None => Err(CipherError::KeyUnwrap),
    }
}

/// Opens a sealed payload that the caller hands over: see `decrypt_payload`.
pub fn decrypt_file(
    encrypted_aes_key: Vec<u8>,
    encrypted_file_data: Vec<u8>,
    iv: Vec<u8>,
    user_private_key: &PrivateKeyMaterial,
) -> (r: Result<Vec<u8>, CipherError>)
    ensures
        opens_to(
            r,
            decrypt_file_spec(encrypted_aes_key@, encrypted_file_data@, iv@, user_private_key.pem@),
        ),
        encrypted_file_data@.len() == 0 || encrypted_file_data@.len() % 16 != 0 ==> r is Err,
        r matches Ok(data) ==> data@.len() < encrypted_file_data@.len(),
{
    decrypt_payload(
        encrypted_aes_key.as_slice(),
        encrypted_file_data.as_slice(),
        iv.as_slice(),
        user_private_key,
    )
}

} // verus!
