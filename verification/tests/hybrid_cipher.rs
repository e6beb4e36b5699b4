use aes::Aes256;
use block_modes::block_padding::Pkcs7;
use block_modes::{BlockMode, Cbc};
use rand::rngs::StdRng;
use rand::SeedableRng;
use rsa::pkcs1::{DecodeRsaPrivateKey, EncodeRsaPrivateKey, EncodeRsaPublicKey, LineEnding};
use rsa::traits::PrivateKeyParts;
use rsa::{BigUint, Pkcs1v15Encrypt, RsaPrivateKey};
use secure_share::error::CipherError;
use secure_share::utils::decrypt::{decrypt_file, decrypt_payload, decrypt_with_key};
use secure_share::utils::encrypt::{
    encrypt_file, seal_result, seal_with, AES_IV_LEN, AES_KEY_LEN,
};
use secure_share::utils::keys::{PrivateKeyMaterial, PublicKeyMaterial};

const PUBLIC_PEM: &str = "\
-----BEGIN RSA PUBLIC KEY-----\n\
MIIBCgKCAQEAleNOb6JzBHcqtEbh0mj8exZfuJJL3GKXZweEpnRePko2ZkRXJebq\n\
V8yOto6WNmgVzcv8wT1+lgXS3dAA+LtkhP55tPobB7/o7iAcBNQzy5j9i0MLT8aw\n\
Uo4xjKkoBy70fLrDB7BX59ZYg18ebFB1Rqss2kjyc9hHyc7aIAalm8ShVXudUKZD\n\
48vPurSA7FBbAaHUrb6AKFQmWFVtKDcv4i3+dqqWOztIEghNee/bq2znCg69kjQn\n\
Iak+nM0T3F3Fh9YoMclhr6zph/gBSFiKxMqWQZh3Q3cadXKKfSf31T/eCEpoN+T/\n\
zM5yrWAs50K4tBx4MNiT8WXR8boggVC1cQIDAQAB\n\
-----END RSA PUBLIC KEY-----\n";

const OTHER_PUBLIC_PEM: &str = "\
-----BEGIN RSA PUBLIC KEY-----\n\
MIIBCgKCAQEAuUjV820xNF5wW4rhOtLZM4kUPrcNMJ9HShpLPQlbaCmUWU0gB/Ux\n\
A2WbbcKu54E78QFJj6dpde55uErTL84a7jSJ02h0FHrTQwh75XzErl6EcVROC7SW\n\
IhMc2QfL7MIgPg5Eimac8gDlrmYMvx8fHw4MwbjLPNlaRuDoPg0PPliocVEdqky/\n\
MflQK6K4BRfu/78cdxkog/Ku4nFmUOb4P4NV8yBihZnXJjn+vbC3PU3JEVV3mTAY\n\
9Y52+oZURzRZrwdgIO6eT6iO1eZBirIsTjTcegcqAcH9yJf+AZ/ku3ingH1x86Vt\n\
JbWe2mAjE7vKqMSlZ2OUeidYI+Ty554U4QIDAQAB\n\
-----END RSA PUBLIC KEY-----\n";

const SEED: u64 = 5;
const OTHER_SEED: u64 = 6;

/// The private half of a test key pair, derived from the seed that also gave
/// the public half above: these files keep no private key.
fn derive_private_pem(seed: u64) -> String {
    let mut rng = StdRng::seed_from_u64(seed);
    let key = RsaPrivateKey::new(&mut rng, 2048).expect("key");
    key.to_pkcs1_pem(LineEnding::LF).expect("pem").to_string()
}

fn public_key() -> PublicKeyMaterial {
    PublicKeyMaterial { pem: PUBLIC_PEM.to_string() }
}

fn derive_private_key() -> PrivateKeyMaterial {
    PrivateKeyMaterial { pem: derive_private_pem(SEED) }
}

fn derive_other_private_key() -> PrivateKeyMaterial {
    PrivateKeyMaterial { pem: derive_private_pem(OTHER_SEED) }
}

fn payload_of(len: usize) -> Vec<u8> {
    (0..len).map(|i| (i * 31 + 7) as u8).collect()
}

fn round_trip(payload: Vec<u8>, private: &PrivateKeyMaterial) -> Result<Vec<u8>, CipherError> {
    let (wrapped, ciphertext, iv) = encrypt_file(payload, &public_key())?;
    decrypt_file(wrapped, ciphertext, iv, private)
}

#[test]
fn round_trip_of_a_short_payload() {
    let private = derive_private_key();
    let payload = b"attack at dawn".to_vec();
    assert_eq!(round_trip(payload.clone(), &private), Ok(payload));
}

#[test]
fn round_trip_of_the_empty_payload() {
    let private = derive_private_key();
    let (wrapped, ciphertext, iv) = encrypt_file(Vec::new(), &public_key()).expect("sealing");
    assert_eq!(ciphertext.len(), 16);
    assert_eq!(decrypt_file(wrapped, ciphertext, iv, &private), Ok(Vec::new()));
}

#[test]
fn round_trip_at_block_boundaries() {
    let private = derive_private_key();
    for len in [1usize, 15, 16, 17, 31, 32, 33, 48, 255, 256, 257] {
        let payload = payload_of(len);
        assert_eq!(round_trip(payload.clone(), &private), Ok(payload), "length {}", len);
    }
}

#[test]
fn round_trip_of_ten_kilobytes() {
    let private = derive_private_key();
    let payload = payload_of(10 * 1024);
    assert_eq!(round_trip(payload.clone(), &private), Ok(payload));
}

#[test]
fn ciphertext_is_the_payload_padded_to_the_next_block() {
    for (len, sealed) in [(0usize, 16usize), (1, 16), (15, 16), (16, 32), (17, 32), (32, 48), (10240, 10256)] {
        let (_, ciphertext, _) = encrypt_file(payload_of(len), &public_key()).expect("sealing");
        assert_eq!(ciphertext.len(), sealed, "length {}", len);
        assert_eq!(ciphertext.len(), (len / 16 + 1) * 16);
    }
}

#[test]
fn sealed_parts_have_the_sizes_of_the_scheme() {
    let (wrapped, ciphertext, iv) = encrypt_file(payload_of(100), &public_key()).expect("sealing");
    assert_eq!(AES_KEY_LEN, 32);
    assert_eq!(AES_IV_LEN, 16);
    assert_eq!(iv.len(), AES_IV_LEN);
    assert_eq!(wrapped.len(), 256);
    assert_eq!(ciphertext.len(), 112);
}

#[test]
fn ciphertext_does_not_show_the_payload() {
    let payload = payload_of(64);
    let (wrapped, ciphertext, _) = encrypt_file(payload.clone(), &public_key()).expect("sealing");
    assert_ne!(&ciphertext[..64], &payload[..]);
    assert!(!ciphertext.windows(16).any(|w| w == &payload[..16]));
    assert!(!wrapped.windows(16).any(|w| w == &payload[..16]));
}

#[test]
fn two_sealings_of_one_input_share_no_vector_and_no_wrapped_key() {
    let private = derive_private_key();
    let payload = payload_of(40);
    let (wrapped_a, ciphertext_a, iv_a) =
        encrypt_file(payload.clone(), &public_key()).expect("sealing");
    let (wrapped_b, ciphertext_b, iv_b) =
        encrypt_file(payload.clone(), &public_key()).expect("sealing");
    assert_ne!(iv_a, iv_b);
    assert_ne!(wrapped_a, wrapped_b);
    assert_ne!(ciphertext_a, ciphertext_b);
    assert_eq!(decrypt_file(wrapped_a, ciphertext_a, iv_a, &private), Ok(payload.clone()));
    assert_eq!(decrypt_file(wrapped_b, ciphertext_b, iv_b, &private), Ok(payload));
}

#[test]
fn two_sealings_wrap_different_symmetric_keys() {
    let private_pem = derive_private_pem(SEED);
    let private = RsaPrivateKey::from_pkcs1_pem(&private_pem).expect("key");
    let (wrapped_a, _, _) = encrypt_file(payload_of(8), &public_key()).expect("sealing");
    let (wrapped_b, _, _) = encrypt_file(payload_of(8), &public_key()).expect("sealing");
    let key_a = private.decrypt(Pkcs1v15Encrypt, &wrapped_a).expect("unwrap");
    let key_b = private.decrypt(Pkcs1v15Encrypt, &wrapped_b).expect("unwrap");
    assert_eq!(key_a.len(), 32);
    assert_eq!(key_b.len(), 32);
    assert_ne!(key_a, key_b);
    assert_ne!(key_a, vec![0u8; 32]);
}

#[test]
fn what_is_sealed_opens_with_the_ciphers_themselves() {
    let private_pem = derive_private_pem(SEED);
    let payload = payload_of(70);
    let (wrapped, ciphertext, iv) = encrypt_file(payload.clone(), &public_key()).expect("sealing");
    let private = RsaPrivateKey::from_pkcs1_pem(&private_pem).expect("key");
    let key = private.decrypt(Pkcs1v15Encrypt, &wrapped).expect("unwrap");
    let cipher = Cbc::<Aes256, Pkcs7>::new_from_slices(&key, &iv).expect("cipher");
    assert_eq!(cipher.decrypt_vec(&ciphertext).expect("padding"), payload);
}

#[test]
fn what_the_ciphers_seal_opens_with_the_library() {
    let key: Vec<u8> = (0u8..32).collect();
    let iv: Vec<u8> = (100u8..116).collect();
    let payload = payload_of(45);
    let cipher = Cbc::<Aes256, Pkcs7>::new_from_slices(&key, &iv).expect("cipher");
    let ciphertext = cipher.encrypt_vec(&payload);
    assert_eq!(decrypt_with_key(&key, &ciphertext, &iv), Ok(payload));
}

#[test]
fn known_answer_of_the_block_cipher() {
    let key = [
        0x60, 0x3d, 0xeb, 0x10, 0x15, 0xca, 0x71, 0xbe, 0x2b, 0x73, 0xae, 0xf0, 0x85, 0x7d, 0x77,
        0x81, 0x1f, 0x35, 0x2c, 0x07, 0x3b, 0x61, 0x08, 0xd7, 0x2d, 0x98, 0x10, 0xa3, 0x09, 0x14,
        0xdf, 0xf4,
    ];
    let iv = [
        0x00, 0x01, 0x02, 0x03, 0x04, 0x05, 0x06, 0x07, 0x08, 0x09, 0x0a, 0x0b, 0x0c, 0x0d, 0x0e,
        0x0f,
    ];
    let plaintext = [
        0x6b, 0xc1, 0xbe, 0xe2, 0x2e, 0x40, 0x9f, 0x96, 0xe9, 0x3d, 0x7e, 0x11, 0x73, 0x93, 0x17,
        0x2a,
    ];
    let first_block = [
        0xf5, 0x8c, 0x4c, 0x04, 0xd6, 0xe5, 0xf1, 0xba, 0x77, 0x9e, 0xab, 0xfb, 0x5f, 0x7b, 0xfb,
        0xd6,
    ];
    let cipher = Cbc::<Aes256, Pkcs7>::new_from_slices(&key, &iv).expect("cipher");
    let ciphertext = cipher.encrypt_vec(&plaintext);
    assert_eq!(&ciphertext[..16], &first_block[..]);
    assert_eq!(decrypt_with_key(&key, &ciphertext, &iv), Ok(plaintext.to_vec()));
}

#[test]
fn wrong_private_key_does_not_unwrap() {
    let other = derive_other_private_key();
    let (wrapped, ciphertext, iv) = encrypt_file(payload_of(20), &public_key()).expect("sealing");
    assert_eq!(
        decrypt_file(wrapped, ciphertext, iv, &other),
        Err(CipherError::KeyUnwrap)
    );
}

#[test]
fn malformed_private_key_does_not_unwrap() {
    let (wrapped, ciphertext, iv) = encrypt_file(payload_of(20), &public_key()).expect("sealing");
    let broken = PrivateKeyMaterial { pem: "no key at all".to_string() };
    assert_eq!(decrypt_file(wrapped, ciphertext, iv, &broken), Err(CipherError::KeyUnwrap));
}

#[test]
fn malformed_public_key_does_not_wrap() {
    let broken = PublicKeyMaterial { pem: "no key at all".to_string() };
    assert_eq!(encrypt_file(payload_of(20), &broken), Err(CipherError::KeyWrap));
}

#[test]
fn truncated_wrapped_key_does_not_unwrap() {
    let private = derive_private_key();
    let (mut wrapped, ciphertext, iv) =
        encrypt_file(payload_of(20), &public_key()).expect("sealing");
    wrapped.truncate(100);
    assert_eq!(decrypt_file(wrapped, ciphertext, iv, &private), Err(CipherError::KeyUnwrap));
}

#[test]
fn vector_of_the_wrong_length_is_refused() {
    let private = derive_private_key();
    let (wrapped, ciphertext, mut iv) =
        encrypt_file(payload_of(20), &public_key()).expect("sealing");
    iv.pop();
    assert_eq!(
        decrypt_file(wrapped, ciphertext, iv, &private),
        Err(CipherError::CipherSetup)
    );
}

#[test]
fn key_of_the_wrong_length_is_refused() {
    let key = vec![1u8; 31];
    let iv = vec![2u8; 16];
    assert_eq!(decrypt_with_key(&key, &[0u8; 16], &iv), Err(CipherError::CipherSetup));
    let key = vec![1u8; 32];
    let iv = vec![2u8; 15];
    assert_eq!(decrypt_with_key(&key, &[0u8; 16], &iv), Err(CipherError::CipherSetup));
}

#[test]
fn ciphertext_that_is_no_whole_number_of_blocks_is_refused() {
    let private = derive_private_key();
    let (wrapped, mut ciphertext, iv) =
        encrypt_file(payload_of(40), &public_key()).expect("sealing");
    ciphertext.pop();
    assert_eq!(
        decrypt_payload(&wrapped, &ciphertext, &iv, &private),
        Err(CipherError::Padding)
    );
    assert_eq!(decrypt_payload(&wrapped, &[], &iv, &private), Err(CipherError::Padding));
}

#[test]
fn data_without_padding_is_refused() {
    let key = vec![0u8; 32];
    let iv = vec![0u8; 16];
    let cipher = Cbc::<Aes256, Pkcs7>::new_from_slices(&key, &iv).expect("cipher");
    let mut ciphertext = cipher.encrypt_vec(&[0u8; 16]);
    ciphertext.truncate(16);
    assert_eq!(decrypt_with_key(&key, &ciphertext, &iv), Err(CipherError::Padding));
    let cipher = Cbc::<Aes256, Pkcs7>::new_from_slices(&key, &iv).expect("cipher");
    let mut ciphertext = cipher.encrypt_vec(&[17u8; 16]);
    ciphertext.truncate(16);
    assert_eq!(decrypt_with_key(&key, &ciphertext, &iv), Err(CipherError::Padding));
}

#[test]
fn data_that_ends_like_padding_loses_its_end() {
    let key = vec![0u8; 32];
    let iv = vec![0u8; 16];
    let cipher = Cbc::<Aes256, Pkcs7>::new_from_slices(&key, &iv).expect("cipher");
    let mut ciphertext = cipher.encrypt_vec(&[9u8; 16]);
    ciphertext.truncate(16);
    assert_eq!(decrypt_with_key(&key, &ciphertext, &iv), Ok(vec![9u8; 7]));
}

#[test]
fn flipped_bit_in_the_last_block_never_gives_the_payload() {
    let private = derive_private_key();
    let payload = payload_of(50);
    let (wrapped, ciphertext, iv) = encrypt_file(payload.clone(), &public_key()).expect("sealing");
    for bit in 0..8 {
        let mut tampered = ciphertext.clone();
        let last = tampered.len() - 1;
        tampered[last] ^= 1 << bit;
        let opened = decrypt_payload(&wrapped, &tampered, &iv, &private);
        assert_ne!(opened, Ok(payload.clone()));
    }
}

#[test]
fn flipped_bit_in_an_early_block_opens_to_other_data() {
    let private = derive_private_key();
    let payload = payload_of(50);
    let (wrapped, ciphertext, iv) = encrypt_file(payload.clone(), &public_key()).expect("sealing");
    let mut tampered = ciphertext.clone();
    tampered[0] ^= 0x01;
    let opened = decrypt_payload(&wrapped, &tampered, &iv, &private).expect("padding");
    assert_eq!(opened.len(), payload.len());
    assert_ne!(opened, payload);
    assert_ne!(&opened[..16], &payload[..16]);
    assert_eq!(opened[16], payload[16] ^ 0x01);
    assert_eq!(&opened[17..], &payload[17..]);
}

#[test]
fn flipped_bit_in_the_wrapped_key_never_gives_the_payload() {
    let private = derive_private_key();
    let payload = payload_of(50);
    let (wrapped, ciphertext, iv) = encrypt_file(payload.clone(), &public_key()).expect("sealing");
    for position in [0usize, 17, 128, 255] {
        let mut tampered = wrapped.clone();
        tampered[position] ^= 0x10;
        let opened = decrypt_payload(&tampered, &ciphertext, &iv, &private);
        assert_ne!(opened, Ok(payload.clone()));
        assert!(opened.is_err());
    }
}

#[test]
fn flipped_bit_in_the_vector_never_gives_the_payload() {
    let private = derive_private_key();
    let payload = payload_of(50);
    let (wrapped, ciphertext, iv) = encrypt_file(payload.clone(), &public_key()).expect("sealing");
    let mut tampered = iv.clone();
    tampered[3] ^= 0x01;
    let opened = decrypt_payload(&wrapped, &ciphertext, &tampered, &private);
    assert_ne!(opened, Ok(payload));
}

#[test]
fn seal_result_orders_the_parts_and_names_the_failures() {
    let iv = vec![1u8; 16];
    let data = vec![2u8; 32];
    let wrapped = vec![3u8; 256];
    assert_eq!(
        seal_result(iv.clone(), Some(data.clone()), Some(wrapped.clone())),
        Ok((wrapped.clone(), data.clone(), iv.clone()))
    );
    assert_eq!(seal_result(iv.clone(), Some(data), None), Err(CipherError::KeyWrap));
    assert_eq!(seal_result(iv.clone(), None, Some(wrapped)), Err(CipherError::CipherSetup));
    assert_eq!(seal_result(iv, None, None), Err(CipherError::CipherSetup));
}

#[test]
fn the_caller_cannot_tell_the_two_failures_of_decryption_apart() {
    assert!(CipherError::KeyUnwrap.is_decryption_failure());
    assert!(CipherError::Padding.is_decryption_failure());
    assert!(!CipherError::CipherSetup.is_decryption_failure());
    assert!(!CipherError::KeyWrap.is_decryption_failure());
    assert_eq!(CipherError::KeyUnwrap.caller_message(), "decryption failed");
    assert_eq!(CipherError::Padding.caller_message(), "decryption failed");
    assert_eq!(CipherError::CipherSetup.caller_message(), "encryption failed");
    assert_eq!(CipherError::KeyWrap.caller_message(), "encryption failed");
    assert_eq!(CipherError::KeyUnwrap.log_message(), "symmetric key could not be unwrapped");
    assert_eq!(CipherError::Padding.log_message(), "padding of the decrypted payload is invalid");
    assert_eq!(CipherError::CipherSetup.log_message(), "cipher setup failed");
    assert_eq!(CipherError::KeyWrap.log_message(), "symmetric key could not be wrapped");
}

#[test]
fn derived_private_keys_belong_to_the_public_keys() {
    for (seed, public_pem) in [(SEED, PUBLIC_PEM), (OTHER_SEED, OTHER_PUBLIC_PEM)] {
        let private = RsaPrivateKey::from_pkcs1_pem(&derive_private_pem(seed)).expect("key");
        let public = private.to_public_key().to_pkcs1_pem(LineEnding::LF).expect("pem");
        assert_eq!(public, public_pem);
    }
}

#[test]
fn sealing_with_a_given_key_and_vector_is_the_ciphers_work() {
    let key: Vec<u8> = (0u8..32).collect();
    let iv: Vec<u8> = (100u8..116).collect();
    let payload = payload_of(45);
    let (wrapped, ciphertext, vector) =
        seal_with(key.clone(), iv.clone(), payload.clone(), &public_key()).expect("sealing");
    assert_eq!(vector, iv);
    assert_eq!(wrapped.len(), 256);
    let cipher = Cbc::<Aes256, Pkcs7>::new_from_slices(&key, &iv).expect("cipher");
    assert_eq!(ciphertext, cipher.encrypt_vec(&payload));
    let private = derive_private_key();
    assert_eq!(decrypt_file(wrapped, ciphertext, vector, &private), Ok(payload));
}

#[test]
fn sealing_with_a_given_key_gives_the_known_answer() {
    let key = vec![
        0x60, 0x3d, 0xeb, 0x10, 0x15, 0xca, 0x71, 0xbe, 0x2b, 0x73, 0xae, 0xf0, 0x85, 0x7d, 0x77,
        0x81, 0x1f, 0x35, 0x2c, 0x07, 0x3b, 0x61, 0x08, 0xd7, 0x2d, 0x98, 0x10, 0xa3, 0x09, 0x14,
        0xdf, 0xf4,
    ];
    let iv = vec![
        0x00, 0x01, 0x02, 0x03, 0x04, 0x05, 0x06, 0x07, 0x08, 0x09, 0x0a, 0x0b, 0x0c, 0x0d, 0x0e,
        0x0f,
    ];
    let plaintext = vec![
        0x6b, 0xc1, 0xbe, 0xe2, 0x2e, 0x40, 0x9f, 0x96, 0xe9, 0x3d, 0x7e, 0x11, 0x73, 0x93, 0x17,
        0x2a,
    ];
    let first_block = [
        0xf5, 0x8c, 0x4c, 0x04, 0xd6, 0xe5, 0xf1, 0xba, 0x77, 0x9e, 0xab, 0xfb, 0x5f, 0x7b, 0xfb,
        0xd6,
    ];
    let (_, ciphertext, _) = seal_with(key, iv, plaintext, &public_key()).expect("sealing");
    assert_eq!(ciphertext.len(), 32);
    assert_eq!(&ciphertext[..16], &first_block[..]);
}

#[test]
fn sealing_with_a_key_or_vector_of_the_wrong_length_is_refused() {
    let broken = PublicKeyMaterial { pem: "no key at all".to_string() };
    let cases = [(31usize, 16usize), (33, 16), (32, 15), (32, 17), (0, 0), (16, 16)];
    for (key_len, iv_len) in cases {
        for public in [public_key(), PublicKeyMaterial { pem: broken.pem.clone() }] {
            assert_eq!(
                seal_with(vec![7u8; key_len], vec![9u8; iv_len], payload_of(20), &public),
                Err(CipherError::CipherSetup),
                "key {} vector {}",
                key_len,
                iv_len
            );
        }
    }
    assert_eq!(
        seal_with(vec![7u8; 32], vec![9u8; 16], payload_of(20), &broken),
        Err(CipherError::KeyWrap)
    );
}

#[test]
fn a_key_of_lopsided_primes_still_opens_what_was_sealed_for_it() {
    let donor = RsaPrivateKey::from_pkcs1_pem(&derive_private_pem(SEED)).expect("key");
    let large = donor.primes()[0].clone();
    let lopsided =
        RsaPrivateKey::from_p_q(BigUint::from(3u8), large, BigUint::from(65537u32)).expect("key");
    let private = PrivateKeyMaterial {
        pem: lopsided.to_pkcs1_pem(LineEnding::LF).expect("pem").to_string(),
    };
    let public = PublicKeyMaterial {
        pem: lopsided.to_public_key().to_pkcs1_pem(LineEnding::LF).expect("pem"),
    };
    let payload = payload_of(40);
    let (wrapped, ciphertext, iv) = encrypt_file(payload.clone(), &public).expect("sealing");
    assert_eq!(wrapped.len(), 129);
    assert_eq!(decrypt_file(wrapped, ciphertext, iv, &private), Ok(payload));
}
