use cbc::cipher::block_padding::{NoPadding, Pkcs7};
use cbc::cipher::{BlockEncryptMut, KeyIvInit};
use hls_fetch::cipher::{decrypt_segment, unpad_pkcs7};
use hls_fetch::error::CryptoError;

fn encrypt_blob(key: &[u8], iv: &[u8], plain: &[u8]) -> Vec<u8> {
    let mut out = iv.to_vec();
    let enc = cbc::Encryptor::<aes::Aes128>::new_from_slices(key, iv).unwrap();
    out.extend(enc.encrypt_padded_vec_mut::<Pkcs7>(plain));
    out
}

fn encrypt_raw(key: &[u8], iv: &[u8], blocks: &[u8]) -> Vec<u8> {
    let mut out = iv.to_vec();
    let enc = cbc::Encryptor::<aes::Aes128>::new_from_slices(key, iv).unwrap();
    out.extend(enc.encrypt_padded_vec_mut::<NoPadding>(blocks));
    out
}

#[test]
fn round_trip_many_lengths() {
    let key: Vec<u8> = (0u8..16).map(|i| i.wrapping_mul(17).wrapping_add(3)).collect();
    let iv: Vec<u8> = (0u8..16).map(|i| 255 - i).collect();
    for len in 0..70usize {
        let plain: Vec<u8> = (0..len).map(|i| (i * 31 % 251) as u8).collect();
        let blob = encrypt_blob(&key, &iv, &plain);
        assert_eq!(decrypt_segment(&blob, &key), Ok(plain));
    }
}

#[test]
fn round_trip_decrypts_rather_than_copies() {
    let key = [7u8; 16];
    let iv = [9u8; 16];
    let plain = b"hello world!!!!!".to_vec();
    let blob = encrypt_blob(&key, &iv, &plain);
    assert_eq!(blob.len(), 48);
    assert_ne!(&blob[16..32], &plain[..]);
    assert_eq!(decrypt_segment(&blob, &key), Ok(plain));
}

#[test]
fn known_answer_block() {
    // AES-128-CBC test vector: key 2b7e..., IV 00..0f, one block.
    let key = [
        0x2b, 0x7e, 0x15, 0x16, 0x28, 0xae, 0xd2, 0xa6, 0xab, 0xf7, 0x15, 0x88, 0x09, 0xcf, 0x4f,
        0x3c,
    ];
    let iv: Vec<u8> = (0u8..16).collect();
    let plain = [
        0x6b, 0xc1, 0xbe, 0xe2, 0x2e, 0x40, 0x9f, 0x96, 0xe9, 0x3d, 0x7e, 0x11, 0x73, 0x93, 0x17,
        0x2a,
    ];
    let blob = encrypt_raw(&key, &iv, &plain);
    assert_eq!(
        &blob[16..],
        &[
            0x76, 0x49, 0xab, 0xac, 0x81, 0x19, 0xb2, 0x46, 0xce, 0xe9, 0x8e, 0x9b, 0x12, 0xe9, 0x19,
            0x7d
        ]
    );
    // The last plaintext byte, 0x2a, is no valid padding length.
    assert_eq!(decrypt_segment(&blob, &key), Err(CryptoError::PaddingInvalid));
}

#[test]
fn truncated_input_fails() {
    let key = [0u8; 16];
    for len in [0usize, 1, 5, 15] {
        let blob = vec![0u8; len];
        assert_eq!(decrypt_segment(&blob, &key), Err(CryptoError::Truncated));
    }
    assert_eq!(decrypt_segment(&[1, 2, 3], &[0u8; 10]), Err(CryptoError::Truncated));
}

#[test]
fn bad_key_length_fails() {
    let blob = encrypt_blob(&[0u8; 16], &[0u8; 16], b"abc");
    assert_eq!(decrypt_segment(&blob, &[0u8; 10]), Err(CryptoError::InvalidKeyLength));
    assert_eq!(decrypt_segment(&blob, &[0u8; 32]), Err(CryptoError::InvalidKeyLength));
    assert_eq!(decrypt_segment(&blob, &[]), Err(CryptoError::InvalidKeyLength));
}

#[test]
fn bad_ciphertext_length_fails() {
    let key = [0u8; 16];
    assert_eq!(decrypt_segment(&[0u8; 33], &key), Err(CryptoError::InvalidCiphertextLength));
    assert_eq!(decrypt_segment(&[0u8; 16], &key), Err(CryptoError::InvalidCiphertextLength));
    assert_eq!(decrypt_segment(&[0u8; 40], &key), Err(CryptoError::InvalidCiphertextLength));
}

#[test]
fn invalid_padding_fails() {
    let key = [5u8; 16];
    let iv = [6u8; 16];
    let mut zero_end = [1u8; 16];
    zero_end[15] = 0;
    let blob = encrypt_raw(&key, &iv, &zero_end);
    assert_eq!(decrypt_segment(&blob, &key), Err(CryptoError::PaddingInvalid));
    let mut big_end = [3u8; 16];
    big_end[15] = 17;
    let blob = encrypt_raw(&key, &iv, &big_end);
    assert_eq!(decrypt_segment(&blob, &key), Err(CryptoError::PaddingInvalid));
    let mut uneven = [4u8; 16];
    uneven[12] = 9;
    let blob = encrypt_raw(&key, &iv, &uneven);
    assert_eq!(decrypt_segment(&blob, &key), Err(CryptoError::PaddingInvalid));
}

#[test]
fn unpad_exact_values() {
    assert_eq!(unpad_pkcs7(&[1, 2, 3, 2, 2]), Some(vec![1, 2, 3]));
    assert_eq!(unpad_pkcs7(&[16u8; 16]), Some(vec![]));
    assert_eq!(unpad_pkcs7(&[7, 1]), Some(vec![7]));
    assert_eq!(unpad_pkcs7(&[]), None);
    assert_eq!(unpad_pkcs7(&[1, 0]), None);
    assert_eq!(unpad_pkcs7(&[17u8; 17]), None);
    assert_eq!(unpad_pkcs7(&[3, 3]), None);
    assert_eq!(unpad_pkcs7(&[1, 3, 2, 3]), None);
}
