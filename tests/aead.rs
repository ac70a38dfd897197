use rcli::{
    base64_encode, data_decrypt, data_encrypt, gen_pass, ChaCha, CryptoError, DataDecrypt,
    DataEncrypt,
};

const KEY: &[u8; 32] = b"an example very very secret key.";

#[test]
fn test_chacha() {
    let key = gen_pass(32, false, false, false, true).unwrap();
    let data = b"hello";
    let chacha = ChaCha::try_new(key.as_bytes()).ok().unwrap();
    let encrypted = chacha.data_encrypt(data);
    let decrypted = chacha.data_decrypt(&encrypted).unwrap();
    println!("data={data:?}, decrypted={decrypted:?}");
    assert_eq!(data, decrypted.as_slice());
}

#[test]
fn record_is_nonce_ciphertext_and_tag() {
    let chacha = ChaCha::try_new(KEY).ok().unwrap();
    let nonce = [9u8; 12];
    let record = chacha.encrypt_with_nonce(&nonce, b"hello");
    assert_eq!(record.len(), 12 + 5 + 16);
    assert_eq!(&record[..12], &nonce);
    assert_ne!(&record[12..17], b"hello");
    assert_eq!(chacha.encrypt_with_nonce(&nonce, b"hello"), record);
    assert_ne!(chacha.encrypt_with_nonce(&[8u8; 12], b"hello"), record);
    assert_eq!(chacha.data_decrypt(&record), Ok(b"hello".to_vec()));
}

#[test]
fn round_trip_for_several_plaintexts() {
    let chacha = ChaCha::try_new(KEY).ok().unwrap();
    for len in [0usize, 1, 15, 16, 17, 63, 64, 65, 1000] {
        let plain: Vec<u8> = (0..len).map(|i| (i * 7 % 256) as u8).collect();
        let record = chacha.data_encrypt(&plain);
        assert_eq!(record.len(), plain.len() + 28);
        assert_eq!(chacha.data_decrypt(&record), Ok(plain));
    }
}

#[test]
fn fresh_nonce_per_encryption() {
    let chacha = ChaCha::try_new(KEY).ok().unwrap();
    let a = chacha.data_encrypt(b"same");
    let b = chacha.data_encrypt(b"same");
    assert_ne!(a[..12], b[..12]);
}

#[test]
fn any_flipped_bit_fails_authentication() {
    let chacha = ChaCha::try_new(KEY).ok().unwrap();
    let record = chacha.data_encrypt(b"hello");
    for byte in 0..record.len() {
        for bit in 0..8 {
            let mut tampered = record.clone();
            tampered[byte] ^= 1 << bit;
            assert_eq!(chacha.data_decrypt(&tampered), Err(CryptoError::AuthenticationFailed));
        }
    }
}

#[test]
fn short_records_fail_without_panicking() {
    let chacha = ChaCha::try_new(KEY).ok().unwrap();
    for len in 0..28 {
        let record = vec![0u8; len];
        assert_eq!(chacha.data_decrypt(&record), Err(CryptoError::AuthenticationFailed));
    }
}

#[test]
fn wrong_key_fails_authentication() {
    let record = ChaCha::try_new(KEY).ok().unwrap().data_encrypt(b"hello");
    let other = ChaCha::try_new(&[1u8; 32]).ok().unwrap();
    assert_eq!(other.data_decrypt(&record), Err(CryptoError::AuthenticationFailed));
}

#[test]
fn key_must_be_exactly_32_bytes() {
    assert!(matches!(ChaCha::try_new(&[0u8; 31]), Err(CryptoError::InvalidKey)));
    assert!(matches!(ChaCha::try_new(&[0u8; 33]), Err(CryptoError::InvalidKey)));
    assert_eq!(data_encrypt(b"x", &[0u8; 16]), Err(CryptoError::InvalidKey));
}

#[test]
fn text_records_decrypt_through_base64() {
    let record = data_encrypt(b"secret text", KEY).unwrap();
    let text = base64_encode(&record);
    assert_eq!(data_decrypt(&text, KEY), Ok(b"secret text".to_vec()));
    assert_eq!(data_decrypt("%%%", KEY), Err(CryptoError::MalformedEncoding));
    assert_eq!(data_decrypt(&text, &[0u8; 5]), Err(CryptoError::InvalidKey));
    assert_eq!(data_decrypt("AAAA", KEY), Err(CryptoError::AuthenticationFailed));
}

#[test]
fn limit_is_the_keystream_length() {
    assert_eq!(rcli::MAX_PLAINTEXT_LEN, 64 * ((1u64 << 32) - 2));
}
