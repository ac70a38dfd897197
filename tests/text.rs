use rcli::{
    gen_pass, generate_asymmetric_keypair, key_gen, keypair_from_secret, text_sign, text_verify,
    url_decode, url_encode, Blake3Signer, Blake3Verifier, CryptoError, Ed25519Signer,
    Ed25519Verifier, TextSign, TextSignFormat, TextSigner, TextVerifier, TextVerify,
};

fn hex(s: &str) -> Vec<u8> {
    (0..s.len())
        .step_by(2)
        .map(|i| u8::from_str_radix(&s[i..i + 2], 16).unwrap())
        .collect()
}

const MAC_KEY: &[u8] = b"Q6g!nb3RtMJ_f@ma#8Ee2hD%^Aj7*q:T";

#[test]
fn test_blake3() {
    let encoded = text_sign(TextSignFormat::Blake3, "hello".as_bytes(), MAC_KEY).unwrap();
    let valid = text_verify(TextSignFormat::Blake3, "hello".as_bytes(), MAC_KEY, &encoded).unwrap();
    assert!(valid);
}

#[test]
fn test_ed25519() {
    let (secret, public) = generate_asymmetric_keypair();
    let encoded = text_sign(TextSignFormat::Ed25519, "hello".as_bytes(), &secret).unwrap();
    let valid = text_verify(TextSignFormat::Ed25519, "hello".as_bytes(), &public, &encoded).unwrap();
    assert!(valid);
}

#[test]
fn mac_signature_of_hello_under_zero_key() {
    let key = [0u8; 32];
    let first = text_sign(TextSignFormat::Blake3, b"hello", &key).unwrap();
    let second = text_sign(TextSignFormat::Blake3, b"hello", &key).unwrap();
    assert_eq!(first, second);
    let expected = hex("e0f68bfec361216ec02fc15736643a70471d96260b0fe6f273a909bb8b6dbd81");
    assert_eq!(url_decode(&first), Ok(expected.clone()));
    assert_eq!(Blake3Signer::new(key).sign(b"hello"), expected);
}

#[test]
fn mac_verifies_own_message_only() {
    let sig = text_sign(TextSignFormat::Blake3, b"message one", MAC_KEY).unwrap();
    assert_eq!(text_verify(TextSignFormat::Blake3, b"message one", MAC_KEY, &sig), Ok(true));
    assert_eq!(text_verify(TextSignFormat::Blake3, b"message two", MAC_KEY, &sig), Ok(false));
    assert_eq!(text_verify(TextSignFormat::Blake3, b"", MAC_KEY, &sig), Ok(false));
    let mut other_key = MAC_KEY.to_vec();
    other_key[0] ^= 1;
    assert_eq!(text_verify(TextSignFormat::Blake3, b"message one", &other_key, &sig), Ok(false));
}

#[test]
fn mac_key_is_truncated_to_32_bytes() {
    let mut long = MAC_KEY.to_vec();
    long.extend_from_slice(b"ignored tail");
    let a = text_sign(TextSignFormat::Blake3, b"m", &long).unwrap();
    let b = text_sign(TextSignFormat::Blake3, b"m", MAC_KEY).unwrap();
    assert_eq!(a, b);
}

#[test]
fn short_keys_are_invalid() {
    let short = [7u8; 31];
    assert_eq!(text_sign(TextSignFormat::Blake3, b"m", &short), Err(CryptoError::InvalidKey));
    assert_eq!(text_sign(TextSignFormat::Ed25519, b"m", &short), Err(CryptoError::InvalidKey));
    assert_eq!(text_verify(TextSignFormat::Blake3, b"m", &short, "AAAA"), Err(CryptoError::InvalidKey));
    assert!(matches!(Blake3Signer::try_new(&short), Err(CryptoError::InvalidKey)));
    assert!(matches!(Blake3Verifier::try_new(&short), Err(CryptoError::InvalidKey)));
    assert!(matches!(Ed25519Signer::try_new(&[]), Err(CryptoError::InvalidKey)));
    assert!(matches!(Ed25519Verifier::try_new(&short), Err(CryptoError::InvalidKey)));
}

#[test]
fn ed25519_verifying_key_must_be_a_point() {
    let mut not_a_point = [0u8; 32];
    not_a_point[0] = 2;
    assert!(matches!(Ed25519Verifier::try_new(&not_a_point), Err(CryptoError::InvalidKey)));
    let sig = url_encode(&[0u8; 64]);
    assert_eq!(
        text_verify(TextSignFormat::Ed25519, b"m", &not_a_point, &sig),
        Err(CryptoError::InvalidKey)
    );
}

#[test]
fn ed25519_matches_reference_vector() {
    let secret: [u8; 32] = hex("9d61b19deffd5a60ba844af492ec2cc44449c5697b326919703bac031cae7f60")
        .try_into()
        .unwrap();
    let (s, public) = keypair_from_secret(secret);
    assert_eq!(s, secret);
    assert_eq!(
        public.to_vec(),
        hex("d75a980182b10ab7d54bfed3c964073a0ee172f3daa62325af021a68f707511a")
    );
    let sig = text_sign(TextSignFormat::Ed25519, b"", &secret).unwrap();
    assert_eq!(
        sig,
        "5VZDAMNgrHKQhuLMgG6CioSHfx645dl02HPgZSJJAVVfuIIVkKM7rMYeOXAc-bRr0lv18FlbviRlUUFDjnoQCw"
    );
    let hello = text_sign(TextSignFormat::Ed25519, b"hello", &secret).unwrap();
    assert_eq!(
        hello,
        "URykl8TUJwsJixr9WuTjuVGl2iydpunAUo9XYYg2duffbkwPDhtaCkRE9CmLGILdgi-xEzy9Sav7mWyHzVuFBg"
    );
    assert_eq!(text_verify(TextSignFormat::Ed25519, b"", &public, &sig), Ok(true));
    assert_eq!(text_verify(TextSignFormat::Ed25519, b"hello", &public, &sig), Ok(false));
}

#[test]
fn ed25519_signature_of_wrong_length_is_an_error() {
    let (_, public) = generate_asymmetric_keypair();
    let short = url_encode(&[1u8; 63]);
    assert_eq!(
        text_verify(TextSignFormat::Ed25519, b"m", &public, &short),
        Err(CryptoError::InvalidSignature)
    );
    let verifier = Ed25519Verifier::try_new(&public).ok().unwrap();
    assert_eq!(verifier.verify(b"m", &[0u8; 65]), Err(CryptoError::InvalidSignature));
}

#[test]
fn signature_from_another_pair_is_rejected() {
    let (secret_a, _) = generate_asymmetric_keypair();
    let (_, public_b) = generate_asymmetric_keypair();
    let sig = text_sign(TextSignFormat::Ed25519, b"same message", &secret_a).unwrap();
    assert_eq!(text_verify(TextSignFormat::Ed25519, b"same message", &public_b, &sig), Ok(false));
}

#[test]
fn malformed_signature_text_is_an_error() {
    assert_eq!(
        text_verify(TextSignFormat::Blake3, b"m", MAC_KEY, "not base64!"),
        Err(CryptoError::MalformedEncoding)
    );
    assert_eq!(
        text_verify(TextSignFormat::Ed25519, b"m", &[0u8; 32], "a"),
        Err(CryptoError::MalformedEncoding)
    );
}

#[test]
fn dispatch_matches_the_providers() {
    let signer = TextSigner::try_new(TextSignFormat::Blake3, MAC_KEY).ok().unwrap();
    let verifier = TextVerifier::try_new(TextSignFormat::Blake3, MAC_KEY).ok().unwrap();
    let sig = signer.sign(b"abc");
    assert_eq!(sig.len(), 32);
    assert_eq!(verifier.verify(b"abc", &sig), Ok(true));
    assert_eq!(verifier.verify(b"abd", &sig), Ok(false));
    let (secret, public) = generate_asymmetric_keypair();
    let signer = TextSigner::try_new(TextSignFormat::Ed25519, &secret).ok().unwrap();
    let verifier = TextVerifier::try_new(TextSignFormat::Ed25519, &public).ok().unwrap();
    let sig = signer.sign(b"abc");
    assert_eq!(sig.len(), 64);
    assert_eq!(verifier.verify(b"abc", &sig), Ok(true));
}

#[test]
fn generated_keys_have_the_documented_shape() {
    let files = key_gen(TextSignFormat::Blake3);
    assert_eq!(files.len(), 1);
    assert_eq!(files[0].name, "blake3.txt");
    assert_eq!(files[0].bytes.len(), 32);
    let files = key_gen(TextSignFormat::Ed25519);
    assert_eq!(files.len(), 2);
    assert_eq!(files[0].name, "ed25519.sign");
    assert_eq!(files[1].name, "ed25519.verify");
    let sig = text_sign(TextSignFormat::Ed25519, b"msg", &files[0].bytes).unwrap();
    assert_eq!(text_verify(TextSignFormat::Ed25519, b"msg", &files[1].bytes, &sig), Ok(true));
    let mac = key_gen(TextSignFormat::Blake3);
    let sig = text_sign(TextSignFormat::Blake3, b"msg", &mac[0].bytes).unwrap();
    assert_eq!(text_verify(TextSignFormat::Blake3, b"msg", &mac[0].bytes, &sig), Ok(true));
    let pass = gen_pass(32, false, false, false, false).unwrap();
    assert_eq!(pass.len(), 32);
}

#[test]
fn signature_texts_have_fixed_length_and_url_alphabet() {
    let url_char = |c: char| c.is_ascii_alphanumeric() || c == '-' || c == '_';
    for msg in [&b""[..], b"hello", b"a longer message of several words"] {
        let mac = text_sign(TextSignFormat::Blake3, msg, MAC_KEY).unwrap();
        assert_eq!(mac.len(), 43);
        assert!(mac.chars().all(url_char));
        let (secret, _) = generate_asymmetric_keypair();
        let sig = text_sign(TextSignFormat::Ed25519, msg, &secret).unwrap();
        assert_eq!(sig.len(), 86);
        assert!(sig.chars().all(url_char));
    }
    assert_eq!(Blake3Signer::new([0u8; 32]).sign(b"hello").len(), 32);
    assert_eq!(Ed25519Signer::new([3u8; 32]).sign(b"hello").len(), 64);
}

#[test]
fn mac_signature_of_wrong_length_is_false() {
    let verifier = Blake3Verifier::new([0u8; 32]);
    let good = Blake3Signer::new([0u8; 32]).sign(b"hello");
    assert_eq!(verifier.verify(b"hello", &good), Ok(true));
    assert_eq!(verifier.verify(b"hello", &good[..31]), Ok(false));
    let mut longer = good.clone();
    longer.push(0);
    assert_eq!(verifier.verify(b"hello", &longer), Ok(false));
    assert_eq!(verifier.verify(b"hello", &[]), Ok(false));
}
