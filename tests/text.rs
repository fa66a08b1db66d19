use rcli::cli::TextSignFormat;
use rcli::text::{
    generate_key, process_sign, process_verify, Blake3, CommonKeyGenerator, Ed25519Signer,
    Ed25519Verifier, Key, KeyGenerator, SignSession, TextError, TextSigner, TextVerifier,
    VerifySession,
};

fn ed25519_pair() -> (Vec<u8>, Vec<u8>) {
    match generate_key(TextSignFormat::Ed25519).unwrap() {
        Key::Asymmetric { public, secret } => (public, secret),
        _ => panic!("Invalid key type"),
    }
}

fn blake3_key() -> Vec<u8> {
    match generate_key(TextSignFormat::Blake3).unwrap() {
        Key::Symmetric { key } => key,
        _ => panic!("Invalid key type"),
    }
}

/// 32 bytes that do not decode as an Ed25519 public key.
fn undecodable_public_key() -> Vec<u8> {
    for b in 0u8..=255 {
        let mut bytes = [b; 32];
        bytes[31] &= 0x7f;
        if ed25519_dalek::VerifyingKey::from_bytes(&bytes).is_err() {
            return bytes.to_vec();
        }
    }
    panic!("no undecodable key found");
}

#[test]
fn test_blake3_sign_verify() {
    let key = b"0123456789abcdefghijklmnopqrstuv";
    let signer = Blake3::try_new(key).unwrap();
    let verifier = Blake3::try_new(key).unwrap();

    let msg = b"hello world";
    let sig = signer.sign(msg);
    assert!(verifier.verify(msg, &sig).unwrap());
}

#[test]
fn test_ed25519_sign_verify() {
    let (public, secret) = ed25519_pair();
    let signer = Ed25519Signer::try_new(&secret).unwrap();
    let verifier = Ed25519Verifier::try_new(&public).unwrap();

    let msg = b"hello world";
    let sig = signer.sign(msg);
    assert!(verifier.verify(msg, &sig).unwrap());
}

#[test]
fn test_key_generator() {
    let generator = CommonKeyGenerator::new(32, TextSignFormat::Blake3);
    let key = generator.generate_key().unwrap();
    match key {
        Key::Symmetric { key } => {
            assert_eq!(key.len(), 32);
        }
        _ => panic!("Invalid key type"),
    }

    let generator = CommonKeyGenerator::new(32, TextSignFormat::Ed25519);
    let key = generator.generate_key().unwrap();
    match key {
        Key::Asymmetric { public, secret } => {
            assert_eq!(public.len(), 32);
            assert_eq!(secret.len(), 32);
        }
        _ => panic!("Invalid key type"),
    }
}

#[test]
fn keyed_hash_zero_key_scenario() {
    let key = [0u8; 32];
    let digest = Blake3::new(key).sign(b"hello world");
    let expected = blake3::keyed_hash(&key, b"hello world");
    assert_eq!(digest, expected.as_bytes().to_vec());
    assert_eq!(digest.len(), 32);
    assert_ne!(digest, b"hello world".to_vec());

    let verifier = Blake3::try_new(&key).unwrap();
    assert_eq!(verifier.verify(b"hello world", &digest), Ok(true));
    assert_eq!(verifier.verify(b"hello world!", &digest), Ok(false));

    let text = process_sign(b"hello world", &key, TextSignFormat::Blake3).unwrap();
    assert_eq!(
        text,
        base64::Engine::encode(&base64::prelude::BASE64_URL_SAFE_NO_PAD, expected.as_bytes())
    );
    assert_eq!(
        process_verify(b"hello world", &key, &text, TextSignFormat::Blake3),
        Ok(true)
    );
    assert_eq!(
        process_verify(b"hello world!", &key, &text, TextSignFormat::Blake3),
        Ok(false)
    );
}

#[test]
fn ed25519_generated_pair_scenario() {
    let (public, secret) = ed25519_pair();
    let sig = process_sign(b"hello world", &secret, TextSignFormat::Ed25519).unwrap();
    assert_eq!(
        process_verify(b"hello world", &public, &sig, TextSignFormat::Ed25519),
        Ok(true)
    );
    assert_eq!(
        process_verify(b"hello", &public, &sig, TextSignFormat::Ed25519),
        Ok(false)
    );
}

#[test]
fn ed25519_signature_matches_dalek() {
    let (_, secret) = ed25519_pair();
    let signer = Ed25519Signer::try_new(&secret).unwrap();
    let sig = signer.sign(b"message");
    let key = ed25519_dalek::SigningKey::from_bytes(&secret.clone().try_into().unwrap());
    let expected = ed25519_dalek::Signer::sign(&key, b"message");
    assert_eq!(sig, expected.to_bytes().to_vec());
    assert_eq!(sig.len(), 64);
    assert_eq!(signer.public_key(), key.verifying_key().to_bytes().to_vec());
}

#[test]
fn round_trip_both_algorithms() {
    let messages: [&[u8]; 3] = [b"", b"a", &[7u8; 5000]];
    for msg in messages {
        let key = blake3_key();
        let sig = process_sign(msg, &key, TextSignFormat::Blake3).unwrap();
        assert_eq!(process_verify(msg, &key, &sig, TextSignFormat::Blake3), Ok(true));

        let (public, secret) = ed25519_pair();
        let sig = process_sign(msg, &secret, TextSignFormat::Ed25519).unwrap();
        assert_eq!(
            process_verify(msg, &public, &sig, TextSignFormat::Ed25519),
            Ok(true)
        );
    }
}

#[test]
fn tampering_is_detected() {
    let msg = b"the quick brown fox".to_vec();
    let mut tampered = msg.clone();
    tampered[3] ^= 0x01;

    let key = blake3_key();
    let sig = Blake3::try_new(&key).unwrap().sign(&msg);
    let verifier = Blake3::try_new(&key).unwrap();
    assert_eq!(verifier.verify(&msg, &sig), Ok(true));
    assert_eq!(verifier.verify(&tampered, &sig), Ok(false));
    let other = Blake3::try_new(&blake3_key()).unwrap();
    assert_eq!(other.verify(&msg, &sig), Ok(false));

    let (public, secret) = ed25519_pair();
    let sig = Ed25519Signer::try_new(&secret).unwrap().sign(&msg);
    let verifier = Ed25519Verifier::try_new(&public).unwrap();
    assert_eq!(verifier.verify(&msg, &sig), Ok(true));
    assert_eq!(verifier.verify(&tampered, &sig), Ok(false));
    let (other_public, _) = ed25519_pair();
    let other = Ed25519Verifier::try_new(&other_public).unwrap();
    assert_eq!(other.verify(&msg, &sig), Ok(false));
}

#[test]
fn cross_algorithm_rejection() {
    let msg = b"hello world";
    let key = blake3_key();
    let keyed_sig = Blake3::try_new(&key).unwrap().sign(msg);
    let (public, secret) = ed25519_pair();
    let ed_sig = Ed25519Signer::try_new(&secret).unwrap().sign(msg);

    let ed_verifier = Ed25519Verifier::try_new(&public).unwrap();
    assert_eq!(
        ed_verifier.verify(msg, &keyed_sig),
        Err(TextError::InvalidSignatureLength)
    );
    let keyed_verifier = Blake3::try_new(&key).unwrap();
    assert_eq!(keyed_verifier.verify(msg, &ed_sig), Ok(false));
}

#[test]
fn key_length_is_enforced() {
    for len in [0usize, 1, 31, 33, 64] {
        let key = vec![1u8; len];
        assert!(matches!(Blake3::try_new(&key), Err(TextError::InvalidKeyLength)));
        assert!(matches!(
            Ed25519Signer::try_new(&key),
            Err(TextError::InvalidKeyLength)
        ));
        assert!(matches!(
            Ed25519Verifier::try_new(&key),
            Err(TextError::InvalidKeyLength)
        ));
        for format in [TextSignFormat::Blake3, TextSignFormat::Ed25519] {
            assert_eq!(
                process_sign(b"m", &key, format),
                Err(TextError::InvalidKeyLength)
            );
            assert_eq!(
                process_verify(b"m", &key, "AAAA", format),
                Err(TextError::InvalidKeyLength)
            );
            assert!(matches!(
                SignSession::start(&key, format),
                Err(TextError::InvalidKeyLength)
            ));
            assert!(matches!(
                VerifySession::start(&key, format),
                Err(TextError::InvalidKeyLength)
            ));
        }
    }
}

#[test]
fn undecodable_public_key_is_refused() {
    let key = undecodable_public_key();
    assert!(matches!(
        Ed25519Verifier::try_new(&key),
        Err(TextError::InvalidKeyEncoding)
    ));
    assert_eq!(
        process_verify(b"m", &key, "AAAA", TextSignFormat::Ed25519),
        Err(TextError::InvalidKeyEncoding)
    );
}

#[test]
fn signature_length_is_enforced() {
    let (public, _) = ed25519_pair();
    let verifier = Ed25519Verifier::try_new(&public).unwrap();
    for len in [0usize, 32, 63, 65] {
        assert_eq!(
            verifier.verify(b"m", &vec![0u8; len]),
            Err(TextError::InvalidSignatureLength)
        );
    }
    assert_eq!(verifier.verify(b"m", &[0u8; 64]), Ok(false));

    let keyed = Blake3::try_new(&[0u8; 32]).unwrap();
    assert_eq!(keyed.verify(b"m", &[0u8; 31]), Ok(false));
}

#[test]
fn malformed_signature_text_is_an_error() {
    let key = [0u8; 32];
    assert_eq!(
        process_verify(b"m", &key, "not base64!", TextSignFormat::Blake3),
        Err(TextError::InvalidSignatureEncoding)
    );
    assert_eq!(
        process_verify(b"m", &key, "AAAA=", TextSignFormat::Blake3),
        Err(TextError::InvalidSignatureEncoding)
    );
}

#[test]
fn generated_keys_have_the_right_shape() {
    let key = blake3_key();
    assert_eq!(key.len(), 32);
    assert!(key.iter().any(|b| b.is_ascii_lowercase()));
    assert!(key.iter().any(|b| b.is_ascii_uppercase()));
    assert!(key.iter().any(|b| b.is_ascii_digit()));

    let (public, secret) = ed25519_pair();
    assert_eq!(public.len(), 32);
    assert_eq!(secret.len(), 32);
    let signer = Ed25519Signer::try_new(&secret).unwrap();
    assert_eq!(signer.public_key(), public);
    assert_eq!(signer.secret_key(), secret);

    assert!(matches!(
        CommonKeyGenerator::new(3, TextSignFormat::Blake3).generate_key(),
        Err(TextError::InvalidKeyLength)
    ));
    assert!(matches!(
        CommonKeyGenerator::new(256, TextSignFormat::Blake3).generate_key(),
        Err(TextError::InvalidKeyLength)
    ));
    match CommonKeyGenerator::new(255, TextSignFormat::Blake3).generate_key() {
        Ok(Key::Symmetric { key }) => assert_eq!(key.len(), 255),
        _ => panic!("Invalid key type"),
    }
}

#[test]
fn ed25519_signing_is_deterministic() {
    let (_, secret) = ed25519_pair();
    let signer = Ed25519Signer::try_new(&secret).unwrap();
    assert_eq!(signer.sign(b"same message"), signer.sign(b"same message"));
    assert_eq!(
        process_sign(b"x", &secret, TextSignFormat::Ed25519),
        process_sign(b"x", &secret, TextSignFormat::Ed25519)
    );
}

#[test]
fn chunked_input_signs_like_whole_input() {
    let msg: Vec<u8> = (0..3000u32).map(|i| (i % 251) as u8).collect();
    for format in [TextSignFormat::Blake3, TextSignFormat::Ed25519] {
        let (sign_key, verify_key) = match format {
            TextSignFormat::Blake3 => {
                let k = blake3_key();
                (k.clone(), k)
            }
            TextSignFormat::Ed25519 => {
                let (public, secret) = ed25519_pair();
                (secret, public)
            }
        };
        let mut session = SignSession::start(&sign_key, format).unwrap();
        for chunk in msg.chunks(1024) {
            session.feed(chunk);
        }
        let text = session.finish();
        assert_eq!(text, process_sign(&msg, &sign_key, format).unwrap());

        let raw = session.signature();
        let mut check = VerifySession::start(&verify_key, format).unwrap();
        for chunk in msg.chunks(700) {
            check.feed(chunk);
        }
        assert_eq!(check.finish(&raw), Ok(true));
        assert_eq!(process_verify(&msg, &verify_key, &text, format), Ok(true));
    }
}
