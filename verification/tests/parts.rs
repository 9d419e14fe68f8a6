use bytes_encrypter::engine::{decrypt, encrypt, plaintext_or_failure};
use bytes_encrypter::params::{KEY_LEN, ROUNDS, SALT_LEN};
use bytes_encrypter::{
    derive_key, seal_with, BytesEncrypter, Encryptable, Encrypted, EncryptionError, Key,
};

const VECTOR_KEY: [u8; 32] = [
    115, 15, 244, 199, 175, 61, 70, 146, 62, 142, 212, 81, 238, 129, 60, 135, 247, 144, 176, 162,
    38, 188, 150, 169, 45, 228, 155, 94, 156, 5, 225, 238,
];
const SALT: [u8; 16] = [0, 1, 2, 3, 4, 5, 6, 7, 8, 9, 10, 11, 12, 13, 14, 15];

/// The key of the password "password" and `SALT`, from another
/// implementation of PBKDF2-HMAC-SHA512.
const KEY: [u8; 32] = [
    233, 139, 90, 25, 110, 254, 246, 233, 55, 228, 50, 198, 228, 187, 239, 18, 185, 156, 162, 6,
    1, 52, 62, 42, 251, 227, 93, 241, 240, 252, 131, 146,
];
const VECTOR_TOKEN: &str = "gAAAAAAdwJ6wAAECAwQFBgcICQoLDA0ODy021cpGVWKZ_eEwCGM4BLLF_5CV9dOPmrhuVUPgJobwOz7JcbmrR64jVmpU4IwqDA==";

#[test]
fn parameters_are_fixed() {
    assert_eq!(SALT_LEN, 16);
    assert_eq!(KEY_LEN, 32);
    assert_eq!(ROUNDS, 480_000);
}

#[test]
fn derived_key_has_the_known_value() {
    let key = derive_key(b"password", &SALT);
    assert_eq!(key.as_bytes(), &KEY);
}

#[test]
fn derived_key_of_unicode_password_has_the_known_value() {
    let key = derive_key("p\u{e4}ss\u{20ac}word".as_bytes(), &[0xff; 16]);
    assert_eq!(
        key.as_bytes(),
        &[
            113, 246, 252, 154, 40, 26, 211, 31, 203, 103, 216, 83, 167, 78, 56, 20, 84, 204, 112,
            131, 203, 12, 153, 127, 217, 79, 213, 240, 230, 250, 93, 141
        ]
    );
}

#[test]
fn derived_key_of_empty_password_has_the_known_value() {
    let key = derive_key(b"", &[0u8; 16]);
    assert_eq!(
        key.as_bytes(),
        &[
            2, 137, 48, 60, 96, 70, 118, 109, 44, 185, 228, 232, 145, 107, 174, 78, 194, 28, 197,
            207, 35, 197, 117, 204, 158, 175, 77, 67, 19, 69, 103, 127
        ]
    );
}

#[test]
fn derivation_is_deterministic() {
    let salt = [9u8; 16];
    let a = derive_key(b"password", &salt);
    let b = derive_key(b"password", &salt);
    assert_eq!(a.as_bytes(), b.as_bytes());
    assert_eq!(a.as_bytes().len(), 32);
}

#[test]
fn derivation_depends_on_the_salt() {
    let mut salt = SALT;
    salt[15] ^= 1;
    assert_ne!(derive_key(b"password", &salt).as_bytes(), &KEY);
}

#[test]
fn derivation_depends_on_the_password() {
    assert_ne!(derive_key(b"passwore", &SALT).as_bytes(), &KEY);
}

#[test]
fn key_keeps_its_bytes() {
    let key = Key::from_bytes(VECTOR_KEY);
    assert_eq!(key.as_bytes(), &VECTOR_KEY);
}

#[test]
fn known_token_decrypts_under_its_key() {
    let key = Key::from_bytes(VECTOR_KEY);
    assert_eq!(decrypt(&key, VECTOR_TOKEN), Ok(b"hello".to_vec()));
}

#[test]
fn known_token_is_refused_under_another_key() {
    let mut other = VECTOR_KEY;
    other[0] ^= 1;
    assert_eq!(
        decrypt(&Key::from_bytes(other), VECTOR_TOKEN),
        Err(EncryptionError::DecryptionFailed)
    );
    let mut other = VECTOR_KEY;
    other[31] ^= 0x80;
    assert_eq!(
        decrypt(&Key::from_bytes(other), VECTOR_TOKEN),
        Err(EncryptionError::DecryptionFailed)
    );
}

#[test]
fn malformed_tokens_are_refused() {
    let key = Key::from_bytes(VECTOR_KEY);
    let refused = Err(EncryptionError::DecryptionFailed);
    assert_eq!(decrypt(&key, ""), refused);
    assert_eq!(decrypt(&key, "%%%%"), refused);
    // too short
    assert_eq!(
        decrypt(&key, "gAAAAAAdwJ6xAAECAwQFBgcICQoLDA0OD3HkMATM5lFqGaerZ-fWPA=="),
        refused
    );
    // incorrect tag
    assert_eq!(
        decrypt(&key, "gAAAAAAdwJ6xAAECAwQFBgcICQoLDA0OD3HkMATM5lFqGaerZ-fWPAl1-szkFVzXTuGb4hR8AKtwcaX1YdykQUFBQUFBQUFBQQ=="),
        refused
    );
    // unsupported version marker
    assert_eq!(decrypt(&key, &format!("h{}", &VECTOR_TOKEN[1..])), refused);
}

#[test]
fn every_single_altered_character_is_refused() {
    let key = Key::from_bytes([7u8; 32]);
    let token = encrypt(&key, b"test");
    assert_eq!(decrypt(&key, &token), Ok(b"test".to_vec()));
    let bytes = token.as_bytes();
    // The last character before the padding holds unused bits; the padding
    // itself is not part of the data.
    let data_len = token.trim_end_matches('=').len();
    for at in 0..data_len - 1 {
        let mut altered = bytes.to_vec();
        altered[at] = if altered[at] == b'A' { b'B' } else { b'A' };
        let altered = String::from_utf8(altered).unwrap();
        assert_eq!(
            decrypt(&key, &altered),
            Err(EncryptionError::DecryptionFailed),
            "character {}",
            at
        );
    }
}

#[test]
fn engine_round_trips() {
    let key = Key::from_bytes([0u8; 32]);
    for data in [b"".to_vec(), b"Abc".to_vec(), vec![0, 255, 0, 0], vec![1u8; 1000]] {
        let token = encrypt(&key, &data);
        assert!(token.starts_with("gAAAAA"));
        assert_eq!(decrypt(&key, &token), Ok(data));
    }
}

#[test]
fn two_tokens_of_one_plaintext_differ() {
    let key = Key::from_bytes([0u8; 32]);
    assert_ne!(encrypt(&key, b"test"), encrypt(&key, b"test"));
}

#[test]
fn outcome_of_the_engine_is_carried_over() {
    assert_eq!(plaintext_or_failure(Ok(vec![1, 2, 3])), Ok(vec![1, 2, 3]));
    assert_eq!(plaintext_or_failure(Ok(Vec::new())), Ok(Vec::new()));
    assert_eq!(
        plaintext_or_failure(Err(fernet::DecryptionError)),
        Err(EncryptionError::DecryptionFailed)
    );
}

#[test]
fn sealing_keeps_the_salt_that_was_drawn() {
    let sealed = seal_with(Ok(SALT), b"test", "password").unwrap();
    assert_eq!(sealed.salt(), &SALT);
    assert_eq!(decrypt(&Key::from_bytes(KEY), sealed.token()), Ok(b"test".to_vec()));
}

#[test]
fn sealing_fails_without_a_salt() {
    let failure = rand::Error::new("no random source");
    let result = seal_with(Err(failure), b"test", "password");
    assert!(matches!(result, Err(EncryptionError::SecureRandomUnavailable)));
}

#[test]
fn artifact_sealed_by_hand_opens() {
    let token = encrypt(&Key::from_bytes(KEY), b"by hand");
    let artifact = Encrypted::from_parts(&SALT, token).unwrap();
    assert_eq!(BytesEncrypter::decrypt(&artifact, "password"), Ok(b"by hand".to_vec()));
}

#[test]
fn salt_of_wrong_length_is_refused() {
    for len in [0usize, 1, 15, 17, 32] {
        let salt = vec![0u8; len];
        assert!(matches!(
            Encrypted::from_parts(&salt, String::from("token")),
            Err(EncryptionError::InvalidSaltLength)
        ));
    }
}

#[test]
fn parts_are_kept() {
    let salt: Vec<u8> = (100..116).collect();
    let artifact = Encrypted::from_parts(&salt, String::from("token")).unwrap();
    assert_eq!(artifact.salt().to_vec(), salt);
    assert_eq!(artifact.token(), "token");
}

#[test]
fn errors_describe_themselves() {
    assert_eq!(
        EncryptionError::SecureRandomUnavailable.message(),
        "secure random source unavailable"
    );
    assert_eq!(EncryptionError::DecryptionFailed.message(), "decryption failed");
    assert_eq!(EncryptionError::InvalidSaltLength.message(), "salt must be 16 bytes long");
}
