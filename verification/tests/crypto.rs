//! Encryption of the secrets file.

use edge_config::crypto::{
    choose_seed, decrypt_secrets, derive_key, encrypt_secrets, encrypt_with_nonce,
    generate_seed, hex_seed, is_encrypted, read_payload, split_payload, usable_seed,
};

#[test]
fn test_encrypt_decrypt_roundtrip() {
    let seed = "test-machine-id-1234567890abcdef";
    let plaintext = r#"{"manager_node_secret": "super-secret-value"}"#;
    let encrypted = encrypt_secrets(plaintext, seed).unwrap();

    assert!(encrypted.starts_with("v1:"));
    assert_ne!(encrypted, plaintext);

    let decrypted = decrypt_secrets(&encrypted, seed).unwrap();
    assert_eq!(decrypted, plaintext);
}

#[test]
fn test_backward_compatibility_unencrypted() {
    let seed = "test-machine-id";
    let plaintext = r#"{"version": 1, "manager_node_secret": "test"}"#;

    // Unencrypted data should pass through unchanged
    let result = decrypt_secrets(plaintext, seed).unwrap();
    assert_eq!(result, plaintext);
}

#[test]
fn test_wrong_seed_fails() {
    let plaintext = "secret data";
    let encrypted = encrypt_secrets(plaintext, "seed-a").unwrap();
    let result = decrypt_secrets(&encrypted, "seed-b");
    assert!(result.is_err());
}

#[test]
fn test_derive_key_deterministic() {
    let k1 = derive_key("same-seed");
    let k2 = derive_key("same-seed");
    assert_eq!(k1, k2);
}

#[test]
fn test_derive_key_different_seeds() {
    let k1 = derive_key("seed-a");
    let k2 = derive_key("seed-b");
    assert_ne!(k1, k2);
}

#[test]
fn derived_key_has_its_exact_value() {
    let expected = "f39f5c5746ea7a784ddcf11659221dd2cffc7f6425bc3db6b10d63062ac1b086";
    assert_eq!(hex_seed(&derive_key("same-seed")), expected);
}

#[test]
fn encryption_under_a_fixed_nonce_has_its_exact_value() {
    let nonce: Vec<u8> = (0..12).collect();
    assert_eq!(
        encrypt_with_nonce("secret data", "seed-a", &nonce).unwrap(),
        "v1:AAECAwQFBgcICQoLfnJKB7fH2QGWiFNUTlTfLjPMFqBf6qZa7h9P"
    );
    assert_eq!(
        encrypt_with_nonce("", "seed-a", &nonce).unwrap(),
        "v1:AAECAwQFBgcICQoLWKyBbA2jacNZint7teAbCQ=="
    );
}

#[test]
fn what_was_encrypted_decrypts_to_the_same_text() {
    let nonce: Vec<u8> = (0..12).collect();
    for text in ["", "secret data", "{\"a\": \"ü — 漢字\"}", "v1:not encrypted twice"] {
        let sealed = encrypt_with_nonce(text, "seed-a", &nonce).unwrap();
        assert!(is_encrypted(&sealed));
        assert_eq!(decrypt_secrets(&sealed, "seed-a").unwrap(), text);
        let random = encrypt_secrets(text, "seed-a").unwrap();
        assert!(is_encrypted(&random));
        assert_ne!(random, sealed);
        assert_eq!(decrypt_secrets(&random, "seed-a").unwrap(), text);
    }
}

#[test]
fn every_way_in_which_decryption_fails_has_its_message() {
    let message = |data: &str| decrypt_secrets(data, "seed-a").unwrap_err().to_string();
    assert_eq!(
        message("v1:not base64!"),
        "Failed to decode encrypted secrets (invalid base64)"
    );
    assert_eq!(message("v1:"), "Encrypted secrets data too short");
    assert_eq!(message("v1:AAAAAAAAAAAAAAAA"), "Encrypted secrets data too short");
    let broken = "Failed to decrypt secrets.json — the machine identity may have changed, or the file was copied from another machine. If this is expected, delete secrets.json and re-register with the manager.";
    assert_eq!(message("v1:AAAAAAAAAAAAAAAAAA=="), broken);
    assert_eq!(
        decrypt_secrets("v1:AAECAwQFBgcICQoLfnJKB7fH2QGWiFNUTlTfLjPMFqBf6qZa7h9P", "seed-b")
            .unwrap_err()
            .to_string(),
        broken
    );
    assert_eq!(
        message("v1:AAECAwQFBgcICQoL8uk5tF0c6bkLSVWZdXOzrThg"),
        "Decrypted secrets contain invalid UTF-8"
    );
}

#[test]
fn payloads_are_split_after_the_nonce() {
    let long = Some((0..14).collect::<Vec<u8>>());
    let (nonce, ciphertext) = split_payload(&long).unwrap();
    assert_eq!(nonce, &[0, 1, 2, 3, 4, 5, 6, 7, 8, 9, 10, 11]);
    assert_eq!(ciphertext, &[12, 13]);
    assert_eq!(
        split_payload(&Some(vec![0; 12])).unwrap_err().to_string(),
        "Encrypted secrets data too short"
    );
    assert_eq!(
        split_payload(&None).unwrap_err().to_string(),
        "Failed to decode encrypted secrets (invalid base64)"
    );
}

#[test]
fn payloads_are_read_as_utf8() {
    assert_eq!(read_payload(Some(vec![0xC3, 0xBC])).unwrap(), "ü");
    assert_eq!(
        read_payload(Some(vec![0xC3])).unwrap_err().to_string(),
        "Decrypted secrets contain invalid UTF-8"
    );
    assert!(read_payload(None).is_err());
}

#[test]
fn only_the_prefix_marks_encrypted_content() {
    assert!(is_encrypted("v1:"));
    assert!(!is_encrypted("v1"));
    assert!(!is_encrypted(" v1:AAAA"));
    assert!(!is_encrypted("{}"));
    assert_eq!(decrypt_secrets("V1:AAAA", "seed-a").unwrap(), "V1:AAAA");
}

#[test]
fn a_seed_is_trimmed_and_has_at_least_thirty_two_bytes() {
    let id = "0123456789abcdef0123456789abcdef";
    assert_eq!(usable_seed(&format!("  {id}\n")), Some(id.to_string()));
    assert_eq!(usable_seed(&id[1..]), None);
    assert_eq!(usable_seed(""), None);
    // Sixteen characters of two bytes each.
    let wide = "üüüüüüüüüüüüüüüü";
    assert_eq!(usable_seed(wide), Some(wide.to_string()));
}

#[test]
fn the_first_file_that_holds_a_seed_counts() {
    let a = "a".repeat(32);
    let b = "b".repeat(32);
    let files = vec![None, Some("short".to_string()), Some(a.clone()), Some(b.clone())];
    assert_eq!(choose_seed(&files), Some(a));
    assert_eq!(choose_seed(&vec![None, Some(b.clone())]), Some(b));
    assert_eq!(choose_seed(&vec![None, Some("short".to_string())]), None);
    assert_eq!(choose_seed(&Vec::new()), None);
}

#[test]
fn a_generated_seed_is_found_again() {
    let seed = generate_seed();
    assert_eq!(seed.len(), 64);
    assert!(seed.chars().all(|c| c.is_ascii_digit() || ('a'..='f').contains(&c)));
    assert_eq!(choose_seed(&vec![Some(seed.clone())]), Some(seed.clone()));
    assert_ne!(generate_seed(), seed);
    assert_eq!(hex_seed(&[0x00, 0x0f, 0xf0, 0xab]), "000ff0ab");
}
