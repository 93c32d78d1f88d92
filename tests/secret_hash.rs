use user_registry::errors::UserError;
use user_registry::identity::CognitoService;
use user_registry::secret_hash::{calculate_secret_hash, encode_secret_hash};

fn decode(text: &str) -> Vec<u8> {
    base64::Engine::decode(&base64::engine::general_purpose::STANDARD, text).unwrap()
}

#[test]
fn derive_matches_known_hmac_sha256_vector() {
    // HMAC-SHA256 with key "Jefe" over "what do ya want for nothing?".
    let h = calculate_secret_hash("what do ya want ", "for nothing?", "Jefe").unwrap();
    assert_eq!(h, "W9zBRr9gdU5qBCQmCJV1x1oAPwidJzmDnexYuWTsOEM=");
}

#[test]
fn derive_concatenates_username_then_client_id() {
    let h = calculate_secret_hash("a@example.com", "client-1", "secret").unwrap();
    assert_eq!(h, "s7/TES4pEKoxk9Oc/DwRlzZu7KSh7VpkRg1lavaoNyM=");
    let swapped = calculate_secret_hash("client-1", "a@example.com", "secret").unwrap();
    assert_ne!(h, swapped);
}

#[test]
fn derive_is_deterministic() {
    let a = calculate_secret_hash("user1", "client", "s3cr3t").unwrap();
    let b = calculate_secret_hash("user1", "client", "s3cr3t").unwrap();
    assert_eq!(a, b);
}

#[test]
fn derive_output_decodes_to_32_bytes() {
    for (u, c, s) in [("user1", "client", "k"), ("", "", "secret"), ("ü@x.io", "id", "ключ")] {
        let h = calculate_secret_hash(u, c, s).unwrap();
        assert_eq!(h.len(), 44);
        assert!(h.ends_with('='));
        assert_eq!(decode(&h).len(), 32);
    }
}

#[test]
fn derive_changes_with_each_input() {
    let base = calculate_secret_hash("user1", "client", "secret").unwrap();
    assert_ne!(base, calculate_secret_hash("user2", "client", "secret").unwrap());
    assert_ne!(base, calculate_secret_hash("user1", "client2", "secret").unwrap());
    assert_ne!(base, calculate_secret_hash("user1", "client", "secret2").unwrap());
}

#[test]
fn derive_refuses_empty_secret() {
    let r = calculate_secret_hash("user1", "client", "");
    assert!(matches!(r, Err(UserError::Configuration)));
}

#[test]
fn encode_secret_hash_is_standard_base64() {
    assert_eq!(encode_secret_hash(&[0, 1, 2]), "AAEC");
    assert_eq!(encode_secret_hash(&[0xff, 0xfe]), "//4=");
    assert_eq!(encode_secret_hash(b"f"), "Zg==");
    assert_eq!(encode_secret_hash(&[]), "");
    let tag: Vec<u8> = (0u8..32).collect();
    assert_eq!(encode_secret_hash(&tag), "AAECAwQFBgcICQoLDA0ODxAREhMUFRYXGBkaGxwdHh8=");
}

#[test]
fn service_hash_uses_its_client_id_and_secret() {
    let svc = CognitoService::new("client-1".to_string(), "secret".to_string(), "pool".to_string());
    assert_eq!(
        svc.calculate_secret_hash("a@example.com").unwrap(),
        "s7/TES4pEKoxk9Oc/DwRlzZu7KSh7VpkRg1lavaoNyM="
    );
}

#[test]
fn derive_does_not_separate_username_from_client_id() {
    let a = calculate_secret_hash("ab", "c", "secret").unwrap();
    let b = calculate_secret_hash("a", "bc", "secret").unwrap();
    assert_eq!(a, b);
}
