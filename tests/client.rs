use qtunnel::api::{contains_text, CFApi};
use qtunnel::cloud::{AnalyticsCount, TokenPermission};
use qtunnel::credential::CredentialStore;
use qtunnel::error::AppError;
use qtunnel::secret::{encode_base64, tunnel_secret};

#[test]
fn test_cfapi_credentials() {
    let mut api = CFApi::new();
    assert!(!api.has_credentials());
    assert!(api.get_token().is_empty());

    api.set_credentials("token123".to_string(), "acc456".to_string());
    assert!(api.has_credentials());
    assert_eq!(api.get_token(), "token123");
    assert_eq!(api.get_account_id(), "acc456");
}

#[test]
fn test_cfapi_auth_header_empty() {
    let api = CFApi::new();
    let result = api.auth_header();
    assert!(result.is_err());
}

#[test]
fn test_cfapi_auth_header_valid() {
    let mut api = CFApi::new();
    api.set_credentials("mytoken".to_string(), "acc".to_string());
    let header = api.auth_header().unwrap();
    assert_eq!(header, "Bearer mytoken");
}

#[test]
fn test_check_permission_exists() {
    let perms = vec![TokenPermission {
        effect: "allow".to_string(),
        resources: vec!["com.cloudflare.api.account.*".to_string()],
        permission_groups: vec!["DNS Read".to_string(), "Tunnel Write".to_string()],
    }];
    assert!(CFApi::check_permission(&perms, "DNS"));
    assert!(CFApi::check_permission(&perms, "tunnel"));
    assert!(!CFApi::check_permission(&perms, "Firewall"));
}

#[test]
fn test_check_permission_deny_effect() {
    let perms = vec![TokenPermission {
        effect: "deny".to_string(),
        resources: vec![],
        permission_groups: vec!["DNS Read".to_string()],
    }];
    assert!(!CFApi::check_permission(&perms, "DNS"));
}

#[test]
fn unauthorized_without_token_even_with_account() {
    let mut api = CFApi::new();
    api.set_credentials(String::new(), "acc".to_string());
    assert!(matches!(api.auth_header(), Err(AppError::Unauthorized)));
    assert!(!api.has_credentials());
}

#[test]
fn proxy_settings_and_empty_proxy_is_ignored() {
    let mut api = CFApi::with_proxy(Some("http://127.0.0.1:7890".to_string()), true);
    assert_eq!(api.get_proxy_url(), Some("http://127.0.0.1:7890"));
    assert_eq!(api.client_proxy(), Some("http://127.0.0.1:7890"));
    assert!(api.proxy_no_verify());
    api.set_proxy(Some(String::new()), false);
    assert_eq!(api.get_proxy_url(), Some(""));
    assert_eq!(api.client_proxy(), None);
    assert!(!api.proxy_no_verify());
    api.set_proxy(None, false);
    assert_eq!(api.get_proxy_url(), None);
}

#[test]
fn substring_search() {
    assert!(contains_text("tunnel write", "tunnel"));
    assert!(contains_text("abc", ""));
    assert!(contains_text("abc", "abc"));
    assert!(contains_text("abc", "c"));
    assert!(!contains_text("ab", "abc"));
    assert!(!contains_text("zone read", "dns"));
    assert!(contains_text("grüße", "üß"));
}

#[test]
fn check_permission_folds_case_of_both_sides() {
    let perms = vec![
        TokenPermission { effect: "deny".to_string(), resources: vec![], permission_groups: vec!["Zone".to_string()] },
        TokenPermission { effect: "allow".to_string(), resources: vec![], permission_groups: vec!["ZONE SETTINGS".to_string()] },
    ];
    assert!(CFApi::check_permission(&perms, "zone settings"));
    assert!(!CFApi::check_permission(&[], "zone"));
}

#[test]
fn derived_key_is_deterministic_and_at_least_64_bytes() {
    let seed = CredentialStore::key_seed("alice", "box");
    assert_eq!(seed, "qtunnel:alice@box");
    let k1 = CredentialStore::derive_key(seed.as_bytes());
    let k2 = CredentialStore::derive_key(seed.as_bytes());
    assert_eq!(k1.len(), 64);
    assert_eq!(k1, k2);
    let other = CredentialStore::derive_key(b"qtunnel:bob@box");
    assert_ne!(k1, other);
    let long_seed = vec![7u8; 100];
    assert_eq!(CredentialStore::derive_key(&long_seed).len(), 100);
    // First byte: one FNV-1a step over 'q', shifted right by 24.
    let h = (0xcbf29ce484222325u64 ^ (b'q' as u64)).wrapping_mul(0x100000001b3);
    assert_eq!(k1[0], (h >> 24) as u8);
}

#[test]
fn obfuscated_credentials_round_trip() {
    let key = CredentialStore::derive_key(CredentialStore::key_seed("u", "h").as_bytes());
    let payload = CredentialStore::payload("tok", "acc");
    assert_eq!(payload, "tok:acc");
    let stored = CredentialStore::obfuscate(payload.as_bytes(), &key);
    assert_ne!(stored, payload.as_bytes().to_vec());
    assert_eq!(CredentialStore::deobfuscate(&stored, &key), payload.as_bytes().to_vec());
    assert_eq!(CredentialStore::decode(&stored, &key), Some(("tok".to_string(), "acc".to_string())));
}

#[test]
fn stored_payload_needs_both_parts() {
    assert_eq!(CredentialStore::split_payload("a:b:c"), Some(("a".to_string(), "b:c".to_string())));
    assert_eq!(CredentialStore::split_payload(":b"), None);
    assert_eq!(CredentialStore::split_payload("a:"), None);
    assert_eq!(CredentialStore::split_payload("ab"), None);
    let key = vec![0u8];
    assert_eq!(CredentialStore::decode(&[0xff, 0xfe], &key), None);
}

#[test]
fn uncached_traffic_never_goes_negative() {
    let c = AnalyticsCount::from_totals(10, 4);
    assert_eq!((c.all, c.cached, c.uncached), (10, 4, 6));
    let d = AnalyticsCount::from_totals(3, 5);
    assert_eq!(d.uncached, 0);
}

#[test]
fn base64_matches_the_standard_vectors() {
    assert_eq!(encode_base64(b""), "");
    assert_eq!(encode_base64(b"f"), "Zg==");
    assert_eq!(encode_base64(b"fo"), "Zm8=");
    assert_eq!(encode_base64(b"foo"), "Zm9v");
    assert_eq!(encode_base64(b"foob"), "Zm9vYg==");
    assert_eq!(encode_base64(b"fooba"), "Zm9vYmE=");
    assert_eq!(encode_base64(b"foobar"), "Zm9vYmFy");
    assert_eq!(encode_base64(&[0xff, 0xfe, 0x00]), "//4A");
}

#[test]
fn tunnel_secrets_are_fresh_44_character_texts() {
    let a = tunnel_secret();
    let b = tunnel_secret();
    assert_eq!(a.len(), 44);
    assert!(a.ends_with('='));
    assert_ne!(a, b);
}
