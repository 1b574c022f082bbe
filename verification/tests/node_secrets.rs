//! The secrets of a node.

use edge_config::crypto::{decrypt_secrets, encrypt_secrets};
use edge_config::models::{AppConfig, CellularUplinkConfig, NmosRegistrationConfig};
use edge_config::secrets::{SecretsConfig, has_secrets};

fn uplink(interface: &str, password: Option<&str>) -> CellularUplinkConfig {
    CellularUplinkConfig {
        interface: interface.to_string(),
        kind: "rutos".to_string(),
        scheme: "https".to_string(),
        address: "192.168.1.1".to_string(),
        api: "rest".to_string(),
        username: Some("admin".to_string()),
        password: password.map(|p| p.to_string()),
        verify_tls: false,
        cert_fingerprint: None,
    }
}

fn node() -> AppConfig {
    let mut config = AppConfig::default();
    config.setup_token = Some("setup".to_string());
    config.cellular_uplinks = vec![
        uplink("wwan0", Some("first")),
        uplink("wwan1", None),
        uplink("wwan2", Some("third")),
    ];
    config.nmos_registration = Some(NmosRegistrationConfig {
        enabled: true,
        registry_url: "http://registry".to_string(),
        api_version: "v1.3".to_string(),
        heartbeat_interval_secs: 5,
        request_timeout_secs: 5,
        bearer_token: Some("bearer".to_string()),
    });
    config
}

#[test]
fn the_tokens_of_a_node_are_taken_out_and_put_back() {
    let config = node();
    assert!(has_secrets(&config));
    let secrets = SecretsConfig::extract_from(&config);
    assert!(!secrets.is_empty());
    assert_eq!(secrets.setup_token.as_deref(), Some("setup"));
    assert_eq!(secrets.nmos_bearer_token.as_deref(), Some("bearer"));
    assert_eq!(secrets.cellular_passwords.get("wwan0").map(|p| p.as_str()), Some("first"));
    assert_eq!(secrets.cellular_passwords.get("wwan1"), None);
    assert_eq!(secrets.cellular_passwords.get("wwan2").map(|p| p.as_str()), Some("third"));

    let mut stripped = config.clone();
    stripped.strip_secrets();
    assert!(!has_secrets(&stripped));
    assert_eq!(stripped.setup_token, None);
    assert!(stripped.cellular_uplinks.iter().all(|u| u.password.is_none()));
    assert_eq!(stripped.cellular_uplinks[0].username.as_deref(), Some("admin"));
    let nmos = stripped.nmos_registration.as_ref().unwrap();
    assert_eq!(nmos.bearer_token, None);
    assert_eq!(nmos.registry_url, "http://registry");

    secrets.merge_into(&mut stripped);
    assert_eq!(format!("{stripped:?}"), format!("{config:?}"));
}

#[test]
fn each_token_of_a_node_is_a_secret() {
    let mut c = AppConfig::default();
    assert!(!has_secrets(&c));
    c.setup_token = Some("setup".to_string());
    assert!(has_secrets(&c));
    let mut c = AppConfig::default();
    c.cellular_uplinks = vec![uplink("wwan0", None)];
    assert!(!has_secrets(&c));
    c.cellular_uplinks[0].password = Some("p".to_string());
    assert!(has_secrets(&c));
    let mut c = node();
    c.strip_secrets();
    assert!(!has_secrets(&c));
    c.nmos_registration.as_mut().unwrap().bearer_token = Some("b".to_string());
    assert!(has_secrets(&c));
}

#[test]
fn what_is_shown_of_a_node_holds_no_token() {
    let mut c = node();
    c.mask_secrets();
    let shown = format!("{c:?}");
    for secret in ["\"setup\"", "\"first\"", "\"third\"", "\"bearer\""] {
        assert!(!shown.contains(secret));
    }
}

#[test]
fn sealed_secrets_are_as_long_as_their_parts() {
    for text in ["", "a", "secret", "\u{e9}\u{20ac}"] {
        let sealed = encrypt_secrets(text, "seed").unwrap();
        let bytes = 12 + text.len() + 16;
        assert_eq!(sealed.len(), 3 + (bytes + 2) / 3 * 4);
        assert_eq!(decrypt_secrets(&sealed, "seed").unwrap(), text);
    }
}
