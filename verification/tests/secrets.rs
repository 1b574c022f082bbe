//! Taking the secrets out of a configuration and putting them back.

use edge_config::id_map::IdMap;
use edge_config::manager::ManagerConfig;
use edge_config::models::{
    AppConfig, FlowConfig, InputConfig, InputDefinition, OutputConfig, RtmpOutputConfig,
    RtpInputConfig, ServerConfig, SrtInputConfig, SrtMode,
};
use edge_config::secrets::{has_secrets, FlowSecrets, InputSecrets, SecretsConfig};
use edge_config::tunnel::{TunnelConfig, TunnelDirection, TunnelMode, TunnelProtocol};

fn srt_input_config(passphrase: Option<&str>) -> SrtInputConfig {
    SrtInputConfig {
        mode: SrtMode::Listener,
        local_addr: Some("0.0.0.0:9000".to_string()),
        remote_addr: None,
        latency_ms: 120,
        recv_latency_ms: None,
        peer_latency_ms: None,
        peer_idle_timeout_secs: 30,
        passphrase: passphrase.map(|s| s.to_string()),
        aes_key_len: None,
        crypto_mode: None,
        max_rexmit_bw: None,
        stream_id: None,
        packet_filter: None,
        max_bw: None,
        input_bw: None,
        overhead_bw: None,
        enforced_encryption: None,
        connect_timeout_secs: None,
        flight_flag_size: None,
        send_buffer_size: None,
        recv_buffer_size: None,
        ip_tos: None,
        retransmit_algo: None,
        send_drop_delay: None,
        loss_max_ttl: None,
        km_refresh_rate: None,
        km_pre_announce: None,
        payload_size: None,
        mss: None,
        tlpkt_drop: None,
        ip_ttl: None,
        redundancy: None,
        transport_mode: None,
        audio_encode: None,
        transcode: None,
        video_encode: None,
        external_address: None,
        bonding: None,
        program_number: None,
        pid_map: None,
        pid_overrides: None,
        interface_binding: None,
        ingress_delay_ms: None,
        passthrough_clock: None,
    }
}

#[test]
fn test_extract_and_merge_roundtrip() {
    let config = AppConfig {
        version: 1,
        node_id: Some("test-node".to_string()),
        device_name: Some("Test".to_string()),
        setup_enabled: true,
        server: ServerConfig::default(),
        monitor: None,
        manager: Some(ManagerConfig {
            enabled: true,
            url: "wss://manager:8443/ws/node".to_string(),
            accept_self_signed_cert: false,
            cert_fingerprint: None,
            registration_token: Some("reg-token".to_string()),
            node_id: Some("node-1".to_string()),
            node_secret: Some("secret-123".to_string()),
        }),
        inputs: vec![InputDefinition {
            active: true,
            group: None,
            id: "srt-in".to_string(),
            name: "SRT Input".to_string(),
            config: InputConfig::Srt(srt_input_config(Some("my-secret-pass"))),
        }],
        outputs: vec![],
        flows: vec![FlowConfig {
            id: "srt-flow".to_string(),
            name: "SRT Flow".to_string(),
            enabled: true,
            media_analysis: true,
            thumbnail: true,
            thumbnail_program_number: None,
            bandwidth_limit: None,
            flow_group_id: None,
            clock_domain: None,
            input_ids: vec!["srt-in".to_string()],
            output_ids: vec![],
            thumbnail_interval_secs: None,
            assembly: None,
            content_analysis: None,
            recording: None,
            master_clock: None,
            bandwidth_profile: None,
        }],
        tunnels: vec![TunnelConfig {
            id: "tunnel-1".to_string(),
            name: "Test Tunnel".to_string(),
            enabled: true,
            protocol: TunnelProtocol::Udp,
            mode: TunnelMode::Relay,
            direction: TunnelDirection::Ingress,
            local_addr: "127.0.0.1:9000".to_string(),
            relay_addrs: vec!["relay:4433".to_string()],
            relay_addr: None,
            max_rtt_failback_increase_ms: None,
            tunnel_encryption_key: Some("a".repeat(64)),
            tunnel_bind_secret: Some("b".repeat(64)),
            tunnel_psk: None,
            peer_addr: None,
            direct_listen_addr: None,
            tls_cert_pem: None,
            tls_key_pem: None,
        }],
        resource_limits: None,
        flow_groups: vec![],
        setup_token: None,
        bond_uplinks: Vec::new(),
        shared_leg_broker: None,
        logging: None,
        nmos_registration: None,
        upgrades: None,
        cellular_uplinks: Vec::new(),
        starlink_uplinks: Vec::new(),
    };

    // Extract secrets — only infrastructure secrets, not flow params
    let secrets = SecretsConfig::extract_from(&config);
    assert_eq!(secrets.manager_node_secret, Some("secret-123".to_string()));
    assert_eq!(
        secrets.manager_registration_token,
        Some("reg-token".to_string())
    );
    assert!(secrets.tunnels.contains_key("tunnel-1"));
    assert_eq!(
        secrets.tunnels.get("tunnel-1").unwrap().tunnel_encryption_key,
        Some("a".repeat(64))
    );
    // Flow secrets should NOT be extracted
    assert!(secrets.flows.is_empty());

    // Strip secrets from config — flow params should be preserved
    let mut stripped = config.clone();
    stripped.strip_secrets();
    assert!(stripped.manager.as_ref().unwrap().node_secret.is_none());
    assert!(stripped
        .manager
        .as_ref()
        .unwrap()
        .registration_token
        .is_none());
    assert!(stripped.tunnels[0].tunnel_encryption_key.is_none());
    assert!(stripped.tunnels[0].tunnel_bind_secret.is_none());
    // SRT passphrase should still be present in top-level input after strip_secrets
    match &stripped.inputs[0].config {
        InputConfig::Srt(srt) => {
            assert_eq!(srt.passphrase, Some("my-secret-pass".to_string()));
        }
        _ => panic!("Expected SRT input"),
    }

    // Merge secrets back into stripped config
    secrets.merge_into(&mut stripped);
    assert_eq!(
        stripped.manager.as_ref().unwrap().node_secret,
        Some("secret-123".to_string())
    );
    assert_eq!(
        stripped.tunnels[0].tunnel_encryption_key,
        Some("a".repeat(64))
    );
}

#[test]
fn test_has_secrets_empty_config() {
    let config = AppConfig::default();
    assert!(!has_secrets(&config));
}

#[test]
fn test_has_secrets_with_manager_secret() {
    let mut config = AppConfig::default();
    config.manager = Some(ManagerConfig {
        enabled: true,
        url: "wss://manager:8443/ws/node".to_string(),
        accept_self_signed_cert: false,
        cert_fingerprint: None,
        registration_token: None,
        node_id: None,
        node_secret: Some("secret".to_string()),
    });
    assert!(has_secrets(&config));
}

#[test]
fn test_has_secrets_ignores_flow_params() {
    // Flow parameters (SRT passphrase, RTMP key, etc.) are NOT secrets —
    // they live in top-level inputs/outputs, not in infrastructure secrets
    let config = AppConfig {
        inputs: vec![InputDefinition {
            active: true,
            group: None,
            id: "srt-in".to_string(),
            name: "SRT Input".to_string(),
            config: InputConfig::Srt(srt_input_config(Some("my-secret-pass"))),
        }],
        flows: vec![FlowConfig {
            id: "srt-flow".to_string(),
            name: "SRT Flow".to_string(),
            enabled: true,
            media_analysis: true,
            thumbnail: true,
            thumbnail_program_number: None,
            bandwidth_limit: None,
            flow_group_id: None,
            clock_domain: None,
            input_ids: vec!["srt-in".to_string()],
            output_ids: vec![],
            thumbnail_interval_secs: None,
            assembly: None,
            content_analysis: None,
            recording: None,
            master_clock: None,
            bandwidth_profile: None,
        }],
        ..Default::default()
    };
    // Config with only flow params should NOT be considered as having secrets
    assert!(!has_secrets(&config));
}

#[test]
fn test_strip_secrets_preserves_flow_params() {
    let mut config = AppConfig {
        inputs: vec![InputDefinition {
            active: true,
            group: None,
            id: "rtp-in".to_string(),
            name: "RTP Input".to_string(),
            config: InputConfig::Rtp(RtpInputConfig {
                bind_addr: "0.0.0.0:5000".to_string(),
                interface_addr: None,
                fec_decode: None,
                allowed_sources: None,
                allowed_payload_types: None,
                max_bitrate_mbps: None,
                tr07_mode: None,
                redundancy: None,
                audio_encode: None,
                transcode: None,
                video_encode: None,
                external_address: None,
                source_addr: None,
                program_number: None,
                pid_map: None,
                pid_overrides: None,
                interface_binding: None,
                ingress_delay_ms: None,
                ingress_dejitter_ms: None,
                passthrough_clock: None,
            }),
        }],
        outputs: vec![OutputConfig::Rtmp(RtmpOutputConfig {
            active: true,
            group: None,
            id: "rtmp-out".to_string(),
            name: "RTMP Out".to_string(),
            dest_url: "rtmp://live.twitch.tv/app".to_string(),
            stream_key: "my-stream-key".to_string(),
            reconnect_delay_secs: 5,
            max_reconnect_attempts: None,
            program_number: None,
            audio_encode: None,
            transcode: None,
            video_encode: None,
            pid_overrides: None,
        })],
        flows: vec![FlowConfig {
            id: "rtmp-flow".to_string(),
            name: "RTMP Flow".to_string(),
            enabled: true,
            media_analysis: true,
            thumbnail: true,
            thumbnail_program_number: None,
            bandwidth_limit: None,
            flow_group_id: None,
            clock_domain: None,
            input_ids: vec!["rtp-in".to_string()],
            output_ids: vec!["rtmp-out".to_string()],
            thumbnail_interval_secs: None,
            assembly: None,
            content_analysis: None,
            recording: None,
            master_clock: None,
            bandwidth_profile: None,
        }],
        ..Default::default()
    };

    // strip_secrets should preserve flow params in top-level outputs
    config.strip_secrets();
    match &config.outputs[0] {
        OutputConfig::Rtmp(rtmp) => assert_eq!(rtmp.stream_key, "my-stream-key"),
        _ => panic!("Expected RTMP output"),
    }
}

#[test]
fn test_legacy_flow_secrets_migration() {
    // Simulate old secrets.json with flow secrets
    let mut legacy_secrets = SecretsConfig::default();
    legacy_secrets.flows.insert(
        "srt-flow".to_string(),
        FlowSecrets {
            input: Some(InputSecrets {
                passphrase: Some("legacy-pass".to_string()),
                ..Default::default()
            }),
            outputs: IdMap::new(),
        },
    );

    // Config without the passphrase (as it was stripped in old format).
    // In the new model, inputs are top-level.
    let mut config = AppConfig {
        inputs: vec![InputDefinition {
            active: true,
            group: None,
            id: "srt-in".to_string(),
            name: "SRT Input".to_string(),
            config: InputConfig::Srt(srt_input_config(None)),
        }],
        flows: vec![FlowConfig {
            id: "srt-flow".to_string(),
            name: "SRT Flow".to_string(),
            enabled: true,
            media_analysis: true,
            thumbnail: true,
            thumbnail_program_number: None,
            bandwidth_limit: None,
            flow_group_id: None,
            clock_domain: None,
            input_ids: vec!["srt-in".to_string()],
            output_ids: vec![],
            thumbnail_interval_secs: None,
            assembly: None,
            content_analysis: None,
            recording: None,
            master_clock: None,
            bandwidth_profile: None,
        }],
        ..Default::default()
    };

    // Legacy merge should restore flow secrets into top-level inputs
    legacy_secrets.merge_into(&mut config);
    match &config.inputs[0].config {
        InputConfig::Srt(srt) => {
            assert_eq!(srt.passphrase, Some("legacy-pass".to_string()));
        }
        _ => panic!("Expected SRT input"),
    }
}
