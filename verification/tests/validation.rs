//! Validation of configurations.

use edge_config::binary::Binary64;
use edge_config::defaults::default_true_opt;
use edge_config::models::{
    AppConfig, AudioEncodeConfig, FlowConfig, FlowGroupConfig, HlsOutputConfig, InputConfig,
    InputDefinition, OutputConfig, RedBlueBindConfig, RtmpOutputConfig, RtpInputConfig,
    RtpOutputConfig, SrtInputConfig, SrtMode, St2110AncillaryInputConfig,
    St2110AudioInputConfig, St2110AudioOutputConfig, WebrtcOutputConfig, WebrtcOutputMode,
};
use edge_config::tunnel::{TunnelConfig, TunnelDirection, TunnelMode, TunnelProtocol};
use edge_config::validation::{
    validate_audio_encode, validate_config, validate_output, validate_st2110_ancillary_input,
    validate_st2110_audio_input, validate_st2110_audio_output, St2110Profile,
};

/// Helper: build a minimal valid AppConfig with one flow referencing one
/// top-level input and one top-level output.
fn make_config_with_rtp(
    input_bind: &str,
    output_dest: &str,
) -> AppConfig {
    let mut config = AppConfig::default();
    config.inputs.push(InputDefinition {
        active: true,
        group: None,
        id: "in-1".to_string(),
        name: "Input 1".to_string(),
        config: InputConfig::Rtp(RtpInputConfig {
            bind_addr: input_bind.to_string(),
            interface_addr: None,
            fec_decode: None,
            allowed_sources: None,
            allowed_payload_types: None,
            max_bitrate_mbps: None,
            tr07_mode: None,
            redundancy: None,
            external_address: None,
            source_addr: None,
            audio_encode: None,
            transcode: None,
            video_encode: None,
            program_number: None,
            pid_map: None,
            pid_overrides: None,
            interface_binding: None,
            ingress_delay_ms: None,
            ingress_dejitter_ms: None,
            passthrough_clock: None,
        }),
    });
    config.outputs.push(OutputConfig::Rtp(RtpOutputConfig {
        active: true,
        group: None,
        id: "out-1".to_string(),
        name: "Out 1".to_string(),
        dest_addr: output_dest.to_string(),
        bind_addr: None,
        interface_addr: None,
        fec_encode: None,
        dscp: 46,
        redundancy: None,
        program_number: None,
        delay: None,
        audio_encode: None,
        video_encode: None,
        pid_map: None,
        transcode: None,
        pid_overrides: None,
        cbr_pad_to_kbps: None,
        interface_binding: None,
        egress_pacing: None,
        egress_buffer_ms: None,
    }));
    config.flows.push(FlowConfig {
        id: "f1".to_string(),
        name: "Flow 1".to_string(),
        enabled: true,
        media_analysis: true,
        thumbnail: true,
        thumbnail_program_number: None,
        bandwidth_limit: None,
        flow_group_id: None,
        clock_domain: None,
        input_ids: vec!["in-1".to_string()],
        output_ids: vec!["out-1".to_string()],
        thumbnail_interval_secs: None,
        assembly: None,
        content_analysis: None,
        recording: None,
        master_clock: None,
        bandwidth_profile: None,
    });
    config
}

/// Helper: build an AppConfig with a single RTP input (no output) in a flow.
fn make_config_input_only(input_config: InputConfig) -> AppConfig {
    let mut config = AppConfig::default();
    config.inputs.push(InputDefinition {
        active: true,
        group: None,
        id: "in-1".to_string(),
        name: "Input 1".to_string(),
        config: input_config,
    });
    config.flows.push(FlowConfig {
        id: "f1".to_string(),
        name: "Flow 1".to_string(),
        enabled: true,
        media_analysis: true,
        thumbnail: true,
        thumbnail_program_number: None,
        bandwidth_limit: None,
        flow_group_id: None,
        clock_domain: None,
        input_ids: vec!["in-1".to_string()],
        output_ids: vec![],
        thumbnail_interval_secs: None,
        assembly: None,
        content_analysis: None,
        recording: None,
        master_clock: None,
        bandwidth_profile: None,
    });
    config
}

#[test]
fn test_valid_rtp_flow() {
    let config = make_config_with_rtp("0.0.0.0:5000", "127.0.0.1:5004");
    assert!(validate_config(&config).is_ok());
}

#[test]
fn test_invalid_bind_addr() {
    let config = make_config_input_only(InputConfig::Rtp(RtpInputConfig {
        bind_addr: "not-an-address".to_string(),
        interface_addr: None,
        fec_decode: None,
        allowed_sources: None,
        allowed_payload_types: None,
        max_bitrate_mbps: None,
        tr07_mode: None,
        redundancy: None,
        external_address: None,
        source_addr: None,
        audio_encode: None,
        transcode: None,
        video_encode: None,
        program_number: None,
        pid_map: None,
        pid_overrides: None,
        interface_binding: None,
        ingress_delay_ms: None,
        ingress_dejitter_ms: None,
        passthrough_clock: None,
    }));
    assert!(validate_config(&config).is_err());
}

#[test]
fn test_srt_caller_missing_remote() {
    let config = make_config_input_only(InputConfig::Srt(SrtInputConfig {
        mode: SrtMode::Caller,
        local_addr: Some("0.0.0.0:9000".to_string()),
        remote_addr: None,
        latency_ms: 120,
        peer_idle_timeout_secs: 30,
        recv_latency_ms: None,
        peer_latency_ms: None,
        passphrase: None,
        aes_key_len: None,
        crypto_mode: None,
        max_rexmit_bw: None,
        stream_id: None,
        packet_filter: None,
        max_bw: None, input_bw: None, overhead_bw: None,
        enforced_encryption: None, connect_timeout_secs: None,
        flight_flag_size: None, send_buffer_size: None, recv_buffer_size: None,
        ip_tos: None, retransmit_algo: None, send_drop_delay: None,
        loss_max_ttl: None, km_refresh_rate: None, km_pre_announce: None,
        payload_size: None, mss: None, tlpkt_drop: None, ip_ttl: None,
        redundancy: None,
        transport_mode: None,
        external_address: None,
        bonding: None,
        audio_encode: None,
        transcode: None,
        video_encode: None,
        program_number: None,
        pid_map: None,
        pid_overrides: None,
        interface_binding: None,
        ingress_delay_ms: None,
        passthrough_clock: None,
    }));
    assert!(validate_config(&config).is_err());
}

#[test]
fn test_duplicate_flow_ids() {
    let mut config = AppConfig::default();
    config.inputs.push(InputDefinition {
        active: true,
        group: None,
        id: "in-1".to_string(),
        name: "Input 1".to_string(),
        config: InputConfig::Rtp(RtpInputConfig {
            bind_addr: "0.0.0.0:5000".to_string(),
            interface_addr: None,
            fec_decode: None,
            allowed_sources: None,
            allowed_payload_types: None,
            max_bitrate_mbps: None,
            tr07_mode: None,
            redundancy: None,
            external_address: None,
            source_addr: None,
            audio_encode: None,
            transcode: None,
            video_encode: None,
            program_number: None,
            pid_map: None,
            pid_overrides: None,
            interface_binding: None,
            ingress_delay_ms: None,
            ingress_dejitter_ms: None,
            passthrough_clock: None,
        }),
    });
    config.inputs.push(InputDefinition {
        active: true,
        group: None,
        id: "in-2".to_string(),
        name: "Input 2".to_string(),
        config: InputConfig::Rtp(RtpInputConfig {
            bind_addr: "0.0.0.0:5001".to_string(),
            interface_addr: None,
            fec_decode: None,
            allowed_sources: None,
            allowed_payload_types: None,
            max_bitrate_mbps: None,
            tr07_mode: None,
            redundancy: None,
            external_address: None,
            source_addr: None,
            audio_encode: None,
            transcode: None,
            video_encode: None,
            program_number: None,
            pid_map: None,
            pid_overrides: None,
            interface_binding: None,
            ingress_delay_ms: None,
            ingress_dejitter_ms: None,
            passthrough_clock: None,
        }),
    });
    config.flows.push(FlowConfig {
        id: "same-id".to_string(),
        name: "Flow 1".to_string(),
        enabled: true,
        media_analysis: true,
        thumbnail: true,
        thumbnail_program_number: None,
        bandwidth_limit: None,
        flow_group_id: None,
        clock_domain: None,
        input_ids: vec!["in-1".to_string()],
        output_ids: vec![],
        thumbnail_interval_secs: None,
        assembly: None,
        content_analysis: None,
        recording: None,
        master_clock: None,
        bandwidth_profile: None,
    });
    config.flows.push(FlowConfig {
        id: "same-id".to_string(),
        name: "Flow 2".to_string(),
        enabled: true,
        media_analysis: true,
        thumbnail: true,
        thumbnail_program_number: None,
        bandwidth_limit: None,
        flow_group_id: None,
        clock_domain: None,
        input_ids: vec!["in-2".to_string()],
        output_ids: vec![],
        thumbnail_interval_secs: None,
        assembly: None,
        content_analysis: None,
        recording: None,
        master_clock: None,
        bandwidth_profile: None,
    });
    assert!(validate_config(&config).is_err());
}

#[test]
fn test_passphrase_length() {
    let config = make_config_input_only(InputConfig::Srt(SrtInputConfig {
        mode: SrtMode::Listener,
        local_addr: Some("0.0.0.0:9000".to_string()),
        remote_addr: None,
        latency_ms: 120,
        peer_idle_timeout_secs: 30,
        recv_latency_ms: None,
        peer_latency_ms: None,
        passphrase: Some("short".to_string()),
        aes_key_len: None,
        crypto_mode: None,
        max_rexmit_bw: None,
        stream_id: None,
        packet_filter: None,
        max_bw: None, input_bw: None, overhead_bw: None,
        enforced_encryption: None, connect_timeout_secs: None,
        flight_flag_size: None, send_buffer_size: None, recv_buffer_size: None,
        ip_tos: None, retransmit_algo: None, send_drop_delay: None,
        loss_max_ttl: None, km_refresh_rate: None, km_pre_announce: None,
        payload_size: None, mss: None, tlpkt_drop: None, ip_ttl: None,
        redundancy: None,
        transport_mode: None,
        external_address: None,
        bonding: None,
        audio_encode: None,
        transcode: None,
        video_encode: None,
        program_number: None,
        pid_map: None,
        pid_overrides: None,
        interface_binding: None,
        ingress_delay_ms: None,
        passthrough_clock: None,
    }));
    assert!(validate_config(&config).is_err());
}

// --- IPv6 address validation tests ---

#[test]
fn test_valid_ipv6_unicast_rtp_flow() {
    let config = make_config_with_rtp("[::]:5000", "[::1]:5004");
    assert!(validate_config(&config).is_ok());
}

#[test]
fn test_valid_ipv4_multicast_rtp_flow() {
    let mut config = AppConfig::default();
    config.inputs.push(InputDefinition {
        active: true,
        group: None,
        id: "in-1".to_string(),
        name: "Input 1".to_string(),
        config: InputConfig::Rtp(RtpInputConfig {
            bind_addr: "239.1.1.1:5000".to_string(),
            interface_addr: Some("192.168.1.100".to_string()),
            fec_decode: None,
            allowed_sources: None,
            allowed_payload_types: None,
            max_bitrate_mbps: None,
            tr07_mode: None,
            redundancy: None,
            external_address: None,
            source_addr: None,
            audio_encode: None,
            transcode: None,
            video_encode: None,
            program_number: None,
            pid_map: None,
            pid_overrides: None,
            interface_binding: None,
            ingress_delay_ms: None,
            ingress_dejitter_ms: None,
            passthrough_clock: None,
        }),
    });
    config.outputs.push(OutputConfig::Rtp(RtpOutputConfig {
        active: true,
        group: None,
        id: "out-1".to_string(),
        name: "Multicast Out".to_string(),
        dest_addr: "239.1.2.1:5004".to_string(),
        bind_addr: None,
        interface_addr: Some("192.168.1.100".to_string()),
        fec_encode: None,
        dscp: 46,
        redundancy: None,
        program_number: None,
        delay: None,
        audio_encode: None,
        video_encode: None,
        pid_map: None,
        transcode: None,
        pid_overrides: None,
        cbr_pad_to_kbps: None,
        interface_binding: None,
        egress_pacing: None,
        egress_buffer_ms: None,
    }));
    config.flows.push(FlowConfig {
        id: "f1".to_string(),
        name: "IPv4 Multicast".to_string(),
        enabled: true,
        media_analysis: true,
        thumbnail: true,
        thumbnail_program_number: None,
        bandwidth_limit: None,
        flow_group_id: None,
        clock_domain: None,
        input_ids: vec!["in-1".to_string()],
        output_ids: vec!["out-1".to_string()],
        thumbnail_interval_secs: None,
        assembly: None,
        content_analysis: None,
        recording: None,
        master_clock: None,
        bandwidth_profile: None,
    });
    assert!(validate_config(&config).is_ok());
}

#[test]
fn test_valid_ipv6_multicast_rtp_flow() {
    let mut config = AppConfig::default();
    config.inputs.push(InputDefinition {
        active: true,
        group: None,
        id: "in-1".to_string(),
        name: "Input 1".to_string(),
        config: InputConfig::Rtp(RtpInputConfig {
            bind_addr: "[ff7e::1]:5000".to_string(),
            interface_addr: Some("::1".to_string()),
            fec_decode: None,
            allowed_sources: None,
            allowed_payload_types: None,
            max_bitrate_mbps: None,
            tr07_mode: None,
            redundancy: None,
            external_address: None,
            source_addr: None,
            audio_encode: None,
            transcode: None,
            video_encode: None,
            program_number: None,
            pid_map: None,
            pid_overrides: None,
            interface_binding: None,
            ingress_delay_ms: None,
            ingress_dejitter_ms: None,
            passthrough_clock: None,
        }),
    });
    config.outputs.push(OutputConfig::Rtp(RtpOutputConfig {
        active: true,
        group: None,
        id: "out-1".to_string(),
        name: "IPv6 Mcast Out".to_string(),
        dest_addr: "[ff7e::2]:5004".to_string(),
        bind_addr: None,
        interface_addr: Some("::1".to_string()),
        fec_encode: None,
        dscp: 46,
        redundancy: None,
        program_number: None,
        delay: None,
        audio_encode: None,
        video_encode: None,
        pid_map: None,
        transcode: None,
        pid_overrides: None,
        cbr_pad_to_kbps: None,
        interface_binding: None,
        egress_pacing: None,
        egress_buffer_ms: None,
    }));
    config.flows.push(FlowConfig {
        id: "f1".to_string(),
        name: "IPv6 Multicast".to_string(),
        enabled: true,
        media_analysis: true,
        thumbnail: true,
        thumbnail_program_number: None,
        bandwidth_limit: None,
        flow_group_id: None,
        clock_domain: None,
        input_ids: vec!["in-1".to_string()],
        output_ids: vec!["out-1".to_string()],
        thumbnail_interval_secs: None,
        assembly: None,
        content_analysis: None,
        recording: None,
        master_clock: None,
        bandwidth_profile: None,
    });
    assert!(validate_config(&config).is_ok());
}

// --- Address family mismatch tests ---

#[test]
fn test_rtp_input_mismatched_addr_family() {
    let config = make_config_input_only(InputConfig::Rtp(RtpInputConfig {
        bind_addr: "239.1.1.1:5000".to_string(),         // IPv4
        interface_addr: Some("::1".to_string()),          // IPv6 - mismatch!
        fec_decode: None,
        allowed_sources: None,
        allowed_payload_types: None,
        max_bitrate_mbps: None,
        tr07_mode: None,
        redundancy: None,
        external_address: None,
        source_addr: None,
        audio_encode: None,
        transcode: None,
        video_encode: None,
        program_number: None,
        pid_map: None,
        pid_overrides: None,
        interface_binding: None,
        ingress_delay_ms: None,
        ingress_dejitter_ms: None,
        passthrough_clock: None,
    }));
    assert!(validate_config(&config).is_err());
}

#[test]
fn test_rtp_output_mismatched_dest_bind_family() {
    let mut config = AppConfig::default();
    config.inputs.push(InputDefinition {
        active: true,
        group: None,
        id: "in-1".to_string(),
        name: "Input 1".to_string(),
        config: InputConfig::Rtp(RtpInputConfig {
            bind_addr: "[::]:5000".to_string(),
            interface_addr: None,
            fec_decode: None,
            allowed_sources: None,
            allowed_payload_types: None,
            max_bitrate_mbps: None,
            tr07_mode: None,
            redundancy: None,
            external_address: None,
            source_addr: None,
            audio_encode: None,
            transcode: None,
            video_encode: None,
            program_number: None,
            pid_map: None,
            pid_overrides: None,
            interface_binding: None,
            ingress_delay_ms: None,
            ingress_dejitter_ms: None,
            passthrough_clock: None,
        }),
    });
    config.outputs.push(OutputConfig::Rtp(RtpOutputConfig {
        active: true,
        group: None,
        id: "out-1".to_string(),
        name: "Bad".to_string(),
        dest_addr: "[::1]:5004".to_string(),            // IPv6
        bind_addr: Some("0.0.0.0:0".to_string()),      // IPv4 - mismatch!
        interface_addr: None,
        fec_encode: None,
        dscp: 46,
        redundancy: None,
        program_number: None,
        delay: None,
        audio_encode: None,
        video_encode: None,
        pid_map: None,
        transcode: None,
        pid_overrides: None,
        cbr_pad_to_kbps: None,
        interface_binding: None,
        egress_pacing: None,
        egress_buffer_ms: None,
    }));
    config.flows.push(FlowConfig {
        id: "f1".to_string(),
        name: "Mismatched".to_string(),
        enabled: true,
        media_analysis: true,
        thumbnail: true,
        thumbnail_program_number: None,
        bandwidth_limit: None,
        flow_group_id: None,
        clock_domain: None,
        input_ids: vec!["in-1".to_string()],
        output_ids: vec!["out-1".to_string()],
        thumbnail_interval_secs: None,
        assembly: None,
        content_analysis: None,
        recording: None,
        master_clock: None,
        bandwidth_profile: None,
    });
    assert!(validate_config(&config).is_err());
}

#[test]
fn test_rtp_output_mismatched_dest_iface_family() {
    let mut config = AppConfig::default();
    config.inputs.push(InputDefinition {
        active: true,
        group: None,
        id: "in-1".to_string(),
        name: "Input 1".to_string(),
        config: InputConfig::Rtp(RtpInputConfig {
            bind_addr: "0.0.0.0:5000".to_string(),
            interface_addr: None,
            fec_decode: None,
            allowed_sources: None,
            allowed_payload_types: None,
            max_bitrate_mbps: None,
            tr07_mode: None,
            redundancy: None,
            external_address: None,
            source_addr: None,
            audio_encode: None,
            transcode: None,
            video_encode: None,
            program_number: None,
            pid_map: None,
            pid_overrides: None,
            interface_binding: None,
            ingress_delay_ms: None,
            ingress_dejitter_ms: None,
            passthrough_clock: None,
        }),
    });
    config.outputs.push(OutputConfig::Rtp(RtpOutputConfig {
        active: true,
        group: None,
        id: "out-1".to_string(),
        name: "Bad".to_string(),
        dest_addr: "239.1.1.1:5004".to_string(),       // IPv4
        bind_addr: None,
        interface_addr: Some("::1".to_string()),        // IPv6 - mismatch!
        fec_encode: None,
        dscp: 46,
        redundancy: None,
        program_number: None,
        delay: None,
        audio_encode: None,
        video_encode: None,
        pid_map: None,
        transcode: None,
        pid_overrides: None,
        cbr_pad_to_kbps: None,
        interface_binding: None,
        egress_pacing: None,
        egress_buffer_ms: None,
    }));
    config.flows.push(FlowConfig {
        id: "f1".to_string(),
        name: "Mismatched".to_string(),
        enabled: true,
        media_analysis: true,
        thumbnail: true,
        thumbnail_program_number: None,
        bandwidth_limit: None,
        flow_group_id: None,
        clock_domain: None,
        input_ids: vec!["in-1".to_string()],
        output_ids: vec!["out-1".to_string()],
        thumbnail_interval_secs: None,
        assembly: None,
        content_analysis: None,
        recording: None,
        master_clock: None,
        bandwidth_profile: None,
    });
    assert!(validate_config(&config).is_err());
}

#[test]
fn test_rtp_output_invalid_interface_addr() {
    let mut config = AppConfig::default();
    config.inputs.push(InputDefinition {
        active: true,
        group: None,
        id: "in-1".to_string(),
        name: "Input 1".to_string(),
        config: InputConfig::Rtp(RtpInputConfig {
            bind_addr: "0.0.0.0:5000".to_string(),
            interface_addr: None,
            fec_decode: None,
            allowed_sources: None,
            allowed_payload_types: None,
            max_bitrate_mbps: None,
            tr07_mode: None,
            redundancy: None,
            external_address: None,
            source_addr: None,
            audio_encode: None,
            transcode: None,
            video_encode: None,
            program_number: None,
            pid_map: None,
            pid_overrides: None,
            interface_binding: None,
            ingress_delay_ms: None,
            ingress_dejitter_ms: None,
            passthrough_clock: None,
        }),
    });
    config.outputs.push(OutputConfig::Rtp(RtpOutputConfig {
        active: true,
        group: None,
        id: "out-1".to_string(),
        name: "Bad".to_string(),
        dest_addr: "239.1.1.1:5004".to_string(),
        bind_addr: None,
        interface_addr: Some("not-an-ip".to_string()),
        fec_encode: None,
        dscp: 46,
        redundancy: None,
        program_number: None,
        delay: None,
        audio_encode: None,
        video_encode: None,
        pid_map: None,
        transcode: None,
        pid_overrides: None,
        cbr_pad_to_kbps: None,
        interface_binding: None,
        egress_pacing: None,
        egress_buffer_ms: None,
    }));
    config.flows.push(FlowConfig {
        id: "f1".to_string(),
        name: "Bad iface".to_string(),
        enabled: true,
        media_analysis: true,
        thumbnail: true,
        thumbnail_program_number: None,
        bandwidth_limit: None,
        flow_group_id: None,
        clock_domain: None,
        input_ids: vec!["in-1".to_string()],
        output_ids: vec!["out-1".to_string()],
        thumbnail_interval_secs: None,
        assembly: None,
        content_analysis: None,
        recording: None,
        master_clock: None,
        bandwidth_profile: None,
    });
    assert!(validate_config(&config).is_err());
}

// ─────────────── SMPTE ST 2110 validation tests ───────────────

fn st2110_30_input(addr: &str) -> St2110AudioInputConfig {
    St2110AudioInputConfig {
        bind_addr: addr.to_string(),
        interface_addr: None,
        redundancy: None,
        sample_rate: 48_000,
        bit_depth: 24,
        channels: 2,
        packet_time_us: 1_000,
        payload_type: 97,
        clock_domain: Some(0),
        allowed_sources: None,
        max_bitrate_mbps: None,
        source_addr: None,
        transcode: None,
        audio_encode: None,
        pid_overrides: None,
        interface_binding: None,
    }
}

fn st2110_30_output(id: &str, dest: &str) -> St2110AudioOutputConfig {
    St2110AudioOutputConfig {
        active: true,
        group: None,
        id: id.to_string(),
        name: "Audio out".to_string(),
        dest_addr: dest.to_string(),
        bind_addr: None,
        interface_addr: None,
        redundancy: None,
        sample_rate: 48_000,
        bit_depth: 24,
        channels: 2,
        packet_time_us: 1_000,
        payload_type: 97,
        clock_domain: Some(0),
        dscp: 46,
        ssrc: None,
        transcode: None,
        audio_track_index: None,
        interface_binding: None,
    }
}

#[test]
fn test_st2110_30_valid_audio_input() {
    let cfg = st2110_30_input("239.10.10.1:5004");
    validate_st2110_audio_input(&cfg, St2110Profile::Pcm).expect("valid -30 input");
}

#[test]
fn test_st2110_30_invalid_sample_rate() {
    let mut cfg = st2110_30_input("239.10.10.1:5004");
    cfg.sample_rate = 44_100;
    assert!(validate_st2110_audio_input(&cfg, St2110Profile::Pcm).is_err());
}

#[test]
fn test_st2110_30_invalid_bit_depth() {
    let mut cfg = st2110_30_input("239.10.10.1:5004");
    cfg.bit_depth = 32;
    assert!(validate_st2110_audio_input(&cfg, St2110Profile::Pcm).is_err());
}

#[test]
fn test_st2110_31_requires_24_bit() {
    let mut cfg = st2110_30_input("239.10.10.1:5004");
    cfg.bit_depth = 16; // valid for -30 but rejected for -31
    assert!(validate_st2110_audio_input(&cfg, St2110Profile::Aes3).is_err());
}

#[test]
fn test_st2110_invalid_channel_count() {
    let mut cfg = st2110_30_input("239.10.10.1:5004");
    cfg.channels = 3;
    assert!(validate_st2110_audio_input(&cfg, St2110Profile::Pcm).is_err());
}

#[test]
fn test_st2110_invalid_packet_time() {
    let mut cfg = st2110_30_input("239.10.10.1:5004");
    cfg.packet_time_us = 750;
    assert!(validate_st2110_audio_input(&cfg, St2110Profile::Pcm).is_err());
}

#[test]
fn test_st2110_payload_type_out_of_range() {
    let mut cfg = st2110_30_input("239.10.10.1:5004");
    cfg.payload_type = 50;
    assert!(validate_st2110_audio_input(&cfg, St2110Profile::Pcm).is_err());
}

#[test]
fn test_st2110_clock_domain_out_of_range() {
    let mut cfg = st2110_30_input("239.10.10.1:5004");
    cfg.clock_domain = Some(200);
    assert!(validate_st2110_audio_input(&cfg, St2110Profile::Pcm).is_err());
}

#[test]
fn test_st2110_red_blue_legs_collision_rejected() {
    let mut cfg = st2110_30_input("10.0.0.5:5004");
    cfg.redundancy = Some(RedBlueBindConfig {
        addr: "10.0.0.5:5006".to_string(),
        interface_addr: None,
        source_addr: None,
        interface_binding: None,
    });
    assert!(validate_st2110_audio_input(&cfg, St2110Profile::Pcm).is_err());
}

#[test]
fn test_st2110_red_blue_address_family_mismatch_rejected() {
    let mut cfg = st2110_30_input("10.0.0.5:5004");
    cfg.redundancy = Some(RedBlueBindConfig {
        addr: "[::1]:5006".to_string(),
        interface_addr: None,
        source_addr: None,
        interface_binding: None,
    });
    assert!(validate_st2110_audio_input(&cfg, St2110Profile::Pcm).is_err());
}

#[test]
fn test_st2110_red_blue_distinct_unicast_ok() {
    let mut cfg = st2110_30_input("10.0.0.5:5004");
    cfg.redundancy = Some(RedBlueBindConfig {
        addr: "10.0.1.5:5006".to_string(),
        interface_addr: None,
        source_addr: None,
        interface_binding: None,
    });
    validate_st2110_audio_input(&cfg, St2110Profile::Pcm).expect("distinct legs");
}

#[test]
fn test_st2110_30_output_valid() {
    let out = st2110_30_output("audio-1", "239.10.10.1:5004");
    validate_st2110_audio_output(&out, St2110Profile::Pcm, None).expect("valid -30 output");
}

#[test]
fn test_st2110_30_output_dscp_out_of_range() {
    let mut out = st2110_30_output("audio-1", "239.10.10.1:5004");
    out.dscp = 64;
    assert!(validate_st2110_audio_output(&out, St2110Profile::Pcm, None).is_err());
}

#[test]
fn test_st2110_40_input_valid() {
    let anc = St2110AncillaryInputConfig {
        bind_addr: "239.10.10.10:5006".to_string(),
        interface_addr: None,
        redundancy: None,
        payload_type: 100,
        clock_domain: Some(0),
        allowed_sources: None,
        source_addr: None,
        interface_binding: None,
    };
    validate_st2110_ancillary_input(&anc).expect("valid -40 input");
}

#[test]
fn test_st2110_40_input_payload_type_out_of_range() {
    let anc = St2110AncillaryInputConfig {
        bind_addr: "239.10.10.10:5006".to_string(),
        interface_addr: None,
        redundancy: None,
        payload_type: 50,
        clock_domain: Some(0),
        allowed_sources: None,
        source_addr: None,
        interface_binding: None,
    };
    assert!(validate_st2110_ancillary_input(&anc).is_err());
}

#[test]
fn test_flow_with_st2110_input_validates() {
    let mut config = AppConfig::default();
    config.inputs.push(InputDefinition {
        active: true,
        group: None,
        id: "in-audio".to_string(),
        name: "Audio In".to_string(),
        config: InputConfig::St2110_30(st2110_30_input("239.10.10.1:5004")),
    });
    config.outputs.push(OutputConfig::St2110_30(st2110_30_output(
        "out-1",
        "239.10.10.2:5004",
    )));
    config.flows.push(FlowConfig {
        id: "audio-flow".to_string(),
        name: "Audio".to_string(),
        enabled: true,
        media_analysis: false,
        thumbnail: false,
        thumbnail_program_number: None,
        bandwidth_limit: None,
        flow_group_id: Some("group-1".to_string()),
        clock_domain: Some(0),
        input_ids: vec!["in-audio".to_string()],
        output_ids: vec!["out-1".to_string()],
        thumbnail_interval_secs: None,
        assembly: None,
        content_analysis: None,
        recording: None,
        master_clock: None,
        bandwidth_profile: None,
    });
    config.flow_groups.push(FlowGroupConfig {
        id: "group-1".to_string(),
        name: "Group 1".to_string(),
        clock_domain: Some(0),
        flows: vec!["audio-flow".to_string()],
    });
    validate_config(&config).expect("valid ST 2110 flow");
}

#[test]
fn test_flow_group_member_must_exist() {
    let mut config = AppConfig::default();
    config.flow_groups.push(FlowGroupConfig {
        id: "group-1".to_string(),
        name: "Group 1".to_string(),
        clock_domain: Some(0),
        flows: vec!["does-not-exist".to_string()],
    });
    assert!(validate_config(&config).is_err());
}

#[test]
fn test_flow_group_back_reference_must_match() {
    // Flow declares membership in group-1 but is not listed as a member.
    let mut config = AppConfig::default();
    config.inputs.push(InputDefinition {
        active: true,
        group: None,
        id: "in-1".to_string(),
        name: "In 1".to_string(),
        config: InputConfig::St2110_30(st2110_30_input("239.10.10.1:5004")),
    });
    config.inputs.push(InputDefinition {
        active: true,
        group: None,
        id: "in-2".to_string(),
        name: "In 2".to_string(),
        config: InputConfig::St2110_30(st2110_30_input("239.10.10.2:5004")),
    });
    config.flows.push(FlowConfig {
        id: "audio-flow".to_string(),
        name: "Audio".to_string(),
        enabled: true,
        media_analysis: false,
        thumbnail: false,
        thumbnail_program_number: None,
        bandwidth_limit: None,
        flow_group_id: Some("group-1".to_string()),
        clock_domain: Some(0),
        input_ids: vec!["in-1".to_string()],
        output_ids: vec![],
        thumbnail_interval_secs: None,
        assembly: None,
        content_analysis: None,
        recording: None,
        master_clock: None,
        bandwidth_profile: None,
    });
    config.flow_groups.push(FlowGroupConfig {
        id: "group-1".to_string(),
        name: "Group 1".to_string(),
        clock_domain: Some(0),
        flows: vec!["something-else".to_string()],
    });
    config.flows.push(FlowConfig {
        id: "something-else".to_string(),
        name: "Other".to_string(),
        enabled: true,
        media_analysis: false,
        thumbnail: false,
        thumbnail_program_number: None,
        bandwidth_limit: None,
        flow_group_id: None,
        clock_domain: None,
        input_ids: vec!["in-2".to_string()],
        output_ids: vec![],
        thumbnail_interval_secs: None,
        assembly: None,
        content_analysis: None,
        recording: None,
        master_clock: None,
        bandwidth_profile: None,
    });
    assert!(validate_config(&config).is_err());
}

#[test]
fn test_flow_group_round_trip_ok() {
    let mut config = AppConfig::default();
    config.inputs.push(InputDefinition {
        active: true,
        group: None,
        id: "in-1".to_string(),
        name: "In 1".to_string(),
        config: InputConfig::St2110_30(st2110_30_input("239.10.10.1:5004")),
    });
    config.flows.push(FlowConfig {
        id: "audio-flow".to_string(),
        name: "Audio".to_string(),
        enabled: true,
        media_analysis: false,
        thumbnail: false,
        thumbnail_program_number: None,
        bandwidth_limit: None,
        flow_group_id: Some("group-1".to_string()),
        clock_domain: Some(0),
        input_ids: vec!["in-1".to_string()],
        output_ids: vec![],
        thumbnail_interval_secs: None,
        assembly: None,
        content_analysis: None,
        recording: None,
        master_clock: None,
        bandwidth_profile: None,
    });
    config.flow_groups.push(FlowGroupConfig {
        id: "group-1".to_string(),
        name: "Group 1".to_string(),
        clock_domain: Some(0),
        flows: vec!["audio-flow".to_string()],
    });
    validate_config(&config).expect("valid flow-group config");
}

// ── audio_encode validation tests ─────────────────────────────────

fn make_audio_encode(codec: &str) -> AudioEncodeConfig {
    AudioEncodeConfig {
        codec: codec.to_string(),
        bitrate_kbps: None,
        sample_rate: None,
        channels: None,
        source_audio_pid: None,
        silent_fallback: false,
        opus_vbr_mode: None,
        opus_fec: false,
        opus_dtx: false,
        opus_frame_duration_ms: None,
    }
}

#[test]
fn validate_audio_encode_accepts_aac_lc_for_rtmp() {
    let enc = make_audio_encode("aac_lc");
    assert!(validate_audio_encode(&enc, &["aac_lc", "he_aac_v1", "he_aac_v2"], "test").is_ok());
}

#[test]
fn validate_audio_encode_rejects_opus_on_rtmp() {
    let enc = make_audio_encode("opus");
    let err = validate_audio_encode(&enc, &["aac_lc", "he_aac_v1", "he_aac_v2"], "RTMP test")
        .unwrap_err()
        .to_string();
    assert!(err.contains("not allowed"), "got: {err}");
}

#[test]
fn validate_audio_encode_rejects_aac_on_webrtc() {
    let enc = make_audio_encode("aac_lc");
    let err = validate_audio_encode(&enc, &["opus"], "WebRTC test")
        .unwrap_err()
        .to_string();
    assert!(err.contains("not allowed"), "got: {err}");
}

#[test]
fn validate_audio_encode_rejects_unknown_codec() {
    let enc = make_audio_encode("flac");
    assert!(validate_audio_encode(&enc, &["aac_lc"], "test").is_err());
}

#[test]
fn validate_audio_encode_bitrate_bounds() {
    let mut enc = make_audio_encode("aac_lc");
    enc.bitrate_kbps = Some(8); // too low
    assert!(validate_audio_encode(&enc, &["aac_lc"], "test").is_err());
    enc.bitrate_kbps = Some(1024); // too high
    assert!(validate_audio_encode(&enc, &["aac_lc"], "test").is_err());
    enc.bitrate_kbps = Some(128); // just right
    assert!(validate_audio_encode(&enc, &["aac_lc"], "test").is_ok());
    enc.bitrate_kbps = Some(16); // edge low
    assert!(validate_audio_encode(&enc, &["aac_lc"], "test").is_ok());
    enc.bitrate_kbps = Some(512); // edge high
    assert!(validate_audio_encode(&enc, &["aac_lc"], "test").is_ok());
}

#[test]
fn validate_audio_encode_sample_rate_whitelist() {
    let mut enc = make_audio_encode("aac_lc");
    for sr in [8_000, 16_000, 22_050, 24_000, 32_000, 44_100, 48_000] {
        enc.sample_rate = Some(sr);
        assert!(validate_audio_encode(&enc, &["aac_lc"], "test").is_ok(), "{sr}");
    }
    enc.sample_rate = Some(96_000);
    assert!(validate_audio_encode(&enc, &["aac_lc"], "test").is_err());
    enc.sample_rate = Some(11_025);
    assert!(validate_audio_encode(&enc, &["aac_lc"], "test").is_err());
}

#[test]
fn validate_audio_encode_channels_per_codec() {
    // AAC-LC: 1-8 channels (fdk-aac supports up to 7.1)
    let mut enc = make_audio_encode("aac_lc");
    enc.channels = Some(1);
    assert!(validate_audio_encode(&enc, &["aac_lc"], "test").is_ok());
    enc.channels = Some(2);
    assert!(validate_audio_encode(&enc, &["aac_lc"], "test").is_ok());
    enc.channels = Some(6);
    assert!(validate_audio_encode(&enc, &["aac_lc"], "test").is_ok(), "AAC-LC should allow 5.1");
    enc.channels = Some(8);
    assert!(validate_audio_encode(&enc, &["aac_lc"], "test").is_ok(), "AAC-LC should allow 7.1");
    enc.channels = Some(0);
    assert!(validate_audio_encode(&enc, &["aac_lc"], "test").is_err());
    enc.channels = Some(9);
    assert!(validate_audio_encode(&enc, &["aac_lc"], "test").is_err());

    // HE-AAC v1: 1-2 channels only
    let mut enc_he = make_audio_encode("he_aac_v1");
    enc_he.channels = Some(2);
    assert!(validate_audio_encode(&enc_he, &["he_aac_v1"], "test").is_ok());
    enc_he.channels = Some(6);
    assert!(validate_audio_encode(&enc_he, &["he_aac_v1"], "test").is_err(), "HE-AAC v1 max 2ch");

    // AC-3: up to 6 channels (5.1)
    let mut enc_ac3 = make_audio_encode("ac3");
    enc_ac3.channels = Some(6);
    assert!(validate_audio_encode(&enc_ac3, &["ac3"], "test").is_ok(), "AC-3 should allow 5.1");
    enc_ac3.channels = Some(8);
    assert!(validate_audio_encode(&enc_ac3, &["ac3"], "test").is_err(), "AC-3 max 6ch");
}

#[test]
fn validate_output_rtmp_with_audio_encode() {
    let make = |codec: &str| OutputConfig::Rtmp(RtmpOutputConfig {
        active: true,
        group: None,
        id: "rtmp1".into(),
        name: "rtmp 1".into(),
        dest_url: "rtmp://example.com/app".into(),
        stream_key: "abc".into(),
        reconnect_delay_secs: 5,
        max_reconnect_attempts: None,
        program_number: None,
        audio_encode: Some(AudioEncodeConfig {
            codec: codec.into(),
            bitrate_kbps: None,
            sample_rate: None,
            channels: None,
            source_audio_pid: None,
            silent_fallback: false,
            opus_vbr_mode: None,
            opus_fec: false,
            opus_dtx: false,
            opus_frame_duration_ms: None,
        }),
        transcode: None,
        video_encode: None,
        pid_overrides: None,
    });
    assert!(validate_output(&make("aac_lc")).is_ok());
    assert!(validate_output(&make("he_aac_v1")).is_ok());
    // Opus must fail on RTMP.
    assert!(validate_output(&make("opus")).is_err());
    // MP2 must fail on RTMP (only HLS gets MP2/AC3).
    assert!(validate_output(&make("mp2")).is_err());
}

#[test]
fn validate_output_hls_audio_encode_includes_mp2_ac3() {
    let make = |codec: &str| OutputConfig::Hls(HlsOutputConfig {
        active: true,
        group: None,
        id: "hls1".into(),
        name: "hls 1".into(),
        ingest_url: "https://example.com/hls".into(),
        segment_duration_secs: Binary64::new(2.0_f64.to_bits(), "2"),
        auth_token: None,
        max_segments: 5,
        program_number: None,
        audio_encode: Some(AudioEncodeConfig {
            codec: codec.into(),
            bitrate_kbps: None,
            sample_rate: None,
            channels: None,
            source_audio_pid: None,
            silent_fallback: false,
            opus_vbr_mode: None,
            opus_fec: false,
            opus_dtx: false,
            opus_frame_duration_ms: None,
        }),
        pid_map: None,
        transcode: None,
    });
    assert!(validate_output(&make("aac_lc")).is_ok());
    assert!(validate_output(&make("mp2")).is_ok());
    assert!(validate_output(&make("ac3")).is_ok());
    assert!(validate_output(&make("opus")).is_err());
}

#[test]
fn validate_output_webrtc_audio_encode_only_opus() {
    let make = |codec: &str, video_only: bool| OutputConfig::Webrtc(WebrtcOutputConfig {
        active: true,
        group: None,
        id: "wrtc1".into(),
        name: "wrtc 1".into(),
        mode: WebrtcOutputMode::WhepServer,
        whip_url: None,
        bearer_token: None,
        max_viewers: Some(10),
        public_ip: None,
        video_only,
        program_number: None,
        audio_encode: Some(AudioEncodeConfig {
            codec: codec.into(),
            bitrate_kbps: None,
            sample_rate: None,
            channels: None,
            source_audio_pid: None,
            silent_fallback: false,
            opus_vbr_mode: None,
            opus_fec: false,
            opus_dtx: false,
            opus_frame_duration_ms: None,
        }),
        accept_self_signed_cert: default_true_opt(),
        cert_fingerprint: None,
        transcode: None,
        video_encode: None,
        webrtc_compatible: false,
        pid_overrides: None,
    });
    // Opus + audio MID negotiated → OK.
    assert!(validate_output(&make("opus", false)).is_ok());
    // Opus + video_only=true → must reject (no audio MID).
    let err = validate_output(&make("opus", true)).unwrap_err().to_string();
    assert!(err.contains("video_only=false"), "got: {err}");
    // AAC on WebRTC → must reject.
    assert!(validate_output(&make("aac_lc", false)).is_err());
}

// ── Port conflict tests ──────────────────────────────────────────

/// Helper: build a minimal config with tunnels only (no flows).
/// Uses a non-conflicting server port (18888) so tunnel port tests are isolated.
fn make_tunnel_config(tunnels: Vec<TunnelConfig>) -> AppConfig {
    let mut config = AppConfig::default();
    config.server.listen_port = 18888;
    config.tunnels = tunnels;
    config
}

fn make_test_tunnel(
    name: &str,
    local_addr: &str,
    protocol: TunnelProtocol,
    direction: TunnelDirection,
) -> TunnelConfig {
    TunnelConfig {
        id: uuid::Uuid::new_v4().to_string(),
        name: name.to_string(),
        enabled: true,
        protocol,
        mode: TunnelMode::Relay,
        direction,
        local_addr: local_addr.to_string(),
        relay_addr: Some("127.0.0.1:4433".to_string()),
        tunnel_encryption_key: None,
        tunnel_bind_secret: None,
        peer_addr: None,
        direct_listen_addr: None,
        tunnel_psk: None,
        tls_cert_pem: None,
        tls_key_pem: None,
        relay_addrs: Vec::new(),
        max_rtt_failback_increase_ms: None,
    }
}

#[test]
fn port_conflict_two_tunnels_same_port() {

    let config = make_tunnel_config(vec![
        make_test_tunnel("t1", "0.0.0.0:8080", TunnelProtocol::Tcp, TunnelDirection::Egress),
        make_test_tunnel("t2", "0.0.0.0:8080", TunnelProtocol::Tcp, TunnelDirection::Egress),
    ]);
    let err = validate_config(&config).unwrap_err().to_string();
    assert!(err.contains("Port conflict"), "got: {err}");
    assert!(err.contains("8080"), "got: {err}");
}

#[test]
fn port_conflict_tunnel_vs_server() {

    let mut config = AppConfig::default();
    config.server.listen_port = 8080;
    config.server.listen_addr = "0.0.0.0".to_string();
    config.tunnels.push(make_test_tunnel(
        "t1",
        "0.0.0.0:8080",
        TunnelProtocol::Tcp,
        TunnelDirection::Egress,
    ));
    let err = validate_config(&config).unwrap_err().to_string();
    assert!(err.contains("Port conflict"), "got: {err}");
    assert!(err.contains("Edge API server"), "got: {err}");
}

#[test]
fn port_conflict_tunnel_vs_srt_input() {

    let mut config = make_config_with_rtp("0.0.0.0:5000", "127.0.0.1:6000");
    // Replace the RTP input with an SRT listener on port 9000
    config.inputs[0] = InputDefinition {
        active: true,
        group: None,
        id: "in-1".to_string(),
        name: "SRT In".to_string(),
        config: InputConfig::Srt(SrtInputConfig {
            mode: SrtMode::Listener,
            local_addr: Some("0.0.0.0:9000".to_string()),
            remote_addr: None,
            latency_ms: 200,
            recv_latency_ms: None,
            peer_latency_ms: None,
            peer_idle_timeout_secs: 30,
            passphrase: None,
            aes_key_len: None,
            crypto_mode: None,
            max_rexmit_bw: None,
            stream_id: None,
            packet_filter: None,
            max_bw: None,
            input_bw: None,
            overhead_bw: None,
            enforced_encryption: None,
            connect_timeout_secs: None,
            flight_flag_size: None,
            send_buffer_size: None,
            recv_buffer_size: None,
            ip_tos: None,
            retransmit_algo: None,
            send_drop_delay: None,
            loss_max_ttl: None,
            km_refresh_rate: None,
            km_pre_announce: None,
            payload_size: None,
            mss: None,
            tlpkt_drop: None,
            ip_ttl: None,
            redundancy: None,
            transport_mode: None,
            external_address: None,
            bonding: None,
            audio_encode: None,
            transcode: None,
            video_encode: None,
            program_number: None,
            pid_map: None,
            pid_overrides: None,
            interface_binding: None,
            ingress_delay_ms: None,
            passthrough_clock: None,
        }),
    };
    // Add a UDP tunnel egress on the same port
    config.tunnels.push(make_test_tunnel(
        "t1",
        "0.0.0.0:9000",
        TunnelProtocol::Udp,
        TunnelDirection::Egress,
    ));
    let err = validate_config(&config).unwrap_err().to_string();
    assert!(err.contains("Port conflict"), "got: {err}");
    assert!(err.contains("9000"), "got: {err}");
}

#[test]
fn no_port_conflict_different_protocols() {

    // TCP tunnel on 8080 + UDP tunnel on 8080 — different protocols, no conflict
    let config = make_tunnel_config(vec![
        make_test_tunnel("t1", "0.0.0.0:8080", TunnelProtocol::Tcp, TunnelDirection::Egress),
        make_test_tunnel("t2", "0.0.0.0:8080", TunnelProtocol::Udp, TunnelDirection::Egress),
    ]);
    assert!(validate_config(&config).is_ok());
}

#[test]
fn no_port_conflict_multicast_addresses() {
    // Two RTP inputs on the same multicast address — valid with SO_REUSEADDR
    let mut config = AppConfig::default();
    config.inputs.push(InputDefinition {
        active: true,
        group: None,
        id: "in-1".to_string(),
        name: "Mcast 1".to_string(),
        config: InputConfig::Rtp(RtpInputConfig {
            bind_addr: "239.1.1.1:5000".to_string(),
            interface_addr: None,
            fec_decode: None,
            allowed_sources: None,
            allowed_payload_types: None,
            max_bitrate_mbps: None,
            tr07_mode: None,
            redundancy: None,
            external_address: None,
            source_addr: None,
            audio_encode: None,
            transcode: None,
            video_encode: None,
            program_number: None,
            pid_map: None,
            pid_overrides: None,
            interface_binding: None,
            ingress_delay_ms: None,
            ingress_dejitter_ms: None,
            passthrough_clock: None,
        }),
    });
    config.inputs.push(InputDefinition {
        active: true,
        group: None,
        id: "in-2".to_string(),
        name: "Mcast 2".to_string(),
        config: InputConfig::Rtp(RtpInputConfig {
            bind_addr: "239.1.1.1:5000".to_string(),
            interface_addr: None,
            fec_decode: None,
            allowed_sources: None,
            allowed_payload_types: None,
            max_bitrate_mbps: None,
            tr07_mode: None,
            redundancy: None,
            external_address: None,
            source_addr: None,
            audio_encode: None,
            transcode: None,
            video_encode: None,
            program_number: None,
            pid_map: None,
            pid_overrides: None,
            interface_binding: None,
            ingress_delay_ms: None,
            ingress_dejitter_ms: None,
            passthrough_clock: None,
        }),
    });
    assert!(validate_config(&config).is_ok());
}

#[test]
fn no_port_conflict_disabled_tunnel() {

    let mut t2 = make_test_tunnel("t2", "0.0.0.0:8080", TunnelProtocol::Tcp, TunnelDirection::Egress);
    t2.enabled = false; // disabled tunnels should be skipped
    let config = make_tunnel_config(vec![
        make_test_tunnel("t1", "0.0.0.0:8080", TunnelProtocol::Tcp, TunnelDirection::Egress),
        t2,
    ]);
    assert!(validate_config(&config).is_ok());
}

#[test]
fn no_port_conflict_ingress_tunnel_does_not_bind_local_addr() {

    // Ingress tunnels forward to local_addr (connect, not bind), so no conflict
    // with an egress tunnel on the same port.
    let config = make_tunnel_config(vec![
        make_test_tunnel("egress", "0.0.0.0:8080", TunnelProtocol::Tcp, TunnelDirection::Egress),
        make_test_tunnel("ingress", "127.0.0.1:8080", TunnelProtocol::Tcp, TunnelDirection::Ingress),
    ]);
    assert!(validate_config(&config).is_ok());
}

#[test]
fn port_conflict_wildcard_vs_specific_ip() {

    // 0.0.0.0:8080 conflicts with 192.168.1.1:8080
    let config = make_tunnel_config(vec![
        make_test_tunnel("t1", "0.0.0.0:8080", TunnelProtocol::Tcp, TunnelDirection::Egress),
        make_test_tunnel("t2", "192.168.1.1:8080", TunnelProtocol::Tcp, TunnelDirection::Egress),
    ]);
    let err = validate_config(&config).unwrap_err().to_string();
    assert!(err.contains("Port conflict"), "got: {err}");
}
