//! The data model: defaults, classification, references.

use edge_config::defaults::{
    default_dscp, default_st2110_anc_pt, default_st2110_audio_pt, default_st2110_packet_time_us,
};
use edge_config::models::{
    AppConfig, EgressPacingMode, FlowConfig, InputConfig, InputDefinition, OutputConfig,
    RtpAudioInputConfig, RtpInputConfig, RtpOutputConfig, St2110AncillaryInputConfig,
    St2110AudioInputConfig, UdpInputConfig,
};

/// The auto-resolution rule: explicit always wins; unset resolves to
/// `pcr` only when the flow carries a bonded input, else `forward`
/// (the historical default).
#[test]
fn egress_pacing_auto_resolution_rule() {
    assert_eq!(EgressPacingMode::resolve_auto(None, false), EgressPacingMode::Forward);
    assert_eq!(EgressPacingMode::resolve_auto(None, true), EgressPacingMode::Pcr);
    // Explicit settings are never overridden — bonded or not.
    for mode in [EgressPacingMode::Forward, EgressPacingMode::Pcr, EgressPacingMode::Servo] {
        assert_eq!(EgressPacingMode::resolve_auto(Some(mode), true), mode);
        assert_eq!(EgressPacingMode::resolve_auto(Some(mode), false), mode);
    }
}

/// The TR-101290 analyzer must only run on inputs that carry MPEG-TS bytes.
/// Audio-only and ancillary inputs carry PCM or RFC 8331 data.
#[test]
fn input_config_is_ts_carrier_classification() {
    let pcm = |bind: &str| St2110AudioInputConfig {
        bind_addr: bind.to_string(),
        sample_rate: 48_000,
        channels: 2,
        bit_depth: 24,
        packet_time_us: 1_000,
        interface_addr: None,
        source_addr: None,
        redundancy: None,
        payload_type: default_st2110_audio_pt(),
        clock_domain: None,
        allowed_sources: None,
        max_bitrate_mbps: None,
        transcode: None,
        audio_encode: None,
        pid_overrides: None,
        interface_binding: None,
    };
    assert!(!InputConfig::St2110_30(pcm("127.0.0.1:5000")).is_ts_carrier());
    assert!(!InputConfig::St2110_31(pcm("127.0.0.1:5000")).is_ts_carrier());
    assert!(!InputConfig::St2110_40(St2110AncillaryInputConfig {
        bind_addr: "127.0.0.1:5000".to_string(),
        interface_addr: None,
        source_addr: None,
        redundancy: None,
        payload_type: default_st2110_anc_pt(),
        clock_domain: None,
        allowed_sources: None,
        interface_binding: None,
    })
    .is_ts_carrier());
    assert!(!InputConfig::RtpAudio(RtpAudioInputConfig {
        bind_addr: "127.0.0.1:5000".to_string(),
        sample_rate: 48_000,
        channels: 2,
        bit_depth: 24,
        interface_addr: None,
        source_addr: None,
        redundancy: None,
        packet_time_us: default_st2110_packet_time_us(),
        payload_type: default_st2110_audio_pt(),
        allowed_sources: None,
        transcode: None,
        audio_encode: None,
        pid_overrides: None,
        interface_binding: None,
    })
    .is_ts_carrier());

    assert!(InputConfig::Udp(UdpInputConfig {
        bind_addr: "127.0.0.1:5000".to_string(),
        external_address: None,
        interface_addr: None,
        source_addr: None,
        audio_encode: None,
        transcode: None,
        video_encode: None,
        program_number: None,
        pid_map: None,
        pid_overrides: None,
        interface_binding: None,
        ingress_delay_ms: None,
        ingress_dejitter_ms: None,
        passthrough_clock: None,
    })
    .is_ts_carrier());
    assert!(InputConfig::Rtp(RtpInputConfig {
        bind_addr: "127.0.0.1:5000".to_string(),
        external_address: None,
        interface_addr: None,
        source_addr: None,
        fec_decode: None,
        tr07_mode: None,
        allowed_sources: None,
        allowed_payload_types: None,
        max_bitrate_mbps: None,
        redundancy: None,
        audio_encode: None,
        transcode: None,
        video_encode: None,
        program_number: None,
        pid_map: None,
        pid_overrides: None,
        interface_binding: None,
        ingress_delay_ms: None,
        ingress_dejitter_ms: None,
        passthrough_clock: None,
    })
    .is_ts_carrier());
}

#[test]
fn test_resolve_flow() {
    let config = AppConfig {
        inputs: vec![InputDefinition {
            active: true,
            group: None,
            id: "in-1".to_string(),
            name: "Input 1".to_string(),
            config: InputConfig::Udp(UdpInputConfig {
                bind_addr: "0.0.0.0:5000".to_string(),
                external_address: None,
                interface_addr: None,
                source_addr: None,
                audio_encode: None,
                transcode: None,
                video_encode: None,
                program_number: None,
                pid_map: None,
                pid_overrides: None,
                interface_binding: None,
                ingress_delay_ms: None,
                ingress_dejitter_ms: None,
                passthrough_clock: None,
            }),
        }],
        outputs: vec![OutputConfig::Rtp(RtpOutputConfig {
            active: true,
            group: None,
            id: "out-1".to_string(),
            name: "Output 1".to_string(),
            dest_addr: "127.0.0.1:5004".to_string(),
            bind_addr: None,
            interface_addr: None,
            fec_encode: None,
            dscp: default_dscp(),
            redundancy: None,
            program_number: None,
            pid_map: None,
            delay: None,
            audio_encode: None,
            transcode: None,
            video_encode: None,
            cbr_pad_to_kbps: None,
            pid_overrides: None,
            interface_binding: None,
            egress_pacing: None,
            egress_buffer_ms: None,
        })],
        flows: vec![FlowConfig {
            id: "flow-1".to_string(),
            name: "Flow 1".to_string(),
            enabled: true,
            media_analysis: true,
            thumbnail: true,
            thumbnail_program_number: None,
            thumbnail_interval_secs: None,
            bandwidth_limit: None,
            flow_group_id: None,
            clock_domain: None,
            input_ids: vec!["in-1".to_string()],
            output_ids: vec!["out-1".to_string()],
            assembly: None,
            content_analysis: None,
            recording: None,
            master_clock: None,
            bandwidth_profile: None,
        }],
        ..Default::default()
    };

    let resolved = config.resolve_flow(&config.flows[0]).unwrap();
    assert_eq!(resolved.inputs.len(), 1);
    assert!(resolved.active_input().is_some());
    assert_eq!(resolved.outputs.len(), 1);
    assert_eq!(resolved.outputs[0].id(), "out-1");
}

#[test]
fn test_resolve_flow_missing_input() {
    let config = AppConfig {
        flows: vec![FlowConfig {
            id: "flow-1".to_string(),
            name: "Flow 1".to_string(),
            enabled: true,
            media_analysis: true,
            thumbnail: true,
            thumbnail_program_number: None,
            thumbnail_interval_secs: None,
            bandwidth_limit: None,
            flow_group_id: None,
            clock_domain: None,
            input_ids: vec!["nonexistent".to_string()],
            output_ids: vec![],
            assembly: None,
            content_analysis: None,
            recording: None,
            master_clock: None,
            bandwidth_profile: None,
        }],
        ..Default::default()
    };

    assert!(config.resolve_flow(&config.flows[0]).is_err());
}

#[test]
fn test_default_config() {
    let config = AppConfig::default();
    assert_eq!(config.version, 2);
    assert_eq!(config.server.listen_port, 8080);
    assert!(config.flows.is_empty());
    assert!(config.inputs.is_empty());
    assert!(config.outputs.is_empty());
}

#[test]
fn test_flow_using_input_output() {
    let config = AppConfig {
        flows: vec![FlowConfig {
            id: "f1".to_string(),
            name: "F1".to_string(),
            enabled: true,
            media_analysis: true,
            thumbnail: true,
            thumbnail_program_number: None,
            thumbnail_interval_secs: None,
            bandwidth_limit: None,
            flow_group_id: None,
            clock_domain: None,
            input_ids: vec!["in-1".to_string()],
            output_ids: vec!["out-1".to_string(), "out-2".to_string()],
            assembly: None,
            content_analysis: None,
            recording: None,
            master_clock: None,
            bandwidth_profile: None,
        }],
        ..Default::default()
    };

    assert!(config.flow_using_input("in-1").is_some());
    assert!(config.flow_using_input("in-2").is_none());
    assert!(config.flow_using_output("out-1").is_some());
    assert!(config.flow_using_output("out-2").is_some());
    assert!(config.flow_using_output("out-3").is_none());
}
