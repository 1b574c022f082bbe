//! Settings in force, saving and loading.

use edge_config::audio_transcode::{BitDepth, InputFormat};
use edge_config::binary::Binary32;
use edge_config::defaults::{
    default_cpu_critical, default_cpu_warning, default_dscp, default_ram_critical,
    default_ram_warning, default_segment_duration, default_tp_tone_dbfs, default_tp_tone_hz,
};
use edge_config::env_compat::{EnvStatus, resolve_tuning};
use edge_config::id_map::IdMap;
use edge_config::kinds::{RawEqualization, bond_equalization_mode};
use edge_config::manager::ManagerConfig;
use edge_config::models::{
    AppConfig, BandwidthProfile, BondEqualizationMode, ContentAnalysisConfig,
    DisplayScalingMode, EgressPacingMode, FlowConfig, HitlessMode, InputConfig,
    InputDefinition, OutputConfig, RtmpOutputConfig, RtpAudioInputConfig, RtpAudioOutputConfig,
    RtpInputConfig, RtpOutputConfig, ServerConfig, SpliceMode, St2110VideoPixelFormat,
    SwitchLeg, TlsConfig, VideoEncodeConfig,
};
use edge_config::persistence::{AfterLoad, complete_load, normalize_tunnels, split_config};
use edge_config::secrets::{FlowSecrets, OutputSecrets, SecretsConfig, default_version, has_secrets};
use edge_config::tunnel::{TunnelConfig, TunnelDirection, TunnelMode, TunnelProtocol};
use edge_config::validation::formats::audio_formats;
use edge_config::webrtc::webrtc_safe_video_encode;

fn input(id: &str, config: InputConfig) -> InputDefinition {
    InputDefinition {
        active: true,
        id: id.to_string(),
        name: format!("Input {id}"),
        config,
        group: None,
    }
}

fn rtp_in(bind: &str) -> RtpInputConfig {
    RtpInputConfig {
        bind_addr: bind.to_string(),
        external_address: None,
        interface_addr: None,
        source_addr: None,
        fec_decode: None,
        tr07_mode: None,
        allowed_sources: None,
        allowed_payload_types: None,
        max_bitrate_mbps: None,
        redundancy: None,
        audio_encode: None,
        transcode: None,
        video_encode: None,
        program_number: None,
        pid_map: None,
        pid_overrides: None,
        interface_binding: None,
        ingress_delay_ms: None,
        ingress_dejitter_ms: None,
        passthrough_clock: None,
    }
}

fn rtp_out(id: &str, dest: &str) -> RtpOutputConfig {
    RtpOutputConfig {
        active: true,
        id: id.to_string(),
        name: format!("Output {id}"),
        dest_addr: dest.to_string(),
        dscp: 46,
        group: None,
        bind_addr: None,
        interface_addr: None,
        fec_encode: None,
        redundancy: None,
        program_number: None,
        pid_map: None,
        delay: None,
        audio_encode: None,
        transcode: None,
        video_encode: None,
        pid_overrides: None,
        cbr_pad_to_kbps: None,
        interface_binding: None,
        egress_pacing: None,
        egress_buffer_ms: None,
    }
}

fn flow(id: &str, inputs: &[&str], outputs: &[&str]) -> FlowConfig {
    FlowConfig {
        id: id.to_string(),
        name: format!("Flow {id}"),
        enabled: true,
        media_analysis: true,
        thumbnail: true,
        input_ids: inputs.iter().map(|s| s.to_string()).collect(),
        output_ids: outputs.iter().map(|s| s.to_string()).collect(),
        thumbnail_program_number: None,
        thumbnail_interval_secs: None,
        bandwidth_limit: None,
        flow_group_id: None,
        clock_domain: None,
        assembly: None,
        content_analysis: None,
        recording: None,
        master_clock: None,
        bandwidth_profile: None,
    }
}

fn config() -> AppConfig {
    let mut config = AppConfig::default();
    config.inputs.push(input("in-1", InputConfig::Rtp(rtp_in("0.0.0.0:5000"))));
    config.outputs.push(OutputConfig::Rtp(rtp_out("out-1", "127.0.0.1:5004")));
    config.flows.push(flow("f1", &["in-1"], &["out-1"]));
    config
}

#[test]
fn the_listen_list_takes_the_place_of_the_single_address() {
    let mut server = ServerConfig::default();
    assert_eq!(server.effective_listen_addrs(), vec!["127.0.0.1", "[::1]"]);
    server.listen_addrs = None;
    assert_eq!(server.effective_listen_addrs(), vec!["127.0.0.1"]);
    server.listen_addrs = Some(Vec::new());
    assert_eq!(server.effective_listen_addrs(), vec![server.listen_addr.clone()]);
    server.listen_addrs = Some(vec!["10.0.0.1".to_string(), "::".to_string()]);
    assert_eq!(server.effective_listen_addrs(), vec!["10.0.0.1", "::"]);
}

#[test]
fn bandwidth_profiles_size_the_channels() {
    assert_eq!(BandwidthProfile::Standard.broadcast_capacity(), 16_384);
    assert_eq!(BandwidthProfile::HighBitrate.broadcast_capacity(), 32_768);
    assert_eq!(BandwidthProfile::Uncompressed.broadcast_capacity(), 65_536);
}

#[test]
fn content_analysis_is_lite_unless_configured() {
    let mut f = flow("f", &[], &[]);
    let analysis = f.effective_content_analysis();
    assert!(analysis.lite && !analysis.audio_full && !analysis.video_full);
    assert_eq!(analysis.video_full_hz, None);
    let own = ContentAnalysisConfig {
        lite: false,
        audio_full: true,
        video_full: true,
        video_full_hz: Some(Binary32 { bits: 2.0_f32.to_bits() }),
    };
    f.content_analysis = Some(own.clone());
    assert_eq!(f.effective_content_analysis(), own);
}

#[test]
fn names_and_defaults_of_modes() {
    assert_eq!(EgressPacingMode::Forward.as_str(), "forward");
    assert_eq!(EgressPacingMode::Pcr.as_str(), "pcr");
    assert_eq!(EgressPacingMode::Servo.as_str(), "servo");
    assert_eq!(St2110VideoPixelFormat::Yuv422_8bit.as_str(), "yuv422_8bit");
    assert_eq!(St2110VideoPixelFormat::Yuv422_8bit.depth(), 8);
    assert_eq!(St2110VideoPixelFormat::Yuv422_10bit.as_str(), "yuv422_10bit");
    assert_eq!(St2110VideoPixelFormat::Yuv422_10bit.depth(), 10);
    assert!(SpliceMode::default().is_default());
    assert!(HitlessMode::default().is_default());
    assert_eq!(DisplayScalingMode::default(), DisplayScalingMode::MatchSource);
    assert_eq!(SwitchLeg::Pid { input_id: "a".to_string(), source_pid: 256 }.input_id(), "a");
}

#[test]
fn the_older_equalization_flag_stands_for_a_mode() {
    assert_eq!(bond_equalization_mode(None), None);
    assert_eq!(
        bond_equalization_mode(Some(RawEqualization::Flag(true))),
        Some(BondEqualizationMode::Auto)
    );
    assert_eq!(
        bond_equalization_mode(Some(RawEqualization::Flag(false))),
        Some(BondEqualizationMode::Off)
    );
    assert_eq!(
        bond_equalization_mode(Some(RawEqualization::Mode(BondEqualizationMode::Off))),
        Some(BondEqualizationMode::Off)
    );
}

#[test]
fn outputs_tell_who_they_are() {
    let mut output = OutputConfig::Rtp(rtp_out("out-1", "127.0.0.1:5004"));
    assert_eq!(output.id(), "out-1");
    assert_eq!(output.name(), "Output out-1");
    assert_eq!(output.type_tag(), "rtp");
    assert_eq!(output.group(), None);
    assert!(output.active());
    output.set_active(false);
    assert!(!output.active());
    if let OutputConfig::Rtp(rtp) = &mut output {
        rtp.group = Some("g".to_string());
        assert_eq!(rtp.dest_addr, "127.0.0.1:5004");
    }
    assert_eq!(output.group(), Some("g"));
    assert_eq!(InputConfig::Rtp(rtp_in("0.0.0.0:1")).type_tag(), "rtp");
    assert!(InputConfig::Rtp(rtp_in("0.0.0.0:1")).produces_ts());
}

#[test]
fn defaults_have_their_documented_values() {
    assert_eq!(f64::from_bits(default_cpu_warning().bits), 80.0);
    assert_eq!(default_cpu_warning().text, "80");
    assert_eq!(f64::from_bits(default_cpu_critical().bits), 95.0);
    assert_eq!(f64::from_bits(default_ram_warning().bits), 80.0);
    assert_eq!(f64::from_bits(default_ram_critical().bits), 95.0);
    assert_eq!(f64::from_bits(default_segment_duration().bits), 2.0);
    assert_eq!(f32::from_bits(default_tp_tone_hz().bits), 1000.0);
    assert_eq!(f32::from_bits(default_tp_tone_dbfs().bits), -20.0);
    assert_eq!(default_dscp(), 46);
    assert_eq!(AppConfig::default().server.listen_addr, "127.0.0.1");
    assert_eq!(default_version(), 1);
}

fn encode(codec: &str) -> VideoEncodeConfig {
    VideoEncodeConfig {
        codec: codec.to_string(),
        source_video_pid: None,
        width: None,
        height: None,
        fps_num: None,
        fps_den: None,
        bitrate_kbps: None,
        gop_size: None,
        preset: None,
        profile: None,
        chroma: None,
        bit_depth: None,
        rate_control: None,
        crf: None,
        max_bitrate_kbps: None,
        bframes: None,
        refs: None,
        level: None,
        tune: None,
        color_primaries: None,
        color_transfer: None,
        color_matrix: None,
        color_range: None,
        hw_decode: None,
    }
}

#[test]
fn viewers_get_video_that_browsers_decode() {
    let safe = webrtc_safe_video_encode(None);
    assert_eq!(safe.codec, "h264_auto");
    assert_eq!(safe.bframes, Some(0));
    assert_eq!(safe.chroma.as_deref(), Some("yuv420p"));
    assert_eq!(safe.bit_depth, Some(8));
    assert_eq!(safe.profile, None);
    assert_eq!(safe.tune.as_deref(), Some("zerolatency"));
    for hevc in ["x265", "hevc_nvenc", "hevc_qsv", "hevc_vaapi", "hevc_rkmpp", "hevc_auto", " "] {
        assert_eq!(webrtc_safe_video_encode(Some(&encode(hevc))).codec, "h264_auto");
    }
    let mut deep = encode("x264");
    deep.profile = Some("high10".to_string());
    deep.tune = Some("film".to_string());
    deep.gop_size = Some(50);
    let safe = webrtc_safe_video_encode(Some(&deep));
    assert_eq!(safe.codec, "x264");
    assert_eq!(safe.profile.as_deref(), Some("main"));
    assert_eq!(safe.tune.as_deref(), Some("film"));
    assert_eq!(safe.gop_size, Some(50));
    assert_eq!(webrtc_safe_video_encode(Some(&safe)), safe);
}

fn tunnel(id: &str, key: Option<&str>) -> TunnelConfig {
    TunnelConfig {
        id: id.to_string(),
        name: "Tunnel".to_string(),
        enabled: true,
        protocol: TunnelProtocol::Udp,
        mode: TunnelMode::Relay,
        direction: TunnelDirection::Ingress,
        local_addr: "127.0.0.1:9000".to_string(),
        tunnel_encryption_key: key.map(|s| s.to_string()),
        relay_addrs: Vec::new(),
        relay_addr: None,
        max_rtt_failback_increase_ms: None,
        tunnel_bind_secret: None,
        peer_addr: None,
        direct_listen_addr: None,
        tunnel_psk: None,
        tls_cert_pem: None,
        tls_key_pem: None,
    }
}

fn with_secrets() -> AppConfig {
    let mut config = config();
    config.manager = Some(ManagerConfig {
        enabled: true,
        url: "wss://manager".to_string(),
        accept_self_signed_cert: false,
        node_secret: Some("secret".to_string()),
        cert_fingerprint: None,
        registration_token: None,
        node_id: None,
    });
    config.server.tls = Some(TlsConfig { cert_path: "c".to_string(), key_path: "k".to_string() });
    config.tunnels = vec![tunnel("a", Some("key-a")), tunnel("b", None)];
    config
}

#[test]
fn a_configuration_is_the_same_after_saving_and_loading() {
    let config = with_secrets();
    let split = split_config(config.clone());
    assert!(split.write_secrets);
    assert!(!has_secrets(&split.config));
    assert!(split.config.server.tls.is_none());
    assert_eq!(split.secrets.tunnels.len(), 1);
    let loaded = complete_load(split.config.clone(), true, Some(split.secrets));
    assert_eq!(loaded.after, AfterLoad::Nothing);
    assert_eq!(format!("{:?}", loaded.config), format!("{config:?}"));

    let plain = split_config(self::config());
    assert!(!plain.write_secrets);
    let loaded = complete_load(plain.config, true, None);
    assert_eq!(loaded.after, AfterLoad::Nothing);
    assert_eq!(format!("{:?}", loaded.config), format!("{:?}", self::config()));
}

#[test]
fn loading_says_what_has_to_be_written() {
    let loaded = complete_load(with_secrets(), true, None);
    assert_eq!(loaded.after, AfterLoad::MoveSecrets);
    assert!(has_secrets(&loaded.config));
    assert_eq!(complete_load(with_secrets(), false, None).after, AfterLoad::Nothing);
    let mut old = SecretsConfig::default();
    old.flows.insert(
        "f1".to_string(),
        FlowSecrets { input: None, outputs: IdMap::new() },
    );
    assert_eq!(complete_load(config(), true, Some(old)).after, AfterLoad::SaveBoth);
}

#[test]
fn relay_lists_are_filled_in_once() {
    let mut config = config();
    let mut old = tunnel("a", None);
    old.relay_addr = Some("relay:4433".to_string());
    let mut both = tunnel("b", None);
    both.relay_addr = Some("relay:4433".to_string());
    both.relay_addrs = vec!["other:1".to_string()];
    config.tunnels = vec![old, both, tunnel("c", None)];
    normalize_tunnels(&mut config);
    assert_eq!(config.tunnels[0].relay_addrs, vec!["relay:4433"]);
    assert_eq!(config.tunnels[1].relay_addrs, vec!["other:1"]);
    assert!(config.tunnels[2].relay_addrs.is_empty());
    let once = config.tunnels.clone();
    normalize_tunnels(&mut config);
    assert_eq!(config.tunnels, once);
}

#[test]
fn merging_never_replaces_what_is_there() {
    let mut config = with_secrets();
    let mut secrets = SecretsConfig::extract_from(&config);
    secrets.manager_node_secret = Some("other".to_string());
    secrets.manager_registration_token = Some("token".to_string());
    secrets.merge_into(&mut config);
    let manager = config.manager.unwrap();
    assert_eq!(manager.node_secret.as_deref(), Some("secret"));
    assert_eq!(manager.registration_token.as_deref(), Some("token"));
    let mut bare = self::config();
    secrets.merge_into(&mut bare);
    assert!(bare.manager.is_none());
    assert!(bare.server.tls.is_some());
}

#[test]
fn masking_removes_what_stripping_removes() {
    let mut masked = with_secrets();
    masked.mask_secrets();
    let mut stripped = with_secrets();
    stripped.strip_secrets();
    assert_eq!(format!("{masked:?}"), format!("{stripped:?}"));
    assert!(SecretsConfig::extract_from(&masked).is_empty());
    let once = format!("{stripped:?}");
    stripped.strip_secrets();
    assert_eq!(format!("{stripped:?}"), once);
}

#[test]
fn older_output_secrets_are_put_back() {
    let mut config = config();
    config.outputs.push(OutputConfig::Rtmp(RtmpOutputConfig {
        active: true,
        id: "rtmp".to_string(),
        name: "RTMP".to_string(),
        dest_url: "rtmp://h/app".to_string(),
        stream_key: String::new(),
        reconnect_delay_secs: 5,
        group: None,
        max_reconnect_attempts: None,
        program_number: None,
        audio_encode: None,
        transcode: None,
        video_encode: None,
        pid_overrides: None,
    }));
    config.flows[0].output_ids.push("rtmp".to_string());
    let mut old = SecretsConfig::default();
    let mut outputs = IdMap::new();
    outputs.insert(
        "rtmp".to_string(),
        OutputSecrets { stream_key: Some("key".to_string()), ..Default::default() },
    );
    old.flows.insert("f1".to_string(), FlowSecrets { input: None, outputs });
    old.merge_into(&mut config);
    match &config.outputs[1] {
        OutputConfig::Rtmp(rtmp) => assert_eq!(rtmp.stream_key, "key"),
        _ => panic!("Expected RTMP output"),
    }
}

#[test]
fn every_reported_variable_has_its_message() {
    let mut env: IdMap<String> = IdMap::new();
    env.insert("BILBYCAST_PROBE_4K".to_string(), "0".to_string());
    env.insert("BILBYCAST_EGRESS_PACING".to_string(), "pcr".to_string());
    env.insert("PATH".to_string(), "/bin".to_string());
    let (resolved, found) = resolve_tuning(None, &env);
    assert!(!resolved.probe_4k);
    assert_eq!(found.len(), 2);
    assert!(found.iter().any(|f| f.status == EnvStatus::Removed && f.value == "pcr"));
    assert_eq!(EnvStatus::Unparseable.label(), "unparseable");
}

#[test]
fn merging_twice_is_merging_once() {
    let mut config = with_secrets();
    let secrets = SecretsConfig::extract_from(&config);
    config.strip_secrets();
    secrets.merge_into(&mut config);
    let once = format!("{config:?}");
    secrets.merge_into(&mut config);
    assert_eq!(format!("{config:?}"), once);
}

#[test]
fn the_engine_is_asked_about_every_audio_format() {
    let mut config = config();
    assert!(audio_formats(&config).is_empty());
    config.inputs[0].config = InputConfig::RtpAudio(RtpAudioInputConfig {
        bind_addr: "0.0.0.0:5000".to_string(),
        sample_rate: 96_000,
        bit_depth: 16,
        channels: 8,
        packet_time_us: 1_000,
        payload_type: 97,
        interface_addr: None,
        source_addr: None,
        redundancy: None,
        allowed_sources: None,
        transcode: None,
        audio_encode: None,
        pid_overrides: None,
        interface_binding: None,
    });
    config.outputs[0] = OutputConfig::RtpAudio(RtpAudioOutputConfig {
        active: true,
        id: "out-1".to_string(),
        name: "Audio".to_string(),
        dest_addr: "127.0.0.1:5004".to_string(),
        sample_rate: 48_000,
        bit_depth: 24,
        channels: 2,
        packet_time_us: 1_000,
        payload_type: 97,
        dscp: 46,
        group: None,
        bind_addr: None,
        interface_addr: None,
        redundancy: None,
        ssrc: None,
        transcode: None,
        audio_track_index: None,
        transport_mode: None,
        pid_overrides: None,
        interface_binding: None,
    });
    assert_eq!(
        audio_formats(&config),
        vec![
            InputFormat { sample_rate: 96_000, bit_depth: BitDepth::L16, channels: 8 },
            InputFormat { sample_rate: 48_000, bit_depth: BitDepth::L24, channels: 2 },
        ]
    );
}
