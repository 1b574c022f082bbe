//! What media settings are refused for.

use edge_config::audio_transcode::TranscodeJson;
use edge_config::binary::Binary32;
use edge_config::defaults::{default_latency, default_peer_idle_timeout};
use edge_config::models::{
    AppConfig, AssembledProgram, AssembledStream, AssemblyKind, AudioEncodeConfig,
    BondPathConfig, BondPathTransportConfig, BondSchedulerKind, BondedInputConfig,
    BondedOutputConfig, ContentAnalysisConfig, DisplayOutputConfig, DisplayScalingMode,
    EgressPacingMode, FlowAssembly, FlowConfig, HitlessMode, InputConfig, InputDefinition,
    InterfaceBinding, MasterClockConfig, MasterClockKindConfig, MxlAncInputConfig,
    MxlAncOutputConfig, MxlDomainRef, OutputConfig, PcrSource, RtpInputConfig, RtpOutputConfig,
    SdiInputConfig, SdiOutputConfig, SlotSource, SrtBondingConfig, SrtBondingEndpoint,
    SrtBondingMode, SrtInputConfig, SrtMode, SrtOutputConfig, St2110AudioInputConfig,
    St2110AudioOutputConfig, TsPidOverridesEntry, TsPidOverridesMap, UdpOutputConfig,
    VideoEncodeConfig,
};
use edge_config::validation::{
    validate_config, validate_flow, validate_input, validate_output, validate_video_encode,
};
use std::collections::BTreeMap;

fn input(id: &str, config: InputConfig) -> InputDefinition {
    InputDefinition {
        active: true,
        id: id.to_string(),
        name: format!("Input {id}"),
        config,
        group: None,
    }
}

fn rtp_in(bind: &str) -> RtpInputConfig {
    RtpInputConfig {
        bind_addr: bind.to_string(),
        external_address: None,
        interface_addr: None,
        source_addr: None,
        fec_decode: None,
        tr07_mode: None,
        allowed_sources: None,
        allowed_payload_types: None,
        max_bitrate_mbps: None,
        redundancy: None,
        audio_encode: None,
        transcode: None,
        video_encode: None,
        program_number: None,
        pid_map: None,
        pid_overrides: None,
        interface_binding: None,
        ingress_delay_ms: None,
        ingress_dejitter_ms: None,
        passthrough_clock: None,
    }
}

fn rtp_out(id: &str, dest: &str) -> RtpOutputConfig {
    RtpOutputConfig {
        active: true,
        id: id.to_string(),
        name: format!("Output {id}"),
        dest_addr: dest.to_string(),
        dscp: 46,
        group: None,
        bind_addr: None,
        interface_addr: None,
        fec_encode: None,
        redundancy: None,
        program_number: None,
        pid_map: None,
        delay: None,
        audio_encode: None,
        transcode: None,
        video_encode: None,
        pid_overrides: None,
        cbr_pad_to_kbps: None,
        interface_binding: None,
        egress_pacing: None,
        egress_buffer_ms: None,
    }
}

fn flow(id: &str, inputs: &[&str], outputs: &[&str]) -> FlowConfig {
    FlowConfig {
        id: id.to_string(),
        name: format!("Flow {id}"),
        enabled: true,
        media_analysis: true,
        thumbnail: true,
        input_ids: inputs.iter().map(|s| s.to_string()).collect(),
        output_ids: outputs.iter().map(|s| s.to_string()).collect(),
        thumbnail_program_number: None,
        thumbnail_interval_secs: None,
        bandwidth_limit: None,
        flow_group_id: None,
        clock_domain: None,
        assembly: None,
        content_analysis: None,
        recording: None,
        master_clock: None,
        bandwidth_profile: None,
    }
}

fn config() -> AppConfig {
    let mut config = AppConfig::default();
    config.inputs.push(input("in-1", InputConfig::Rtp(rtp_in("0.0.0.0:5000"))));
    config.outputs.push(OutputConfig::Rtp(rtp_out("out-1", "127.0.0.1:5004")));
    config.flows.push(flow("f1", &["in-1"], &["out-1"]));
    config
}

fn encode(codec: &str) -> VideoEncodeConfig {
    VideoEncodeConfig {
        codec: codec.to_string(),
        source_video_pid: None,
        width: None,
        height: None,
        fps_num: None,
        fps_den: None,
        bitrate_kbps: None,
        gop_size: None,
        preset: None,
        profile: None,
        chroma: None,
        bit_depth: None,
        rate_control: None,
        crf: None,
        max_bitrate_kbps: None,
        bframes: None,
        refs: None,
        level: None,
        tune: None,
        color_primaries: None,
        color_transfer: None,
        color_matrix: None,
        color_range: None,
        hw_decode: None,
    }
}

fn audio(codec: &str) -> AudioEncodeConfig {
    AudioEncodeConfig {
        codec: codec.to_string(),
        source_audio_pid: None,
        bitrate_kbps: None,
        sample_rate: None,
        channels: None,
        silent_fallback: false,
        opus_vbr_mode: None,
        opus_fec: false,
        opus_dtx: false,
        opus_frame_duration_ms: None,
    }
}

fn overrides(entries: &[(u16, u16)]) -> Option<TsPidOverridesMap> {
    let mut map = BTreeMap::new();
    for (program, pid) in entries {
        map.insert(
            *program,
            TsPidOverridesEntry {
                video_pid: Some(*pid),
                audio_pid: None,
                pmt_pid: None,
                pcr_pid: None,
                audio_pids: None,
            },
        );
    }
    Some(map)
}

fn srt_in() -> SrtInputConfig {
    SrtInputConfig {
        mode: SrtMode::Caller,
        local_addr: Some("127.0.0.1:9000".to_string()),
        remote_addr: Some("127.0.0.1:9001".to_string()),
        external_address: None,
        latency_ms: default_latency(),
        recv_latency_ms: None,
        peer_latency_ms: None,
        peer_idle_timeout_secs: default_peer_idle_timeout(),
        passphrase: None,
        aes_key_len: None,
        crypto_mode: None,
        max_rexmit_bw: None,
        stream_id: None,
        packet_filter: None,
        max_bw: None,
        input_bw: None,
        overhead_bw: None,
        enforced_encryption: None,
        connect_timeout_secs: None,
        flight_flag_size: None,
        send_buffer_size: None,
        recv_buffer_size: None,
        ip_tos: None,
        retransmit_algo: None,
        send_drop_delay: None,
        loss_max_ttl: None,
        km_refresh_rate: None,
        km_pre_announce: None,
        payload_size: None,
        mss: None,
        tlpkt_drop: None,
        ip_ttl: None,
        redundancy: None,
        bonding: None,
        transport_mode: None,
        audio_encode: None,
        transcode: None,
        video_encode: None,
        program_number: None,
        pid_map: None,
        pid_overrides: None,
        interface_binding: None,
        ingress_delay_ms: None,
        passthrough_clock: None,
    }
}

fn srt_out() -> SrtOutputConfig {
    SrtOutputConfig {
        id: "s".to_string(),
        name: "SRT".to_string(),
        active: true,
        mode: SrtMode::Caller,
        local_addr: Some("127.0.0.1:9000".to_string()),
        remote_addr: Some("127.0.0.1:9001".to_string()),
        group: None,
        external_address: None,
        latency_ms: default_latency(),
        recv_latency_ms: None,
        peer_latency_ms: None,
        peer_idle_timeout_secs: default_peer_idle_timeout(),
        passphrase: None,
        aes_key_len: None,
        crypto_mode: None,
        max_rexmit_bw: None,
        stream_id: None,
        packet_filter: None,
        max_bw: None,
        input_bw: None,
        overhead_bw: None,
        enforced_encryption: None,
        connect_timeout_secs: None,
        flight_flag_size: None,
        send_buffer_size: None,
        recv_buffer_size: None,
        ip_tos: None,
        retransmit_algo: None,
        send_drop_delay: None,
        loss_max_ttl: None,
        km_refresh_rate: None,
        km_pre_announce: None,
        payload_size: None,
        mss: None,
        tlpkt_drop: None,
        ip_ttl: None,
        redundancy: None,
        bonding: None,
        program_number: None,
        pid_map: None,
        transport_mode: None,
        delay: None,
        audio_encode: None,
        transcode: None,
        video_encode: None,
        pid_overrides: None,
        cbr_pad_to_kbps: None,
        webrtc_compatible: false,
        interface_binding: None,
    }
}

fn udp_out() -> UdpOutputConfig {
    UdpOutputConfig {
        id: "u".to_string(),
        name: "UDP".to_string(),
        active: true,
        dest_addr: "10.0.0.1:5004".to_string(),
        dscp: 46,
        group: None,
        bind_addr: None,
        interface_addr: None,
        program_number: None,
        pid_map: None,
        transport_mode: None,
        delay: None,
        audio_encode: None,
        transcode: None,
        video_encode: None,
        pid_overrides: None,
        cbr_pad_to_kbps: None,
        interface_binding: None,
        egress_pacing: None,
        egress_buffer_ms: None,
    }
}

fn strict() -> Option<InterfaceBinding> {
    Some(InterfaceBinding {
        name: "eno4".to_string(),
        strict: true,
    })
}

fn relay_leg(key: Option<&str>) -> BondPathConfig {
    BondPathConfig {
        id: 1,
        name: "lte".to_string(),
        weight_hint: 1,
        transport: BondPathTransportConfig::Relay {
            tunnel_id: "t".to_string(),
            relay_addrs: vec!["relay.example:4000".to_string()],
            tunnel_bind_secret: None,
            tunnel_encryption_key: key.map(|k| k.to_string()),
            interface: None,
            source: None,
            gateway: None,
        },
        max_bitrate_bps: None,
        fec: None,
    }
}

fn bonded_in(bond_key: Option<&str>, leg_key: Option<&str>) -> InputConfig {
    InputConfig::Bonded(BondedInputConfig {
        bond_flow_id: 7,
        paths: vec![relay_leg(leg_key)],
        encryption_key: bond_key.map(|k| k.to_string()),
        hold_ms: None,
        hold_max_ms: None,
        nack_delay_ms: None,
        max_nack_retries: None,
        keepalive_ms: None,
        fec: None,
        ingress_dejitter_ms: None,
        equalization: None,
        max_bonding_latency_ms: None,
    })
}

fn sdi_in(pixel_format: &str) -> InputConfig {
    InputConfig::Sdi(SdiInputConfig {
        device: "DeckLink Quad (1)".to_string(),
        format: "auto".to_string(),
        pixel_format: pixel_format.to_string(),
        audio_channels: 2,
        video_encode: encode("x264"),
        scte35_extraction: false,
        timecode_extraction: false,
        captions_extraction: false,
        audio_encode: None,
        pid_overrides: None,
    })
}

fn display(device: &str, program_number: Option<u16>) -> OutputConfig {
    OutputConfig::Display(DisplayOutputConfig {
        id: "d".to_string(),
        name: "Display".to_string(),
        active: true,
        device: device.to_string(),
        program_number,
        audio_channel_pair: [0, 1],
        sync_mode: "vsync".to_string(),
        group: None,
        audio_device: None,
        audio_track_index: None,
        scaling_mode: DisplayScalingMode::default(),
        resolution: None,
        refresh_hz: None,
        show_audio_bars: false,
        hw_decode: None,
    })
}

fn sdi_out(offset: i32) -> OutputConfig {
    OutputConfig::Sdi(SdiOutputConfig {
        id: "c".to_string(),
        name: "Card".to_string(),
        active: true,
        device: "DeckLink Quad (1)".to_string(),
        mode: "Hi50".to_string(),
        pixel_format: "uyvy422".to_string(),
        audio_channels: 2,
        audio_offset_ms: offset,
        group: None,
        program_number: None,
        scte35_injection: false,
    })
}

fn aes3_in() -> St2110AudioInputConfig {
    St2110AudioInputConfig {
        bind_addr: "239.1.1.1:5004".to_string(),
        sample_rate: 48_000,
        bit_depth: 24,
        channels: 2,
        packet_time_us: 1000,
        payload_type: 97,
        interface_addr: None,
        source_addr: None,
        redundancy: None,
        clock_domain: None,
        allowed_sources: None,
        max_bitrate_mbps: None,
        transcode: None,
        audio_encode: None,
        pid_overrides: None,
        interface_binding: None,
    }
}

fn pcm_out() -> OutputConfig {
    OutputConfig::St2110_30(St2110AudioOutputConfig {
        id: "out".to_string(),
        name: "PCM".to_string(),
        active: true,
        dest_addr: "239.2.1.1:5004".to_string(),
        sample_rate: 48_000,
        bit_depth: 24,
        channels: 2,
        packet_time_us: 1000,
        payload_type: 97,
        dscp: 46,
        group: None,
        bind_addr: None,
        interface_addr: None,
        redundancy: None,
        clock_domain: None,
        ssrc: None,
        transcode: None,
        audio_track_index: None,
        interface_binding: None,
    })
}

fn mxl() -> MxlDomainRef {
    MxlDomainRef {
        domain_path: "/dev/shm/mxl".to_string(),
        flow_name: "cam".to_string(),
    }
}

fn clock(kind: MasterClockKindConfig) -> Option<MasterClockConfig> {
    Some(MasterClockConfig {
        kind,
        lipsync_offset_90k: 0,
        pll_lock_timeout_s: None,
        pll_lock_jitter_us: None,
    })
}

fn input_refusal(config: InputConfig) -> String {
    validate_input(&config).unwrap_err().to_string()
}

fn output_refusal(config: OutputConfig) -> String {
    validate_output(&config).unwrap_err().to_string()
}

fn flow_refusal(change: impl FnOnce(&mut FlowConfig)) -> String {
    let mut f = flow("f", &["in"], &["out"]);
    change(&mut f);
    validate_flow(&f).unwrap_err().to_string()
}

fn accepted_flow(change: impl FnOnce(&mut FlowConfig)) {
    let mut f = flow("f", &["in"], &["out"]);
    change(&mut f);
    assert!(validate_flow(&f).is_ok());
}

fn one_flow(input_config: InputConfig, output: OutputConfig) -> AppConfig {
    let mut c = config();
    c.inputs = vec![input("in", input_config)];
    c.outputs = vec![output];
    c.flows = vec![flow("f", &["in"], &["out"])];
    c
}

fn config_refusal(c: &AppConfig) -> String {
    validate_config(c).unwrap_err().to_string()
}

#[test]
fn thumbnails_are_taken_every_second_to_every_minute() {
    accepted_flow(|f| f.thumbnail_interval_secs = Some(1));
    accepted_flow(|f| f.thumbnail_interval_secs = Some(60));
    assert_eq!(
        flow_refusal(|f| f.thumbnail_interval_secs = Some(0)),
        "Flow 'f': thumbnail_interval_secs must be 1-60, got 0"
    );
    assert_eq!(
        flow_refusal(|f| f.thumbnail_interval_secs = Some(61)),
        "Flow 'f': thumbnail_interval_secs must be 1-60, got 61"
    );
}

fn analysis(hz: f32) -> Option<ContentAnalysisConfig> {
    Some(ContentAnalysisConfig {
        lite: true,
        audio_full: false,
        video_full: true,
        video_full_hz: Some(Binary32 { bits: hz.to_bits() }),
    })
}

#[test]
fn video_is_sampled_at_up_to_thirty_hertz() {
    for hz in [f32::MIN_POSITIVE, 1.0, 29.97, 30.0] {
        accepted_flow(|f| f.content_analysis = analysis(hz));
    }
    for hz in [0.0, -0.0, -1.0, 30.1, f32::INFINITY, f32::NAN] {
        assert_eq!(
            flow_refusal(|f| f.content_analysis = analysis(hz)),
            "Flow 'f': content_analysis video_full_hz must be greater than 0 and at most 30"
        );
    }
}

fn pid_source() -> SlotSource {
    SlotSource::Pid { input_id: "in".to_string(), source_pid: 256 }
}

fn hitless(primary: SlotSource, backup: SlotSource) -> SlotSource {
    SlotSource::Hitless {
        primary: Box::new(primary),
        backup: Box::new(backup),
        mode: HitlessMode::PrimaryPreference,
        stall_ms: None,
        reorder_window: None,
        path_differential_ms: None,
    }
}

fn assembly(source: SlotSource) -> Option<FlowAssembly> {
    Some(FlowAssembly {
        kind: AssemblyKind::Spts,
        programs: vec![AssembledProgram {
            program_number: 1,
            pmt_pid: 0x1000,
            streams: vec![
                AssembledStream {
                    source: pid_source(),
                    out_pid: 0x100,
                    stream_type: 0x1B,
                    label: None,
                },
                AssembledStream {
                    source,
                    out_pid: 0x101,
                    stream_type: 0x0F,
                    label: None,
                },
            ],
            service_name: None,
            pcr_source: None,
        }],
        pcr_source: Some(PcrSource { input_id: "in".to_string(), pid: 256 }),
    })
}

#[test]
fn hitless_pairs_are_not_nested() {
    accepted_flow(|f| f.assembly = assembly(pid_source()));
    accepted_flow(|f| f.assembly = assembly(hitless(pid_source(), pid_source())));
    let inner = || hitless(pid_source(), pid_source());
    for nested in [hitless(inner(), pid_source()), hitless(pid_source(), inner())] {
        assert_eq!(
            flow_refusal(|f| f.assembly = assembly(nested)),
            "Flow 'f' program 1: the legs of a hitless source must be pid or essence sources"
        );
    }
}

#[test]
fn overrides_assign_free_packet_identifiers() {
    let rtp = |entries: &[(u16, u16)]| {
        let mut c = rtp_in("127.0.0.1:5000");
        c.pid_overrides = overrides(entries);
        InputConfig::Rtp(c)
    };
    assert!(validate_input(&rtp(&[(1, 0x0010), (2, 0x1FFE)])).is_ok());
    for pid in [0, 0x000F, 0x1FFF, 0xFFFF] {
        assert_eq!(
            input_refusal(rtp(&[(1, 0x0100), (2, pid)])),
            "Input of type 'rtp': pid_overrides PIDs must be 0x0010-0x1FFE"
        );
    }
    let mut audio_pids = BTreeMap::new();
    audio_pids.insert(0x0101, 0x0002);
    let mut c = rtp_in("127.0.0.1:5000");
    c.pid_overrides = overrides(&[(1, 0x0100)]);
    c.pid_overrides.as_mut().unwrap().get_mut(&1).unwrap().audio_pids = Some(audio_pids);
    assert_eq!(
        input_refusal(InputConfig::Rtp(c)),
        "Input of type 'rtp': pid_overrides PIDs must be 0x0010-0x1FFE"
    );
}

#[test]
fn a_synthetic_stream_has_program_one() {
    let mut c = aes3_in();
    c.pid_overrides = overrides(&[(2, 0x0100)]);
    assert!(validate_input(&InputConfig::St2110_30(c.clone())).is_ok());
    c.audio_encode = Some(audio("aac_lc"));
    assert_eq!(
        input_refusal(InputConfig::St2110_30(c.clone())),
        "Input of type 'st2110_30': pid_overrides must hold exactly one entry, for program 1"
    );
    c.pid_overrides = overrides(&[(1, 0x0100), (2, 0x0200)]);
    assert_eq!(
        input_refusal(InputConfig::St2110_30(c.clone())),
        "Input of type 'st2110_30': pid_overrides must hold exactly one entry, for program 1"
    );
    c.pid_overrides = overrides(&[]);
    assert_eq!(
        input_refusal(InputConfig::St2110_30(c.clone())),
        "Input of type 'st2110_30': pid_overrides must hold exactly one entry, for program 1"
    );
    c.pid_overrides = overrides(&[(1, 0x0100)]);
    assert!(validate_input(&InputConfig::St2110_30(c)).is_ok());
}

#[test]
fn one_program_is_encoded_per_output() {
    let udp = |entries: &[(u16, u16)], codec: Option<&str>| {
        let mut c = udp_out();
        c.pid_overrides = overrides(entries);
        c.audio_encode = codec.map(audio);
        OutputConfig::Udp(c)
    };
    assert!(validate_output(&udp(&[(1, 0x0100), (2, 0x0200)], None)).is_ok());
    assert!(validate_output(&udp(&[(4, 0x0100)], Some("aac_lc"))).is_ok());
    assert_eq!(
        output_refusal(udp(&[(1, 0x0100), (2, 0x0200)], Some("aac_lc"))),
        "Output 'u': pid_overrides for more than one program cannot be combined with audio_encode or video_encode"
    );
}

#[test]
fn wrapped_audio_has_program_one() {
    let mut c = udp_out();
    c.transport_mode = Some("audio_302m".to_string());
    c.pid_overrides = overrides(&[(1, 0x0100)]);
    assert!(validate_output(&OutputConfig::Udp(c.clone())).is_ok());
    c.pid_overrides = overrides(&[(2, 0x0100)]);
    assert_eq!(
        output_refusal(OutputConfig::Udp(c.clone())),
        "Output 'u': pid_overrides must hold exactly one entry, for program 1"
    );
    c.transport_mode = None;
    assert!(validate_output(&OutputConfig::Udp(c)).is_ok());
}

#[test]
fn an_egress_buffer_goes_with_the_servo() {
    let udp = |pacing: Option<EgressPacingMode>, ms: u32| {
        let mut c = udp_out();
        c.egress_pacing = pacing;
        c.egress_buffer_ms = Some(ms);
        OutputConfig::Udp(c)
    };
    assert!(validate_output(&udp(Some(EgressPacingMode::Servo), 20)).is_ok());
    assert!(validate_output(&udp(Some(EgressPacingMode::Servo), 2000)).is_ok());
    for pacing in [None, Some(EgressPacingMode::Forward), Some(EgressPacingMode::Pcr)] {
        assert_eq!(
            output_refusal(udp(pacing, 100)),
            "Output 'u': egress_buffer_ms requires egress_pacing 'servo'"
        );
    }
    assert_eq!(
        output_refusal(udp(Some(EgressPacingMode::Servo), 19)),
        "Output 'u': egress_buffer_ms must be 20-2000, got 19"
    );
    let mut rtp = rtp_out("r", "10.0.0.1:5004");
    rtp.egress_pacing = Some(EgressPacingMode::Servo);
    rtp.egress_buffer_ms = Some(2001);
    assert_eq!(
        output_refusal(OutputConfig::Rtp(rtp)),
        "Output 'r': egress_buffer_ms must be 20-2000, got 2001"
    );
}

#[test]
fn padding_leaves_headroom() {
    let udp = |kbps: u32| {
        let mut c = udp_out();
        let mut a = audio("aac_lc");
        a.bitrate_kbps = Some(128);
        let mut v = encode("x264");
        v.bitrate_kbps = Some(3872);
        c.audio_encode = Some(a);
        c.video_encode = Some(v);
        c.cbr_pad_to_kbps = Some(kbps);
        OutputConfig::Udp(c)
    };
    assert!(validate_output(&udp(4200)).is_ok());
    assert!(validate_output(&udp(1_000_000)).is_ok());
    assert_eq!(
        output_refusal(udp(4199)),
        "Output 'u': cbr_pad_to_kbps must be at least 5% above the encoded bitrate (4000 kbps), got 4199"
    );
    assert_eq!(
        output_refusal(udp(999)),
        "Output 'u': cbr_pad_to_kbps must be 1000-1000000, got 999"
    );
    let mut srt = srt_out();
    srt.cbr_pad_to_kbps = Some(1_000_001);
    assert_eq!(
        output_refusal(OutputConfig::Srt(srt)),
        "Output 's': cbr_pad_to_kbps must be 1000-1000000, got 1000001"
    );
}

#[test]
fn relayed_legs_are_encrypted_once() {
    let message = "relay leg 'lte' must carry exactly one encryption layer, the bond's or its own";
    let key = "0123456789abcdefABCDEF".repeat(3)[..64].to_string();
    let key = key.as_str();
    assert!(validate_input(&bonded_in(Some(key), None)).is_ok());
    assert!(validate_input(&bonded_in(None, Some(key))).is_ok());
    for (bond, leg) in [(None, None), (Some(key), Some(key))] {
        assert_eq!(input_refusal(bonded_in(bond, leg)), format!("Bonded input: {message}"));
        let output = OutputConfig::Bonded(BondedOutputConfig {
            id: "b".to_string(),
            name: "Bond".to_string(),
            active: true,
            bond_flow_id: 7,
            paths: vec![relay_leg(leg)],
            scheduler: BondSchedulerKind::RoundRobin,
            encryption_key: bond.map(|k: &str| k.to_string()),
            group: None,
            congestion: None,
            fec: None,
            redundancy: None,
            retransmit_capacity: None,
            equalization: None,
            max_bonding_latency_ms: None,
            keepalive_ms: None,
            path_mtu: None,
            program_number: None,
            pid_map: None,
            priority: None,
        });
        assert_eq!(output_refusal(output), format!("Output 'b': {message}"));
    }
}

#[test]
fn srt_callers_do_not_call_themselves() {
    assert!(validate_input(&InputConfig::Srt(srt_in())).is_ok());
    assert!(validate_output(&OutputConfig::Srt(srt_out())).is_ok());
    let mut input = srt_in();
    input.local_addr = input.remote_addr.clone();
    assert_eq!(
        input_refusal(InputConfig::Srt(input.clone())),
        "SRT input: local_addr must differ from remote_addr in caller mode"
    );
    input.mode = SrtMode::Rendezvous;
    assert!(validate_input(&InputConfig::Srt(input)).is_ok());
    let mut output = srt_out();
    output.local_addr = output.remote_addr.clone();
    assert_eq!(
        output_refusal(OutputConfig::Srt(output)),
        "Output 's': local_addr must differ from remote_addr in caller mode"
    );
}

#[test]
fn srt_sockets_are_pinned_loosely() {
    let mut input = srt_in();
    input.interface_binding = strict();
    assert_eq!(
        input_refusal(InputConfig::Srt(input.clone())),
        "SRT input: strict interface_binding is not supported on SRT"
    );
    input.interface_binding.as_mut().unwrap().strict = false;
    assert!(validate_input(&InputConfig::Srt(input.clone())).is_ok());
    input.bonding = Some(SrtBondingConfig {
        mode: SrtBondingMode::Backup,
        endpoints: vec![
            SrtBondingEndpoint {
                addr: "127.0.0.1:9001".to_string(),
                local_addr: None,
                weight: None,
                interface_binding: None,
            },
            SrtBondingEndpoint {
                addr: "127.0.0.1:9002".to_string(),
                interface_binding: strict(),
                local_addr: None,
                weight: None,
            },
        ],
    });
    assert_eq!(
        input_refusal(InputConfig::Srt(input)),
        "SRT input: strict interface_binding is not supported on SRT"
    );
}

#[test]
fn displays_are_named_by_connector() {
    for device in ["HDMI-A-1", "DP-2", "D", &"X".repeat(64)] {
        assert!(validate_output(&display(device, Some(1))).is_ok());
    }
    for device in ["", "hdmi-a-1", "1DP", "-DP", "HDMI A", &"X".repeat(65)] {
        assert_eq!(
            output_refusal(display(device, None)),
            format!("Output 'd': device '{device}' is not a display connector name")
        );
    }
    assert_eq!(
        output_refusal(display("DP-1", Some(0))),
        "Output 'd': program_number must be > 0 (0 is reserved for the NIT)"
    );
}

#[test]
fn sdi_cards_have_limits() {
    assert!(validate_input(&sdi_in("uyvy422")).is_ok());
    assert_eq!(
        input_refusal(sdi_in("v210")),
        "SDI input: pixel_format 'v210' is not supported"
    );
    assert!(validate_output(&sdi_out(-1000)).is_ok());
    assert!(validate_output(&sdi_out(1000)).is_ok());
    assert_eq!(
        output_refusal(sdi_out(-1001)),
        "Output 'c': audio_offset_ms must be -1000..=1000, got -1001"
    );
    assert_eq!(
        output_refusal(sdi_out(1001)),
        "Output 'c': audio_offset_ms must be -1000..=1000, got 1001"
    );
}

#[test]
fn nvidia_encoders_have_limits() {
    let mut enc = encode("x264");
    enc.chroma = Some("yuv444p".to_string());
    enc.bit_depth = Some(10);
    assert!(validate_video_encode(&enc, "Output").is_ok());
    enc.codec = "hevc_nvenc".to_string();
    assert_eq!(
        validate_video_encode(&enc, "Output").unwrap_err().to_string(),
        "Output: video_encode.chroma 'yuv444p' is not supported by hevc_nvenc"
    );
    enc.chroma = Some("yuv422p".to_string());
    assert!(validate_video_encode(&enc, "Output").is_ok());
    enc.codec = "h264_nvenc".to_string();
    assert_eq!(
        validate_video_encode(&enc, "Output").unwrap_err().to_string(),
        "Output: video_encode.bit_depth 10 is not supported by h264_nvenc"
    );
    enc.bit_depth = Some(8);
    assert!(validate_video_encode(&enc, "Output").is_ok());
}

#[test]
fn aes3_audio_stays_as_it_is() {
    let mut c = aes3_in();
    assert!(validate_input(&InputConfig::St2110_31(c.clone())).is_ok());
    c.audio_encode = Some(audio("s302m"));
    assert!(validate_input(&InputConfig::St2110_31(c.clone())).is_ok());
    c.audio_encode = Some(audio("aac_lc"));
    assert_eq!(
        input_refusal(InputConfig::St2110_31(c.clone())),
        "ST 2110-31 input: audio_encode.codec 'aac_lc' is not supported on AES3 audio"
    );
    c.transcode = Some(TranscodeJson {
        channels: None,
        sample_rate: None,
        bit_depth: None,
        packet_time_us: None,
        payload_type: None,
        channel_map: None,
        channel_map_preset: None,
        resolutions: Vec::new(),
    });
    assert_eq!(
        input_refusal(InputConfig::St2110_31(c.clone())),
        "ST 2110-31 input: transcode is not supported on AES3 audio"
    );
    assert!(validate_input(&InputConfig::St2110_30(c)).is_ok());
}

#[test]
fn the_sender_clock_needs_srt_or_rist() {
    let out = || OutputConfig::Rtp(rtp_out("out", "10.0.0.1:5004"));
    let mut c = one_flow(InputConfig::Srt(srt_in()), out());
    c.flows[0].master_clock = clock(MasterClockKindConfig::SenderTimestamp);
    assert!(validate_config(&c).is_ok());
    let mut c = one_flow(InputConfig::Rtp(rtp_in("127.0.0.1:5000")), out());
    assert!(validate_config(&c).is_ok());
    c.flows[0].master_clock = clock(MasterClockKindConfig::SenderTimestamp);
    assert_eq!(
        config_refusal(&c),
        "Flow 'f': master_clock 'sender_timestamp' requires SRT or RIST, but input 'in' is neither"
    );
}

#[test]
fn shared_memory_does_not_run_on_the_wallclock() {
    let mxl_in = InputConfig::MxlAnc(MxlAncInputConfig {
        mxl: mxl(),
        clock_domain: None,
    });
    let mut c = one_flow(mxl_in, OutputConfig::Rtp(rtp_out("out", "10.0.0.1:5004")));
    c.flows[0].master_clock = clock(MasterClockKindConfig::Ptp);
    assert!(validate_config(&c).is_ok());
    c.flows[0].master_clock = clock(MasterClockKindConfig::Wallclock);
    assert_eq!(
        config_refusal(&c),
        "Flow 'f': master_clock 'wallclock' cannot drive MXL input 'in'"
    );
    let mxl_out = OutputConfig::MxlAnc(MxlAncOutputConfig {
        id: "out".to_string(),
        name: "ANC".to_string(),
        active: true,
        mxl: mxl(),
        group: None,
        clock_domain: None,
    });
    let mut c = one_flow(InputConfig::Rtp(rtp_in("127.0.0.1:5000")), mxl_out);
    assert!(validate_config(&c).is_ok());
    c.flows[0].master_clock = clock(MasterClockKindConfig::Wallclock);
    assert_eq!(
        config_refusal(&c),
        "Flow 'f': master_clock 'wallclock' cannot drive MXL output 'out'"
    );
}

#[test]
fn encoded_audio_does_not_reach_pcm_outputs() {
    let mut pcm = aes3_in();
    assert!(validate_config(&one_flow(InputConfig::St2110_30(pcm.clone()), pcm_out())).is_ok());
    pcm.audio_encode = Some(audio("aac_lc"));
    let message = "Flow 'f': output 'out' needs uncompressed audio, but an input has audio_encode";
    assert_eq!(
        config_refusal(&one_flow(InputConfig::St2110_30(pcm.clone()), pcm_out())),
        message
    );
    let mut udp = udp_out();
    udp.id = "out".to_string();
    let with = |u: &UdpOutputConfig| {
        one_flow(InputConfig::St2110_30(pcm.clone()), OutputConfig::Udp(u.clone()))
    };
    assert!(validate_config(&with(&udp)).is_ok());
    udp.transport_mode = Some("audio_302m".to_string());
    assert_eq!(config_refusal(&with(&udp)), message);
}
