//! The bounds on single settings, legs and assembled streams.

use edge_config::binary::{Binary32, Binary64};
use edge_config::defaults::{default_latency, default_peer_idle_timeout};
use edge_config::models::{
    AppConfig, AssembledProgram, AssembledStream, AssemblyKind, BondCongestionConfig,
    BondFecAlgorithm, BondFecConfig, BondPathConfig, BondPathTransportConfig,
    BondRedundancyConfig, BondRedundancyMode, BondRistRole, BondSchedulerKind,
    BondedInputConfig, BondedOutputConfig, DisplayOutputConfig, DisplayScalingMode, EssenceKind,
    FlowAssembly, FlowConfig, HitlessMode, InputConfig, InputDefinition, InterfaceBinding,
    JsonLogTarget, LogFormat, LoggingConfig, MasterClockConfig, MasterClockKindConfig,
    MediaPlayerInputConfig, MediaPlayerSource, NmosRegistrationConfig, OutputConfig,
    OutputDelay, PcrSource, RecordingConfig, ResourceLimitAction, ResourceLimitConfig,
    RtpInputConfig, RtpOutputConfig, RtpOutputRedundancyConfig, SdiOutputConfig, SlotSource,
    SpliceMode, SrtBondingConfig, SrtBondingEndpoint, SrtBondingMode, SrtInputConfig, SrtMode,
    SrtRedundancyConfig, SwitchLeg, TestPatternAudioContent, TestPatternAvSyncStyle,
    TestPatternChannelIdentLayout, TestPatternInputConfig, UdpInputConfig,
};
use edge_config::validation::{validate_config, validate_flow, validate_input, validate_output};

fn rtp_in(bind: &str) -> RtpInputConfig {
    RtpInputConfig {
        bind_addr: bind.to_string(),
        external_address: None,
        interface_addr: None,
        source_addr: None,
        fec_decode: None,
        tr07_mode: None,
        allowed_sources: None,
        allowed_payload_types: None,
        max_bitrate_mbps: None,
        redundancy: None,
        audio_encode: None,
        transcode: None,
        video_encode: None,
        program_number: None,
        pid_map: None,
        pid_overrides: None,
        interface_binding: None,
        ingress_delay_ms: None,
        ingress_dejitter_ms: None,
        passthrough_clock: None,
    }
}

fn rtp_out(id: &str, dest: &str) -> RtpOutputConfig {
    RtpOutputConfig {
        active: true,
        id: id.to_string(),
        name: format!("Output {id}"),
        dest_addr: dest.to_string(),
        dscp: 46,
        group: None,
        bind_addr: None,
        interface_addr: None,
        fec_encode: None,
        redundancy: None,
        program_number: None,
        pid_map: None,
        delay: None,
        audio_encode: None,
        transcode: None,
        video_encode: None,
        pid_overrides: None,
        cbr_pad_to_kbps: None,
        interface_binding: None,
        egress_pacing: None,
        egress_buffer_ms: None,
    }
}

fn flow(id: &str, inputs: &[&str], outputs: &[&str]) -> FlowConfig {
    FlowConfig {
        id: id.to_string(),
        name: format!("Flow {id}"),
        enabled: true,
        media_analysis: true,
        thumbnail: true,
        input_ids: inputs.iter().map(|s| s.to_string()).collect(),
        output_ids: outputs.iter().map(|s| s.to_string()).collect(),
        thumbnail_program_number: None,
        thumbnail_interval_secs: None,
        bandwidth_limit: None,
        flow_group_id: None,
        clock_domain: None,
        assembly: None,
        content_analysis: None,
        recording: None,
        master_clock: None,
        bandwidth_profile: None,
    }
}

fn input_refusal(config: InputConfig) -> String {
    validate_input(&config).unwrap_err().to_string()
}

fn output_refusal(config: OutputConfig) -> String {
    validate_output(&config).unwrap_err().to_string()
}

fn flow_refusal(change: impl FnOnce(&mut FlowConfig)) -> String {
    let mut f = flow("f", &["in"], &["out"]);
    change(&mut f);
    validate_flow(&f).unwrap_err().to_string()
}

fn accepted_flow(change: impl FnOnce(&mut FlowConfig)) {
    let mut f = flow("f", &["in"], &["out"]);
    change(&mut f);
    assert!(validate_flow(&f).is_ok());
}

fn node_refusal(change: impl FnOnce(&mut AppConfig)) -> String {
    let mut c = AppConfig::default();
    change(&mut c);
    validate_config(&c).unwrap_err().to_string()
}

fn number(value: f64) -> Binary64 {
    Binary64 { bits: value.to_bits(), text: value.to_string() }
}

fn pinned(name: &str) -> Option<InterfaceBinding> {
    Some(InterfaceBinding {
        name: name.to_string(),
        strict: false,
    })
}

#[test]
fn log_files_have_a_size() {
    let target = |max_size_mb: u32, max_backups: u32| {
        Some(LoggingConfig {
            json_target: Some(JsonLogTarget::File {
                path: "/var/log/edge.json".to_string(),
                format: LogFormat::default(),
                max_size_mb,
                max_backups,
            }),
        })
    };
    for (size, backups) in [(1, 0), (4096, 100)] {
        let mut c = AppConfig::default();
        c.logging = target(size, backups);
        assert!(validate_config(&c).is_ok());
    }
    for size in [0, 4097] {
        assert_eq!(
            node_refusal(|c| c.logging = target(size, 5)),
            format!("Logging: max_size_mb must be 1-4096, got {size}")
        );
    }
    assert_eq!(
        node_refusal(|c| c.logging = target(64, 101)),
        "Logging: max_backups must be 0-100, got 101"
    );
}

#[test]
fn thresholds_are_percentages() {
    let limits = |cpu: f64, ram: f64| {
        Some(ResourceLimitConfig {
            cpu_warning_percent: number(80.0),
            cpu_critical_percent: number(cpu),
            ram_warning_percent: number(80.0),
            ram_critical_percent: number(ram),
            critical_action: ResourceLimitAction::Alarm,
            grace_period_secs: 10,
        })
    };
    for (cpu, ram) in [(0.0, 100.0), (-0.0, 99.5)] {
        let mut c = AppConfig::default();
        c.resource_limits = limits(cpu, ram);
        assert!(validate_config(&c).is_ok());
    }
    assert_eq!(
        node_refusal(|c| c.resource_limits = limits(100.5, 95.0)),
        "Resource limits: cpu_critical_percent must be 0-100, got 100.5"
    );
    assert_eq!(
        node_refusal(|c| c.resource_limits = limits(95.0, -1.0)),
        "Resource limits: ram_critical_percent must be 0-100, got -1"
    );
    node_refusal(|c| c.resource_limits = limits(f64::NAN, 95.0));
}

#[test]
fn a_clock_locks_within_bounds() {
    let clock = |timeout: u32, jitter: u32| {
        Some(MasterClockConfig {
            kind: MasterClockKindConfig::SourcePcrPll,
            lipsync_offset_90k: 0,
            pll_lock_timeout_s: Some(timeout),
            pll_lock_jitter_us: Some(jitter),
        })
    };
    for (timeout, jitter) in [(0, 50), (5, 5000), (300, 100)] {
        accepted_flow(|f| f.master_clock = clock(timeout, jitter));
    }
    for timeout in [1, 4, 301] {
        assert_eq!(
            flow_refusal(|f| f.master_clock = clock(timeout, 100)),
            format!("Flow 'f': pll_lock_timeout_s must be 5-300, got {timeout}")
        );
    }
    for jitter in [49, 5001] {
        assert_eq!(
            flow_refusal(|f| f.master_clock = clock(30, jitter)),
            format!("Flow 'f': pll_lock_jitter_us must be 50-5000, got {jitter}")
        );
    }
}

#[test]
fn recordings_have_bounds() {
    let recording = |segment: u32, pre: Option<u32>, film: Option<u32>| {
        let mut r = RecordingConfig::default();
        r.segment_seconds = segment;
        r.pre_buffer_seconds = pre;
        r.filmstrip_seconds = film;
        Some(r)
    };
    accepted_flow(|f| f.recording = recording(2, Some(1), Some(30)));
    accepted_flow(|f| f.recording = recording(60, Some(300), None));
    assert_eq!(
        flow_refusal(|f| f.recording = recording(61, None, None)),
        "Flow 'f': segment_seconds must be 2-60, got 61"
    );
    assert_eq!(
        flow_refusal(|f| f.recording = recording(10, Some(0), None)),
        "Flow 'f': pre_buffer_seconds must be 1-300, got 0"
    );
    assert_eq!(
        flow_refusal(|f| f.recording = recording(10, None, Some(31))),
        "Flow 'f': filmstrip_seconds must be 1-30, got 31"
    );
}

fn pattern() -> TestPatternInputConfig {
    TestPatternInputConfig {
        width: 1280,
        height: 720,
        fps: 25,
        video_bitrate_kbps: 2000,
        audio_enabled: true,
        tone_hz: Binary32 { bits: 1000.0f32.to_bits() },
        tone_dbfs: Binary32 { bits: (-20.0f32).to_bits() },
        av_sync_marker: false,
        audio_channels: 2,
        audio_content: TestPatternAudioContent::default(),
        av_sync_style: TestPatternAvSyncStyle::default(),
        channel_ident_layout: TestPatternChannelIdentLayout::default(),
        ts_packets_per_datagram: 7,
        audio_encode: None,
        transcode: None,
        video_encode: None,
        program_number: None,
        pid_map: None,
        pid_overrides: None,
        screen_id: None,
    }
}

#[test]
fn a_test_pattern_has_bounds() {
    let refusal = |change: fn(&mut TestPatternInputConfig)| {
        let mut c = pattern();
        change(&mut c);
        input_refusal(InputConfig::TestPattern(c))
    };
    assert!(validate_input(&InputConfig::TestPattern(pattern())).is_ok());
    let even = "Test pattern input: width and height must be divisible by 2";
    assert_eq!(refusal(|c| c.width = 1281), even);
    assert_eq!(refusal(|c| c.height = 719), even);
    assert_eq!(refusal(|c| c.fps = 61), "Test pattern input: fps must be 1-60, got 61");
    for hz in [49.0f32, 8001.0, -1000.0, f32::NAN] {
        let mut c = pattern();
        c.tone_hz = Binary32 { bits: hz.to_bits() };
        assert_eq!(
            input_refusal(InputConfig::TestPattern(c)),
            "Test pattern input: tone_hz must be 50-8000"
        );
    }
    assert_eq!(
        refusal(|c| {
            c.av_sync_marker = true;
            c.audio_enabled = false;
        }),
        "Test pattern input: av_sync_marker requires audio_enabled"
    );
    assert_eq!(
        refusal(|c| c.audio_channels = 4),
        "Test pattern input: audio_channels must be 1, 2, 6 or 8"
    );
    assert_eq!(
        refusal(|c| c.ts_packets_per_datagram = 349),
        "Test pattern input: ts_packets_per_datagram must be 1-348, got 349"
    );
}

#[test]
fn a_media_player_has_assets() {
    let player = |sources: Vec<MediaPlayerSource>, bps: Option<u64>| {
        InputConfig::MediaPlayer(MediaPlayerInputConfig {
            sources,
            loop_playback: true,
            shuffle: false,
            paced_bitrate_bps: bps,
            ts_packets_per_datagram: 7,
            audio_encode: None,
            transcode: None,
            video_encode: None,
            program_number: None,
            pid_map: None,
            pid_overrides: None,
            passthrough_clock: None,
        })
    };
    let ts = |program_number: Option<u16>| MediaPlayerSource::Ts {
        name: "a.ts".to_string(),
        program_number,
    };
    assert!(validate_input(&player(vec![ts(None), ts(Some(1))], Some(100_000))).is_ok());
    assert_eq!(
        input_refusal(player(vec![], None)),
        "Media player input: sources cannot be empty"
    );
    assert_eq!(
        input_refusal(player(vec![ts(None), ts(Some(0))], None)),
        "Media player input source: program_number must be > 0 (0 is reserved for the NIT)"
    );
    for name in ["", ".", "..", "dir/a.mp4", "/a.mp4"] {
        assert_eq!(
            input_refusal(player(vec![MediaPlayerSource::Mp4 { name: name.to_string() }], None)),
            format!("Media player input source: '{name}' is not a file name")
        );
    }
    for bps in [99_999, 200_000_001] {
        assert_eq!(
            input_refusal(player(vec![ts(None)], Some(bps))),
            format!("Media player input: paced_bitrate_bps must be 100000-200000000, got {bps}")
        );
    }
}

#[test]
fn inputs_are_delayed_by_up_to_a_second() {
    let mut c = rtp_in("0.0.0.0:5000");
    c.ingress_delay_ms = Some(1000);
    c.ingress_dejitter_ms = Some(20);
    assert!(validate_input(&InputConfig::Rtp(c.clone())).is_ok());
    c.ingress_dejitter_ms = Some(2001);
    assert_eq!(
        input_refusal(InputConfig::Rtp(c.clone())),
        "RTP input: ingress_dejitter_ms must be 20-2000, got 2001"
    );
    c.ingress_delay_ms = Some(1001);
    assert_eq!(
        input_refusal(InputConfig::Rtp(c)),
        "RTP input: ingress_delay_ms must be 0-1000, got 1001"
    );
}

#[test]
fn the_source_of_a_multicast_is_one_machine() {
    let from = |source: &str| {
        let mut c = rtp_in("239.1.1.1:5000");
        c.source_addr = Some(source.to_string());
        InputConfig::Rtp(c)
    };
    assert!(validate_input(&from("10.0.0.1")).is_ok());
    assert_eq!(input_refusal(from("239.1.1.2")), "RTP input: source_addr must be unicast");
    assert_eq!(
        input_refusal(from("fd00::1")),
        "RTP input: source_addr must be of the address family of bind_addr"
    );
    assert!(validate_input(&from("somewhere")).is_err());
}

#[test]
fn sockets_are_pinned_to_interfaces() {
    let udp = |name: &str| {
        InputConfig::Udp(UdpInputConfig {
            bind_addr: "0.0.0.0:5000".to_string(),
            interface_binding: pinned(name),
            external_address: None,
            interface_addr: None,
            source_addr: None,
            audio_encode: None,
            transcode: None,
            video_encode: None,
            program_number: None,
            pid_map: None,
            pid_overrides: None,
            ingress_delay_ms: None,
            ingress_dejitter_ms: None,
            passthrough_clock: None,
        })
    };
    for name in ["eno4", "br-0.100_x", &"e".repeat(15)] {
        assert!(validate_input(&udp(name)).is_ok());
    }
    for name in ["", "eth 0", "eth/0", &"e".repeat(16)] {
        assert_eq!(
            input_refusal(udp(name)),
            format!("UDP input: interface_binding name '{name}' is not an interface name")
        );
    }
    let mut out = rtp_out("o", "10.0.0.1:5004");
    out.redundancy = Some(RtpOutputRedundancyConfig {
        dest_addr: "10.0.0.2:5004".to_string(),
        interface_binding: pinned("a b"),
        bind_addr: None,
        interface_addr: None,
        dscp: None,
    });
    assert_eq!(
        output_refusal(OutputConfig::Rtp(out)),
        "Output 'o' redundancy: interface_binding name 'a b' is not an interface name"
    );
}

#[test]
fn srt_groups_have_two_to_eight_members() {
    let group = |n: usize| {
        let member = SrtBondingEndpoint {
            addr: "10.0.0.1:9000".to_string(),
            local_addr: None,
            weight: None,
            interface_binding: None,
        };
        InputConfig::Srt(SrtInputConfig {
            mode: SrtMode::Caller,
            remote_addr: Some("10.0.0.1:9000".to_string()),
            bonding: Some(SrtBondingConfig {
                mode: SrtBondingMode::Broadcast,
                endpoints: vec![member; n],
            }),
            local_addr: None,
            external_address: None,
            latency_ms: default_latency(),
            recv_latency_ms: None,
            peer_latency_ms: None,
            peer_idle_timeout_secs: default_peer_idle_timeout(),
            passphrase: None,
            aes_key_len: None,
            crypto_mode: None,
            max_rexmit_bw: None,
            stream_id: None,
            packet_filter: None,
            max_bw: None,
            input_bw: None,
            overhead_bw: None,
            enforced_encryption: None,
            connect_timeout_secs: None,
            flight_flag_size: None,
            send_buffer_size: None,
            recv_buffer_size: None,
            ip_tos: None,
            retransmit_algo: None,
            send_drop_delay: None,
            loss_max_ttl: None,
            km_refresh_rate: None,
            km_pre_announce: None,
            payload_size: None,
            mss: None,
            tlpkt_drop: None,
            ip_ttl: None,
            redundancy: None,
            transport_mode: None,
            audio_encode: None,
            transcode: None,
            video_encode: None,
            program_number: None,
            pid_map: None,
            pid_overrides: None,
            interface_binding: None,
            ingress_delay_ms: None,
            passthrough_clock: None,
        })
    };
    for n in [2, 8] {
        assert!(validate_input(&group(n)).is_ok());
    }
    for n in [0, 1, 9] {
        assert_eq!(
            input_refusal(group(n)),
            format!("SRT input: number of bonding endpoints must be 2-8, got {n}")
        );
    }
    if let InputConfig::Srt(mut c) = group(2) {
        c.redundancy = Some(SrtRedundancyConfig {
            mode: SrtMode::Caller,
            remote_addr: Some("10.0.0.2:9000".to_string()),
            local_addr: None,
            latency_ms: default_latency(),
            recv_latency_ms: None,
            peer_latency_ms: None,
            peer_idle_timeout_secs: default_peer_idle_timeout(),
            passphrase: None,
            aes_key_len: None,
            crypto_mode: None,
            max_rexmit_bw: None,
            stream_id: None,
            packet_filter: None,
            max_bw: None,
            input_bw: None,
            overhead_bw: None,
            enforced_encryption: None,
            connect_timeout_secs: None,
            flight_flag_size: None,
            send_buffer_size: None,
            recv_buffer_size: None,
            ip_tos: None,
            retransmit_algo: None,
            send_drop_delay: None,
            loss_max_ttl: None,
            km_refresh_rate: None,
            km_pre_announce: None,
            payload_size: None,
            mss: None,
            tlpkt_drop: None,
            ip_ttl: None,
            interface_binding: None,
        });
        assert_eq!(
            input_refusal(InputConfig::Srt(c)),
            "SRT input: bonding and redundancy are mutually exclusive"
        );
    }
}

#[test]
fn members_of_an_srt_group_have_addresses() {
    let group = |mode: SrtMode, addr: &str, local: Option<&str>| {
        let member = |addr: &str, local: Option<&str>| SrtBondingEndpoint {
            addr: addr.to_string(),
            local_addr: local.map(|l| l.to_string()),
            weight: None,
            interface_binding: None,
        };
        InputConfig::Srt(SrtInputConfig {
            mode,
            local_addr: Some("0.0.0.0:9000".to_string()),
            remote_addr: Some("10.0.0.1:9000".to_string()),
            bonding: Some(SrtBondingConfig {
                mode: SrtBondingMode::Broadcast,
                endpoints: vec![member("10.0.0.1:9001", None), member(addr, local)],
            }),
            external_address: None,
            latency_ms: default_latency(),
            recv_latency_ms: None,
            peer_latency_ms: None,
            peer_idle_timeout_secs: default_peer_idle_timeout(),
            passphrase: None,
            aes_key_len: None,
            crypto_mode: None,
            max_rexmit_bw: None,
            stream_id: None,
            packet_filter: None,
            max_bw: None,
            input_bw: None,
            overhead_bw: None,
            enforced_encryption: None,
            connect_timeout_secs: None,
            flight_flag_size: None,
            send_buffer_size: None,
            recv_buffer_size: None,
            ip_tos: None,
            retransmit_algo: None,
            send_drop_delay: None,
            loss_max_ttl: None,
            km_refresh_rate: None,
            km_pre_announce: None,
            payload_size: None,
            mss: None,
            tlpkt_drop: None,
            ip_ttl: None,
            redundancy: None,
            transport_mode: None,
            audio_encode: None,
            transcode: None,
            video_encode: None,
            program_number: None,
            pid_map: None,
            pid_overrides: None,
            interface_binding: None,
            ingress_delay_ms: None,
            passthrough_clock: None,
        })
    };
    assert!(validate_input(&group(SrtMode::Caller, "10.0.0.2:9000", Some("0.0.0.0:0"))).is_ok());
    for mode in [SrtMode::Caller, SrtMode::Listener] {
        assert_eq!(
            input_refusal(group(mode, "", None)),
            "SRT input bonding endpoint addr: invalid socket address '': invalid socket address syntax"
        );
    }
    assert_eq!(
        input_refusal(group(SrtMode::Caller, "10.0.0.2:9000", Some("eth0"))),
        "SRT input bonding endpoint local_addr: invalid socket address 'eth0': invalid socket address syntax"
    );
    assert!(validate_input(&group(SrtMode::Listener, "0.0.0.0:9001", Some("eth0"))).is_ok());
}

#[test]
fn outputs_are_delayed_within_bounds() {
    let delayed = |delay: OutputDelay| {
        let mut c = rtp_out("o", "10.0.0.1:5004");
        c.delay = Some(delay);
        OutputConfig::Rtp(c)
    };
    let frames = |n: f64| OutputDelay::TargetFrames { frames: number(n), fallback_ms: None };
    for delay in [
        OutputDelay::Fixed { ms: 0 },
        OutputDelay::TargetMs { ms: 10_000 },
        frames(0.01),
        frames(300.0),
    ] {
        assert!(validate_output(&delayed(delay)).is_ok());
    }
    assert_eq!(
        output_refusal(delayed(OutputDelay::Fixed { ms: 10_001 })),
        "Output 'o': delay ms must be 0-10000, got 10001"
    );
    assert_eq!(
        output_refusal(delayed(OutputDelay::TargetMs { ms: 0 })),
        "Output 'o': delay ms must be 1-10000, got 0"
    );
    for n in [0.0, 0.009, 300.5] {
        assert_eq!(
            output_refusal(delayed(frames(n))),
            format!("Output 'o': delay frames must be 0.01-300.0, got {n}")
        );
    }
}

#[test]
fn displays_play_two_channels() {
    let display = |track: Option<u8>, pair: [u8; 2]| {
        OutputConfig::Display(DisplayOutputConfig {
            id: "d".to_string(),
            name: "Display".to_string(),
            active: true,
            device: "DP-1".to_string(),
            audio_track_index: track,
            audio_channel_pair: pair,
            sync_mode: "genlock".to_string(),
            group: None,
            audio_device: None,
            program_number: None,
            scaling_mode: DisplayScalingMode::default(),
            resolution: None,
            refresh_hz: None,
            show_audio_bars: false,
            hw_decode: None,
        })
    };
    assert!(validate_output(&display(Some(15), [7, 0])).is_ok());
    assert_eq!(
        output_refusal(display(Some(16), [0, 1])),
        "Output 'd': audio_track_index must be 0-15, got 16"
    );
    for pair in [[0, 0], [8, 1], [0, 8]] {
        assert_eq!(
            output_refusal(display(None, pair)),
            "Output 'd': audio_channel_pair must be two different channels below 8"
        );
    }
}

#[test]
fn cards_play_whole_groups_of_channels() {
    let card = |mode: &str, audio_channels: u8| {
        OutputConfig::Sdi(SdiOutputConfig {
            id: "c".to_string(),
            name: "Card".to_string(),
            active: true,
            device: "DeckLink Quad (1)".to_string(),
            mode: mode.to_string(),
            pixel_format: "uyvy422".to_string(),
            audio_channels,
            audio_offset_ms: 0,
            group: None,
            program_number: None,
            scte35_injection: false,
        })
    };
    for channels in [0, 2, 8, 16] {
        assert!(validate_output(&card("Hi50", channels)).is_ok());
    }
    assert_eq!(
        output_refusal(card("Hi50", 4)),
        "Output 'c': audio_channels must be 0, 2, 8 or 16, got 4"
    );
    assert_eq!(output_refusal(card("", 2)), "Output 'c': mode cannot be empty");
}

fn leg(id: u8, transport: BondPathTransportConfig) -> BondPathConfig {
    BondPathConfig {
        id,
        name: format!("leg{id}"),
        weight_hint: 1,
        transport,
        max_bitrate_bps: None,
        fec: None,
    }
}

fn udp_leg(bind: Option<&str>, remote: Option<&str>) -> BondPathTransportConfig {
    BondPathTransportConfig::Udp {
        bind: bind.map(|a| a.to_string()),
        remote: remote.map(|a| a.to_string()),
        interface: None,
        gateway: None,
        source: None,
    }
}

fn bonded_in(paths: Vec<BondPathConfig>) -> BondedInputConfig {
    BondedInputConfig {
        bond_flow_id: 7,
        paths,
        hold_ms: None,
        hold_max_ms: None,
        nack_delay_ms: None,
        max_nack_retries: None,
        keepalive_ms: None,
        encryption_key: None,
        fec: None,
        ingress_dejitter_ms: None,
        equalization: None,
        max_bonding_latency_ms: None,
    }
}

fn bonded_out(paths: Vec<BondPathConfig>) -> BondedOutputConfig {
    BondedOutputConfig {
        id: "b".to_string(),
        name: "Bond".to_string(),
        active: true,
        bond_flow_id: 7,
        paths,
        scheduler: BondSchedulerKind::RoundRobin,
        group: None,
        congestion: None,
        fec: None,
        redundancy: None,
        encryption_key: None,
        retransmit_capacity: None,
        equalization: None,
        max_bonding_latency_ms: None,
        keepalive_ms: None,
        path_mtu: None,
        program_number: None,
        pid_map: None,
        priority: None,
    }
}

#[test]
fn legs_know_where_to_receive_and_send() {
    let receiver = || udp_leg(Some("0.0.0.0:7000"), None);
    let sender = || udp_leg(None, Some("10.0.0.1:7000"));
    assert!(validate_input(&InputConfig::Bonded(bonded_in(vec![leg(1, receiver())]))).is_ok());
    assert!(validate_output(&OutputConfig::Bonded(bonded_out(vec![leg(1, sender())]))).is_ok());
    assert_eq!(
        input_refusal(InputConfig::Bonded(bonded_in(vec![leg(1, sender())]))),
        "Bonded input leg 'leg1' requires bind"
    );
    assert_eq!(
        output_refusal(OutputConfig::Bonded(bonded_out(vec![leg(1, receiver())]))),
        "Output 'b' leg 'leg1' requires remote"
    );
    let rist = BondPathTransportConfig::Rist {
        role: BondRistRole::Receiver,
        remote: None,
        local_bind: None,
        buffer_ms: None,
    };
    assert_eq!(
        input_refusal(InputConfig::Bonded(bonded_in(vec![leg(1, rist)]))),
        "Bonded input leg 'leg1' requires local_bind"
    );
}

#[test]
fn gateways_need_a_source() {
    let routed = |interface: Option<&str>, source: Option<&str>| {
        OutputConfig::Bonded(bonded_out(vec![leg(
            1,
            BondPathTransportConfig::Udp {
                bind: None,
                remote: Some("10.0.0.1:7000".to_string()),
                interface: interface.map(|i| i.to_string()),
                gateway: Some("192.168.10.1".to_string()),
                source: source.map(|s| s.to_string()),
            },
        )]))
    };
    assert!(validate_output(&routed(None, Some("192.168.10.2/24"))).is_ok());
    assert_eq!(
        output_refusal(routed(None, None)),
        "Output 'b' leg 'leg1': gateway requires source"
    );
    assert_eq!(
        output_refusal(routed(Some("eno4"), Some("192.168.10.2/24"))),
        "Output 'b' leg 'leg1': gateway and interface are mutually exclusive"
    );
}

#[test]
fn legs_and_keys_of_a_bond_are_checked() {
    let receiver = |id: u8| leg(id, udp_leg(Some("0.0.0.0:7000"), None));
    assert_eq!(
        input_refusal(InputConfig::Bonded(bonded_in(vec![receiver(1), receiver(2), receiver(1)]))),
        "Bonded input: duplicate path id 1"
    );
    let mut c = bonded_in(vec![receiver(1)]);
    c.encryption_key = Some("0".repeat(64));
    assert!(validate_input(&InputConfig::Bonded(c.clone())).is_ok());
    for key in ["0".repeat(63), "g".repeat(64)] {
        c.encryption_key = Some(key);
        assert_eq!(
            input_refusal(InputConfig::Bonded(c.clone())),
            "Bonded input: encryption_key must be exactly 64 hex characters (32 bytes)"
        );
    }
    let fec = |algorithm: Option<BondFecAlgorithm>| {
        Some(BondFecConfig {
            columns: 5,
            rows: 5,
            algorithm,
            parity_max: None,
        })
    };
    let mut c = bonded_in(vec![receiver(1)]);
    c.fec = fec(None);
    assert!(validate_input(&InputConfig::Bonded(c.clone())).is_ok());
    c.paths[0].fec = fec(Some(BondFecAlgorithm::ReedSolomon));
    assert_eq!(
        input_refusal(InputConfig::Bonded(c.clone())),
        "Bonded input leg 'leg1': fec of the leg and of the bond are mutually exclusive"
    );
    c.fec = None;
    assert!(validate_input(&InputConfig::Bonded(c.clone())).is_ok());
    c.paths[0].fec = None;
    c.fec = fec(Some(BondFecAlgorithm::ReedSolomon));
    assert_eq!(
        input_refusal(InputConfig::Bonded(c)),
        "Bonded input: reed_solomon fec is per leg only"
    );
}

#[test]
fn relays_are_named_and_keyed() {
    let relay = |addrs: &[&str], secret: Option<String>, gateway: Option<&str>| {
        OutputConfig::Bonded(bonded_out(vec![leg(
            1,
            BondPathTransportConfig::Relay {
                tunnel_id: "t".to_string(),
                relay_addrs: addrs.iter().map(|a| a.to_string()).collect(),
                tunnel_bind_secret: secret,
                tunnel_encryption_key: Some("a".repeat(64)),
                interface: None,
                source: Some("192.168.10.2".to_string()),
                gateway: gateway.map(|g| g.to_string()),
            },
        )]))
    };
    assert!(validate_output(&relay(&["relay:4000"], Some("b".repeat(64)), None)).is_ok());
    assert_eq!(
        output_refusal(relay(&[], None, None)),
        "Output 'b' leg 'leg1' requires at least one relay address"
    );
    assert_eq!(
        output_refusal(relay(&["relay:4000"], Some("b".to_string()), None)),
        "Output 'b' leg 'leg1': tunnel_bind_secret must be exactly 64 hex characters (32 bytes)"
    );
    assert_eq!(
        output_refusal(relay(&["relay:4000"], None, Some("192.168.10.1"))),
        "Output 'b' leg 'leg1': gateway requires source and interface"
    );
}

#[test]
fn bonds_share_traffic_within_bounds() {
    let bond = || bonded_out(vec![leg(1, udp_leg(None, Some("10.0.0.1:7000")))]);
    let congestion = |mult: f64, window: u64, jitter: u32| {
        Some(BondCongestionConfig {
            probe_cap_mult: Some(number(mult)),
            rtt_min_window_ms: Some(window),
            jitter_demote_ms: Some(jitter),
            min_rate_kbps: None,
            start_rate_kbps: None,
            loss_low_pct: None,
            loss_high_pct: None,
            delay_inflation_ms: None,
            delay_inflation_auto: None,
            burst_ms: None,
        })
    };
    let refusal = |c: BondedOutputConfig| output_refusal(OutputConfig::Bonded(c));
    let mut c = bond();
    c.congestion = congestion(1.1, 1000, 0);
    c.path_mtu = Some(576);
    assert!(validate_output(&OutputConfig::Bonded(c.clone())).is_ok());
    c.congestion = congestion(10.0, 120_000, 5000);
    c.path_mtu = Some(9000);
    assert!(validate_output(&OutputConfig::Bonded(c.clone())).is_ok());
    c.path_mtu = Some(575);
    assert_eq!(refusal(c.clone()), "Output 'b': path_mtu must be 576-9000, got 575");
    c.congestion = congestion(1.0, 1000, 0);
    assert_eq!(refusal(c.clone()), "Output 'b': probe_cap_mult must be 1.1-10.0, got 1");
    c.congestion = congestion(2.0, 999, 0);
    assert_eq!(refusal(c.clone()), "Output 'b': rtt_min_window_ms must be 1000-120000, got 999");
    c.congestion = congestion(2.0, 1000, 5001);
    assert_eq!(refusal(c), "Output 'b': jitter_demote_ms must be 0-5000, got 5001");
    let mut c = bond();
    c.redundancy = Some(BondRedundancyConfig {
        mode: BondRedundancyMode::default(),
        replicas: Some(9),
        min_priority: None,
    });
    assert_eq!(refusal(c), "Output 'b': replicas must be 2-8, got 9");
}

fn stream(out_pid: u16, source: SlotSource) -> AssembledStream {
    AssembledStream {
        source,
        out_pid,
        stream_type: 0x1B,
        label: None,
    }
}

fn picked() -> SlotSource {
    SlotSource::Pid { input_id: "in".to_string(), source_pid: 256 }
}

fn program(number: u16, pmt_pid: u16, streams: Vec<AssembledStream>) -> AssembledProgram {
    AssembledProgram {
        program_number: number,
        pmt_pid,
        streams,
        service_name: None,
        pcr_source: None,
    }
}

fn assembled(kind: AssemblyKind, programs: Vec<AssembledProgram>) -> Option<FlowAssembly> {
    Some(FlowAssembly {
        kind,
        programs,
        pcr_source: Some(PcrSource {
            input_id: "in".to_string(),
            pid: 256,
        }),
    })
}

#[test]
fn assembled_programs_are_distinct() {
    let one = |number: u16, pmt: u16| program(number, pmt, vec![stream(0x100, picked())]);
    accepted_flow(|f| f.assembly = assembled(AssemblyKind::Spts, vec![one(1, 0x1000)]));
    accepted_flow(|f| {
        f.assembly = assembled(AssemblyKind::Mpts, vec![one(1, 0x1000), one(2, 0x1001)])
    });
    accepted_flow(|f| f.assembly = assembled(AssemblyKind::Passthrough, vec![]));
    assert_eq!(
        flow_refusal(|f| {
            f.assembly = assembled(AssemblyKind::Spts, vec![one(1, 0x1000), one(2, 0x1001)])
        }),
        "Flow 'f': an spts assembly must have exactly one program"
    );
    assert_eq!(
        flow_refusal(|f| f.assembly = assembled(AssemblyKind::Mpts, vec![])),
        "Flow 'f': an mpts assembly must have at least one program"
    );
    assert_eq!(
        flow_refusal(|f| {
            f.assembly = assembled(AssemblyKind::Passthrough, vec![one(1, 0x1000), one(2, 0x1001)])
        }),
        "Flow 'f': a passthrough assembly must have at most one program"
    );
    assert_eq!(
        flow_refusal(|f| f.assembly = assembled(AssemblyKind::Spts, vec![one(0, 0x1000)])),
        "Flow 'f': assembled program_number must be > 0"
    );
    assert_eq!(
        flow_refusal(|f| {
            f.assembly = assembled(AssemblyKind::Mpts, vec![one(1, 0x1000), one(1, 0x1001)])
        }),
        "Flow 'f' program 1: duplicate program_number"
    );
    assert_eq!(
        flow_refusal(|f| {
            f.assembly = assembled(AssemblyKind::Mpts, vec![one(1, 0x1000), one(2, 0x1000)])
        }),
        "Flow 'f' program 2: duplicate pmt_pid 4096"
    );
}

#[test]
fn assembled_streams_are_distinct() {
    let streams = |pids: &[u16]| {
        let streams = pids.iter().map(|p| stream(*p, picked())).collect();
        assembled(AssemblyKind::Spts, vec![program(1, 0x1000, streams)])
    };
    accepted_flow(|f| f.assembly = streams(&[0x0010, 0x1FFE]));
    assert_eq!(
        flow_refusal(|f| f.assembly = streams(&[0x100, 0x101, 0x100])),
        "Flow 'f' program 1: duplicate out_pid 256"
    );
    for pid in [0x000F, 0x1FFF] {
        assert_eq!(
            flow_refusal(|f| f.assembly = streams(&[pid])),
            "Flow 'f' program 1: out_pid must be 0x0010-0x1FFE"
        );
    }
}

#[test]
fn a_program_has_a_clock_reference() {
    let referred = |own: Option<&str>, shared: Option<&str>| {
        let source = |id: &str| PcrSource { input_id: id.to_string(), pid: 256,
};
        let mut p = program(1, 0x1000, vec![]);
        p.pcr_source = own.map(source);
        Some(FlowAssembly {
            kind: AssemblyKind::Spts,
            programs: vec![p],
            pcr_source: shared.map(source),
        })
    };
    accepted_flow(|f| f.assembly = referred(Some("in"), None));
    accepted_flow(|f| f.assembly = referred(Some("in"), Some("elsewhere")));
    accepted_flow(|f| f.assembly = referred(None, Some("in")));
    assert_eq!(
        flow_refusal(|f| f.assembly = referred(None, None)),
        "Flow 'f' program 1: pcr_source is required"
    );
    assert_eq!(
        flow_refusal(|f| f.assembly = referred(None, Some("elsewhere"))),
        "Flow 'f' program 1: pcr_source input 'elsewhere' is not an input of the flow"
    );
}

#[test]
fn streams_are_switched_within_bounds() {
    let switch = |legs: usize, initial: &str, splice_mode: SpliceMode, budget: u32| {
        let leg = SwitchLeg::Pid { input_id: "in".to_string(), source_pid: 256 };
        let source = SlotSource::Switch {
            legs: vec![leg; legs],
            initial_input_id: initial.to_string(),
            splice_mode,
            splice_budget_ms: Some(budget),
        };
        assembled(AssemblyKind::Spts, vec![program(1, 0x1000, vec![stream(0x100, source)])])
    };
    accepted_flow(|f| f.assembly = switch(64, "in", SpliceMode::PesAligned, 20));
    accepted_flow(|f| f.assembly = switch(1, "in", SpliceMode::PmtBump, 0));
    for legs in [0, 65] {
        assert_eq!(
            flow_refusal(|f| f.assembly = switch(legs, "in", SpliceMode::PmtBump, 200)),
            format!("Flow 'f' program 1: number of switch legs must be 1-64, got {legs}")
        );
    }
    assert_eq!(
        flow_refusal(|f| f.assembly = switch(2, "other", SpliceMode::PmtBump, 200)),
        "Flow 'f' program 1: initial_input_id 'other' is not the input of a switch leg"
    );
    assert_eq!(
        flow_refusal(|f| f.assembly = switch(2, "in", SpliceMode::PesAligned, 5001)),
        "Flow 'f' program 1: splice_budget_ms must be 20-5000, got 5001"
    );
}

#[test]
fn hitless_pairs_have_the_settings_of_their_mode() {
    let pair = |mode: HitlessMode, stall: u64, window: u16, differential: u32| {
        let source = SlotSource::Hitless {
            primary: Box::new(picked()),
            backup: Box::new(picked()),
            mode,
            stall_ms: Some(stall),
            reorder_window: Some(window),
            path_differential_ms: Some(differential),
        };
        assembled(AssemblyKind::Spts, vec![program(1, 0x1000, vec![stream(0x100, source)])])
    };
    accepted_flow(|f| f.assembly = pair(HitlessMode::PrimaryPreference, 20, 1, 1));
    accepted_flow(|f| f.assembly = pair(HitlessMode::SeqAware, 1, 4096, 2000));
    assert_eq!(
        flow_refusal(|f| f.assembly = pair(HitlessMode::PrimaryPreference, 19, 1024, 50)),
        "Flow 'f' program 1: stall_ms must be 20-5000, got 19"
    );
    for window in [0, 63, 100, 4160] {
        assert_eq!(
            flow_refusal(|f| f.assembly = pair(HitlessMode::SeqAware, 200, window, 50)),
            "Flow 'f' program 1: reorder_window must be a multiple of 64 in 64-4096"
        );
    }
    assert_eq!(
        flow_refusal(|f| f.assembly = pair(HitlessMode::SeqAware, 200, 1024, 4)),
        "Flow 'f' program 1: path_differential_ms must be 5-2000, got 4"
    );
}

#[test]
fn pairs_are_merged_by_the_sequence_numbers_of_their_inputs() {
    let config = |mode: HitlessMode, backup: InputConfig| {
        let mut c = AppConfig::default();
        let define = |id: &str, config: InputConfig| InputDefinition {
            active: id == "in",
            id: id.to_string(),
            name: id.to_string(),
            config,
            group: None,
        };
        c.inputs.push(define("in", InputConfig::Rtp(rtp_in("0.0.0.0:5000"))));
        c.inputs.push(define("backup", backup));
        c.outputs.push(OutputConfig::Rtp(rtp_out("out", "10.0.0.1:5004")));
        let source = SlotSource::Hitless {
            primary: Box::new(picked()),
            backup: Box::new(SlotSource::Essence {
                input_id: "backup".to_string(),
                kind: EssenceKind::Video,
            }),
            mode,
            stall_ms: None,
            reorder_window: None,
            path_differential_ms: None,
        };
        let mut f = flow("f", &["in", "backup"], &["out"]);
        f.assembly =
            assembled(AssemblyKind::Spts, vec![program(1, 0x1000, vec![stream(0x100, source)])]);
        c.flows.push(f);
        c
    };
    let udp = || {
        InputConfig::Udp(UdpInputConfig {
            bind_addr: "0.0.0.0:5002".to_string(),
            external_address: None,
            interface_addr: None,
            source_addr: None,
            audio_encode: None,
            transcode: None,
            video_encode: None,
            program_number: None,
            pid_map: None,
            pid_overrides: None,
            interface_binding: None,
            ingress_delay_ms: None,
            ingress_dejitter_ms: None,
            passthrough_clock: None,
        })
    };
    let rtp = InputConfig::Rtp(rtp_in("0.0.0.0:5002"));
    assert!(validate_config(&config(HitlessMode::SeqAware, rtp)).is_ok());
    assert!(validate_config(&config(HitlessMode::PrimaryPreference, udp())).is_ok());
    assert_eq!(
        validate_config(&config(HitlessMode::SeqAware, udp())).unwrap_err().to_string(),
        "Flow 'f': input 'backup' carries no sequence numbers for a seq_aware hitless source"
    );
}

#[test]
fn nodes_register_by_one_version() {
    let registered = |enabled: bool, version: &str| {
        Some(NmosRegistrationConfig {
            enabled,
            registry_url: "http://registry:8235".to_string(),
            api_version: version.to_string(),
            heartbeat_interval_secs: 5,
            request_timeout_secs: 10,
            bearer_token: None,
        })
    };
    for (enabled, version) in [(true, "v1.3"), (false, "v1.2")] {
        let mut c = AppConfig::default();
        c.nmos_registration = registered(enabled, version);
        assert!(validate_config(&c).is_ok());
    }
    assert_eq!(
        node_refusal(|c| c.nmos_registration = registered(true, "v1.2")),
        "NMOS registration: api_version must be 'v1.3', got 'v1.2'"
    );
}
