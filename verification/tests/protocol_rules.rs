//! What inputs, outputs, encoding blocks and tunnels are refused for.

use edge_config::audio_transcode::{BitDepth, InputFormat, TranscodeJson, TranscodeResolution};
use edge_config::binary::Binary64;
use edge_config::defaults::{default_max_publishers, default_rtsp_timeout, default_true_opt};
use edge_config::models::{
    AudioEncodeConfig, FecConfig, HlsOutputConfig, InputConfig, OutputConfig, OutputDelay,
    RedBlueBindConfig, RistInputConfig, RistInputRedundancyConfig, RistOutputConfig,
    RistOutputRedundancyConfig, RtmpInputConfig, RtmpOutputConfig, RtpInputConfig,
    RtpOutputConfig, RtpOutputRedundancyConfig, RtpRedundancyConfig, RtspInputConfig,
    RtspTransport, SrtInputConfig, SrtMode, SrtOutputConfig, SrtRedundancyConfig,
    St2110VideoInputConfig, St2110VideoPixelFormat, UdpInputConfig, UdpOutputConfig,
    VideoEncodeConfig, WebrtcInputConfig, WebrtcOutputConfig, WebrtcOutputMode, WhepInputConfig,
};
use edge_config::srt_filter::{FilterMatrix, FilterParse, PacketFilter};
use edge_config::tunnel::{TunnelConfig, TunnelDirection, TunnelMode, TunnelProtocol};
use edge_config::validation::{
    validate_audio_encode, validate_input, validate_output, validate_transcode_block,
    validate_tunnel, validate_video_encode,
};
use std::collections::BTreeMap;

fn rtp_in(bind: &str) -> RtpInputConfig {
    RtpInputConfig {
        bind_addr: bind.to_string(),
        external_address: None,
        interface_addr: None,
        source_addr: None,
        fec_decode: None,
        tr07_mode: None,
        allowed_sources: None,
        allowed_payload_types: None,
        max_bitrate_mbps: None,
        redundancy: None,
        audio_encode: None,
        transcode: None,
        video_encode: None,
        program_number: None,
        pid_map: None,
        pid_overrides: None,
        interface_binding: None,
        ingress_delay_ms: None,
        ingress_dejitter_ms: None,
        passthrough_clock: None,
    }
}

fn rtp_out(id: &str, dest: &str) -> RtpOutputConfig {
    RtpOutputConfig {
        active: true,
        id: id.to_string(),
        name: format!("Output {id}"),
        dest_addr: dest.to_string(),
        dscp: 46,
        group: None,
        bind_addr: None,
        interface_addr: None,
        fec_encode: None,
        redundancy: None,
        program_number: None,
        pid_map: None,
        delay: None,
        audio_encode: None,
        transcode: None,
        video_encode: None,
        pid_overrides: None,
        cbr_pad_to_kbps: None,
        interface_binding: None,
        egress_pacing: None,
        egress_buffer_ms: None,
    }
}

fn input_refusal(config: InputConfig) -> String {
    validate_input(&config).unwrap_err().to_string()
}

fn output_refusal(config: OutputConfig) -> String {
    validate_output(&config).unwrap_err().to_string()
}

fn number(n: f64) -> Option<Binary64> {
    Some(Binary64::new(n.to_bits(), &n.to_string()))
}

fn audio_encode(codec: &str) -> AudioEncodeConfig {
    AudioEncodeConfig {
        codec: codec.to_string(),
        source_audio_pid: None,
        bitrate_kbps: None,
        sample_rate: None,
        channels: None,
        silent_fallback: false,
        opus_vbr_mode: None,
        opus_fec: false,
        opus_dtx: false,
        opus_frame_duration_ms: None,
    }
}

fn video_encode(codec: &str) -> VideoEncodeConfig {
    VideoEncodeConfig {
        codec: codec.to_string(),
        source_video_pid: None,
        width: None,
        height: None,
        fps_num: None,
        fps_den: None,
        bitrate_kbps: None,
        gop_size: None,
        preset: None,
        profile: None,
        chroma: None,
        bit_depth: None,
        rate_control: None,
        crf: None,
        max_bitrate_kbps: None,
        bframes: None,
        refs: None,
        level: None,
        tune: None,
        color_primaries: None,
        color_transfer: None,
        color_matrix: None,
        color_range: None,
        hw_decode: None,
    }
}

#[test]
fn rtp_inputs() {
    let refusal = |change: fn(&mut RtpInputConfig)| {
        let mut rtp = rtp_in("0.0.0.0:5000");
        change(&mut rtp);
        input_refusal(InputConfig::Rtp(rtp))
    };
    assert!(validate_input(&InputConfig::Rtp(rtp_in("0.0.0.0:5000"))).is_ok());
    assert_eq!(
        refusal(|r| r.bind_addr = "5000".to_string()),
        "RTP input bind_addr: invalid socket address '5000': invalid socket address syntax"
    );
    assert_eq!(
        refusal(|r| r.interface_addr = Some("eth0".to_string())),
        "RTP input interface_addr: invalid IP address 'eth0': invalid IP address syntax"
    );
    assert_eq!(
        refusal(|r| r.fec_decode = Some(FecConfig { columns: 21, rows: 5 })),
        "FEC columns must be 1-20, got 21"
    );
    assert_eq!(
        refusal(|r| r.fec_decode = Some(FecConfig { columns: 5, rows: 3 })),
        "FEC rows must be 4-20, got 3"
    );
    assert_eq!(
        refusal(|r| r.interface_addr = Some("::1".to_string())),
        "RTP input: bind_addr '0.0.0.0:5000' and interface_addr '::1' must use the same address family (both IPv4 or both IPv6)"
    );
    assert_eq!(
        refusal(|r| r.allowed_sources = Some(vec!["10.0.0.1".to_string(), "x".to_string()])),
        "RTP input allowed_sources: invalid IP address 'x': invalid IP address syntax"
    );
    assert_eq!(
        refusal(|r| r.allowed_payload_types = Some(vec![33, 128])),
        "RTP input allowed_payload_types: PT must be 0-127, got 128"
    );
    assert_eq!(
        refusal(|r| r.max_bitrate_mbps = number(0.0)),
        "RTP input max_bitrate_mbps must be positive, got 0"
    );
    assert_eq!(
        refusal(|r| r.max_bitrate_mbps = number(10_001.25)),
        "RTP input max_bitrate_mbps must be at most 10000 (10 Gbps), got 10001.25"
    );
    assert_eq!(
        refusal(|r| {
            r.redundancy = Some(RtpRedundancyConfig {
                bind_addr: "[::]:5002".to_string(),
                interface_addr: None,
                source_addr: None,
                path_differential_ms: None,
                interface_binding: None,
            })
        }),
        "RTP input redundancy: leg 1 (0.0.0.0:5000) and leg 2 ([::]:5002) must use the same address family"
    );
    assert_eq!(
        refusal(|r| {
            r.redundancy = Some(RtpRedundancyConfig {
                bind_addr: "0.0.0.0:5002".to_string(),
                interface_addr: Some("::1".to_string()),
                source_addr: None,
                path_differential_ms: None,
                interface_binding: None,
            })
        }),
        "RTP input redundancy: bind_addr and interface_addr must use the same address family"
    );
}

#[test]
fn udp_inputs() {
    let udp = |bind: &str, iface: &str| {
        InputConfig::Udp(UdpInputConfig {
            bind_addr: bind.to_string(),
            interface_addr: Some(iface.to_string()),
            external_address: None,
            source_addr: None,
            audio_encode: None,
            transcode: None,
            video_encode: None,
            program_number: None,
            pid_map: None,
            pid_overrides: None,
            interface_binding: None,
            ingress_delay_ms: None,
            ingress_dejitter_ms: None,
            passthrough_clock: None,
        })
    };
    assert!(validate_input(&udp("[ff02::1]:5000", "::1")).is_ok());
    assert_eq!(
        input_refusal(udp("0.0.0.0:5000", "x")),
        "UDP input interface_addr: invalid IP address 'x': invalid IP address syntax"
    );
    assert_eq!(
        input_refusal(udp("[::]:5000", "10.0.0.1")),
        "UDP input: bind_addr '[::]:5000' and interface_addr '10.0.0.1' must use the same address family"
    );
}

fn srt_in() -> SrtInputConfig {
    SrtInputConfig {
        mode: SrtMode::Listener,
        local_addr: Some("0.0.0.0:9000".to_string()),
        latency_ms: 120,
        peer_idle_timeout_secs: 30,
        external_address: None,
        remote_addr: None,
        recv_latency_ms: None,
        peer_latency_ms: None,
        passphrase: None,
        aes_key_len: None,
        crypto_mode: None,
        max_rexmit_bw: None,
        stream_id: None,
        packet_filter: None,
        max_bw: None,
        input_bw: None,
        overhead_bw: None,
        enforced_encryption: None,
        connect_timeout_secs: None,
        flight_flag_size: None,
        send_buffer_size: None,
        recv_buffer_size: None,
        ip_tos: None,
        retransmit_algo: None,
        send_drop_delay: None,
        loss_max_ttl: None,
        km_refresh_rate: None,
        km_pre_announce: None,
        payload_size: None,
        mss: None,
        tlpkt_drop: None,
        ip_ttl: None,
        redundancy: None,
        bonding: None,
        transport_mode: None,
        audio_encode: None,
        transcode: None,
        video_encode: None,
        program_number: None,
        pid_map: None,
        pid_overrides: None,
        interface_binding: None,
        ingress_delay_ms: None,
        passthrough_clock: None,
    }
}

fn srt_leg(mode: SrtMode) -> SrtRedundancyConfig {
    SrtRedundancyConfig {
        mode,
        latency_ms: 120,
        peer_idle_timeout_secs: 30,
        local_addr: None,
        remote_addr: None,
        recv_latency_ms: None,
        peer_latency_ms: None,
        passphrase: None,
        aes_key_len: None,
        crypto_mode: None,
        max_rexmit_bw: None,
        stream_id: None,
        packet_filter: None,
        max_bw: None,
        input_bw: None,
        overhead_bw: None,
        enforced_encryption: None,
        connect_timeout_secs: None,
        flight_flag_size: None,
        send_buffer_size: None,
        recv_buffer_size: None,
        ip_tos: None,
        retransmit_algo: None,
        send_drop_delay: None,
        loss_max_ttl: None,
        km_refresh_rate: None,
        km_pre_announce: None,
        payload_size: None,
        mss: None,
        tlpkt_drop: None,
        ip_ttl: None,
        interface_binding: None,
    }
}

fn filter(text: &str, parsed: FilterParse) -> Option<PacketFilter> {
    Some(PacketFilter { spec_text: text.to_string(), parsed })
}

#[test]
fn srt_inputs() {
    let refusal = |change: fn(&mut SrtInputConfig)| {
        let mut srt = srt_in();
        change(&mut srt);
        input_refusal(InputConfig::Srt(srt))
    };
    assert!(validate_input(&InputConfig::Srt(srt_in())).is_ok());
    assert_eq!(
        refusal(|s| s.local_addr = None),
        "SRT input local_addr is required for Listener mode"
    );
    assert_eq!(
        refusal(|s| {
            s.mode = SrtMode::Rendezvous;
            s.local_addr = None;
        }),
        "SRT input local_addr is required for Rendezvous mode"
    );
    assert_eq!(
        refusal(|s| {
            s.mode = SrtMode::Caller;
            s.local_addr = None;
        }),
        "SRT input: remote_addr is required for caller/rendezvous mode"
    );
    assert_eq!(
        refusal(|s| {
            s.mode = SrtMode::Caller;
            s.remote_addr = Some("host:9000".to_string());
        }),
        "SRT input remote_addr: invalid socket address 'host:9000': invalid socket address syntax"
    );
    assert_eq!(
        refusal(|s| s.passphrase = Some("123456789".to_string())),
        "SRT input: passphrase must be 10-79 characters, got 9"
    );
    assert_eq!(
        refusal(|s| s.aes_key_len = Some(20)),
        "SRT input: aes_key_len must be 16, 24, or 32, got 20"
    );
    assert_eq!(
        refusal(|s| s.crypto_mode = Some("aes".to_string())),
        "SRT input: crypto_mode must be \"aes-ctr\" or \"aes-gcm\", got \"aes\""
    );
    assert_eq!(
        refusal(|s| {
            s.crypto_mode = Some("aes-gcm".to_string());
            s.aes_key_len = Some(24);
        }),
        "SRT input: AES-GCM does not support AES-192 (aes_key_len 24); use 16 or 32"
    );
    assert_eq!(
        refusal(|s| s.max_rexmit_bw = Some(-2)),
        "SRT input: max_rexmit_bw must be -1 (unlimited), 0 (disable), or > 0 (bytes/sec), got -2"
    );
    assert_eq!(
        refusal(|s| s.stream_id = Some("s".repeat(513))),
        "SRT input: stream_id must be at most 512 characters (per SRT spec), got 513"
    );
    assert_eq!(
        refusal(|s| {
            let long = "f".repeat(513);
            s.packet_filter = filter(&long, FilterParse::Matrix(FilterMatrix { cols: 1, rows: 1 }));
        }),
        "SRT input: packet_filter must be at most 512 characters, got 513"
    );
    assert_eq!(
        refusal(|s| {
            s.packet_filter =
                filter("fec", FilterParse::Matrix(FilterMatrix { cols: 0, rows: 1 }))
        }),
        "SRT input: FEC cols must be 1-256, got 0"
    );
    assert_eq!(
        refusal(|s| {
            s.packet_filter =
                filter("fec", FilterParse::Matrix(FilterMatrix { cols: 1, rows: 257 }))
        }),
        "SRT input: FEC rows must be 1-256, got 257"
    );
    assert_eq!(
        refusal(|s| {
            s.packet_filter = filter("nope", FilterParse::Invalid("unknown filter".to_string()))
        }),
        "SRT input: invalid packet_filter: unknown filter"
    );
    assert_eq!(
        refusal(|s| s.max_bw = Some(-1)),
        "SRT input: max_bw must be >= 0 (0 = unlimited), got -1"
    );
    assert_eq!(
        refusal(|s| s.overhead_bw = Some(4)),
        "SRT input: overhead_bw must be 5-100 (percentage), got 4"
    );
    assert_eq!(
        refusal(|s| s.flight_flag_size = Some(31)),
        "SRT input: flight_flag_size must be >= 32 packets, got 31"
    );
    assert_eq!(
        refusal(|s| s.send_buffer_size = Some(31)),
        "SRT input: send_buffer_size must be >= 32 packets, got 31"
    );
    assert_eq!(
        refusal(|s| s.recv_buffer_size = Some(31)),
        "SRT input: recv_buffer_size must be >= 32 packets, got 31"
    );
    assert_eq!(refusal(|s| s.ip_tos = Some(256)), "SRT input: ip_tos must be 0-255, got 256");
    assert_eq!(
        refusal(|s| s.retransmit_algo = Some("x".to_string())),
        "SRT input: retransmit_algo must be \"default\" or \"reduced\", got \"x\""
    );
    assert_eq!(
        refusal(|s| s.send_drop_delay = Some(-2)),
        "SRT input: send_drop_delay must be >= -1, got -2"
    );
    assert_eq!(
        refusal(|s| s.loss_max_ttl = Some(-1)),
        "SRT input: loss_max_ttl must be >= 0, got -1"
    );
    assert_eq!(
        refusal(|s| s.km_refresh_rate = Some(0)),
        "SRT input: km_refresh_rate must be > 0"
    );
    assert_eq!(
        refusal(|s| s.km_pre_announce = Some(0)),
        "SRT input: km_pre_announce must be > 0"
    );
    assert_eq!(
        refusal(|s| s.payload_size = Some(187)),
        "SRT input: payload_size must be 188-1456, got 187"
    );
    assert_eq!(refusal(|s| s.mss = Some(9001)), "SRT input: mss must be 76-9000, got 9001");
    assert_eq!(refusal(|s| s.ip_ttl = Some(0)), "SRT input: ip_ttl must be 1-255, got 0");
    assert_eq!(
        refusal(|s| s.redundancy = Some(srt_leg(SrtMode::Listener))),
        "SRT input redundancy local_addr is required for Listener mode"
    );
    assert_eq!(
        refusal(|s| s.redundancy = Some(srt_leg(SrtMode::Caller))),
        "SRT input redundancy: remote_addr is required for caller/rendezvous mode"
    );
    assert_eq!(
        refusal(|s| s.transport_mode = Some("pcm".to_string())),
        "SRT input: transport_mode must be 'ts' or 'audio_302m', got 'pcm'"
    );
}

#[test]
fn rist_inputs_and_outputs() {
    let rist = |bind: &str| RistInputConfig {
        bind_addr: bind.to_string(),
        external_address: None,
        buffer_ms: None,
        max_nack_retries: None,
        cname: None,
        rtcp_interval_ms: None,
        redundancy: None,
        audio_encode: None,
        transcode: None,
        video_encode: None,
        program_number: None,
        pid_map: None,
        pid_overrides: None,
        interface_binding: None,
        passthrough_clock: None,
    };
    assert!(validate_input(&InputConfig::Rist(rist("0.0.0.0:6000"))).is_ok());
    assert_eq!(
        input_refusal(InputConfig::Rist(rist("0.0.0.0:6001"))),
        "RIST input bind_addr: RIST port must be even (RTCP binds on port+1), got 6001"
    );
    let mut knobs = rist("0.0.0.0:6000");
    knobs.buffer_ms = Some(49);
    assert_eq!(
        input_refusal(InputConfig::Rist(knobs.clone())),
        "RIST input: buffer_ms must be 50-30000, got 49"
    );
    knobs.buffer_ms = Some(30_000);
    knobs.max_nack_retries = Some(51);
    assert_eq!(
        input_refusal(InputConfig::Rist(knobs.clone())),
        "RIST input: max_nack_retries must be ≤ 50, got 51"
    );
    knobs.max_nack_retries = Some(50);
    knobs.cname = Some("c".repeat(257));
    assert_eq!(
        input_refusal(InputConfig::Rist(knobs.clone())),
        "RIST input: cname must be at most 256 characters"
    );
    knobs.cname = None;
    knobs.rtcp_interval_ms = Some(1001);
    assert_eq!(
        input_refusal(InputConfig::Rist(knobs.clone())),
        "RIST input: rtcp_interval_ms must be 1-1000 (TR-06-1 prefers ≤100), got 1001"
    );
    knobs.rtcp_interval_ms = None;
    knobs.redundancy = Some(RistInputRedundancyConfig {
        bind_addr: "0.0.0.0:6000".to_string(),
        external_address: None,
        interface_binding: None,
    });
    assert_eq!(
        input_refusal(InputConfig::Rist(knobs.clone())),
        "RIST input redundancy: leg 2 bind_addr must differ from leg 1"
    );
    knobs.redundancy = Some(RistInputRedundancyConfig {
        bind_addr: "[::]:6002".to_string(),
        external_address: None,
        interface_binding: None,
    });
    assert_eq!(
        input_refusal(InputConfig::Rist(knobs)),
        "RIST input redundancy: leg 1 and leg 2 must use the same address family"
    );

    let out = || RistOutputConfig {
        active: true,
        id: "r".to_string(),
        name: "RIST".to_string(),
        remote_addr: "10.0.0.1:6000".to_string(),
        group: None,
        local_addr: None,
        buffer_ms: None,
        retransmit_buffer_capacity: None,
        cname: None,
        rtcp_interval_ms: None,
        redundancy: None,
        program_number: None,
        pid_map: None,
        delay: None,
        audio_encode: None,
        transcode: None,
        video_encode: None,
        pid_overrides: None,
        interface_binding: None,
    };
    let refusal = |change: fn(&mut RistOutputConfig)| {
        let mut rist = out();
        change(&mut rist);
        output_refusal(OutputConfig::Rist(rist))
    };
    assert!(validate_output(&OutputConfig::Rist(out())).is_ok());
    assert_eq!(
        refusal(|r| r.remote_addr = "10.0.0.1:6001".to_string()),
        "RIST output 'r' remote_addr: RIST port must be even (RTCP binds on port+1), got 6001"
    );
    assert_eq!(
        refusal(|r| r.local_addr = Some("0.0.0.0:1".to_string())),
        "RIST output 'r' local_addr: RIST port must be even (RTCP binds on port+1), got 1"
    );
    assert_eq!(
        refusal(|r| r.retransmit_buffer_capacity = Some(63)),
        "RIST output 'r': retransmit_buffer_capacity must be 64-65536, got 63"
    );
    let leg = |r: &mut RistOutputConfig, remote: &str| {
        r.redundancy = Some(RistOutputRedundancyConfig {
            remote_addr: remote.to_string(),
            local_addr: None,
            interface_binding: None,
        })
    };
    let mut same = out();
    leg(&mut same, "10.0.0.1:6000");
    assert_eq!(
        output_refusal(OutputConfig::Rist(same)),
        "RIST output 'r': redundancy leg 2 remote_addr must differ from leg 1"
    );
    let mut other = out();
    leg(&mut other, "[::1]:6002");
    assert_eq!(
        output_refusal(OutputConfig::Rist(other)),
        "RIST output 'r': redundancy leg 1 and leg 2 must use the same address family"
    );
    let mut encoded = out();
    leg(&mut encoded, "10.0.0.2:6000");
    encoded.audio_encode = Some(audio_encode("aac_lc"));
    assert_eq!(
        output_refusal(OutputConfig::Rist(encoded.clone())),
        "RIST output 'r': audio_encode is not yet supported with SMPTE 2022-7 redundancy"
    );
    encoded.audio_encode = None;
    encoded.video_encode = Some(video_encode("x264"));
    assert_eq!(
        output_refusal(OutputConfig::Rist(encoded)),
        "RIST output 'r': video_encode is not yet supported with SMPTE 2022-7 redundancy"
    );
}

#[test]
fn server_and_client_inputs() {
    let rtmp = |app: &str, key: Option<String>| {
        InputConfig::Rtmp(RtmpInputConfig {
            listen_addr: "0.0.0.0:1935".to_string(),
            app: app.to_string(),
            stream_key: key,
            external_address: None,
            max_publishers: default_max_publishers(),
            audio_encode: None,
            transcode: None,
            video_encode: None,
            program_number: None,
            pid_map: None,
            pid_overrides: None,
            ingress_delay_ms: None,
            passthrough_clock: None,
        })
    };
    assert!(validate_input(&rtmp("live", None)).is_ok());
    assert_eq!(input_refusal(rtmp("", None)), "RTMP input app name must not be empty");
    assert_eq!(
        input_refusal(rtmp(&"a".repeat(65), None)),
        "RTMP input app name must be at most 64 characters"
    );
    assert_eq!(
        input_refusal(rtmp("live", Some("k".repeat(257)))),
        "RTMP input stream_key must be at most 256 characters"
    );
    let rtsp = |url: &str, user: Option<String>, password: Option<String>| {
        InputConfig::Rtsp(RtspInputConfig {
            rtsp_url: url.to_string(),
            username: user,
            password,
            transport: RtspTransport::Tcp,
            reconnect_delay_secs: 5,
            timeout_secs: default_rtsp_timeout(),
            audio_encode: None,
            transcode: None,
            video_encode: None,
            program_number: None,
            pid_map: None,
            pid_overrides: None,
            ingress_delay_ms: None,
            passthrough_clock: None,
        })
    };
    assert!(validate_input(&rtsp("rtsps://cam", None, None)).is_ok());
    assert_eq!(
        input_refusal(rtsp("http://cam", None, None)),
        "RTSP input: rtsp_url must start with rtsp:// or rtsps://"
    );
    assert_eq!(
        input_refusal(rtsp(&format!("rtsp://{}", "c".repeat(2042)), None, None)),
        "RTSP input: rtsp_url must be at most 2048 characters"
    );
    assert_eq!(
        input_refusal(rtsp("rtsp://cam", Some("u".repeat(257)), None)),
        "RTSP input: username must be at most 256 characters"
    );
    assert_eq!(
        input_refusal(rtsp("rtsp://cam", None, Some("p".repeat(257)))),
        "RTSP input: password must be at most 256 characters"
    );
    let webrtc = |change: fn(&mut WebrtcInputConfig)| {
        let mut w = WebrtcInputConfig {
            video_only: false,
            bind_addr: None,
            bearer_token: None,
            public_ip: None,
            stun_server: None,
            audio_encode: None,
            transcode: None,
            video_encode: None,
            program_number: None,
            pid_map: None,
            pid_overrides: None,
        };
        change(&mut w);
        InputConfig::Webrtc(w)
    };
    assert!(validate_input(&webrtc(|_| {})).is_ok());
    assert_eq!(
        input_refusal(webrtc(|w| w.bearer_token = Some("t".repeat(4097)))),
        "WebRTC input: bearer_token must be at most 4096 characters"
    );
    assert_eq!(
        input_refusal(webrtc(|w| w.public_ip = Some("here".to_string()))),
        "WebRTC input: invalid public_ip 'here'"
    );
    assert_eq!(
        input_refusal(webrtc(|w| w.stun_server = Some("s".repeat(2049)))),
        "WebRTC input: stun_server must be at most 2048 characters"
    );
    let whep = |url: &str, token: Option<String>| {
        InputConfig::Whep(WhepInputConfig {
            whep_url: url.to_string(),
            bearer_token: token,
            video_only: false,
            accept_self_signed_cert: default_true_opt(),
            cert_fingerprint: None,
            audio_encode: None,
            transcode: None,
            video_encode: None,
            program_number: None,
            pid_map: None,
            pid_overrides: None,
        })
    };
    assert!(validate_input(&whep("https://h", None)).is_ok());
    assert_eq!(
        input_refusal(whep("ftp://h", None)),
        "WHEP input: whep_url must start with http:// or https://"
    );
    assert_eq!(
        input_refusal(whep(&format!("http://{}", "h".repeat(2042)), None)),
        "WHEP input: whep_url must be at most 2048 characters"
    );
    assert_eq!(
        input_refusal(whep("http://h", Some("t".repeat(4097)))),
        "WHEP input: bearer_token must be at most 4096 characters"
    );
}

#[test]
fn rtp_outputs() {
    let refusal = |change: fn(&mut RtpOutputConfig)| {
        let mut rtp = rtp_out("o", "10.0.0.1:5004");
        change(&mut rtp);
        output_refusal(OutputConfig::Rtp(rtp))
    };
    assert_eq!(
        refusal(|r| r.program_number = Some(0)),
        "RTP output 'o': program_number must be > 0 (0 is reserved for the NIT)"
    );
    assert_eq!(
        refusal(|r| r.bind_addr = Some("[::]:0".to_string())),
        "RTP output 'o': dest_addr '10.0.0.1:5004' and bind_addr '[::]:0' must use the same address family"
    );
    assert_eq!(
        refusal(|r| r.interface_addr = Some("::1".to_string())),
        "RTP output 'o': dest_addr '10.0.0.1:5004' and interface_addr '::1' must use the same address family"
    );
    assert_eq!(refusal(|r| r.dscp = 64), "RTP output 'o': DSCP must be 0-63, got 64");
    assert_eq!(
        refusal(|r| {
            r.redundancy = Some(RtpOutputRedundancyConfig {
                dest_addr: "10.0.0.2:5004".to_string(),
                dscp: Some(64),
                bind_addr: None,
                interface_addr: None,
                interface_binding: None,
            })
        }),
        "RTP output 'o' redundancy: DSCP must be 0-63, got 64"
    );
    assert_eq!(
        refusal(|r| {
            r.redundancy = Some(RtpOutputRedundancyConfig {
                dest_addr: "[::1]:5004".to_string(),
                bind_addr: None,
                interface_addr: None,
                dscp: None,
                interface_binding: None,
            })
        }),
        "RTP output 'o' redundancy: leg 1 (10.0.0.1:5004) and leg 2 ([::1]:5004) must use the same address family"
    );
    assert_eq!(
        refusal(|r| {
            r.fec_encode = Some(FecConfig { columns: 5, rows: 5 });
            r.audio_encode = Some(audio_encode("aac_lc"));
        }),
        "RTP output 'o': audio_encode is not yet supported with SMPTE 2022-1 FEC encode"
    );
    assert_eq!(
        refusal(|r| {
            r.fec_encode = Some(FecConfig { columns: 5, rows: 5 });
            r.video_encode = Some(video_encode("x264"));
        }),
        "RTP output 'o': video_encode is not yet supported with SMPTE 2022-1 FEC encode"
    );
    assert_eq!(
        refusal(|r| r.audio_encode = Some(audio_encode("opus"))),
        "RTP output 'o': audio_encode.codec 'opus' is not allowed for this output; allowed: [\"aac_lc\", \"he_aac_v1\", \"he_aac_v2\", \"mp2\", \"ac3\"]"
    );
}

#[test]
fn udp_and_srt_outputs() {
    let udp = |change: fn(&mut UdpOutputConfig)| {
        let mut udp = UdpOutputConfig {
            active: true,
            id: "u".to_string(),
            name: "UDP".to_string(),
            dest_addr: "10.0.0.1:5004".to_string(),
            dscp: 46,
            group: None,
            bind_addr: None,
            interface_addr: None,
            program_number: None,
            pid_map: None,
            transport_mode: None,
            delay: None,
            audio_encode: None,
            transcode: None,
            video_encode: None,
            pid_overrides: None,
            cbr_pad_to_kbps: None,
            interface_binding: None,
            egress_pacing: None,
            egress_buffer_ms: None,
        };
        change(&mut udp);
        OutputConfig::Udp(udp)
    };
    assert!(validate_output(&udp(|u| u.transport_mode = Some("audio_302m".to_string()))).is_ok());
    assert_eq!(
        output_refusal(udp(|u| u.transport_mode = Some("rtp".to_string()))),
        "UDP output 'u': transport_mode must be 'ts' or 'audio_302m', got 'rtp'"
    );
    assert_eq!(
        output_refusal(udp(|u| {
            u.transport_mode = Some("audio_302m".to_string());
            u.program_number = Some(1);
        })),
        "UDP output 'u': transport_mode 'audio_302m' is incompatible with program_number"
    );
    assert_eq!(
        output_refusal(udp(|u| {
            u.transport_mode = Some("audio_302m".to_string());
            u.pid_map = Some(BTreeMap::new());
        })),
        "UDP output 'u': transport_mode 'audio_302m' is incompatible with pid_map"
    );
    assert_eq!(
        output_refusal(udp(|u| {
            u.transport_mode = Some("audio_302m".to_string());
            u.delay = Some(OutputDelay::Fixed { ms: 100 });
        })),
        "UDP output 'u': transport_mode 'audio_302m' is incompatible with delay"
    );
    assert!(validate_output(&udp(|u| {
        u.transport_mode = Some("ts".to_string());
        u.delay = Some(OutputDelay::Fixed { ms: 100 });
    }))
    .is_ok());
    assert_eq!(
        output_refusal(udp(|u| {
            u.transport_mode = Some("audio_302m".to_string());
            u.audio_encode = Some(audio_encode("aac_lc"));
        })),
        "UDP output 'u': audio_encode is incompatible with transport_mode 'audio_302m'"
    );
    assert_eq!(
        output_refusal(udp(|u| {
            u.transport_mode = Some("audio_302m".to_string());
            u.video_encode = Some(video_encode("x264"));
        })),
        "UDP output 'u': video_encode is incompatible with transport_mode 'audio_302m'"
    );
    assert_eq!(output_refusal(udp(|u| u.dscp = 64)), "UDP output 'u': DSCP must be 0-63, got 64");

    let srt = |change: fn(&mut SrtOutputConfig)| {
        let mut srt = SrtOutputConfig {
            active: true,
            id: "s".to_string(),
            name: "SRT".to_string(),
            mode: SrtMode::Caller,
            remote_addr: Some("10.0.0.1:9000".to_string()),
            latency_ms: 120,
            peer_idle_timeout_secs: 30,
            group: None,
            local_addr: None,
            external_address: None,
            recv_latency_ms: None,
            peer_latency_ms: None,
            passphrase: None,
            aes_key_len: None,
            crypto_mode: None,
            max_rexmit_bw: None,
            stream_id: None,
            packet_filter: None,
            max_bw: None,
            input_bw: None,
            overhead_bw: None,
            enforced_encryption: None,
            connect_timeout_secs: None,
            flight_flag_size: None,
            send_buffer_size: None,
            recv_buffer_size: None,
            ip_tos: None,
            retransmit_algo: None,
            send_drop_delay: None,
            loss_max_ttl: None,
            km_refresh_rate: None,
            km_pre_announce: None,
            payload_size: None,
            mss: None,
            tlpkt_drop: None,
            ip_ttl: None,
            redundancy: None,
            bonding: None,
            program_number: None,
            pid_map: None,
            transport_mode: None,
            delay: None,
            audio_encode: None,
            transcode: None,
            video_encode: None,
            pid_overrides: None,
            cbr_pad_to_kbps: None,
            webrtc_compatible: false,
            interface_binding: None,
        };
        change(&mut srt);
        OutputConfig::Srt(srt)
    };
    assert!(validate_output(&srt(|_| {})).is_ok());
    assert_eq!(
        output_refusal(srt(|s| s.mode = SrtMode::Listener)),
        "SRT output local_addr is required for Listener mode"
    );
    assert_eq!(
        output_refusal(srt(|s| s.transport_mode = Some("x".to_string()))),
        "SRT output 's': transport_mode must be 'ts' or 'audio_302m', got 'x'"
    );
    assert_eq!(
        output_refusal(srt(|s| {
            s.transport_mode = Some("audio_302m".to_string());
            s.packet_filter =
                filter("fec", FilterParse::Matrix(FilterMatrix { cols: 5, rows: 5 }));
        })),
        "SRT output 's': transport_mode 'audio_302m' is incompatible with packet_filter (FEC)"
    );
    assert_eq!(
        output_refusal(srt(|s| {
            s.transport_mode = Some("audio_302m".to_string());
            s.program_number = Some(1);
        })),
        "SRT output 's': transport_mode 'audio_302m' is incompatible with program_number"
    );
    let second_leg = |s: &mut SrtOutputConfig| {
        let mut leg = srt_leg(SrtMode::Caller);
        leg.remote_addr = Some("10.0.0.2:9000".to_string());
        s.redundancy = Some(leg);
    };
    let with_leg = |change: fn(&mut SrtOutputConfig)| match srt(change) {
        OutputConfig::Srt(mut s) => {
            second_leg(&mut s);
            OutputConfig::Srt(s)
        }
        other => other,
    };
    assert_eq!(
        output_refusal(with_leg(|s| s.transport_mode = Some("audio_302m".to_string()))),
        "SRT output 's': transport_mode 'audio_302m' is incompatible with SMPTE 2022-7 redundancy"
    );
    assert_eq!(
        output_refusal(srt(|s| {
            s.transport_mode = Some("audio_302m".to_string());
            s.pid_map = Some(BTreeMap::new());
        })),
        "SRT output 's': transport_mode 'audio_302m' is incompatible with pid_map"
    );
    assert_eq!(
        output_refusal(srt(|s| {
            s.transport_mode = Some("audio_302m".to_string());
            s.delay = Some(OutputDelay::TargetMs { ms: 100 });
        })),
        "SRT output 's': transport_mode 'audio_302m' is incompatible with delay"
    );
    assert_eq!(
        output_refusal(with_leg(|s| s.audio_encode = Some(audio_encode("aac_lc")))),
        "SRT output 's': audio_encode is not yet supported with SMPTE 2022-7 redundancy"
    );
    assert_eq!(
        output_refusal(srt(|s| {
            s.packet_filter =
                filter("fec", FilterParse::Matrix(FilterMatrix { cols: 5, rows: 5 }));
            s.video_encode = Some(video_encode("x264"));
        })),
        "SRT output 's': video_encode is not yet supported with SRT FEC (packet_filter)"
    );
}

#[test]
fn pushed_outputs() {
    let rtmp = |change: fn(&mut RtmpOutputConfig)| {
        let mut rtmp = RtmpOutputConfig {
            active: true,
            id: "r".to_string(),
            name: "RTMP".to_string(),
            dest_url: "rtmp://h/app".to_string(),
            stream_key: "key".to_string(),
            reconnect_delay_secs: 5,
            group: None,
            max_reconnect_attempts: None,
            program_number: None,
            audio_encode: None,
            transcode: None,
            video_encode: None,
            pid_overrides: None,
        };
        change(&mut rtmp);
        OutputConfig::Rtmp(rtmp)
    };
    assert!(validate_output(&rtmp(|_| {})).is_ok());
    assert_eq!(
        output_refusal(rtmp(|r| r.dest_url = "http://h".to_string())),
        "RTMP output 'r': dest_url must start with rtmp:// or rtmps://"
    );
    assert_eq!(
        output_refusal(rtmp(|r| r.dest_url = format!("rtmp://{}", "h".repeat(2042)))),
        "RTMP output 'r': dest_url must be at most 2048 characters"
    );
    assert_eq!(
        output_refusal(rtmp(|r| r.stream_key.clear())),
        "RTMP output 'r': stream_key cannot be empty"
    );
    assert_eq!(
        output_refusal(rtmp(|r| r.stream_key = "k".repeat(257))),
        "RTMP output 'r': stream_key must be at most 256 characters"
    );
    assert_eq!(
        output_refusal(rtmp(|r| r.reconnect_delay_secs = 0)),
        "RTMP output 'r': reconnect_delay_secs must be > 0"
    );

    let hls = |change: fn(&mut HlsOutputConfig)| {
        let mut hls = HlsOutputConfig {
            active: true,
            id: "h".to_string(),
            name: "HLS".to_string(),
            ingest_url: "https://h".to_string(),
            segment_duration_secs: Binary64::new(2.0_f64.to_bits(), "2"),
            max_segments: 5,
            group: None,
            auth_token: None,
            program_number: None,
            pid_map: None,
            audio_encode: None,
            transcode: None,
        };
        change(&mut hls);
        OutputConfig::Hls(hls)
    };
    assert!(validate_output(&hls(|_| {})).is_ok());
    assert_eq!(
        output_refusal(hls(|h| h.ingest_url = "rtmp://h".to_string())),
        "HLS output 'h': ingest_url must start with http:// or https://"
    );
    assert_eq!(
        output_refusal(hls(|h| h.auth_token = Some("t".repeat(4097)))),
        "HLS output 'h': auth_token must be at most 4096 characters"
    );
    assert_eq!(
        output_refusal(hls(|h| {
            h.segment_duration_secs = Binary64::new(0.25_f64.to_bits(), "0.25")
        })),
        "HLS output 'h': segment_duration_secs must be 0.5-10.0, got 0.25"
    );
    assert_eq!(
        output_refusal(hls(|h| {
            h.segment_duration_secs = Binary64::new(10.5_f64.to_bits(), "10.5")
        })),
        "HLS output 'h': segment_duration_secs must be 0.5-10.0, got 10.5"
    );
    assert_eq!(
        output_refusal(hls(|h| h.max_segments = 31)),
        "HLS output 'h': max_segments must be 1-30, got 31"
    );

    let webrtc = |mode: WebrtcOutputMode, change: fn(&mut WebrtcOutputConfig)| {
        let mut webrtc = WebrtcOutputConfig {
            active: true,
            id: "w".to_string(),
            name: "WebRTC".to_string(),
            mode,
            video_only: false,
            group: None,
            whip_url: None,
            bearer_token: None,
            accept_self_signed_cert: default_true_opt(),
            cert_fingerprint: None,
            max_viewers: None,
            public_ip: None,
            program_number: None,
            audio_encode: None,
            transcode: None,
            video_encode: None,
            webrtc_compatible: false,
            pid_overrides: None,
        };
        change(&mut webrtc);
        OutputConfig::Webrtc(webrtc)
    };
    assert_eq!(
        output_refusal(webrtc(WebrtcOutputMode::WhipClient, |_| {})),
        "WebRTC output 'w': whip_url is required for whip_client mode"
    );
    assert_eq!(
        output_refusal(webrtc(WebrtcOutputMode::WhipClient, |w| {
            w.whip_url = Some("h".to_string())
        })),
        "WebRTC output 'w': whip_url must start with http:// or https://"
    );
    assert_eq!(
        output_refusal(webrtc(WebrtcOutputMode::WhepServer, |w| w.max_viewers = Some(101))),
        "WebRTC output 'w': max_viewers must be 1-100, got 101"
    );
    assert_eq!(
        output_refusal(webrtc(WebrtcOutputMode::WhepServer, |w| {
            w.public_ip = Some("there".to_string())
        })),
        "WebRTC output 'w': invalid public_ip 'there'"
    );
    assert_eq!(
        output_refusal(webrtc(WebrtcOutputMode::WhepServer, |w| {
            w.video_only = true;
            w.audio_encode = Some(audio_encode("opus"));
        })),
        "WebRTC output 'w': audio_encode requires video_only=false (audio MID must be negotiated in SDP)"
    );
}

#[test]
fn encoding_blocks() {
    let video = |change: fn(&mut VideoEncodeConfig)| {
        let mut enc = video_encode("x264");
        change(&mut enc);
        validate_video_encode(&enc, "out").unwrap_err().to_string()
    };
    assert!(validate_video_encode(&video_encode("hevc_nvenc"), "out").is_ok());
    assert_eq!(
        video(|e| e.codec = "vp9".to_string()),
        "out: video_encode.codec 'vp9' is not recognised; expected one of x264, x265, h264_nvenc, hevc_nvenc, h264_qsv, hevc_qsv, h264_vaapi, hevc_vaapi, h264_rkmpp, hevc_rkmpp, h264_auto, hevc_auto"
    );
    assert_eq!(video(|e| e.width = Some(63)), "out: video_encode.width must be 64..=7680, got 63");
    assert_eq!(
        video(|e| e.height = Some(4321)),
        "out: video_encode.height must be 64..=4320, got 4321"
    );
    assert_eq!(
        video(|e| e.fps_num = Some(25)),
        "out: video_encode.fps_num and fps_den must be set together"
    );
    assert_eq!(
        video(|e| {
            e.fps_num = Some(25);
            e.fps_den = Some(0);
        }),
        "out: video_encode.fps_num and fps_den must be non-zero (got 25/0)"
    );
    assert_eq!(
        video(|e| {
            e.fps_num = Some(722_000);
            e.fps_den = Some(3_003);
        }),
        "out: video_encode effective frame rate 240.426 is out of range (0.5..=240)"
    );
    assert_eq!(
        video(|e| e.bitrate_kbps = Some(99)),
        "out: video_encode.bitrate_kbps must be 100..=100000, got 99"
    );
    assert_eq!(
        video(|e| e.gop_size = Some(601)),
        "out: video_encode.gop_size must be 1..=600, got 601"
    );
    assert_eq!(
        video(|e| e.preset = Some("best".to_string())),
        "out: video_encode.preset 'best' is not recognised; expected one of ultrafast, superfast, veryfast, faster, fast, medium, slow, slower, veryslow"
    );
    assert_eq!(
        video(|e| e.profile = Some("extended".to_string())),
        "out: video_encode.profile 'extended' is not recognised; expected one of baseline, main, high, high10, high422, high444, main10"
    );
    let audio = |change: fn(&mut AudioEncodeConfig)| {
        let mut enc = audio_encode("aac_lc");
        change(&mut enc);
        validate_audio_encode(&enc, &["aac_lc", "ac3"], "out").unwrap_err().to_string()
    };
    assert_eq!(
        audio(|e| e.codec = "mp2".to_string()),
        "out: audio_encode.codec 'mp2' is not allowed for this output; allowed: [\"aac_lc\", \"ac3\"]"
    );
    assert_eq!(
        audio(|e| e.bitrate_kbps = Some(513)),
        "out: audio_encode.bitrate_kbps must be 16..=512, got 513"
    );
    assert_eq!(
        audio(|e| e.sample_rate = Some(96_000)),
        "out: audio_encode.sample_rate must be one of [8000, 16000, 22050, 24000, 32000, 44100, 48000], got 96000"
    );
    assert_eq!(
        audio(|e| e.channels = Some(9)),
        "out: audio_encode.channels must be 1-8 for aac_lc, got 9"
    );
    assert_eq!(
        audio(|e| {
            e.codec = "ac3".to_string();
            e.channels = Some(7);
        }),
        "out: audio_encode.channels must be 1-6 for ac3, got 7"
    );
}

#[test]
fn transcoding_blocks() {
    let block = |change: fn(&mut TranscodeJson)| {
        let mut block = TranscodeJson {
            channels: None,
            sample_rate: None,
            bit_depth: None,
            packet_time_us: None,
            payload_type: None,
            channel_map: None,
            channel_map_preset: None,
            resolutions: Vec::new(),
        };
        change(&mut block);
        validate_transcode_block(&block, 48_000, 24, 2, "out")
    };
    assert!(block(|_| {}).is_ok());
    let refusal = |change: fn(&mut TranscodeJson)| block(change).unwrap_err().to_string();
    assert_eq!(
        refusal(|b| b.sample_rate = Some(22_050)),
        "out.sample_rate must be one of 32000, 44100, 48000, 88200, 96000, got 22050"
    );
    assert_eq!(refusal(|b| b.bit_depth = Some(32)), "out.bit_depth must be 16, 20, or 24, got 32");
    assert_eq!(refusal(|b| b.channels = Some(17)), "out.channels must be 1..=16, got 17");
    assert_eq!(
        refusal(|b| b.packet_time_us = Some(100)),
        "out.packet_time_us must be one of 125, 250, 333, 500, 1000, 4000, got 100"
    );
    assert_eq!(
        refusal(|b| b.payload_type = Some(95)),
        "out.payload_type must be in dynamic range 96-127, got 95"
    );
    assert_eq!(
        refusal(|b| {
            b.channel_map = Some(vec![vec![0]]);
            b.channel_map_preset = Some("mono".to_string());
        }),
        "out: channel_map and channel_map_preset are mutually exclusive"
    );
    assert_eq!(
        refusal(|b| {
            b.resolutions.push(TranscodeResolution {
                input: InputFormat { sample_rate: 48_000, bit_depth: BitDepth::L24, channels: 2 },
                fault: Some("unknown preset".to_string()),
            })
        }),
        "out: unknown preset"
    );
    let plain = TranscodeJson {
        channels: None,
        sample_rate: None,
        bit_depth: None,
        packet_time_us: None,
        payload_type: None,
        channel_map: None,
        channel_map_preset: None,
        resolutions: Vec::new(),
    };
    assert_eq!(
        validate_transcode_block(&plain, 48_000, 32, 2, "out").unwrap_err().to_string(),
        "out: input bit_depth 32 not supported"
    );
}

fn video_in() -> St2110VideoInputConfig {
    St2110VideoInputConfig {
        bind_addr: "239.0.0.1:5000".to_string(),
        width: 1920,
        height: 1080,
        frame_rate_num: 30_000,
        frame_rate_den: 1_001,
        pixel_format: St2110VideoPixelFormat::Yuv422_10bit,
        payload_type: 96,
        video_encode: video_encode("x264"),
        interface_addr: None,
        source_addr: None,
        redundancy: None,
        clock_domain: None,
        allowed_sources: None,
        max_bitrate_mbps: None,
        pid_overrides: None,
        interface_binding: None,
    }
}

#[test]
fn st2110_video_inputs() {
    let refusal = |change: fn(&mut St2110VideoInputConfig)| {
        let mut c = video_in();
        change(&mut c);
        input_refusal(InputConfig::St2110_20(c))
    };
    assert!(validate_input(&InputConfig::St2110_20(video_in())).is_ok());
    assert_eq!(
        refusal(|c| c.width = 1921),
        "ST 2110-20 input: width must be 64..=8192 and even, got 1921"
    );
    assert_eq!(
        refusal(|c| c.height = 62),
        "ST 2110-20 input: height must be 64..=8192 and even, got 62"
    );
    assert_eq!(
        refusal(|c| c.frame_rate_den = 0),
        "ST 2110-20 input: frame_rate_den must be > 0"
    );
    assert_eq!(
        refusal(|c| c.frame_rate_num = 1_000),
        "ST 2110-20 input: frame_rate must be between 1 and 240 fps, got 0.999"
    );
    assert_eq!(
        refusal(|c| c.frame_rate_num = 0),
        "ST 2110-20 input: frame_rate must be between 1 and 240 fps, got 0.000"
    );
    assert_eq!(
        refusal(|c| c.payload_type = 95),
        "ST 2110-20 input: payload_type must be in dynamic range 96-127, got 95"
    );
    assert_eq!(
        refusal(|c| c.max_bitrate_mbps = number(100_001.0)),
        "ST 2110-20 input: max_bitrate_mbps must be > 0 and <= 100000, got 100001"
    );
    assert_eq!(
        refusal(|c| c.video_encode.codec = "none".to_string()),
        "ST 2110-20 input: video_encode.codec 'none' is not recognised; expected one of x264, x265, h264_nvenc, hevc_nvenc, h264_qsv, hevc_qsv, h264_vaapi, hevc_vaapi, h264_rkmpp, hevc_rkmpp, h264_auto, hevc_auto"
    );
}

#[test]
fn two_legs_use_two_addresses() {
    let mut c = video_in();
    c.bind_addr = "10.0.0.5:5000".to_string();
    let leg = |addr: &str, iface: Option<&str>| {
        Some(RedBlueBindConfig {
            addr: addr.to_string(),
            interface_addr: iface.map(|s| s.to_string()),
            source_addr: None,
            interface_binding: None,
        })
    };
    c.redundancy = leg("10.0.0.5:5002", None);
    assert_eq!(
        input_refusal(InputConfig::St2110_20(c.clone())),
        "ST 2110-20 input redundancy: leg 1 and leg 2 must use distinct IPs for SMPTE 2022-7 (got 10.0.0.5 for both)"
    );
    c.redundancy = leg("[::1]:5002", None);
    assert_eq!(
        input_refusal(InputConfig::St2110_20(c.clone())),
        "ST 2110-20 input redundancy: leg 1 (10.0.0.5:5000) and leg 2 ([::1]:5002) must use the same address family"
    );
    c.redundancy = leg("10.0.0.6:5002", Some("::1"));
    assert_eq!(
        input_refusal(InputConfig::St2110_20(c.clone())),
        "ST 2110-20 input redundancy: leg 2 addr and interface_addr must use the same address family"
    );
    c.redundancy = leg("0.0.0.0:5002", None);
    assert!(validate_input(&InputConfig::St2110_20(c)).is_ok());
}

fn tunnel() -> TunnelConfig {
    TunnelConfig {
        id: "550e8400-e29b-41d4-a716-446655440000".to_string(),
        name: "Tunnel".to_string(),
        enabled: true,
        protocol: TunnelProtocol::Udp,
        mode: TunnelMode::Relay,
        direction: TunnelDirection::Egress,
        local_addr: "0.0.0.0:9000".to_string(),
        relay_addr: Some("relay:4433".to_string()),
        tunnel_encryption_key: Some("aB".repeat(32)),
        relay_addrs: Vec::new(),
        max_rtt_failback_increase_ms: None,
        tunnel_bind_secret: None,
        peer_addr: None,
        direct_listen_addr: None,
        tunnel_psk: None,
        tls_cert_pem: None,
        tls_key_pem: None,
    }
}

#[test]
fn tunnels() {
    let refusal = |change: fn(&mut TunnelConfig)| {
        let mut t = tunnel();
        change(&mut t);
        validate_tunnel(&t).unwrap_err().to_string()
    };
    let id = "550e8400-e29b-41d4-a716-446655440000";
    assert!(validate_tunnel(&tunnel()).is_ok());
    assert_eq!(refusal(|t| t.id.clear()), "Tunnel ID cannot be empty");
    assert_eq!(
        refusal(|t| t.id = "t1".to_string()),
        "Tunnel 't1': id must be a valid UUID (e.g., '550e8400-e29b-41d4-a716-446655440000')"
    );
    for good in [
        "550e8400e29b41d4a716446655440000",
        "{550e8400-e29b-41d4-a716-446655440000}",
        "urn:uuid:550E8400-E29B-41D4-A716-446655440000",
    ] {
        let mut t = tunnel();
        t.id = good.to_string();
        assert!(validate_tunnel(&t).is_ok(), "{good}");
    }
    for bad in [
        "550e8400-e29b-41d4-a716-44665544000",
        "550e8400-e29b-41d4-a716-44665544000g",
        "550e8400e-29b-41d4-a716-446655440000",
        "{550e8400-e29b-41d4-a716-446655440000",
    ] {
        let mut t = tunnel();
        t.id = bad.to_string();
        assert!(validate_tunnel(&t).is_err(), "{bad}");
    }
    assert_eq!(refusal(|t| t.name.clear()), "Tunnel name cannot be empty");
    assert_eq!(
        refusal(|t| t.local_addr = "x".to_string()),
        "Tunnel local_addr: invalid socket address 'x': invalid socket address syntax"
    );
    assert_eq!(
        refusal(|t| t.relay_addr = None),
        format!("Tunnel '{id}': relay_addr is required for relay mode")
    );
    assert_eq!(
        refusal(|t| t.relay_addr = Some(String::new())),
        format!("Tunnel '{id}': relay_addr must be 1-256 characters")
    );
    assert_eq!(
        refusal(|t| t.mode = TunnelMode::Direct),
        format!("Tunnel '{id}': peer_addr is required for direct egress")
    );
    assert_eq!(
        refusal(|t| {
            t.mode = TunnelMode::Direct;
            t.direction = TunnelDirection::Ingress;
        }),
        format!("Tunnel '{id}': direct_listen_addr is required for direct ingress")
    );
    assert_eq!(
        refusal(|t| t.tunnel_encryption_key = None),
        format!("Tunnel '{id}': tunnel_encryption_key is required for relay mode (end-to-end encryption)")
    );
    assert_eq!(
        refusal(|t| t.tunnel_encryption_key = Some("ab".to_string())),
        format!("Tunnel '{id}': tunnel_encryption_key must be exactly 64 hex characters (32 bytes), got 2 chars")
    );
    assert_eq!(
        refusal(|t| t.tunnel_encryption_key = Some("g".repeat(64))),
        format!("Tunnel '{id}': tunnel_encryption_key must contain only hex characters")
    );
    assert_eq!(
        refusal(|t| t.tunnel_bind_secret = Some("a".repeat(63))),
        format!("Tunnel '{id}': tunnel_bind_secret must be exactly 64 hex characters (32 bytes), got 63 chars")
    );
    assert_eq!(
        refusal(|t| t.tunnel_bind_secret = Some("z".repeat(64))),
        format!("Tunnel '{id}': tunnel_bind_secret must contain only hex characters")
    );
    assert_eq!(
        refusal(|t| t.tunnel_psk = Some("p".repeat(257))),
        format!("Tunnel '{id}': tunnel_psk must be at most 256 characters")
    );
    assert_eq!(
        refusal(|t| t.peer_addr = Some("p".repeat(257))),
        format!("Tunnel '{id}': peer_addr must be at most 256 characters")
    );
    assert_eq!(
        refusal(|t| t.direct_listen_addr = Some("p".to_string())),
        format!("Tunnel '{id}' direct_listen_addr: invalid socket address 'p': invalid socket address syntax")
    );
}
