//! What encoding blocks and packaged outputs are refused for.

use edge_config::binary::Binary64;
use edge_config::models::{
    AudioEncodeConfig, CencConfig, CmafOutputConfig, InputConfig, OutputConfig, RtpInputConfig,
    UdpInputConfig, VideoEncodeConfig,
};
use edge_config::validation::{
    validate_audio_encode, validate_input, validate_output, validate_video_encode,
};
use edge_config::webrtc::webrtc_safe_video_encode;
use std::collections::BTreeMap;

fn rtp_in(bind: &str) -> RtpInputConfig {
    RtpInputConfig {
        bind_addr: bind.to_string(),
        external_address: None,
        interface_addr: None,
        source_addr: None,
        fec_decode: None,
        tr07_mode: None,
        allowed_sources: None,
        allowed_payload_types: None,
        max_bitrate_mbps: None,
        redundancy: None,
        audio_encode: None,
        transcode: None,
        video_encode: None,
        program_number: None,
        pid_map: None,
        pid_overrides: None,
        interface_binding: None,
        ingress_delay_ms: None,
        ingress_dejitter_ms: None,
        passthrough_clock: None,
    }
}

fn encode(codec: &str) -> VideoEncodeConfig {
    VideoEncodeConfig {
        codec: codec.to_string(),
        source_video_pid: None,
        width: None,
        height: None,
        fps_num: None,
        fps_den: None,
        bitrate_kbps: None,
        gop_size: None,
        preset: None,
        profile: None,
        chroma: None,
        bit_depth: None,
        rate_control: None,
        crf: None,
        max_bitrate_kbps: None,
        bframes: None,
        refs: None,
        level: None,
        tune: None,
        color_primaries: None,
        color_transfer: None,
        color_matrix: None,
        color_range: None,
        hw_decode: None,
    }
}

fn audio(codec: &str) -> AudioEncodeConfig {
    AudioEncodeConfig {
        codec: codec.to_string(),
        source_audio_pid: None,
        bitrate_kbps: None,
        sample_rate: None,
        channels: None,
        silent_fallback: false,
        opus_vbr_mode: None,
        opus_fec: false,
        opus_dtx: false,
        opus_frame_duration_ms: None,
    }
}

fn refusal(change: impl FnOnce(&mut VideoEncodeConfig)) -> String {
    let mut enc = encode("x264");
    change(&mut enc);
    validate_video_encode(&enc, "out").unwrap_err().to_string()
}

fn accepted(change: impl FnOnce(&mut VideoEncodeConfig)) {
    let mut enc = encode("x264");
    change(&mut enc);
    assert!(validate_video_encode(&enc, "out").is_ok());
}

fn set(text: &str) -> Option<String> {
    Some(text.to_string())
}

#[test]
fn twelve_video_codecs_are_known() {
    for codec in [
        "x264", "x265", "h264_nvenc", "hevc_nvenc", "h264_qsv", "hevc_qsv", "h264_vaapi",
        "hevc_vaapi", "h264_rkmpp", "hevc_rkmpp", "h264_auto", "hevc_auto",
    ] {
        assert!(validate_video_encode(&encode(codec), "out").is_ok());
    }
    for codec in ["", "h264", "X264", "av1_nvenc"] {
        assert!(validate_video_encode(&encode(codec), "out").is_err());
    }
}

#[test]
fn profiles_need_their_formats() {
    for profile in ["baseline", "main", "high"] {
        accepted(|e| e.profile = set(profile));
    }
    let formats = [
        ("high10", None, Some(10)),
        ("main10", None, Some(10)),
        ("high422", Some("yuv422p"), None),
        ("high444", Some("yuv444p"), None),
    ];
    for (profile, chroma, depth) in formats {
        refusal(|e| e.profile = set(profile));
        accepted(|e| {
            e.profile = set(profile);
            e.chroma = chroma.map(|c: &str| c.to_string());
            e.bit_depth = depth;
        });
    }
}

#[test]
fn encoder_settings_have_bounds() {
    accepted(|e| {
        e.crf = Some(51);
        e.refs = Some(16);
        e.bframes = Some(16);
        e.max_bitrate_kbps = Some(100_000);
        e.rate_control = set("crf");
        e.tune = set("zerolatency");
        e.color_primaries = set("bt2020");
        e.color_transfer = set("smpte2084");
        e.color_matrix = set("bt2020nc");
        e.color_range = set("pc");
        e.source_video_pid = Some(0x0010);
    });
    assert_eq!(refusal(|e| e.crf = Some(52)), "out: video_encode.crf must be 0..=51, got 52");
    assert_eq!(refusal(|e| e.refs = Some(0)), "out: video_encode.refs must be 1..=16, got 0");
    assert_eq!(refusal(|e| e.refs = Some(17)), "out: video_encode.refs must be 1..=16, got 17");
    assert_eq!(
        refusal(|e| e.bframes = Some(17)),
        "out: video_encode.bframes must be 0..=16, got 17"
    );
    for kbps in [99, 100_001] {
        assert_eq!(
            refusal(|e| e.max_bitrate_kbps = Some(kbps)),
            format!("out: video_encode.max_bitrate_kbps must be 100..=100000, got {kbps}")
        );
    }
    assert_eq!(
        refusal(|e| e.bit_depth = Some(12)),
        "out: video_encode.bit_depth must be 8 or 10, got 12"
    );
    assert_eq!(
        refusal(|e| e.chroma = set("yuv411p")),
        "out: video_encode.chroma 'yuv411p' is not recognised; expected one of yuv420p, yuv422p, yuv444p"
    );
    assert_eq!(
        refusal(|e| e.rate_control = set("none")),
        "out: video_encode.rate_control 'none' is not recognised; expected one of vbr, cbr, crf, abr"
    );
    assert_eq!(
        refusal(|e| e.color_range = set("full")),
        "out: video_encode.color_range 'full' is not recognised; expected one of tv, pc"
    );
    refusal(|e| e.tune = set("loud"));
    refusal(|e| e.color_primaries = set("rgb"));
    refusal(|e| e.color_transfer = set("rgb"));
    refusal(|e| e.color_matrix = set("rgb"));
    assert_eq!(
        refusal(|e| e.source_video_pid = Some(0x1FFF)),
        "out: video_encode.source_video_pid must be 0x0010-0x1FFE"
    );
}

#[test]
fn opus_has_settings_of_its_own() {
    let refusal = |change: fn(&mut AudioEncodeConfig)| {
        let mut enc = audio("opus");
        change(&mut enc);
        validate_audio_encode(&enc, &["opus", "aac_lc"], "out").unwrap_err().to_string()
    };
    let mut enc = audio("opus");
    enc.opus_vbr_mode = set("cbr");
    enc.opus_frame_duration_ms = Some(60);
    assert!(validate_audio_encode(&enc, &["opus"], "out").is_ok());
    refusal(|e| e.opus_vbr_mode = Some("abr".to_string()));
    refusal(|e| e.opus_frame_duration_ms = Some(30));
    assert_eq!(
        refusal(|e| e.source_audio_pid = Some(0x000F)),
        "out: audio_encode.source_audio_pid must be 0x0010-0x1FFE"
    );
    let mut other = audio("aac_lc");
    other.opus_vbr_mode = set("abr");
    assert!(validate_audio_encode(&other, &["aac_lc"], "out").is_ok());
}

#[test]
fn what_a_browser_needs_is_accepted() {
    let made = webrtc_safe_video_encode(Some(&encode("x265")));
    assert!(validate_video_encode(&made, "out").is_ok());
}

fn cmaf() -> CmafOutputConfig {
    CmafOutputConfig {
        id: "c".to_string(),
        name: "CMAF".to_string(),
        active: true,
        ingest_url: "https://origin.example/live".to_string(),
        low_latency: true,
        chunk_duration_ms: 500,
        segment_duration_secs: Binary64 { bits: 2.0f64.to_bits(), text: "2".to_string() },
        max_segments: 5,
        manifests: vec!["hls".to_string()],
        group: None,
        encryption: None,
        audio_encode: None,
        transcode: None,
        video_encode: None,
        pid_overrides: None,
        program_number: None,
        auth_token: None,
    }
}

fn cmaf_refusal(change: impl FnOnce(&mut CmafOutputConfig)) -> String {
    let mut c = cmaf();
    change(&mut c);
    validate_output(&OutputConfig::Cmaf(c)).unwrap_err().to_string()
}

#[test]
fn cmaf_outputs_have_rules() {
    assert!(validate_output(&OutputConfig::Cmaf(cmaf())).is_ok());
    assert_eq!(cmaf_refusal(|c| c.id = String::new()), "CMAF output ID cannot be empty");
    assert_eq!(cmaf_refusal(|c| c.name = String::new()), "CMAF output name cannot be empty");
    assert_eq!(
        cmaf_refusal(|c| c.ingest_url = "ftp://origin".to_string()),
        "CMAF output 'c': ingest_url must start with http:// or https://"
    );
    for ms in [99, 2001] {
        assert_eq!(
            cmaf_refusal(|c| c.chunk_duration_ms = ms),
            format!("CMAF output 'c': chunk_duration_ms must be 100-2000, got {ms}")
        );
    }
    for secs in [0.5f64, 10.5] {
        assert_eq!(
            cmaf_refusal(|c| {
                c.segment_duration_secs = Binary64 { bits: secs.to_bits(), text: secs.to_string() }
            }),
            format!("CMAF output 'c': segment_duration_secs must be 1.0-10.0, got {secs}")
        );
    }
    for n in [0, 31] {
        assert_eq!(
            cmaf_refusal(|c| c.max_segments = n),
            format!("CMAF output 'c': max_segments must be 1-30, got {n}")
        );
    }
    cmaf_refusal(|c| c.manifests.push("dash".to_string()));
    assert_eq!(
        cmaf_refusal(|c| c.manifests.clear()),
        "CMAF output 'c': manifests cannot be empty"
    );
    assert_eq!(
        cmaf_refusal(|c| c.audio_encode = Some(audio("aac_lc"))),
        "CMAF output 'c': audio_encode is not supported yet"
    );
    assert_eq!(
        cmaf_refusal(|c| c.video_encode = Some(encode("x264"))),
        "CMAF output 'c': video_encode is not supported yet"
    );
    assert_eq!(
        cmaf_refusal(|c| {
            c.encryption = Some(CencConfig {
                key_id: "00".to_string(),
                key: "00".to_string(),
                scheme: "cenc".to_string(),
                pssh_boxes: Vec::new(),
            })
        }),
        "CMAF output 'c': encryption is not supported yet"
    );
}

#[test]
fn program_zero_is_not_selected() {
    let message = "program_number must be > 0 (0 is reserved for the NIT)";
    let mut rtp = rtp_in("0.0.0.0:5000");
    rtp.program_number = Some(0);
    let udp = UdpInputConfig {
        bind_addr: "0.0.0.0:5000".to_string(),
        program_number: Some(0),
        external_address: None,
        interface_addr: None,
        source_addr: None,
        audio_encode: None,
        transcode: None,
        video_encode: None,
        pid_map: None,
        pid_overrides: None,
        interface_binding: None,
        ingress_delay_ms: None,
        ingress_dejitter_ms: None,
        passthrough_clock: None,
    };
    for (config, tag) in [(InputConfig::Rtp(rtp), "rtp"), (InputConfig::Udp(udp), "udp")] {
        assert_eq!(
            validate_input(&config).unwrap_err().to_string(),
            format!("Input of type '{tag}': {message}")
        );
    }
}

#[test]
fn packet_identifiers_are_mapped_within_their_range() {
    let mapped = |from: u16, to: u16| {
        let mut c = rtp_in("0.0.0.0:5000");
        let mut map = BTreeMap::new();
        map.insert(0x0100, 0x0200);
        map.insert(from, to);
        c.pid_map = Some(map);
        InputConfig::Rtp(c)
    };
    assert!(validate_input(&mapped(0x0010, 0x1FFE)).is_ok());
    for (from, to) in [(0x000F, 0x0100), (0x0101, 0x1FFF)] {
        assert!(validate_input(&mapped(from, to)).is_err());
    }
}
