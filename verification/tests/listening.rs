//! Which ports are taken.

use edge_config::defaults::{default_latency, default_peer_idle_timeout};
use edge_config::models::{
    AppConfig, BondPathConfig, BondPathTransportConfig, BondRistRole, BondedInputConfig,
    InputConfig, InputDefinition, MonitorConfig, OutputConfig, RtmpInputConfig, RtpOutputConfig,
    RtpOutputRedundancyConfig, SrtBondingConfig, SrtBondingEndpoint, SrtBondingMode,
    SrtInputConfig, SrtMode, St2110AudioOutputConfig, UdpInputConfig, UdpOutputConfig,
    WebrtcInputConfig,
};
use edge_config::validation::validate_config;
use edge_config::validation::ports::validate_port_conflicts;

fn input(id: &str, config: InputConfig) -> InputDefinition {
    InputDefinition {
        active: true,
        id: id.to_string(),
        name: format!("Input {id}"),
        config,
        group: None,
    }
}

fn rtp_out(id: &str, dest: &str) -> RtpOutputConfig {
    RtpOutputConfig {
        active: true,
        id: id.to_string(),
        name: format!("Output {id}"),
        dest_addr: dest.to_string(),
        dscp: 46,
        group: None,
        bind_addr: None,
        interface_addr: None,
        fec_encode: None,
        redundancy: None,
        program_number: None,
        pid_map: None,
        delay: None,
        audio_encode: None,
        transcode: None,
        video_encode: None,
        pid_overrides: None,
        cbr_pad_to_kbps: None,
        interface_binding: None,
        egress_pacing: None,
        egress_buffer_ms: None,
    }
}

fn udp_in(bind: &str) -> InputConfig {
    InputConfig::Udp(UdpInputConfig {
        bind_addr: bind.to_string(),
        external_address: None,
        interface_addr: None,
        source_addr: None,
        audio_encode: None,
        transcode: None,
        video_encode: None,
        program_number: None,
        pid_map: None,
        pid_overrides: None,
        interface_binding: None,
        ingress_delay_ms: None,
        ingress_dejitter_ms: None,
        passthrough_clock: None,
    })
}

fn udp_out(bind: Option<&str>) -> OutputConfig {
    OutputConfig::Udp(UdpOutputConfig {
        id: "o".to_string(),
        name: "o".to_string(),
        active: true,
        dest_addr: "127.0.0.1:6000".to_string(),
        bind_addr: bind.map(|b| b.to_string()),
        dscp: 46,
        group: None,
        interface_addr: None,
        program_number: None,
        pid_map: None,
        transport_mode: None,
        delay: None,
        audio_encode: None,
        transcode: None,
        video_encode: None,
        pid_overrides: None,
        cbr_pad_to_kbps: None,
        interface_binding: None,
        egress_pacing: None,
        egress_buffer_ms: None,
    })
}

fn node(input_config: InputConfig, output: OutputConfig) -> AppConfig {
    let mut config = AppConfig::default();
    config.inputs.push(input("in", input_config));
    config.outputs.push(output);
    config
}

fn conflict(config: &AppConfig) -> String {
    validate_port_conflicts(config).unwrap_err().to_string()
}

fn free(config: &AppConfig) -> bool {
    validate_port_conflicts(config).is_ok()
}

#[test]
fn an_output_may_not_send_from_a_port_that_is_taken() {
    let c = node(udp_in("0.0.0.0:5000"), udp_out(Some("0.0.0.0:5000")));
    assert_eq!(
        conflict(&c),
        "Port conflict: Input 'Input in' (UDP) and Output 'o' (UDP) both bind UDP port 5000. Change one of their addresses to avoid the conflict."
    );
    assert!(free(&node(udp_in("0.0.0.0:5000"), udp_out(Some("0.0.0.0:0")))));
    assert!(free(&node(udp_in("0.0.0.0:5000"), udp_out(None))));
    assert!(free(&node(udp_in("10.0.0.1:5000"), udp_out(Some("10.0.0.2:5000")))));
}

#[test]
fn every_output_that_binds_is_seen() {
    let audio = St2110AudioOutputConfig {
        id: "a".to_string(),
        name: "a".to_string(),
        active: true,
        dest_addr: "239.1.1.1:5004".to_string(),
        bind_addr: Some("0.0.0.0:5000".to_string()),
        sample_rate: 48_000,
        bit_depth: 24,
        channels: 2,
        packet_time_us: 1000,
        payload_type: 97,
        dscp: 46,
        group: None,
        interface_addr: None,
        redundancy: None,
        clock_domain: None,
        ssrc: None,
        transcode: None,
        audio_track_index: None,
        interface_binding: None,
    };
    let mut rtp = rtp_out("r", "10.0.0.1:5004");
    rtp.redundancy = Some(RtpOutputRedundancyConfig {
        dest_addr: "10.0.0.2:5004".to_string(),
        bind_addr: Some("0.0.0.0:5000".to_string()),
        interface_addr: None,
        dscp: None,
        interface_binding: None,
    });
    let mut first_leg = rtp_out("r", "10.0.0.1:5004");
    first_leg.bind_addr = Some("0.0.0.0:5000".to_string());
    let outputs = [
        (OutputConfig::Rtp(first_leg), "Output 'Output r' (RTP)"),
        (OutputConfig::Rtp(rtp), "Output 'Output r' (RTP redundancy leg 2)"),
        (OutputConfig::St2110_30(audio.clone()), "Output 'a' (ST 2110)"),
        (OutputConfig::St2110_31(audio), "Output 'a' (ST 2110)"),
    ];
    for (output, label) in outputs {
        assert!(conflict(&node(udp_in("0.0.0.0:5000"), output)).contains(label));
    }
}

#[test]
fn a_whip_server_port_is_seen() {
    let webrtc = InputConfig::Webrtc(WebrtcInputConfig {
        bind_addr: Some("0.0.0.0:7000".to_string()),
        video_only: false,
        bearer_token: None,
        public_ip: None,
        stun_server: None,
        audio_encode: None,
        transcode: None,
        video_encode: None,
        program_number: None,
        pid_map: None,
        pid_overrides: None,
    });
    let mut c = node(webrtc, udp_out(Some("0.0.0.0:7000")));
    assert!(!free(&c));
    c.outputs[0] = udp_out(Some("0.0.0.0:7001"));
    assert!(free(&c));
}

#[test]
fn the_list_of_listen_addresses_is_in_force() {
    let tcp_in = |bind: &str| {
        InputConfig::Rtmp(RtmpInputConfig {
            listen_addr: bind.to_string(),
            app: "live".to_string(),
            max_publishers: 1,
            external_address: None,
            stream_key: None,
            audio_encode: None,
            transcode: None,
            video_encode: None,
            program_number: None,
            pid_map: None,
            pid_overrides: None,
            ingress_delay_ms: None,
            passthrough_clock: None,
        })
    };
    let mut c = node(tcp_in("127.0.0.1:8080"), udp_out(None));
    c.server.listen_addr = "0.0.0.0".to_string();
    c.server.listen_port = 8080;
    assert!(!free(&c));
    c.server.listen_addrs = Some(vec!["10.0.0.1".to_string()]);
    assert!(free(&c));
    c.server.listen_addrs = Some(vec!["10.0.0.1".to_string(), "127.0.0.1".to_string()]);
    assert!(!free(&c));
}

#[test]
fn a_server_may_listen_on_both_families() {
    let mut c = AppConfig::default();
    c.server.listen_port = 8080;
    c.server.listen_addrs = Some(vec!["0.0.0.0".to_string(), "::".to_string()]);
    assert!(free(&c));
    c.monitor = Some(MonitorConfig {
        listen_addr: "127.0.0.1".to_string(),
        listen_addrs: Some(vec!["10.0.0.1".to_string()]),
        listen_port: 8080,
    });
    assert!(!free(&c));
    c.monitor.as_mut().unwrap().listen_port = 9090;
    assert!(free(&c));
    assert!(validate_config(&c).is_ok());
}

#[test]
fn the_dashboard_keeps_off_every_server_address() {
    let mut c = AppConfig::default();
    c.server.listen_port = 8080;
    c.server.listen_addrs = Some(vec!["10.0.0.1".to_string()]);
    c.monitor = Some(MonitorConfig {
        listen_addr: "10.0.0.2".to_string(),
        listen_addrs: Some(vec!["10.0.0.2".to_string(), "10.0.0.1".to_string()]),
        listen_port: 8080,
    });
    assert!(validate_config(&c).is_err());
    c.monitor.as_mut().unwrap().listen_addrs = Some(vec!["10.0.0.2".to_string()]);
    assert!(validate_config(&c).is_ok());
}

fn srt_in(mode: SrtMode, local: &str) -> SrtInputConfig {
    SrtInputConfig {
        mode,
        local_addr: Some(local.to_string()),
        remote_addr: Some("10.0.0.9:9000".to_string()),
        external_address: None,
        latency_ms: default_latency(),
        recv_latency_ms: None,
        peer_latency_ms: None,
        peer_idle_timeout_secs: default_peer_idle_timeout(),
        passphrase: None,
        aes_key_len: None,
        crypto_mode: None,
        max_rexmit_bw: None,
        stream_id: None,
        packet_filter: None,
        max_bw: None,
        input_bw: None,
        overhead_bw: None,
        enforced_encryption: None,
        connect_timeout_secs: None,
        flight_flag_size: None,
        send_buffer_size: None,
        recv_buffer_size: None,
        ip_tos: None,
        retransmit_algo: None,
        send_drop_delay: None,
        loss_max_ttl: None,
        km_refresh_rate: None,
        km_pre_announce: None,
        payload_size: None,
        mss: None,
        tlpkt_drop: None,
        ip_ttl: None,
        redundancy: None,
        bonding: None,
        transport_mode: None,
        audio_encode: None,
        transcode: None,
        video_encode: None,
        program_number: None,
        pid_map: None,
        pid_overrides: None,
        interface_binding: None,
        ingress_delay_ms: None,
        passthrough_clock: None,
    }
}

#[test]
fn a_caller_keeps_off_the_port_of_an_input() {
    let srt = |mode: SrtMode, local: &str| InputConfig::Srt(srt_in(mode, local));
    let c = node(srt(SrtMode::Caller, "0.0.0.0:5000"), udp_out(Some("0.0.0.0:5000")));
    assert!(conflict(&c).contains("Input 'Input in' (SRT caller)"));
    assert!(free(&node(srt(SrtMode::Caller, "0.0.0.0:0"), udp_out(Some("0.0.0.0:5000")))));
}

#[test]
fn legs_of_a_bond_are_seen() {
    let leg = |transport: BondPathTransportConfig| BondPathConfig {
        id: 1,
        name: "lte".to_string(),
        weight_hint: 1,
        transport,
        max_bitrate_bps: None,
        fec: None,
    };
    let bonded = |transport: BondPathTransportConfig| {
        InputConfig::Bonded(BondedInputConfig {
            bond_flow_id: 7,
            paths: vec![leg(transport)],
            hold_ms: None,
            hold_max_ms: None,
            nack_delay_ms: None,
            max_nack_retries: None,
            keepalive_ms: None,
            encryption_key: None,
            fec: None,
            ingress_dejitter_ms: None,
            equalization: None,
            max_bonding_latency_ms: None,
        })
    };
    let udp = BondPathTransportConfig::Udp {
        bind: Some("0.0.0.0:5000".to_string()),
        remote: None,
        interface: None,
        gateway: None,
        source: None,
    };
    let rist = |bind: &str| BondPathTransportConfig::Rist {
        role: BondRistRole::Receiver,
        remote: None,
        local_bind: Some(bind.to_string()),
        buffer_ms: None,
    };
    assert!(!free(&node(bonded(udp), udp_out(Some("0.0.0.0:5000")))));
    assert!(!free(&node(bonded(rist("0.0.0.0:4998")), udp_out(Some("0.0.0.0:4999")))));
    assert!(free(&node(bonded(rist("0.0.0.0:0")), udp_out(Some("0.0.0.0:1")))));
}

fn srt_group(mode: SrtMode, local: &str, members: &[(&str, Option<&str>)]) -> InputConfig {
    let mut c = srt_in(mode, local);
    c.bonding = Some(SrtBondingConfig {
        mode: SrtBondingMode::Broadcast,
        endpoints: members
            .iter()
            .map(|(addr, local)| SrtBondingEndpoint {
                addr: addr.to_string(),
                local_addr: local.map(|l| l.to_string()),
                weight: None,
                interface_binding: None,
            })
            .collect(),
    });
    InputConfig::Srt(c)
}

#[test]
fn members_of_a_listening_group_are_seen() {
    let members = [("0.0.0.0:9000", None), ("0.0.0.0:9001", None)];
    let group = || srt_group(SrtMode::Listener, "0.0.0.0:9000", &members);
    assert!(free(&node(group(), udp_out(None))));
    let c = node(group(), udp_out(Some("0.0.0.0:9001")));
    assert!(conflict(&c).contains("Input 'Input in' (SRT bonding member)"));
    let c = node(group(), udp_out(Some("0.0.0.0:9000")));
    assert!(conflict(&c).contains("Input 'Input in' (SRT listener)"));
    let mut c = node(group(), udp_out(None));
    c.inputs.push(input("other", udp_in("0.0.0.0:9001")));
    assert!(!free(&c));
    let twice = [("0.0.0.0:9001", None), ("0.0.0.0:9001", None)];
    assert!(!free(&node(srt_group(SrtMode::Listener, "0.0.0.0:9000", &twice), udp_out(None))));
}

#[test]
fn members_of_a_calling_group_are_seen_where_they_are_bound() {
    let members = [("10.0.0.1:9000", Some("0.0.0.0:7001")), ("10.0.0.2:9000", None)];
    let group = || srt_group(SrtMode::Caller, "0.0.0.0:0", &members);
    assert!(free(&node(group(), udp_out(Some("0.0.0.0:9000")))));
    let c = node(group(), udp_out(Some("0.0.0.0:7001")));
    assert!(conflict(&c).contains("Input 'Input in' (SRT bonding member)"));
}
