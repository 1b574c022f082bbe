//! What a configuration is refused for, as a whole.

use edge_config::audio_transcode::{BitDepth, InputFormat, TranscodeJson, TranscodeResolution};
use edge_config::auth::{AuthClient, AuthConfig};
use edge_config::binary::Binary64;
use edge_config::manager::ManagerConfig;
use edge_config::models::{
    AppConfig, BandwidthLimitAction, BandwidthLimitConfig, FlowConfig, FlowGroupConfig,
    InputConfig, InputDefinition, MonitorConfig, OutputConfig, RistInputConfig,
    RtpAudioInputConfig, RtpAudioOutputConfig, RtpInputConfig, RtpOutputConfig, TlsConfig,
};
use edge_config::validation::validate_config;
use edge_config::validation::inputs::validate_rtp_input_addr_family;
use edge_config::validation::outputs::validate_rtp_output_addr_family;

fn input(id: &str, config: InputConfig) -> InputDefinition {
    InputDefinition {
        active: true,
        id: id.to_string(),
        name: format!("Input {id}"),
        config,
        group: None,
    }
}

fn rtp_in(bind: &str) -> RtpInputConfig {
    RtpInputConfig {
        bind_addr: bind.to_string(),
        external_address: None,
        interface_addr: None,
        source_addr: None,
        fec_decode: None,
        tr07_mode: None,
        allowed_sources: None,
        allowed_payload_types: None,
        max_bitrate_mbps: None,
        redundancy: None,
        audio_encode: None,
        transcode: None,
        video_encode: None,
        program_number: None,
        pid_map: None,
        pid_overrides: None,
        interface_binding: None,
        ingress_delay_ms: None,
        ingress_dejitter_ms: None,
        passthrough_clock: None,
    }
}

fn rtp_out(id: &str, dest: &str) -> RtpOutputConfig {
    RtpOutputConfig {
        active: true,
        id: id.to_string(),
        name: format!("Output {id}"),
        dest_addr: dest.to_string(),
        dscp: 46,
        group: None,
        bind_addr: None,
        interface_addr: None,
        fec_encode: None,
        redundancy: None,
        program_number: None,
        pid_map: None,
        delay: None,
        audio_encode: None,
        transcode: None,
        video_encode: None,
        pid_overrides: None,
        cbr_pad_to_kbps: None,
        interface_binding: None,
        egress_pacing: None,
        egress_buffer_ms: None,
    }
}

fn flow(id: &str, inputs: &[&str], outputs: &[&str]) -> FlowConfig {
    FlowConfig {
        id: id.to_string(),
        name: format!("Flow {id}"),
        enabled: true,
        media_analysis: true,
        thumbnail: true,
        input_ids: inputs.iter().map(|s| s.to_string()).collect(),
        output_ids: outputs.iter().map(|s| s.to_string()).collect(),
        thumbnail_program_number: None,
        thumbnail_interval_secs: None,
        bandwidth_limit: None,
        flow_group_id: None,
        clock_domain: None,
        assembly: None,
        content_analysis: None,
        recording: None,
        master_clock: None,
        bandwidth_profile: None,
    }
}

fn config() -> AppConfig {
    let mut config = AppConfig::default();
    config.inputs.push(input("in-1", InputConfig::Rtp(rtp_in("0.0.0.0:5000"))));
    config.outputs.push(OutputConfig::Rtp(rtp_out("out-1", "127.0.0.1:5004")));
    config.flows.push(flow("f1", &["in-1"], &["out-1"]));
    config
}

/// The message that a change to a valid configuration is refused with.
fn refusal(change: impl FnOnce(&mut AppConfig)) -> String {
    let mut config = config();
    assert!(validate_config(&config).is_ok());
    change(&mut config);
    validate_config(&config).unwrap_err().to_string()
}

fn accepted(change: impl FnOnce(&mut AppConfig)) {
    let mut config = config();
    change(&mut config);
    assert_eq!(validate_config(&config), Ok(()));
}

fn monitor(addr: &str, port: u16) -> MonitorConfig {
    MonitorConfig {
        listen_addr: addr.to_string(),
        listen_port: port,
        listen_addrs: None,
    }
}

fn manager(url: &str) -> ManagerConfig {
    ManagerConfig {
        enabled: true,
        url: url.to_string(),
        accept_self_signed_cert: false,
        cert_fingerprint: None,
        registration_token: None,
        node_id: None,
        node_secret: None,
    }
}

fn auth() -> AuthConfig {
    AuthConfig {
        enabled: true,
        jwt_secret: "x".repeat(32),
        token_lifetime_secs: 3600,
        clients: vec![AuthClient {
            client_id: "ops".to_string(),
            client_secret: "s".to_string(),
            role: "admin".to_string(),
        }],
        nmos_require_auth: false,
    }
}

fn group(id: &str, flows: &[&str]) -> FlowGroupConfig {
    FlowGroupConfig {
        id: id.to_string(),
        name: format!("Group {id}"),
        flows: flows.iter().map(|s| s.to_string()).collect(),
        clock_domain: None,
    }
}

#[test]
fn the_dashboard_needs_an_address_of_its_own() {
    assert_eq!(
        refusal(|c| c.monitor = Some(monitor("nowhere", 9090))),
        "monitor listen address: invalid socket address 'nowhere:9090': invalid socket address syntax"
    );
    assert_eq!(
        refusal(|c| c.monitor = Some(monitor("127.0.0.1", 8080))),
        "Monitor listen address must differ from the API server address"
    );
    assert_eq!(
        refusal(|c| c.monitor = Some(monitor("0.0.0.0", 8080))),
        "Port conflict: Edge API server and Monitor dashboard both bind TCP port 8080. Change one of their addresses to avoid the conflict."
    );
    accepted(|c| c.monitor = Some(monitor("0.0.0.0", 9090)));
}

#[test]
fn the_server_needs_complete_tls_and_authentication_settings() {
    let tls = |cert: &str, key: &str| {
        Some(TlsConfig { cert_path: cert.to_string(), key_path: key.to_string() })
    };
    assert_eq!(refusal(|c| c.server.tls = tls("", "k")), "TLS cert_path cannot be empty");
    assert_eq!(refusal(|c| c.server.tls = tls("c", "")), "TLS key_path cannot be empty");
    accepted(|c| c.server.tls = tls("c", "k"));
    let with = |change: fn(&mut AuthConfig)| {
        let mut auth = auth();
        change(&mut auth);
        Some(auth)
    };
    assert_eq!(
        refusal(|c| c.server.auth = with(|a| a.jwt_secret = "x".repeat(31))),
        "Auth jwt_secret must be at least 32 characters for security"
    );
    assert_eq!(
        refusal(|c| c.server.auth = with(|a| a.clients.clear())),
        "Auth is enabled but no clients are configured"
    );
    assert_eq!(
        refusal(|c| c.server.auth = with(|a| a.clients[0].client_id.clear())),
        "Auth client_id cannot be empty"
    );
    assert_eq!(
        refusal(|c| c.server.auth = with(|a| a.clients[0].client_secret.clear())),
        "Auth client_secret cannot be empty"
    );
    assert_eq!(
        refusal(|c| c.server.auth = with(|a| a.clients[0].role = "root".to_string())),
        "Auth client 'ops': role must be 'admin' or 'monitor', got 'root'"
    );
    accepted(|c| c.server.auth = with(|a| a.clients[0].role = "monitor".to_string()));
    accepted(|c| {
        c.server.auth = with(|a| {
            a.enabled = false;
            a.clients.clear();
        })
    });
}

#[test]
fn the_node_name_and_the_manager_connection_have_limits() {
    assert_eq!(
        refusal(|c| c.device_name = Some("x".repeat(257))),
        "Device name must be at most 256 characters"
    );
    // A limit counts bytes.
    assert_eq!(
        refusal(|c| c.device_name = Some("ü".repeat(129))),
        "Device name must be at most 256 characters"
    );
    accepted(|c| c.device_name = Some("ü".repeat(128)));
    assert_eq!(
        refusal(|c| c.manager = Some(manager(""))),
        "Manager URL cannot be empty when manager is enabled"
    );
    assert_eq!(
        refusal(|c| c.manager = Some(manager("ws://manager"))),
        "Manager URL must start with wss:// (TLS required)"
    );
    assert_eq!(
        refusal(|c| c.manager = Some(manager(&format!("wss://{}", "m".repeat(2043))))),
        "Manager URL must be at most 2048 characters"
    );
    assert_eq!(
        refusal(|c| {
            let mut mgr = manager("wss://manager");
            mgr.registration_token = Some("t".repeat(4097));
            c.manager = Some(mgr);
        }),
        "Manager registration token must be at most 4096 characters"
    );
    accepted(|c| c.manager = Some(manager(&format!("wss://{}", "m".repeat(2042)))));
    accepted(|c| {
        let mut mgr = manager("ws://manager");
        mgr.enabled = false;
        c.manager = Some(mgr);
    });
}

#[test]
fn definitions_have_an_identifier_and_a_name() {
    assert_eq!(refusal(|c| c.inputs[0].id.clear()), "Input definition ID cannot be empty");
    assert_eq!(
        refusal(|c| c.inputs[0].id = "i".repeat(65)),
        "Input definition ID must be at most 64 characters"
    );
    assert_eq!(refusal(|c| c.inputs[0].name.clear()), "Input definition name cannot be empty");
    assert_eq!(
        refusal(|c| c.inputs[0].name = "n".repeat(257)),
        "Input definition name must be at most 256 characters"
    );
    assert_eq!(
        refusal(|c| c.inputs[0].group = Some("g".repeat(65))),
        "Input 'in-1': group tag must be at most 64 characters"
    );
    let output = |change: fn(&mut RtpOutputConfig)| {
        let mut out = rtp_out("out-1", "127.0.0.1:5004");
        change(&mut out);
        OutputConfig::Rtp(out)
    };
    assert_eq!(
        refusal(|c| c.outputs[0] = output(|o| o.id.clear())),
        "RTP output ID cannot be empty"
    );
    assert_eq!(
        refusal(|c| c.outputs[0] = output(|o| o.id = "i".repeat(65))),
        "RTP output ID must be at most 64 characters"
    );
    assert_eq!(
        refusal(|c| c.outputs[0] = output(|o| o.name.clear())),
        "RTP output name cannot be empty"
    );
    assert_eq!(
        refusal(|c| c.outputs[0] = output(|o| o.name = "n".repeat(257))),
        "RTP output name must be at most 256 characters"
    );
    assert_eq!(
        refusal(|c| c.outputs[0] = output(|o| o.group = Some("g".repeat(65)))),
        "Output 'out-1': group tag must be at most 64 characters"
    );
}

#[test]
fn identifiers_are_unique() {
    assert_eq!(
        refusal(|c| c.inputs.push(input("in-1", InputConfig::Rtp(rtp_in("0.0.0.0:5001"))))),
        "Duplicate top-level input ID: in-1"
    );
    assert_eq!(
        refusal(|c| c.outputs.push(OutputConfig::Rtp(rtp_out("out-1", "127.0.0.1:5006")))),
        "Duplicate top-level output ID: out-1"
    );
    assert_eq!(refusal(|c| c.flows.push(flow("f1", &[], &[]))), "Duplicate flow ID: f1");
    assert_eq!(
        refusal(|c| {
            c.flow_groups.push(group("g", &["f1"]));
            c.flow_groups.push(group("g", &["f1"]));
        }),
        "Duplicate flow group ID: g"
    );
}

#[test]
fn flows_have_their_own_rules() {
    assert_eq!(refusal(|c| c.flows[0].id.clear()), "Flow ID cannot be empty");
    assert_eq!(refusal(|c| c.flows[0].id = "f".repeat(65)), "Flow ID must be at most 64 characters");
    assert_eq!(refusal(|c| c.flows[0].name.clear()), "Flow name cannot be empty");
    assert_eq!(
        refusal(|c| c.flows[0].name = "f".repeat(257)),
        "Flow name must be at most 256 characters"
    );
    assert_eq!(
        refusal(|c| c.flows[0].thumbnail_program_number = Some(0)),
        "Flow 'f1' thumbnail: program_number must be > 0 (0 is reserved for the NIT)"
    );
    assert_eq!(
        refusal(|c| c.flows[0].flow_group_id = Some(String::new())),
        "Flow 'f1': flow_group_id must not be an empty string"
    );
    assert_eq!(
        refusal(|c| c.flows[0].flow_group_id = Some("g".repeat(65))),
        "Flow 'f1': flow_group_id must be at most 64 characters"
    );
    assert_eq!(
        refusal(|c| c.flows[0].clock_domain = Some(128)),
        "Flow 'f1': clock_domain must be 0-127 (IEEE 1588), got 128"
    );
    assert_eq!(
        refusal(|c| c.flows[0].input_ids.push(String::new())),
        "Flow 'f1': input_ids must not contain empty strings"
    );
    let long = "x".repeat(65);
    assert_eq!(
        refusal(|c| c.flows[0].input_ids.push("x".repeat(65))),
        format!("Flow 'f1': input_id '{long}' must be at most 64 characters")
    );
    assert_eq!(
        refusal(|c| c.flows[0].output_ids.push(String::new())),
        "Flow 'f1': output_ids must not contain empty strings"
    );
    assert_eq!(
        refusal(|c| c.flows[0].output_ids.push("x".repeat(65))),
        format!("Flow 'f1': output_id '{long}' must be at most 64 characters")
    );
}

fn limit(rate: f64, grace: u32) -> Option<BandwidthLimitConfig> {
    Some(BandwidthLimitConfig {
        max_bitrate_mbps: Binary64::new(rate.to_bits(), &rate.to_string()),
        action: BandwidthLimitAction::Alarm,
        grace_period_secs: grace,
    })
}

#[test]
fn bandwidth_limits_have_bounds() {
    assert_eq!(
        refusal(|c| c.flows[0].bandwidth_limit = limit(0.0, 5)),
        "Flow 'f1': bandwidth_limit max_bitrate_mbps must be positive, got 0"
    );
    assert_eq!(
        refusal(|c| c.flows[0].bandwidth_limit = limit(-2.5, 5)),
        "Flow 'f1': bandwidth_limit max_bitrate_mbps must be positive, got -2.5"
    );
    assert_eq!(
        refusal(|c| c.flows[0].bandwidth_limit = limit(10_000.5, 5)),
        "Flow 'f1': bandwidth_limit max_bitrate_mbps must be at most 10000 (10 Gbps), got 10000.5"
    );
    assert_eq!(
        refusal(|c| c.flows[0].bandwidth_limit = limit(20.0, 0)),
        "Flow 'f1': bandwidth_limit grace_period_secs must be at least 1, got 0"
    );
    assert_eq!(
        refusal(|c| c.flows[0].bandwidth_limit = limit(20.0, 61)),
        "Flow 'f1': bandwidth_limit grace_period_secs must be at most 60, got 61"
    );
    accepted(|c| c.flows[0].bandwidth_limit = limit(10_000.0, 60));
    accepted(|c| c.flows[0].bandwidth_limit = limit(f64::NAN, 1));
}

#[test]
fn what_a_flow_names_must_exist_and_be_free() {
    assert_eq!(
        refusal(|c| c.flows[0].input_ids.push("in-1".to_string())),
        "Flow 'f1': duplicate input_id reference 'in-1'"
    );
    assert_eq!(
        refusal(|c| c.flows[0].input_ids.push("in-9".to_string())),
        "Flow 'f1': input_id 'in-9' does not reference a defined top-level input"
    );
    assert_eq!(
        refusal(|c| c.flows.push(flow("f2", &["in-1"], &[]))),
        "Flow 'f2': input 'in-1' is already assigned to another flow"
    );
    assert_eq!(
        refusal(|c| c.flows[0].output_ids.push("out-1".to_string())),
        "Flow 'f1': duplicate output_id reference 'out-1'"
    );
    assert_eq!(
        refusal(|c| c.flows[0].output_ids.push("out-9".to_string())),
        "Flow 'f1': output_id 'out-9' does not reference a defined top-level output"
    );
    assert_eq!(
        refusal(|c| c.flows.push(flow("f2", &[], &["out-1"]))),
        "Flow 'f2': output 'out-1' is already assigned to another flow"
    );
}

#[test]
fn at_most_one_input_of_a_flow_is_active() {
    let second = |active: bool| {
        let mut def = input("in-2", InputConfig::Rtp(rtp_in("0.0.0.0:5001")));
        def.active = active;
        def
    };
    assert_eq!(
        refusal(|c| {
            c.inputs.push(second(true));
            c.flows[0].input_ids.push("in-2".to_string());
        }),
        "Flow 'f1': at most one input may be active at a time, found 2"
    );
    accepted(|c| {
        c.inputs.push(second(false));
        c.flows[0].input_ids.push("in-2".to_string());
    });
}

#[test]
fn flow_groups_and_their_members_agree() {
    assert_eq!(
        refusal(|c| c.flow_groups.push(group("", &["f1"]))),
        "Flow group ID cannot be empty"
    );
    assert_eq!(
        refusal(|c| c.flow_groups.push(group("g", &[]))),
        "Flow group 'g' must reference at least one flow"
    );
    assert_eq!(
        refusal(|c| {
            let mut g = group("g", &["f1"]);
            g.clock_domain = Some(200);
            c.flow_groups.push(g);
        }),
        "Flow group 'g': clock_domain must be 0-127 (IEEE 1588), got 200"
    );
    assert_eq!(
        refusal(|c| c.flow_groups.push(group("g", &["f1", "f1"]))),
        "Flow group 'g': duplicate member flow ID 'f1'"
    );
    let long = "x".repeat(65);
    assert_eq!(
        refusal(|c| c.flow_groups.push(group("g", &[&"x".repeat(65)]))),
        format!("Flow group 'g': member flow ID '{long}' is too long (max 64)")
    );
    assert_eq!(
        refusal(|c| c.flow_groups.push(group("g", &["f9"]))),
        "Flow group 'g': member flow ID 'f9' does not reference a defined flow"
    );
    assert_eq!(
        refusal(|c| c.flows[0].flow_group_id = Some("g".to_string())),
        "Flow 'f1' references flow_group_id 'g' which is not defined"
    );
    assert_eq!(
        refusal(|c| {
            c.flows.push(flow("f2", &[], &[]));
            c.flow_groups.push(group("g", &["f2"]));
            c.flows[0].flow_group_id = Some("g".to_string());
        }),
        "Flow 'f1' references flow_group_id 'g' but is not a member of that group"
    );
    accepted(|c| {
        c.flow_groups.push(group("g", &["f1"]));
        c.flows[0].flow_group_id = Some("g".to_string());
    });
}

fn rist_in(bind: &str) -> InputConfig {
    InputConfig::Rist(RistInputConfig {
        bind_addr: bind.to_string(),
        external_address: None,
        buffer_ms: None,
        max_nack_retries: None,
        cname: None,
        rtcp_interval_ms: None,
        redundancy: None,
        audio_encode: None,
        transcode: None,
        video_encode: None,
        program_number: None,
        pid_map: None,
        pid_overrides: None,
        interface_binding: None,
        passthrough_clock: None,
    })
}

#[test]
fn ports_are_bound_once() {
    assert_eq!(
        refusal(|c| c.inputs.push(input("in-2", InputConfig::Rtp(rtp_in("127.0.0.1:5000"))))),
        "Port conflict: Input 'Input in-1' (RTP) and Input 'Input in-2' (RTP) both bind UDP port 5000. Change one of their addresses to avoid the conflict."
    );
    // RIST binds the next port too.
    assert_eq!(
        refusal(|c| {
            c.inputs[0].config = InputConfig::Rtp(rtp_in("0.0.0.0:5001"));
            c.inputs.push(input("in-2", rist_in("0.0.0.0:5000")));
        }),
        "Port conflict: Input 'Input in-1' (RTP) and Input 'Input in-2' (RIST RTCP) both bind UDP port 5001. Change one of their addresses to avoid the conflict."
    );
    // Different addresses, an ephemeral port, and different protocols.
    accepted(|c| {
        c.inputs[0].config = InputConfig::Rtp(rtp_in("10.0.0.1:5000"));
        c.inputs.push(input("in-2", InputConfig::Rtp(rtp_in("10.0.0.2:5000"))));
    });
    accepted(|c| {
        c.inputs[0].config = InputConfig::Rtp(rtp_in("0.0.0.0:0"));
        c.inputs.push(input("in-2", InputConfig::Rtp(rtp_in("0.0.0.0:0"))));
    });
    accepted(|c| c.inputs[0].config = InputConfig::Rtp(rtp_in("0.0.0.0:8080")));
    accepted(|c| c.inputs.push(input("in-2", rist_in("0.0.0.0:65534"))));
}

#[test]
fn an_accepted_configuration_resolves() {
    let config = config();
    assert!(validate_config(&config).is_ok());
    let resolved = config.resolve_flow(&config.flows[0]).unwrap();
    assert_eq!(resolved.active_input().unwrap().id, "in-1");
    assert_eq!(config.flow_using_input("in-1").unwrap().id, "f1");
    assert_eq!(config.flow_using_output("out-1").unwrap().id, "f1");
    let mut broken = config.clone();
    broken.flows[0].output_ids.push("out-9".to_string());
    assert_eq!(
        broken.resolve_flow(&broken.flows[0]).unwrap_err().to_string(),
        "Flow 'f1' references output 'out-9' which does not exist"
    );
    broken.flows[0].input_ids[0] = "in-9".to_string();
    assert_eq!(
        broken.resolve_flow(&broken.flows[0]).unwrap_err().to_string(),
        "Flow 'f1' references input 'in-9' which does not exist"
    );
}

#[test]
fn outputs_are_checked_against_the_audio_that_reaches_them() {
    let verdict = |bits: BitDepth, channels: u8, fault: &str| TranscodeResolution {
        input: InputFormat { sample_rate: 48_000, bit_depth: bits, channels },
        fault: Some(fault.to_string()),
    };
    let block = TranscodeJson {
        channel_map_preset: Some("stereo_to_5_1".to_string()),
        resolutions: vec![verdict(BitDepth::L24, 2, "two"), verdict(BitDepth::L16, 8, "eight")],
        sample_rate: None,
        bit_depth: None,
        channels: None,
        packet_time_us: None,
        payload_type: None,
        channel_map: None,
    };
    let out = RtpAudioOutputConfig {
        active: true,
        id: "out-1".to_string(),
        name: "Audio".to_string(),
        dest_addr: "127.0.0.1:5004".to_string(),
        sample_rate: 48_000,
        bit_depth: 24,
        channels: 4,
        packet_time_us: 1_000,
        payload_type: 97,
        dscp: 46,
        transcode: Some(block),
        group: None,
        bind_addr: None,
        interface_addr: None,
        redundancy: None,
        ssrc: None,
        audio_track_index: None,
        transport_mode: None,
        pid_overrides: None,
        interface_binding: None,
    };
    let source = RtpAudioInputConfig {
        bind_addr: "0.0.0.0:5000".to_string(),
        sample_rate: 48_000,
        bit_depth: 16,
        channels: 8,
        packet_time_us: 1_000,
        payload_type: 97,
        interface_addr: None,
        source_addr: None,
        redundancy: None,
        allowed_sources: None,
        transcode: None,
        audio_encode: None,
        pid_overrides: None,
        interface_binding: None,
    };
    let mut config = config();
    config.outputs[0] = OutputConfig::RtpAudio(out);
    // On its own the output is asked with four channels, and nothing is wrong.
    assert!(validate_config(&config).is_ok());
    config.inputs[0].config = InputConfig::RtpAudio(source);
    assert_eq!(
        validate_config(&config).unwrap_err().to_string(),
        "rtp_audio output 'out-1' transcode: eight"
    );
    config.inputs[0].active = false;
    assert!(validate_config(&config).is_ok());
}

#[test]
fn the_default_configuration_is_accepted() {
    assert_eq!(validate_config(&AppConfig::default()), Ok(()));
}

#[test]
fn address_families_are_compared_of_addresses_only() {
    let mut rtp = rtp_in("nowhere");
    assert_eq!(validate_rtp_input_addr_family(&rtp), Ok(()));
    rtp.interface_addr = Some("eth0".to_string());
    assert_eq!(
        validate_rtp_input_addr_family(&rtp).unwrap_err().to_string(),
        "invalid socket address syntax"
    );
    rtp.bind_addr = "0.0.0.0:1".to_string();
    assert_eq!(
        validate_rtp_input_addr_family(&rtp).unwrap_err().to_string(),
        "invalid IP address syntax"
    );
    let out = rtp_out("o", "nowhere");
    assert_eq!(
        validate_rtp_output_addr_family(&out).unwrap_err().to_string(),
        "invalid socket address syntax"
    );
}
