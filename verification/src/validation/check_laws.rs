//! That the checks answer what the rules say.

use vstd::prelude::*;

use super::{encode, flows, inputs, outputs, ports, tunnels};
use crate::error::ConfigError;
use crate::models::{
    AppConfig, AudioEncodeConfig, FlowConfig, InputConfig, InputDefinition, OutputConfig,
    VideoEncodeConfig,
};
use crate::tunnel::TunnelConfig;

verus! {

/// The check of a configuration accepts it exactly when its rules do, and otherwise says why.
pub proof fn lemma_config_check_decides(config: &AppConfig, r: Result<(), ConfigError>)
    requires
        call_ensures(super::validate_config, (config,), r),
    ensures
        r is Ok <==> super::config_fault(*config) is None,
        r is Err ==> super::config_fault(*config) == Some(r->Err_0.message@),
{
}

/// The check of the ports accepts them exactly when their rule does, and otherwise says why.
pub proof fn lemma_port_check_decides(config: &AppConfig, r: Result<(), ConfigError>)
    requires
        call_ensures(ports::validate_port_conflicts, (config,), r),
    ensures
        r is Ok <==> ports::port_conflicts_fault(*config) is None,
        r is Err ==> ports::port_conflicts_fault(*config) == Some(r->Err_0.message@),
{
}

/// The check of an input accepts it exactly when its rules do, and otherwise says why.
pub proof fn lemma_input_check_decides(input: &InputConfig, r: Result<(), ConfigError>)
    requires
        call_ensures(inputs::validate_input, (input,), r),
    ensures
        r is Ok <==> inputs::input_fault(*input) is None,
        r is Err ==> inputs::input_fault(*input) == Some(r->Err_0.message@),
{
}

/// The check of an input definition accepts it exactly when its rules do, and otherwise
/// says why.
pub proof fn lemma_input_definition_check_decides(def: &InputDefinition, r: Result<(), ConfigError>)
    requires
        call_ensures(inputs::validate_input_definition, (def,), r),
    ensures
        r is Ok <==> inputs::input_definition_fault(*def) is None,
        r is Err ==> inputs::input_definition_fault(*def) == Some(r->Err_0.message@),
{
}

/// The check of an output accepts it exactly when its rules do, and otherwise says why.
pub proof fn lemma_output_check_decides(output: &OutputConfig, r: Result<(), ConfigError>)
    requires
        call_ensures(outputs::validate_output, (output,), r),
    ensures
        r is Ok <==> outputs::output_fault(*output, None) is None,
        r is Err ==> outputs::output_fault(*output, None) == Some(r->Err_0.message@),
{
}

/// The check of a flow accepts it exactly when its rules do, and otherwise says why.
pub proof fn lemma_flow_check_decides(flow: &FlowConfig, r: Result<(), ConfigError>)
    requires
        call_ensures(flows::validate_flow, (flow,), r),
    ensures
        r is Ok <==> flows::flow_fault(*flow) is None,
        r is Err ==> flows::flow_fault(*flow) == Some(r->Err_0.message@),
{
}

/// The check of a tunnel accepts it exactly when its rules do, and otherwise says why.
pub proof fn lemma_tunnel_check_decides(tunnel: &TunnelConfig, r: Result<(), ConfigError>)
    requires
        call_ensures(tunnels::validate_tunnel, (tunnel,), r),
    ensures
        r is Ok <==> tunnels::tunnel_fault(*tunnel) is None,
        r is Err ==> tunnels::tunnel_fault(*tunnel) == Some(r->Err_0.message@),
{
}

/// The check of an output next to the audio that reaches it accepts it exactly when its
/// rules do for that audio, and otherwise says why.
pub proof fn lemma_fed_output_check_decides(
    output: &OutputConfig,
    upstream: Option<(u32, u8, u8)>,
    r: Result<(), ConfigError>,
)
    requires
        call_ensures(outputs::validate_output_with_input, (output, upstream), r),
    ensures
        r is Ok <==> outputs::output_fault(*output, upstream) is None,
        r is Err ==> outputs::output_fault(*output, upstream) == Some(r->Err_0.message@),
{
}

/// The check of a video encoding block accepts it exactly when its rules do, and otherwise
/// says why.
pub proof fn lemma_video_check_decides(
    enc: &VideoEncodeConfig,
    context: &str,
    r: Result<(), ConfigError>,
)
    requires
        call_ensures(encode::validate_video_encode, (enc, context), r),
    ensures
        r is Ok <==> encode::video_encode_fault(*enc, context@) is None,
        r is Err ==> encode::video_encode_fault(*enc, context@) == Some(r->Err_0.message@),
{
}

/// The check of an audio encoding block accepts it exactly when its rules do, and otherwise
/// says why.
pub proof fn lemma_audio_check_decides(
    enc: &AudioEncodeConfig,
    allowed: &[&str],
    context: &str,
    r: Result<(), ConfigError>,
)
    requires
        call_ensures(encode::validate_audio_encode, (enc, allowed, context), r),
    ensures
        r is Ok <==> encode::audio_encode_fault(*enc, allowed@, context@) is None,
        r is Err
            ==> encode::audio_encode_fault(*enc, allowed@, context@) == Some(r->Err_0.message@),
{
}

} // verus!
