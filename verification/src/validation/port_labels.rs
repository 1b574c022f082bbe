//! How the components that bind ports are called in messages.

use vstd::prelude::*;

use super::ports;
use crate::addr;
use crate::models::{InputConfig, InputDefinition, OutputConfig};
use crate::tunnel::TunnelConfig;

verus! {

/// Whether the text is a socket address that is bound: unicast and with a port.
pub open spec fn is_bound(s: Seq<char>) -> bool {
    addr::socket_of(s) matches Some(at) && at.port != 0 && !at.ip.spec_is_multicast()
}

/// An input is called by its name and its protocol, and its second leg is told apart.
pub proof fn lemma_labels_of_inputs(input: InputDefinition)
    ensures
        ({
            let p = "Input '"@ + input.name@ + "'"@;
            let bs = ports::input_bindings(input);
            match input.config {
                InputConfig::Rtp(c) => {
                    &&& is_bound(c.bind_addr@) ==> bs[0].label == p + " (RTP)"@
                    &&& c.redundancy is Some && is_bound(c.redundancy->0.bind_addr@)
                        ==> bs.last().label == p + " (RTP redundancy leg 2)"@
                },
                InputConfig::St2110_30(c) => {
                    &&& is_bound(c.bind_addr@) ==> bs[0].label == p + " (ST 2110)"@
                    &&& c.redundancy is Some && is_bound(c.redundancy->0.addr@)
                        ==> bs.last().label == p + " (ST 2110 redundancy leg 2)"@
                },
                InputConfig::St2110_31(c) => {
                    &&& is_bound(c.bind_addr@) ==> bs[0].label == p + " (ST 2110)"@
                    &&& c.redundancy is Some && is_bound(c.redundancy->0.addr@)
                        ==> bs.last().label == p + " (ST 2110 redundancy leg 2)"@
                },
                InputConfig::St2110_40(c) => {
                    &&& is_bound(c.bind_addr@) ==> bs[0].label == p + " (ST 2110-40)"@
                    &&& c.redundancy is Some && is_bound(c.redundancy->0.addr@)
                        ==> bs.last().label == p + " (ST 2110-40 redundancy leg 2)"@
                },
                InputConfig::St2110_20(c) => {
                    &&& is_bound(c.bind_addr@) ==> bs[0].label == p + " (ST 2110-20)"@
                    &&& c.redundancy is Some && is_bound(c.redundancy->0.addr@)
                        ==> bs.last().label == p + " (ST 2110-20 leg 2)"@
                },
                InputConfig::RtpAudio(c) => {
                    &&& is_bound(c.bind_addr@) ==> bs[0].label == p + " (RTP audio)"@
                    &&& c.redundancy is Some && is_bound(c.redundancy->0.addr@)
                        ==> bs.last().label == p + " (RTP audio redundancy leg 2)"@
                },
                InputConfig::Udp(c) => is_bound(c.bind_addr@) ==> bs[0].label == p + " (UDP)"@,
                InputConfig::Rtmp(c) => is_bound(c.listen_addr@) ==> bs[0].label == p
                    + " (RTMP server)"@,
                InputConfig::Rist(c) => is_bound(c.bind_addr@) ==> bs[0].label == p
                    + " (RIST RTP)"@,
                InputConfig::Webrtc(c) => c.bind_addr is Some && is_bound(c.bind_addr->0@)
                    ==> bs[0].label == p + " (WebRTC)"@,
                InputConfig::Srt(c) => c.local_addr is Some && is_bound(c.local_addr->0@)
                    ==> bs[0].label == p + (if c.mode is Caller {
                    " (SRT caller)"@
                } else {
                    " (SRT listener)"@
                }),
                _ => true,
            }
        }),
{
    match input.config {
        InputConfig::Rtp(_) => {},
        InputConfig::St2110_30(_) => {},
        InputConfig::St2110_31(_) => {},
        InputConfig::St2110_40(_) => {},
        InputConfig::St2110_20(_) => {},
        InputConfig::RtpAudio(_) => {},
        _ => {},
    }
}

/// A tunnel is called by its name, and by its protocol or as a QUIC listener.
pub proof fn lemma_labels_of_tunnels(tunnel: TunnelConfig)
    requires
        tunnel.enabled,
    ensures
        tunnel.direction is Egress && is_bound(tunnel.local_addr@) ==> ports::tunnel_bindings(
            tunnel,
        )[0].label == "Tunnel '"@ + tunnel.name@ + "' ("@ + (if tunnel.protocol is Tcp {
            "TCP"@
        } else {
            "UDP"@
        }) + " egress)"@,
        tunnel.direction is Ingress && tunnel.mode is Direct && tunnel.direct_listen_addr is Some
            && is_bound(tunnel.direct_listen_addr->0@) ==> ports::tunnel_bindings(tunnel)[0].label
            == "Tunnel '"@ + tunnel.name@ + "' (direct QUIC listener)"@,
{
}

/// An output is called by its name and its protocol.
pub proof fn lemma_labels_of_outputs(output: OutputConfig)
    ensures
        ({
            let p = "Output '"@ + output.spec_name() + "'"@;
            let bs = ports::output_bindings(output);
            match output {
                OutputConfig::Rtp(c) => c.bind_addr is Some && is_bound(c.bind_addr->0@)
                    ==> bs[0].label == p + " (RTP)"@,
                OutputConfig::Udp(c) => c.bind_addr is Some && is_bound(c.bind_addr->0@)
                    ==> bs[0].label == p + " (UDP)"@,
                OutputConfig::Srt(c) => c.local_addr is Some && is_bound(c.local_addr->0@)
                    ==> bs[0].label == p + (if c.mode is Caller {
                    " (SRT caller)"@
                } else {
                    " (SRT listener)"@
                }),
                _ => true,
            }
        }),
{
    match output {
        OutputConfig::Rtp(_) => {},
        OutputConfig::Udp(_) => {},
        OutputConfig::Srt(_) => {},
        _ => {},
    }
}

} // verus!
