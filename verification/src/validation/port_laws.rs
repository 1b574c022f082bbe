//! Which local addresses the components of a configuration take, and that no two
//! of them compete for one.

use vstd::prelude::*;

use super::ports;
use super::ports::{Binding, Proto};
use crate::addr;
use crate::addr::SocketAddress;
use crate::error;
use crate::kinds;
use crate::models::{
    AppConfig, BondPathConfig, BondPathTransportConfig, BondedInputConfig, BondedOutputConfig,
    InputConfig, InputDefinition, OutputConfig, RedBlueBindConfig, RtpInputConfig, RtpRedundancyConfig, SrtBondingConfig, SrtBondingEndpoint,
    SrtMode, SrtRedundancyConfig, St2110_23InputConfig, St2110_23SubStreamBind,
    St2110_23SubStreamDest, UdpInputConfig,
};
use crate::text;
use crate::tunnel::{TunnelConfig, TunnelDirection, TunnelProtocol};

verus! {

// ---------------------------------------------------------------------------
// Addresses that are taken
// ---------------------------------------------------------------------------

/// Whether two sockets of one protocol compete: they ask for the same port, which
/// the operating system does not pick, neither joins a multicast group, and they
/// ask for the same address or one of them for all addresses.
pub open spec fn compete(a: SocketAddress, b: SocketAddress) -> bool {
    &&& a.port == b.port
    &&& a.port != 0
    &&& !a.ip.spec_is_multicast()
    &&& !b.ip.spec_is_multicast()
    &&& a.ip == b.ip || a.ip.spec_is_unspecified() || b.ip.spec_is_unspecified()
}

/// Whether the text is the socket address `at`.
pub open spec fn reads(s: Seq<char>, at: SocketAddress) -> bool {
    addr::socket_of(s) == Some(at)
}

/// Whether the text is there and is the socket address `at`.
pub open spec fn is_set_to(s: Option<String>, at: SocketAddress) -> bool {
    s is Some && addr::socket_of(s->0@) == Some(at)
}

/// Whether `at` is the port after that of the text's socket address.
pub open spec fn follows(s: Seq<char>, at: SocketAddress) -> bool {
    addr::socket_of(s) matches Some(first) && first.port != 0 && at.ip == first.ip && at.port
        == first.port.wrapping_add(1)
}

/// Whether a leg of a bond takes `at`: the receiving side of a QUIC leg listens,
/// the sending side may be given a source.
pub open spec fn path_takes(path: BondPathConfig, receiver: bool, at: SocketAddress) -> bool {
    match path.transport {
        BondPathTransportConfig::Udp { bind, .. } => is_set_to(bind, at),
        BondPathTransportConfig::Rist { local_bind, .. } => local_bind is Some && (reads(
            local_bind->0@,
            at,
        ) || follows(local_bind->0@, at)),
        BondPathTransportConfig::Quic { addr, bind, .. } => if receiver {
            reads(addr@, at)
        } else {
            is_set_to(bind, at)
        },
        BondPathTransportConfig::Relay { .. } => false,
    }
}

/// Whether a member of an SRT bonding group takes `at`.
pub open spec fn member_takes(mode: SrtMode, member: SrtBondingEndpoint, at: SocketAddress) -> bool {
    if mode is Listener {
        reads(member.addr@, at)
    } else {
        is_set_to(member.local_addr, at)
    }
}

/// Whether an SRT bonding group takes `at`.
pub open spec fn group_takes(
    mode: SrtMode,
    bonding: Option<SrtBondingConfig>,
    at: SocketAddress,
) -> bool {
    bonding is Some && exists|k: int|
        0 <= k < bonding->0.endpoints@.len() && member_takes(
            mode,
            #[trigger] bonding->0.endpoints@[k],
            at,
        )
}

/// Whether an input takes the UDP address `at`.
pub open spec fn input_takes_udp(input: InputConfig, at: SocketAddress) -> bool {
    match input {
        InputConfig::Rtp(c) => reads(c.bind_addr@, at) || c.redundancy is Some && reads(
            c.redundancy->0.bind_addr@,
            at,
        ),
        InputConfig::Udp(c) => reads(c.bind_addr@, at),
        InputConfig::Srt(c) => is_set_to(c.local_addr, at) || c.redundancy is Some && is_set_to(
            c.redundancy->0.local_addr,
            at,
        ) || group_takes(c.mode, c.bonding, at),
        InputConfig::Rist(c) => reads(c.bind_addr@, at) || follows(c.bind_addr@, at)
            || c.redundancy is Some && (reads(c.redundancy->0.bind_addr@, at) || follows(
            c.redundancy->0.bind_addr@,
            at,
        )),
        InputConfig::St2110_30(c) => reads(c.bind_addr@, at) || c.redundancy is Some && reads(
            c.redundancy->0.addr@,
            at,
        ),
        InputConfig::St2110_31(c) => reads(c.bind_addr@, at) || c.redundancy is Some && reads(
            c.redundancy->0.addr@,
            at,
        ),
        InputConfig::St2110_40(c) => reads(c.bind_addr@, at) || c.redundancy is Some && reads(
            c.redundancy->0.addr@,
            at,
        ),
        InputConfig::St2110_20(c) => reads(c.bind_addr@, at) || c.redundancy is Some && reads(
            c.redundancy->0.addr@,
            at,
        ),
        InputConfig::RtpAudio(c) => reads(c.bind_addr@, at) || c.redundancy is Some && reads(
            c.redundancy->0.addr@,
            at,
        ),
        InputConfig::St2110_23(c) => exists|k: int|
            0 <= k < c.sub_streams@.len() && (reads((#[trigger] c.sub_streams@[k]).bind_addr@, at)
                || c.sub_streams@[k].redundancy is Some && reads(
                c.sub_streams@[k].redundancy->0.addr@,
                at,
            )),
        InputConfig::Webrtc(c) => is_set_to(c.bind_addr, at),
        InputConfig::Bonded(c) => exists|k: int|
            0 <= k < c.paths@.len() && path_takes(#[trigger] c.paths@[k], true, at),
        _ => false,
    }
}

/// Whether an input takes the TCP address `at`.
pub open spec fn input_takes_tcp(input: InputConfig, at: SocketAddress) -> bool {
    match input {
        InputConfig::Rtmp(c) => reads(c.listen_addr@, at),
        _ => false,
    }
}

/// Whether an output takes the UDP address `at`.
pub open spec fn output_takes_udp(output: OutputConfig, at: SocketAddress) -> bool {
    match output {
        OutputConfig::Rtp(c) => is_set_to(c.bind_addr, at) || c.redundancy is Some && is_set_to(
            c.redundancy->0.bind_addr,
            at,
        ),
        OutputConfig::Udp(c) => is_set_to(c.bind_addr, at),
        OutputConfig::Srt(c) => is_set_to(c.local_addr, at) || c.redundancy is Some && is_set_to(
            c.redundancy->0.local_addr,
            at,
        ) || group_takes(c.mode, c.bonding, at),
        OutputConfig::Rist(c) => c.local_addr is Some && (reads(c.local_addr->0@, at) || follows(
            c.local_addr->0@,
            at,
        )) || c.redundancy is Some && c.redundancy->0.local_addr is Some && (reads(
            c.redundancy->0.local_addr->0@,
            at,
        ) || follows(c.redundancy->0.local_addr->0@, at)),
        OutputConfig::St2110_30(c) => is_set_to(c.bind_addr, at),
        OutputConfig::St2110_31(c) => is_set_to(c.bind_addr, at),
        OutputConfig::St2110_40(c) => is_set_to(c.bind_addr, at),
        OutputConfig::St2110_20(c) => is_set_to(c.bind_addr, at),
        OutputConfig::RtpAudio(c) => is_set_to(c.bind_addr, at),
        OutputConfig::St2110_23(c) => exists|k: int|
            0 <= k < c.sub_streams@.len() && is_set_to(
                (#[trigger] c.sub_streams@[k]).bind_addr,
                at,
            ),
        OutputConfig::Bonded(c) => exists|k: int|
            0 <= k < c.paths@.len() && path_takes(#[trigger] c.paths@[k], false, at),
        _ => false,
    }
}

/// Whether a tunnel takes the address `at`: the local end of an egress tunnel, and
/// the QUIC listener of a direct ingress tunnel, where the tunnel is enabled.
pub open spec fn tunnel_takes(tunnel: TunnelConfig, proto: Proto, at: SocketAddress) -> bool {
    tunnel.enabled && match tunnel.direction {
        TunnelDirection::Egress => reads(tunnel.local_addr@, at) && match tunnel.protocol {
            TunnelProtocol::Tcp => proto is Tcp,
            TunnelProtocol::Udp => proto is Udp,
        },
        TunnelDirection::Ingress => proto is Udp && tunnel.mode is Direct && is_set_to(
            tunnel.direct_listen_addr,
            at,
        ),
    }
}

/// Whether an input takes the address `at`.
pub open spec fn input_takes(input: InputConfig, proto: Proto, at: SocketAddress) -> bool {
    match proto {
        Proto::Udp => input_takes_udp(input, at),
        Proto::Tcp => input_takes_tcp(input, at),
    }
}

/// Whether an output takes the address `at`: outputs bind UDP sockets only.
pub open spec fn output_takes(output: OutputConfig, proto: Proto, at: SocketAddress) -> bool {
    proto is Udp && output_takes_udp(output, at)
}

// ---------------------------------------------------------------------------
// From addresses to bindings
// ---------------------------------------------------------------------------

/// Whether a binding is for the address `at`, without regard to its label.
spec fn is_for(b: Binding, proto: Proto, at: SocketAddress) -> bool {
    b.port == at.port && b.ip == at.ip && b.proto == proto && !b.v6_only && b.wildcard
        == at.ip.spec_is_unspecified()
}

/// Whether one of the bindings is for the address `at`.
spec fn holds(bs: Seq<Binding>, proto: Proto, at: SocketAddress) -> bool {
    exists|k: int| 0 <= k < bs.len() && is_for(#[trigger] bs[k], proto, at)
}

/// Whether a socket on `at` counts at all.
spec fn counts(at: SocketAddress) -> bool {
    at.port != 0 && !at.ip.spec_is_multicast()
}

proof fn lemma_holds_left(a: Seq<Binding>, b: Seq<Binding>, proto: Proto, at: SocketAddress)
    requires
        holds(a, proto, at),
    ensures
        holds(a + b, proto, at),
{
    let k = choose|k: int| 0 <= k < a.len() && is_for(#[trigger] a[k], proto, at);
    assert((a + b)[k] == a[k]);
}

proof fn lemma_holds_right(a: Seq<Binding>, b: Seq<Binding>, proto: Proto, at: SocketAddress)
    requires
        holds(b, proto, at),
    ensures
        holds(a + b, proto, at),
{
    let k = choose|k: int| 0 <= k < b.len() && is_for(#[trigger] b[k], proto, at);
    assert((a + b)[a.len() + k] == b[k]);
}

/// What two lists of bindings hold together is what one of them holds.
proof fn lemma_holds_either(a: Seq<Binding>, b: Seq<Binding>, proto: Proto, at: SocketAddress)
    ensures
        holds(a + b, proto, at) <==> holds(a, proto, at) || holds(b, proto, at),
{
    if holds(a, proto, at) {
        lemma_holds_left(a, b, proto, at);
    }
    if holds(b, proto, at) {
        lemma_holds_right(a, b, proto, at);
    }
    if holds(a + b, proto, at) {
        let k = choose|k: int| 0 <= k < (a + b).len() && is_for(#[trigger] (a + b)[k], proto, at);
        if k < a.len() {
            assert(is_for(a[k], proto, at));
        } else {
            assert(is_for(b[k - a.len()], proto, at));
        }
    }
}

proof fn lemma_binding_holds(
    sa: Option<SocketAddress>,
    p: Proto,
    label: Seq<char>,
    proto: Proto,
    at: SocketAddress,
)
    requires
        counts(at),
    ensures
        holds(ports::binding(sa, p, label), proto, at) <==> p == proto && sa == Some(at),
{
    let bs = ports::binding(sa, p, label);
    if p == proto && sa == Some(at) {
        assert(is_for(bs[0], proto, at));
    }
}

proof fn lemma_udp_holds(s: Seq<char>, label: Seq<char>, proto: Proto, at: SocketAddress)
    requires
        counts(at),
    ensures
        holds(ports::udp(s, label), proto, at) <==> proto is Udp && reads(s, at),
{
    lemma_binding_holds(addr::socket_of(s), Proto::Udp, label, proto, at);
}

proof fn lemma_udp_where_set_holds(
    s: Option<String>,
    label: Seq<char>,
    proto: Proto,
    at: SocketAddress,
)
    requires
        counts(at),
    ensures
        holds(ports::udp_where_set(s, label), proto, at) <==> proto is Udp && is_set_to(s, at),
{
    if s is Some {
        lemma_udp_holds(s->0@, label, proto, at);
    }
}

proof fn lemma_rist_holds(
    s: Seq<char>,
    rtp: Seq<char>,
    rtcp: Seq<char>,
    proto: Proto,
    at: SocketAddress,
)
    requires
        counts(at),
    ensures
        holds(ports::rist_bindings(s, rtp, rtcp), proto, at) <==> proto is Udp && (reads(s, at)
            || follows(s, at)),
{
    let next = ports::next_port(addr::socket_of(s));
    lemma_udp_holds(s, rtp, proto, at);
    lemma_binding_holds(next, Proto::Udp, rtcp, proto, at);
    lemma_holds_either(
        ports::udp(s, rtp),
        ports::binding(next, Proto::Udp, rtcp),
        proto,
        at,
    );
}

proof fn lemma_rist_where_set_holds(
    s: Option<String>,
    rtp: Seq<char>,
    rtcp: Seq<char>,
    proto: Proto,
    at: SocketAddress,
)
    requires
        counts(at),
    ensures
        holds(ports::rist_where_set(s, rtp, rtcp), proto, at) <==> proto is Udp && s is Some && (
        reads(s->0@, at) || follows(s->0@, at)),
{
    if s is Some {
        lemma_rist_holds(s->0@, rtp, rtcp, proto, at);
    }
}

/// A member on the address of the input or output itself shares its socket, which
/// is then taken all the same.
proof fn lemma_group_holds(
    mode: SrtMode,
    local_addr: Option<String>,
    members: Seq<SrtBondingEndpoint>,
    n: int,
    prefix: Seq<char>,
    proto: Proto,
    at: SocketAddress,
)
    requires
        counts(at),
        0 <= n <= members.len(),
        !is_set_to(local_addr, at),
    ensures
        holds(
            ports::group_bindings(mode, local_addr, members, n, prefix),
            proto,
            at,
        ) <==> proto is Udp
            && exists|k: int| 0 <= k < n && member_takes(mode, #[trigger] members[k], at),
    decreases n,
{
    if n > 0 {
        let member = members[n - 1];
        let head = ports::group_bindings(mode, local_addr, members, n - 1, prefix);
        let tail = ports::member_bindings(mode, local_addr, member, prefix);
        lemma_group_holds(mode, local_addr, members, n - 1, prefix, proto, at);
        lemma_holds_either(head, tail, proto, at);
        let label = prefix + " (SRT bonding member)"@;
        if mode is Listener {
            lemma_udp_holds(member.addr@, label, proto, at);
        } else if member.local_addr is Some {
            lemma_udp_holds(member.local_addr->0@, label, proto, at);
        }
        assert(holds(tail, proto, at) <==> proto is Udp && member_takes(mode, member, at));
    }
}

proof fn lemma_srt_holds(
    mode: SrtMode,
    local_addr: Option<String>,
    redundancy: Option<SrtRedundancyConfig>,
    bonding: Option<SrtBondingConfig>,
    prefix: Seq<char>,
    proto: Proto,
    at: SocketAddress,
)
    requires
        counts(at),
    ensures
        holds(
            ports::srt_bindings(mode, local_addr, redundancy, bonding, prefix),
            proto,
            at,
        ) <==> proto is Udp && (is_set_to(local_addr, at) || redundancy is Some && is_set_to(
            redundancy->0.local_addr,
            at,
        ) || group_takes(mode, bonding, at)),
{
    let a = ports::udp_where_set(local_addr, prefix + ports::srt_role(mode));
    let b = match redundancy {
        Some(red) => ports::udp_where_set(red.local_addr, prefix + " (SRT redundancy leg 2)"@),
        None => Seq::empty(),
    };
    let c = match bonding {
        Some(group) => ports::group_bindings(
            mode,
            local_addr,
            group.endpoints@,
            group.endpoints@.len() as int,
            prefix,
        ),
        None => Seq::empty(),
    };
    assert(ports::srt_bindings(mode, local_addr, redundancy, bonding, prefix) == a + b + c);
    lemma_udp_where_set_holds(local_addr, prefix + ports::srt_role(mode), proto, at);
    if redundancy is Some {
        lemma_udp_where_set_holds(
            redundancy->0.local_addr,
            prefix + " (SRT redundancy leg 2)"@,
            proto,
            at,
        );
    }
    lemma_holds_either(a, b, proto, at);
    lemma_holds_either(a + b, c, proto, at);
    if bonding is Some {
        let members = bonding->0.endpoints@;
        if !is_set_to(local_addr, at) {
            lemma_group_holds(
                mode,
                local_addr,
                members,
                members.len() as int,
                prefix,
                proto,
                at,
            );
        } else if proto !is Udp {
            lemma_group_is_udp(
                mode,
                local_addr,
                members,
                members.len() as int,
                prefix,
                proto,
                at,
            );
        }
    }
}

proof fn lemma_group_is_udp(
    mode: SrtMode,
    local_addr: Option<String>,
    members: Seq<SrtBondingEndpoint>,
    n: int,
    prefix: Seq<char>,
    proto: Proto,
    at: SocketAddress,
)
    requires
        counts(at),
        proto !is Udp,
        0 <= n <= members.len(),
    ensures
        !holds(ports::group_bindings(mode, local_addr, members, n, prefix), proto, at),
    decreases n,
{
    if n > 0 {
        let member = members[n - 1];
        let head = ports::group_bindings(mode, local_addr, members, n - 1, prefix);
        let tail = ports::member_bindings(mode, local_addr, member, prefix);
        lemma_group_is_udp(mode, local_addr, members, n - 1, prefix, proto, at);
        lemma_holds_either(head, tail, proto, at);
        let label = prefix + " (SRT bonding member)"@;
        if mode is Listener {
            lemma_udp_holds(member.addr@, label, proto, at);
        } else if member.local_addr is Some {
            lemma_udp_holds(member.local_addr->0@, label, proto, at);
        }
        assert(!holds(tail, proto, at));
    }
}

proof fn lemma_leg_holds(
    path: BondPathConfig,
    receiver: bool,
    prefix: Seq<char>,
    proto: Proto,
    at: SocketAddress,
)
    requires
        counts(at),
    ensures
        holds(ports::leg_bindings(path, receiver, prefix), proto, at) <==> proto is Udp
            && path_takes(path, receiver, at),
{
    let p = prefix + " (bond leg '"@ + path.name@;
    match path.transport {
        BondPathTransportConfig::Udp { bind, .. } => {
            lemma_udp_where_set_holds(bind, p + "')"@, proto, at);
        },
        BondPathTransportConfig::Rist { local_bind, .. } => {
            lemma_rist_where_set_holds(local_bind, p + "' RTP)"@, p + "' RTCP)"@, proto, at);
        },
        BondPathTransportConfig::Quic { addr, bind, .. } => {
            lemma_udp_holds(addr@, p + "')"@, proto, at);
            lemma_udp_where_set_holds(bind, p + "')"@, proto, at);
        },
        BondPathTransportConfig::Relay { .. } => {},
    }
}

proof fn lemma_bond_holds(
    paths: Seq<BondPathConfig>,
    n: int,
    receiver: bool,
    prefix: Seq<char>,
    proto: Proto,
    at: SocketAddress,
)
    requires
        counts(at),
        0 <= n <= paths.len(),
    ensures
        holds(ports::bond_bindings(paths, n, receiver, prefix), proto, at) <==> proto is Udp
            && exists|k: int| 0 <= k < n && path_takes(#[trigger] paths[k], receiver, at),
    decreases n,
{
    if n > 0 {
        let head = ports::bond_bindings(paths, n - 1, receiver, prefix);
        let tail = ports::leg_bindings(paths[n - 1], receiver, prefix);
        lemma_bond_holds(paths, n - 1, receiver, prefix, proto, at);
        lemma_leg_holds(paths[n - 1], receiver, prefix, proto, at);
        lemma_holds_either(head, tail, proto, at);
    }
}

proof fn lemma_red_blue_holds(
    s: Seq<char>,
    redundancy: Option<RedBlueBindConfig>,
    first: Seq<char>,
    second: Seq<char>,
    proto: Proto,
    at: SocketAddress,
)
    requires
        counts(at),
    ensures
        holds(ports::red_blue_bindings(s, redundancy, first, second), proto, at) <==> proto is Udp
            && (reads(s, at) || redundancy is Some && reads(redundancy->0.addr@, at)),
{
    let b = match redundancy {
        Some(red) => ports::udp(red.addr@, second),
        None => Seq::empty(),
    };
    lemma_udp_holds(s, first, proto, at);
    if redundancy is Some {
        lemma_udp_holds(redundancy->0.addr@, second, proto, at);
    }
    lemma_holds_either(ports::udp(s, first), b, proto, at);
}

proof fn lemma_sub_streams_hold(
    subs: Seq<St2110_23SubStreamBind>,
    n: int,
    prefix: Seq<char>,
    proto: Proto,
    at: SocketAddress,
)
    requires
        counts(at),
        0 <= n <= subs.len(),
    ensures
        holds(ports::sub_stream_bindings(subs, n, prefix), proto, at) <==> proto is Udp && exists|
            k: int,
        |
            0 <= k < n && (reads((#[trigger] subs[k]).bind_addr@, at) || subs[k].redundancy is Some
                && reads(subs[k].redundancy->0.addr@, at)),
    decreases n,
{
    if n > 0 {
        let label = prefix + " (ST 2110-23 sub_streams["@ + text::dec((n - 1) as nat);
        let head = ports::sub_stream_bindings(subs, n - 1, prefix);
        let s = subs[n - 1];
        let tail = ports::red_blue_bindings(
            s.bind_addr@,
            s.redundancy,
            label + "])"@,
            label + "] leg 2)"@,
        );
        lemma_sub_streams_hold(subs, n - 1, prefix, proto, at);
        lemma_red_blue_holds(
            s.bind_addr@,
            s.redundancy,
            label + "])"@,
            label + "] leg 2)"@,
            proto,
            at,
        );
        lemma_holds_either(head, tail, proto, at);
    }
}

proof fn lemma_sent_sub_streams_hold(
    subs: Seq<St2110_23SubStreamDest>,
    n: int,
    prefix: Seq<char>,
    proto: Proto,
    at: SocketAddress,
)
    requires
        counts(at),
        0 <= n <= subs.len(),
    ensures
        holds(ports::sent_sub_stream_bindings(subs, n, prefix), proto, at) <==> proto is Udp
            && exists|k: int| 0 <= k < n && is_set_to((#[trigger] subs[k]).bind_addr, at),
    decreases n,
{
    if n > 0 {
        let label = prefix + " (ST 2110-23 sub_streams["@ + text::dec((n - 1) as nat) + "])"@;
        let head = ports::sent_sub_stream_bindings(subs, n - 1, prefix);
        let tail = ports::udp_where_set(subs[n - 1].bind_addr, label);
        lemma_sent_sub_streams_hold(subs, n - 1, prefix, proto, at);
        lemma_udp_where_set_holds(subs[n - 1].bind_addr, label, proto, at);
        lemma_holds_either(head, tail, proto, at);
    }
}

/// An input binds exactly the addresses that its settings name.
proof fn lemma_input_holds(input: InputDefinition, proto: Proto, at: SocketAddress)
    requires
        counts(at),
    ensures
        holds(ports::input_bindings(input), proto, at) <==> input_takes(input.config, proto, at),
{
    let p = "Input '"@ + input.name@ + "'"@;
    match input.config {
        InputConfig::Rtp(c) => {
            let b = match c.redundancy {
                Some(red) => ports::udp(red.bind_addr@, p + " (RTP redundancy leg 2)"@),
                None => Seq::empty(),
            };
            lemma_udp_holds(c.bind_addr@, p + " (RTP)"@, proto, at);
            if c.redundancy is Some {
                lemma_udp_holds(
                    c.redundancy->0.bind_addr@,
                    p + " (RTP redundancy leg 2)"@,
                    proto,
                    at,
                );
            }
            lemma_holds_either(ports::udp(c.bind_addr@, p + " (RTP)"@), b, proto, at);
        },
        InputConfig::Udp(c) => {
            lemma_udp_holds(c.bind_addr@, p + " (UDP)"@, proto, at);
        },
        InputConfig::Srt(c) => {
            lemma_srt_holds(c.mode, c.local_addr, c.redundancy, c.bonding, p, proto, at);
        },
        InputConfig::Rist(c) => {
            let a = ports::rist_bindings(
                c.bind_addr@,
                p + " (RIST RTP)"@,
                p + " (RIST RTCP)"@,
            );
            let b = match c.redundancy {
                Some(red) => ports::rist_bindings(
                    red.bind_addr@,
                    p + " (RIST leg 2 RTP)"@,
                    p + " (RIST leg 2 RTCP)"@,
                ),
                None => Seq::empty(),
            };
            lemma_rist_holds(
                c.bind_addr@,
                p + " (RIST RTP)"@,
                p + " (RIST RTCP)"@,
                proto,
                at,
            );
            if c.redundancy is Some {
                lemma_rist_holds(
                    c.redundancy->0.bind_addr@,
                    p + " (RIST leg 2 RTP)"@,
                    p + " (RIST leg 2 RTCP)"@,
                    proto,
                    at,
                );
            }
            lemma_holds_either(a, b, proto, at);
        },
        InputConfig::Rtmp(c) => {
            lemma_binding_holds(
                addr::socket_of(c.listen_addr@),
                Proto::Tcp,
                p + " (RTMP server)"@,
                proto,
                at,
            );
        },
        InputConfig::St2110_30(c) => {
            lemma_red_blue_holds(
                c.bind_addr@,
                c.redundancy,
                p + " (ST 2110)"@,
                p + " (ST 2110 redundancy leg 2)"@,
                proto,
                at,
            );
        },
        InputConfig::St2110_31(c) => {
            lemma_red_blue_holds(
                c.bind_addr@,
                c.redundancy,
                p + " (ST 2110)"@,
                p + " (ST 2110 redundancy leg 2)"@,
                proto,
                at,
            );
        },
        InputConfig::St2110_40(c) => {
            lemma_red_blue_holds(
                c.bind_addr@,
                c.redundancy,
                p + " (ST 2110-40)"@,
                p + " (ST 2110-40 redundancy leg 2)"@,
                proto,
                at,
            );
        },
        InputConfig::RtpAudio(c) => {
            lemma_red_blue_holds(
                c.bind_addr@,
                c.redundancy,
                p + " (RTP audio)"@,
                p + " (RTP audio redundancy leg 2)"@,
                proto,
                at,
            );
        },
        InputConfig::St2110_20(c) => {
            lemma_red_blue_holds(
                c.bind_addr@,
                c.redundancy,
                p + " (ST 2110-20)"@,
                p + " (ST 2110-20 leg 2)"@,
                proto,
                at,
            );
        },
        InputConfig::St2110_23(c) => {
            lemma_sub_streams_hold(
                c.sub_streams@,
                c.sub_streams@.len() as int,
                p,
                proto,
                at,
            );
        },
        InputConfig::Webrtc(c) => {
            lemma_udp_where_set_holds(c.bind_addr, p + " (WebRTC)"@, proto, at);
        },
        InputConfig::Bonded(c) => {
            lemma_bond_holds(c.paths@, c.paths@.len() as int, true, p, proto, at);
        },
        _ => {},
    }
}

/// An output binds exactly the addresses that its settings name.
proof fn lemma_output_holds(output: OutputConfig, proto: Proto, at: SocketAddress)
    requires
        counts(at),
    ensures
        holds(ports::output_bindings(output), proto, at) <==> output_takes(output, proto, at),
{
    let p = "Output '"@ + output.spec_name() + "'"@;
    match output {
        OutputConfig::Rtp(c) => {
            let b = match c.redundancy {
                Some(red) => ports::udp_where_set(red.bind_addr, p + " (RTP redundancy leg 2)"@),
                None => Seq::empty(),
            };
            lemma_udp_where_set_holds(c.bind_addr, p + " (RTP)"@, proto, at);
            if c.redundancy is Some {
                lemma_udp_where_set_holds(
                    c.redundancy->0.bind_addr,
                    p + " (RTP redundancy leg 2)"@,
                    proto,
                    at,
                );
            }
            lemma_holds_either(ports::udp_where_set(c.bind_addr, p + " (RTP)"@), b, proto, at);
        },
        OutputConfig::Udp(c) => {
            lemma_udp_where_set_holds(c.bind_addr, p + " (UDP)"@, proto, at);
        },
        OutputConfig::Srt(c) => {
            lemma_srt_holds(c.mode, c.local_addr, c.redundancy, c.bonding, p, proto, at);
        },
        OutputConfig::Rist(c) => {
            let a = ports::rist_where_set(
                c.local_addr,
                p + " (RIST RTP)"@,
                p + " (RIST RTCP)"@,
            );
            let b = match c.redundancy {
                Some(red) => ports::rist_where_set(
                    red.local_addr,
                    p + " (RIST leg 2 RTP)"@,
                    p + " (RIST leg 2 RTCP)"@,
                ),
                None => Seq::empty(),
            };
            lemma_rist_where_set_holds(
                c.local_addr,
                p + " (RIST RTP)"@,
                p + " (RIST RTCP)"@,
                proto,
                at,
            );
            if c.redundancy is Some {
                lemma_rist_where_set_holds(
                    c.redundancy->0.local_addr,
                    p + " (RIST leg 2 RTP)"@,
                    p + " (RIST leg 2 RTCP)"@,
                    proto,
                    at,
                );
            }
            lemma_holds_either(a, b, proto, at);
        },
        OutputConfig::St2110_30(c) => {
            lemma_udp_where_set_holds(c.bind_addr, p + " (ST 2110)"@, proto, at);
        },
        OutputConfig::St2110_31(c) => {
            lemma_udp_where_set_holds(c.bind_addr, p + " (ST 2110)"@, proto, at);
        },
        OutputConfig::St2110_40(c) => {
            lemma_udp_where_set_holds(c.bind_addr, p + " (ST 2110-40)"@, proto, at);
        },
        OutputConfig::St2110_20(c) => {
            lemma_udp_where_set_holds(c.bind_addr, p + " (ST 2110-20)"@, proto, at);
        },
        OutputConfig::St2110_23(c) => {
            lemma_sent_sub_streams_hold(
                c.sub_streams@,
                c.sub_streams@.len() as int,
                p,
                proto,
                at,
            );
        },
        OutputConfig::RtpAudio(c) => {
            lemma_udp_where_set_holds(c.bind_addr, p + " (RTP audio)"@, proto, at);
        },
        OutputConfig::Bonded(c) => {
            lemma_bond_holds(c.paths@, c.paths@.len() as int, false, p, proto, at);
        },
        _ => {},
    }
}

/// A tunnel binds exactly the addresses that its settings name.
proof fn lemma_tunnel_holds(tunnel: TunnelConfig, proto: Proto, at: SocketAddress)
    requires
        counts(at),
    ensures
        holds(ports::tunnel_bindings(tunnel), proto, at) <==> tunnel_takes(tunnel, proto, at),
{
    let p = ports::tunnel_proto(tunnel);
    let first = "Tunnel '"@ + tunnel.name@ + "' ("@ + p.text() + " egress)"@;
    let second = "Tunnel '"@ + tunnel.name@ + "' (direct QUIC listener)"@;
    if tunnel.enabled {
        lemma_binding_holds(addr::socket_of(tunnel.local_addr@), p, first, proto, at);
        if tunnel.direct_listen_addr is Some {
            lemma_binding_holds(
                addr::socket_of(tunnel.direct_listen_addr->0@),
                Proto::Udp,
                second,
                proto,
                at,
            );
        }
    }
}

// ---------------------------------------------------------------------------
// Places in the whole list
// ---------------------------------------------------------------------------

/// The bindings of element `i` stand in the list of all in one piece, before those
/// of later elements.
proof fn lemma_gather_place<A>(s: Seq<A>, f: spec_fn(A) -> Seq<Binding>, n: int, i: int, k: int)
    requires
        0 <= i < n <= s.len(),
        0 <= k < f(s[i]).len(),
    ensures
        0 <= gather_start(s, f, i) + k < gather_start(s, f, i + 1) <= ports::gather(s, f, n).len(),
        ports::gather(s, f, n)[gather_start(s, f, i) + k] == f(s[i])[k],
    decreases n,
{
    if i < n - 1 {
        lemma_gather_place(s, f, n - 1, i, k);
    }
}

spec fn gather_start<A>(s: Seq<A>, f: spec_fn(A) -> Seq<Binding>, i: int) -> int {
    ports::gather(s, f, i).len() as int
}

proof fn lemma_gather_grows<A>(s: Seq<A>, f: spec_fn(A) -> Seq<Binding>, i: int, j: int)
    requires
        i <= j,
    ensures
        gather_start(s, f, i) <= gather_start(s, f, j),
    decreases j - i,
{
    if i < j {
        lemma_gather_grows(s, f, i, j - 1);
    }
}

spec fn tunnels_start(config: AppConfig) -> int {
    ports::own_bindings(config).len() as int
}

spec fn inputs_start(config: AppConfig) -> int {
    tunnels_start(config) + gather_start(
        config.tunnels@,
        ports::of_tunnel(),
        config.tunnels@.len() as int,
    )
}

spec fn outputs_start(config: AppConfig) -> int {
    inputs_start(config) + gather_start(
        config.inputs@,
        ports::of_input(),
        config.inputs@.len() as int,
    )
}

/// The place of binding `k` of tunnel `i`.
proof fn lemma_tunnel_place(config: AppConfig, i: int, k: int) -> (p: int)
    requires
        0 <= i < config.tunnels@.len(),
        0 <= k < ports::tunnel_bindings(config.tunnels@[i]).len(),
    ensures
        p == tunnels_start(config) + gather_start(config.tunnels@, ports::of_tunnel(), i) + k,
        tunnels_start(config) <= p < inputs_start(config),
        p < tunnels_start(config) + gather_start(config.tunnels@, ports::of_tunnel(), i + 1),
        p < ports::config_bindings(config).len(),
        ports::config_bindings(config)[p] == ports::tunnel_bindings(config.tunnels@[i])[k],
{
    let n = config.tunnels@.len() as int;
    lemma_gather_place(config.tunnels@, ports::of_tunnel(), n, i, k);
    tunnels_start(config) + gather_start(config.tunnels@, ports::of_tunnel(), i) + k
}

/// The place of binding `k` of input `i`.
proof fn lemma_input_place(config: AppConfig, i: int, k: int) -> (p: int)
    requires
        0 <= i < config.inputs@.len(),
        0 <= k < ports::input_bindings(config.inputs@[i]).len(),
    ensures
        p == inputs_start(config) + gather_start(config.inputs@, ports::of_input(), i) + k,
        inputs_start(config) <= p < outputs_start(config),
        p < inputs_start(config) + gather_start(config.inputs@, ports::of_input(), i + 1),
        p < ports::config_bindings(config).len(),
        ports::config_bindings(config)[p] == ports::input_bindings(config.inputs@[i])[k],
{
    let n = config.inputs@.len() as int;
    lemma_gather_place(config.inputs@, ports::of_input(), n, i, k);
    inputs_start(config) + gather_start(config.inputs@, ports::of_input(), i) + k
}

/// The place of binding `k` of output `i`.
proof fn lemma_output_place(config: AppConfig, i: int, k: int) -> (p: int)
    requires
        0 <= i < config.outputs@.len(),
        0 <= k < ports::output_bindings(config.outputs@[i]).len(),
    ensures
        p == outputs_start(config) + gather_start(config.outputs@, ports::of_output(), i) + k,
        outputs_start(config) <= p < ports::config_bindings(config).len(),
        p < outputs_start(config) + gather_start(config.outputs@, ports::of_output(), i + 1),
        ports::config_bindings(config)[p] == ports::output_bindings(config.outputs@[i])[k],
{
    let n = config.outputs@.len() as int;
    lemma_gather_place(config.outputs@, ports::of_output(), n, i, k);
    outputs_start(config) + gather_start(config.outputs@, ports::of_output(), i) + k
}

/// Bindings for addresses that compete collide.
proof fn lemma_competing_collide(x: Binding, y: Binding, proto: Proto, a: SocketAddress, b: SocketAddress)
    requires
        is_for(x, proto, a),
        is_for(y, proto, b),
        compete(a, b),
    ensures
        ports::collide(x, y),
{
}

spec fn place_in(bs: Seq<Binding>, proto: Proto, at: SocketAddress) -> int {
    choose|k: int| 0 <= k < bs.len() && is_for(#[trigger] bs[k], proto, at)
}

// ---------------------------------------------------------------------------
// No two components compete
// ---------------------------------------------------------------------------

/// Two inputs of an accepted configuration never take competing addresses.
pub proof fn lemma_accepted_inputs_do_not_compete(
    config: AppConfig,
    i: int,
    j: int,
    proto: Proto,
    a: SocketAddress,
    b: SocketAddress,
)
    requires
        ports::port_conflicts_fault(config) is None,
        0 <= i < j < config.inputs@.len(),
        input_takes(config.inputs@[i].config, proto, a),
        input_takes(config.inputs@[j].config, proto, b),
    ensures
        !compete(a, b),
{
    if compete(a, b) {
        lemma_input_holds(config.inputs@[i], proto, a);
        lemma_input_holds(config.inputs@[j], proto, b);
        let k = place_in(ports::input_bindings(config.inputs@[i]), proto, a);
        let l = place_in(ports::input_bindings(config.inputs@[j]), proto, b);
        let p = lemma_input_place(config, i, k);
        let q = lemma_input_place(config, j, l);
        lemma_gather_grows(config.inputs@, ports::of_input(), i + 1, j);
        lemma_competing_collide(
            ports::config_bindings(config)[p],
            ports::config_bindings(config)[q],
            proto,
            a,
            b,
        );
        ports::lemma_accepted_ports_are_disjoint(config, p, q);
    }
}

/// Two outputs of an accepted configuration never take competing addresses.
pub proof fn lemma_accepted_outputs_do_not_compete(
    config: AppConfig,
    i: int,
    j: int,
    proto: Proto,
    a: SocketAddress,
    b: SocketAddress,
)
    requires
        ports::port_conflicts_fault(config) is None,
        0 <= i < j < config.outputs@.len(),
        output_takes(config.outputs@[i], proto, a),
        output_takes(config.outputs@[j], proto, b),
    ensures
        !compete(a, b),
{
    if compete(a, b) {
        lemma_output_holds(config.outputs@[i], proto, a);
        lemma_output_holds(config.outputs@[j], proto, b);
        let k = place_in(ports::output_bindings(config.outputs@[i]), proto, a);
        let l = place_in(ports::output_bindings(config.outputs@[j]), proto, b);
        let p = lemma_output_place(config, i, k);
        let q = lemma_output_place(config, j, l);
        lemma_gather_grows(config.outputs@, ports::of_output(), i + 1, j);
        lemma_competing_collide(
            ports::config_bindings(config)[p],
            ports::config_bindings(config)[q],
            proto,
            a,
            b,
        );
        ports::lemma_accepted_ports_are_disjoint(config, p, q);
    }
}

/// Two tunnels of an accepted configuration never take competing addresses.
pub proof fn lemma_accepted_tunnels_do_not_compete(
    config: AppConfig,
    i: int,
    j: int,
    proto: Proto,
    a: SocketAddress,
    b: SocketAddress,
)
    requires
        ports::port_conflicts_fault(config) is None,
        0 <= i < j < config.tunnels@.len(),
        tunnel_takes(config.tunnels@[i], proto, a),
        tunnel_takes(config.tunnels@[j], proto, b),
    ensures
        !compete(a, b),
{
    if compete(a, b) {
        lemma_tunnel_holds(config.tunnels@[i], proto, a);
        lemma_tunnel_holds(config.tunnels@[j], proto, b);
        let k = place_in(ports::tunnel_bindings(config.tunnels@[i]), proto, a);
        let l = place_in(ports::tunnel_bindings(config.tunnels@[j]), proto, b);
        let p = lemma_tunnel_place(config, i, k);
        let q = lemma_tunnel_place(config, j, l);
        lemma_gather_grows(config.tunnels@, ports::of_tunnel(), i + 1, j);
        lemma_competing_collide(
            ports::config_bindings(config)[p],
            ports::config_bindings(config)[q],
            proto,
            a,
            b,
        );
        ports::lemma_accepted_ports_are_disjoint(config, p, q);
    }
}

/// An input and an output of an accepted configuration never take competing
/// addresses.
pub proof fn lemma_accepted_input_and_output_do_not_compete(
    config: AppConfig,
    i: int,
    j: int,
    proto: Proto,
    a: SocketAddress,
    b: SocketAddress,
)
    requires
        ports::port_conflicts_fault(config) is None,
        0 <= i < config.inputs@.len(),
        0 <= j < config.outputs@.len(),
        input_takes(config.inputs@[i].config, proto, a),
        output_takes(config.outputs@[j], proto, b),
    ensures
        !compete(a, b),
{
    if compete(a, b) {
        lemma_input_holds(config.inputs@[i], proto, a);
        lemma_output_holds(config.outputs@[j], proto, b);
        let k = place_in(ports::input_bindings(config.inputs@[i]), proto, a);
        let l = place_in(ports::output_bindings(config.outputs@[j]), proto, b);
        let p = lemma_input_place(config, i, k);
        let q = lemma_output_place(config, j, l);
        lemma_competing_collide(
            ports::config_bindings(config)[p],
            ports::config_bindings(config)[q],
            proto,
            a,
            b,
        );
        ports::lemma_accepted_ports_are_disjoint(config, p, q);
    }
}

/// A tunnel and an input of an accepted configuration never take competing
/// addresses.
pub proof fn lemma_accepted_tunnel_and_input_do_not_compete(
    config: AppConfig,
    i: int,
    j: int,
    proto: Proto,
    a: SocketAddress,
    b: SocketAddress,
)
    requires
        ports::port_conflicts_fault(config) is None,
        0 <= i < config.tunnels@.len(),
        0 <= j < config.inputs@.len(),
        tunnel_takes(config.tunnels@[i], proto, a),
        input_takes(config.inputs@[j].config, proto, b),
    ensures
        !compete(a, b),
{
    if compete(a, b) {
        lemma_tunnel_holds(config.tunnels@[i], proto, a);
        lemma_input_holds(config.inputs@[j], proto, b);
        let k = place_in(ports::tunnel_bindings(config.tunnels@[i]), proto, a);
        let l = place_in(ports::input_bindings(config.inputs@[j]), proto, b);
        let p = lemma_tunnel_place(config, i, k);
        let q = lemma_input_place(config, j, l);
        lemma_competing_collide(
            ports::config_bindings(config)[p],
            ports::config_bindings(config)[q],
            proto,
            a,
            b,
        );
        ports::lemma_accepted_ports_are_disjoint(config, p, q);
    }
}

/// A tunnel and an output of an accepted configuration never take competing
/// addresses.
pub proof fn lemma_accepted_tunnel_and_output_do_not_compete(
    config: AppConfig,
    i: int,
    j: int,
    proto: Proto,
    a: SocketAddress,
    b: SocketAddress,
)
    requires
        ports::port_conflicts_fault(config) is None,
        0 <= i < config.tunnels@.len(),
        0 <= j < config.outputs@.len(),
        tunnel_takes(config.tunnels@[i], proto, a),
        output_takes(config.outputs@[j], proto, b),
    ensures
        !compete(a, b),
{
    if compete(a, b) {
        lemma_tunnel_holds(config.tunnels@[i], proto, a);
        lemma_output_holds(config.outputs@[j], proto, b);
        let k = place_in(ports::tunnel_bindings(config.tunnels@[i]), proto, a);
        let l = place_in(ports::output_bindings(config.outputs@[j]), proto, b);
        let p = lemma_tunnel_place(config, i, k);
        let q = lemma_output_place(config, j, l);
        lemma_competing_collide(
            ports::config_bindings(config)[p],
            ports::config_bindings(config)[q],
            proto,
            a,
            b,
        );
        ports::lemma_accepted_ports_are_disjoint(config, p, q);
    }
}

/// In an accepted configuration the second leg of an RTP input has its port to
/// itself: where its address is unicast and its port is not zero, no UDP socket of
/// the first leg, of another input, of an output or of a tunnel is on that port with
/// the same address or with one of the two on all addresses.
pub proof fn lemma_accepted_rtp_second_leg_is_alone(
    config: AppConfig,
    i: int,
    rtp: RtpInputConfig,
    red: RtpRedundancyConfig,
    a: SocketAddress,
    j: int,
    b: SocketAddress,
)
    requires
        ports::port_conflicts_fault(config) is None,
        0 <= i < config.inputs@.len(),
        config.inputs@[i].config == InputConfig::Rtp(rtp),
        rtp.redundancy == Some(red),
        addr::socket_of(red.bind_addr@) == Some(a),
        a.port != 0,
        !a.ip.spec_is_multicast(),
        b.port == a.port,
        !b.ip.spec_is_multicast(),
        b.ip == a.ip || a.ip.spec_is_unspecified() || b.ip.spec_is_unspecified(),
    ensures
        addr::socket_of(rtp.bind_addr@) != Some(b),
        0 <= j < config.inputs@.len() && j != i ==> match config.inputs@[j].config {
            InputConfig::Rtp(c) => addr::socket_of(c.bind_addr@) != Some(b) && (c.redundancy is Some
                ==> addr::socket_of(c.redundancy->0.bind_addr@) != Some(b)),
            InputConfig::Udp(c) => addr::socket_of(c.bind_addr@) != Some(b),
            InputConfig::Srt(c) => c.local_addr is Some ==> addr::socket_of(c.local_addr->0@)
                != Some(b),
            InputConfig::Rist(c) => addr::socket_of(c.bind_addr@) != Some(b),
            InputConfig::RtpAudio(c) => addr::socket_of(c.bind_addr@) != Some(b),
            InputConfig::St2110_30(c) => addr::socket_of(c.bind_addr@) != Some(b),
            InputConfig::St2110_31(c) => addr::socket_of(c.bind_addr@) != Some(b),
            InputConfig::St2110_40(c) => addr::socket_of(c.bind_addr@) != Some(b),
            InputConfig::St2110_20(c) => addr::socket_of(c.bind_addr@) != Some(b),
            InputConfig::Webrtc(c) => c.bind_addr is Some ==> addr::socket_of(c.bind_addr->0@)
                != Some(b),
            _ => true,
        },
        0 <= j < config.inputs@.len() && j != i ==> !input_takes_udp(config.inputs@[j].config, b),
        0 <= j < config.outputs@.len() ==> match config.outputs@[j] {
            OutputConfig::Rtp(c) => c.bind_addr is Some ==> addr::socket_of(c.bind_addr->0@)
                != Some(b),
            OutputConfig::Udp(c) => c.bind_addr is Some ==> addr::socket_of(c.bind_addr->0@)
                != Some(b),
            OutputConfig::Srt(c) => c.local_addr is Some ==> addr::socket_of(c.local_addr->0@)
                != Some(b),
            _ => true,
        },
        0 <= j < config.outputs@.len() ==> !output_takes_udp(config.outputs@[j], b),
        0 <= j < config.tunnels@.len() && config.tunnels@[j].enabled
            && config.tunnels@[j].protocol is Udp && config.tunnels@[j].direction is Egress
            ==> addr::socket_of(config.tunnels@[j].local_addr@) != Some(b),
        0 <= j < config.tunnels@.len() && config.tunnels@[j].enabled
            && config.tunnels@[j].mode is Direct && config.tunnels@[j].direction is Ingress
            && config.tunnels@[j].direct_listen_addr is Some ==> addr::socket_of(
            config.tunnels@[j].direct_listen_addr->0@,
        ) != Some(b),
{
    let input = config.inputs@[i];
    assert(input_takes(input.config, Proto::Udp, a));
    if addr::socket_of(rtp.bind_addr@) == Some(b) {
        let bs = ports::input_bindings(input);
        assert(bs.len() == 2);
        let p = lemma_input_place(config, i, 0);
        let q = lemma_input_place(config, i, 1);
        assert(is_for(bs[0], Proto::Udp, b));
        assert(is_for(bs[1], Proto::Udp, a));
        ports::lemma_accepted_ports_are_disjoint(config, p, q);
    }
    if 0 <= j < config.inputs@.len() && j != i && input_takes_udp(config.inputs@[j].config, b) {
        if i < j {
            lemma_accepted_inputs_do_not_compete(config, i, j, Proto::Udp, a, b);
        } else {
            lemma_accepted_inputs_do_not_compete(config, j, i, Proto::Udp, b, a);
        }
    }
    if 0 <= j < config.outputs@.len() && output_takes_udp(config.outputs@[j], b) {
        lemma_accepted_input_and_output_do_not_compete(config, i, j, Proto::Udp, a, b);
    }
    if 0 <= j < config.tunnels@.len() && tunnel_takes(config.tunnels@[j], Proto::Udp, b) {
        lemma_accepted_tunnel_and_input_do_not_compete(config, j, i, Proto::Udp, b, a);
    }
}

// ---------------------------------------------------------------------------
// Every address against a plain socket
// ---------------------------------------------------------------------------

/// Whether the text is no socket address that competes with `b`.
pub open spec fn clear_of(s: Seq<char>, b: SocketAddress) -> bool {
    addr::socket_of(s) matches Some(a) ==> !compete(a, b)
}

/// Whether neither the socket address of the text nor the port after it competes
/// with `b`.
pub open spec fn pair_clear_of(s: Seq<char>, b: SocketAddress) -> bool {
    addr::socket_of(s) matches Some(a) ==> !compete(a, b) && (a.port != 0 ==> !compete(
        SocketAddress { ip: a.ip, port: a.port.wrapping_add(1) },
        b,
    ))
}

/// Where a UDP input of an accepted configuration has a unicast address and a port,
/// no address that another input, an output or an enabled tunnel takes over UDP
/// competes with it.
pub proof fn lemma_accepted_udp_input_is_alone(
    config: AppConfig,
    j: int,
    u: UdpInputConfig,
    b: SocketAddress,
)
    requires
        ports::port_conflicts_fault(config) is None,
        0 <= j < config.inputs@.len(),
        config.inputs@[j].config == InputConfig::Udp(u),
        addr::socket_of(u.bind_addr@) == Some(b),
    ensures
        forall|i: int|
            0 <= i < config.inputs@.len() && i != j ==> match (#[trigger] config.inputs@[i]).config {
                InputConfig::Rtp(c) => clear_of(c.bind_addr@, b) && (c.redundancy is Some ==> clear_of(
                    c.redundancy->0.bind_addr@,
                    b,
                )),
                InputConfig::Udp(c) => clear_of(c.bind_addr@, b),
                InputConfig::Srt(c) => (c.local_addr is Some ==> clear_of(c.local_addr->0@, b)) && (
                c.redundancy is Some && c.redundancy->0.local_addr is Some ==> clear_of(
                    c.redundancy->0.local_addr->0@,
                    b,
                )) && (c.bonding is Some ==> forall|k: int|
                    0 <= k < c.bonding->0.endpoints@.len() ==> {
                        let e = #[trigger] c.bonding->0.endpoints@[k];
                        if c.mode is Listener {
                            clear_of(e.addr@, b)
                        } else {
                            e.local_addr is Some ==> clear_of(e.local_addr->0@, b)
                        }
                    }),
                InputConfig::Rist(c) => pair_clear_of(c.bind_addr@, b) && (c.redundancy is Some
                    ==> pair_clear_of(c.redundancy->0.bind_addr@, b)),
                InputConfig::St2110_30(c) => clear_of(c.bind_addr@, b) && (c.redundancy is Some
                    ==> clear_of(c.redundancy->0.addr@, b)),
                InputConfig::St2110_31(c) => clear_of(c.bind_addr@, b) && (c.redundancy is Some
                    ==> clear_of(c.redundancy->0.addr@, b)),
                InputConfig::St2110_40(c) => clear_of(c.bind_addr@, b) && (c.redundancy is Some
                    ==> clear_of(c.redundancy->0.addr@, b)),
                InputConfig::St2110_20(c) => clear_of(c.bind_addr@, b) && (c.redundancy is Some
                    ==> clear_of(c.redundancy->0.addr@, b)),
                InputConfig::RtpAudio(c) => clear_of(c.bind_addr@, b) && (c.redundancy is Some
                    ==> clear_of(c.redundancy->0.addr@, b)),
                InputConfig::St2110_23(c) => forall|k: int|
                    0 <= k < c.sub_streams@.len() ==> clear_of(
                        (#[trigger] c.sub_streams@[k]).bind_addr@,
                        b,
                    ) && (c.sub_streams@[k].redundancy is Some ==> clear_of(
                        c.sub_streams@[k].redundancy->0.addr@,
                        b,
                    )),
                InputConfig::Webrtc(c) => c.bind_addr is Some ==> clear_of(c.bind_addr->0@, b),
                InputConfig::Bonded(c) => forall|k: int|
                    0 <= k < c.paths@.len() ==> match (#[trigger] c.paths@[k]).transport {
                        BondPathTransportConfig::Udp { bind, .. } => bind is Some ==> clear_of(
                            bind->0@,
                            b,
                        ),
                        BondPathTransportConfig::Rist { local_bind, .. } => local_bind is Some
                            ==> pair_clear_of(local_bind->0@, b),
                        BondPathTransportConfig::Quic { addr, bind, .. } => clear_of(addr@, b),
                        BondPathTransportConfig::Relay { .. } => true,
                    },
                _ => true,
            },
        forall|i: int|
            0 <= i < config.outputs@.len() ==> match #[trigger] config.outputs@[i] {
                OutputConfig::Rtp(c) => (c.bind_addr is Some ==> clear_of(c.bind_addr->0@, b)) && (
                c.redundancy is Some && c.redundancy->0.bind_addr is Some ==> clear_of(
                    c.redundancy->0.bind_addr->0@,
                    b,
                )),
                OutputConfig::Udp(c) => c.bind_addr is Some ==> clear_of(c.bind_addr->0@, b),
                OutputConfig::Srt(c) => (c.local_addr is Some ==> clear_of(c.local_addr->0@, b)) && (
                c.redundancy is Some && c.redundancy->0.local_addr is Some ==> clear_of(
                    c.redundancy->0.local_addr->0@,
                    b,
                )) && (c.bonding is Some ==> forall|k: int|
                    0 <= k < c.bonding->0.endpoints@.len() ==> {
                        let e = #[trigger] c.bonding->0.endpoints@[k];
                        if c.mode is Listener {
                            clear_of(e.addr@, b)
                        } else {
                            e.local_addr is Some ==> clear_of(e.local_addr->0@, b)
                        }
                    }),
                OutputConfig::Rist(c) => (c.local_addr is Some ==> pair_clear_of(c.local_addr->0@, b)) && (
                c.redundancy is Some && c.redundancy->0.local_addr is Some ==> pair_clear_of(
                    c.redundancy->0.local_addr->0@,
                    b,
                )),
                OutputConfig::St2110_30(c) => c.bind_addr is Some ==> clear_of(c.bind_addr->0@, b),
                OutputConfig::St2110_31(c) => c.bind_addr is Some ==> clear_of(c.bind_addr->0@, b),
                OutputConfig::St2110_40(c) => c.bind_addr is Some ==> clear_of(c.bind_addr->0@, b),
                OutputConfig::St2110_20(c) => c.bind_addr is Some ==> clear_of(c.bind_addr->0@, b),
                OutputConfig::RtpAudio(c) => c.bind_addr is Some ==> clear_of(c.bind_addr->0@, b),
                OutputConfig::St2110_23(c) => forall|k: int|
                    0 <= k < c.sub_streams@.len() && (
                    #[trigger] c.sub_streams@[k]).bind_addr is Some ==> clear_of(
                        c.sub_streams@[k].bind_addr->0@,
                        b,
                    ),
                OutputConfig::Bonded(c) => forall|k: int|
                    0 <= k < c.paths@.len() ==> match (#[trigger] c.paths@[k]).transport {
                        BondPathTransportConfig::Udp { bind, .. } => bind is Some ==> clear_of(
                            bind->0@,
                            b,
                        ),
                        BondPathTransportConfig::Rist { local_bind, .. } => local_bind is Some
                            ==> pair_clear_of(local_bind->0@, b),
                        BondPathTransportConfig::Quic { addr, bind, .. } => bind is Some
                            ==> clear_of(bind->0@, b),
                        BondPathTransportConfig::Relay { .. } => true,
                    },
                _ => true,
            },
        forall|i: int|
            0 <= i < config.tunnels@.len() && (#[trigger] config.tunnels@[i]).enabled ==> {
                let t = config.tunnels@[i];
                &&& t.direction is Egress && t.protocol is Udp ==> clear_of(t.local_addr@, b)
                &&& t.direction is Ingress && t.mode is Direct && t.direct_listen_addr is Some
                    ==> clear_of(t.direct_listen_addr->0@, b)
            },
{
    assert(input_takes(config.inputs@[j].config, Proto::Udp, b));
    assert forall|i: int, a: SocketAddress|
        0 <= i < config.inputs@.len() && i != j && #[trigger] input_takes_udp(
            config.inputs@[i].config,
            a,
        ) implies !compete(a, b) by {
        if i < j {
            lemma_accepted_inputs_do_not_compete(config, i, j, Proto::Udp, a, b);
        } else {
            lemma_accepted_inputs_do_not_compete(config, j, i, Proto::Udp, b, a);
        }
    }
    assert forall|i: int, a: SocketAddress|
        0 <= i < config.outputs@.len() && #[trigger] output_takes_udp(
            config.outputs@[i],
            a,
        ) implies !compete(a, b) by {
        lemma_accepted_input_and_output_do_not_compete(config, j, i, Proto::Udp, b, a);
    }
    assert forall|i: int, a: SocketAddress|
        0 <= i < config.tunnels@.len() && #[trigger] tunnel_takes(
            config.tunnels@[i],
            Proto::Udp,
            a,
        ) implies !compete(a, b) by {
        lemma_accepted_tunnel_and_input_do_not_compete(config, i, j, Proto::Udp, a, b);
    }
    assert forall|i: int| 0 <= i < config.inputs@.len() && i != j implies input_is_clear(
        (#[trigger] config.inputs@[i]).config,
        b,
    ) by {
        lemma_input_clear(config.inputs@[i].config, b);
    }
    assert forall|i: int| 0 <= i < config.outputs@.len() implies output_is_clear(
        #[trigger] config.outputs@[i],
        b,
    ) by {
        lemma_output_clear(config.outputs@[i], b);
    }
    assert forall|i: int| 0 <= i < config.tunnels@.len() && (
    #[trigger] config.tunnels@[i]).enabled implies ({
        let t = config.tunnels@[i];
        &&& t.direction is Egress && t.protocol is Udp ==> clear_of(t.local_addr@, b)
        &&& t.direction is Ingress && t.mode is Direct && t.direct_listen_addr is Some ==> clear_of(
            t.direct_listen_addr->0@,
            b,
        )
    }) by {
        let t = config.tunnels@[i];
        if t.direction is Egress && t.protocol is Udp && addr::socket_of(t.local_addr@) is Some {
            assert(tunnel_takes(t, Proto::Udp, addr::socket_of(t.local_addr@)->0));
        }
        if t.direction is Ingress && t.mode is Direct && t.direct_listen_addr is Some
            && addr::socket_of(t.direct_listen_addr->0@) is Some {
            assert(tunnel_takes(
                t,
                Proto::Udp,
                addr::socket_of(t.direct_listen_addr->0@)->0,
            ));
        }
    }
}

spec fn input_is_clear(input: InputConfig, b: SocketAddress) -> bool {
    match input {
                InputConfig::Rtp(c) => clear_of(c.bind_addr@, b) && (c.redundancy is Some ==> clear_of(
                    c.redundancy->0.bind_addr@,
                    b,
                )),
                InputConfig::Udp(c) => clear_of(c.bind_addr@, b),
                InputConfig::Srt(c) => (c.local_addr is Some ==> clear_of(c.local_addr->0@, b)) && (
                c.redundancy is Some && c.redundancy->0.local_addr is Some ==> clear_of(
                    c.redundancy->0.local_addr->0@,
                    b,
                )) && (c.bonding is Some ==> forall|k: int|
                    0 <= k < c.bonding->0.endpoints@.len() ==> {
                        let e = #[trigger] c.bonding->0.endpoints@[k];
                        if c.mode is Listener {
                            clear_of(e.addr@, b)
                        } else {
                            e.local_addr is Some ==> clear_of(e.local_addr->0@, b)
                        }
                    }),
                InputConfig::Rist(c) => pair_clear_of(c.bind_addr@, b) && (c.redundancy is Some
                    ==> pair_clear_of(c.redundancy->0.bind_addr@, b)),
                InputConfig::St2110_30(c) => clear_of(c.bind_addr@, b) && (c.redundancy is Some
                    ==> clear_of(c.redundancy->0.addr@, b)),
                InputConfig::St2110_31(c) => clear_of(c.bind_addr@, b) && (c.redundancy is Some
                    ==> clear_of(c.redundancy->0.addr@, b)),
                InputConfig::St2110_40(c) => clear_of(c.bind_addr@, b) && (c.redundancy is Some
                    ==> clear_of(c.redundancy->0.addr@, b)),
                InputConfig::St2110_20(c) => clear_of(c.bind_addr@, b) && (c.redundancy is Some
                    ==> clear_of(c.redundancy->0.addr@, b)),
                InputConfig::RtpAudio(c) => clear_of(c.bind_addr@, b) && (c.redundancy is Some
                    ==> clear_of(c.redundancy->0.addr@, b)),
                InputConfig::St2110_23(c) => forall|k: int|
                    0 <= k < c.sub_streams@.len() ==> clear_of(
                        (#[trigger] c.sub_streams@[k]).bind_addr@,
                        b,
                    ) && (c.sub_streams@[k].redundancy is Some ==> clear_of(
                        c.sub_streams@[k].redundancy->0.addr@,
                        b,
                    )),
                InputConfig::Webrtc(c) => c.bind_addr is Some ==> clear_of(c.bind_addr->0@, b),
                InputConfig::Bonded(c) => forall|k: int|
                    0 <= k < c.paths@.len() ==> match (#[trigger] c.paths@[k]).transport {
                        BondPathTransportConfig::Udp { bind, .. } => bind is Some ==> clear_of(
                            bind->0@,
                            b,
                        ),
                        BondPathTransportConfig::Rist { local_bind, .. } => local_bind is Some
                            ==> pair_clear_of(local_bind->0@, b),
                        BondPathTransportConfig::Quic { addr, bind, .. } => clear_of(addr@, b),
                        BondPathTransportConfig::Relay { .. } => true,
                    },
        _ => true,
    }
}

spec fn output_is_clear(output: OutputConfig, b: SocketAddress) -> bool {
    match output {
                OutputConfig::Rtp(c) => (c.bind_addr is Some ==> clear_of(c.bind_addr->0@, b)) && (
                c.redundancy is Some && c.redundancy->0.bind_addr is Some ==> clear_of(
                    c.redundancy->0.bind_addr->0@,
                    b,
                )),
                OutputConfig::Udp(c) => c.bind_addr is Some ==> clear_of(c.bind_addr->0@, b),
                OutputConfig::Srt(c) => (c.local_addr is Some ==> clear_of(c.local_addr->0@, b)) && (
                c.redundancy is Some && c.redundancy->0.local_addr is Some ==> clear_of(
                    c.redundancy->0.local_addr->0@,
                    b,
                )) && (c.bonding is Some ==> forall|k: int|
                    0 <= k < c.bonding->0.endpoints@.len() ==> {
                        let e = #[trigger] c.bonding->0.endpoints@[k];
                        if c.mode is Listener {
                            clear_of(e.addr@, b)
                        } else {
                            e.local_addr is Some ==> clear_of(e.local_addr->0@, b)
                        }
                    }),
                OutputConfig::Rist(c) => (c.local_addr is Some ==> pair_clear_of(c.local_addr->0@, b)) && (
                c.redundancy is Some && c.redundancy->0.local_addr is Some ==> pair_clear_of(
                    c.redundancy->0.local_addr->0@,
                    b,
                )),
                OutputConfig::St2110_30(c) => c.bind_addr is Some ==> clear_of(c.bind_addr->0@, b),
                OutputConfig::St2110_31(c) => c.bind_addr is Some ==> clear_of(c.bind_addr->0@, b),
                OutputConfig::St2110_40(c) => c.bind_addr is Some ==> clear_of(c.bind_addr->0@, b),
                OutputConfig::St2110_20(c) => c.bind_addr is Some ==> clear_of(c.bind_addr->0@, b),
                OutputConfig::RtpAudio(c) => c.bind_addr is Some ==> clear_of(c.bind_addr->0@, b),
                OutputConfig::St2110_23(c) => forall|k: int|
                    0 <= k < c.sub_streams@.len() && (
                    #[trigger] c.sub_streams@[k]).bind_addr is Some ==> clear_of(
                        c.sub_streams@[k].bind_addr->0@,
                        b,
                    ),
                OutputConfig::Bonded(c) => forall|k: int|
                    0 <= k < c.paths@.len() ==> match (#[trigger] c.paths@[k]).transport {
                        BondPathTransportConfig::Udp { bind, .. } => bind is Some ==> clear_of(
                            bind->0@,
                            b,
                        ),
                        BondPathTransportConfig::Rist { local_bind, .. } => local_bind is Some
                            ==> pair_clear_of(local_bind->0@, b),
                        BondPathTransportConfig::Quic { addr, bind, .. } => bind is Some
                            ==> clear_of(bind->0@, b),
                        BondPathTransportConfig::Relay { .. } => true,
                    },
        _ => true,
    }
}

/// Turns a statement on addresses into one on the texts that hold them.
proof fn lemma_clear(s: Seq<char>, b: SocketAddress)
    requires
        forall|a: SocketAddress| #[trigger] reads(s, a) ==> !compete(a, b),
    ensures
        clear_of(s, b),
{
    if addr::socket_of(s) is Some {
        assert(reads(s, addr::socket_of(s)->0));
    }
}

proof fn lemma_pair_clear(s: Seq<char>, b: SocketAddress)
    requires
        forall|a: SocketAddress| #[trigger] reads(s, a) ==> !compete(a, b),
        forall|a: SocketAddress| #[trigger] follows(s, a) ==> !compete(a, b),
    ensures
        pair_clear_of(s, b),
{
    if addr::socket_of(s) is Some {
        let first = addr::socket_of(s)->0;
        assert(reads(s, first));
        if first.port != 0 {
            assert(follows(
                s,
                SocketAddress { ip: first.ip, port: first.port.wrapping_add(1) },
            ));
        }
    }
}

proof fn lemma_set_clear(s: Option<String>, b: SocketAddress)
    requires
        forall|a: SocketAddress| #[trigger] is_set_to(s, a) ==> !compete(a, b),
    ensures
        s is Some ==> clear_of(s->0@, b),
{
    if s is Some && addr::socket_of(s->0@) is Some {
        assert(is_set_to(s, addr::socket_of(s->0@)->0));
    }
}

proof fn lemma_path_clear(path: BondPathConfig, receiver: bool, b: SocketAddress)
    requires
        forall|a: SocketAddress| #[trigger] path_takes(path, receiver, a) ==> !compete(a, b),
    ensures
        match path.transport {
            BondPathTransportConfig::Udp { bind, .. } => bind is Some ==> clear_of(bind->0@, b),
            BondPathTransportConfig::Rist { local_bind, .. } => local_bind is Some
                ==> pair_clear_of(local_bind->0@, b),
            BondPathTransportConfig::Quic { addr, bind, .. } => if receiver {
                clear_of(addr@, b)
            } else {
                bind is Some ==> clear_of(bind->0@, b)
            },
            BondPathTransportConfig::Relay { .. } => true,
        },
{
    match path.transport {
        BondPathTransportConfig::Udp { bind, .. } => {
            assert forall|a: SocketAddress| #[trigger] is_set_to(bind, a) implies !compete(a, b) by {
                assert(path_takes(path, receiver, a));
            }
            lemma_set_clear(bind, b);
        },
        BondPathTransportConfig::Rist { local_bind, .. } => {
            if local_bind is Some {
                let s = local_bind->0@;
                assert forall|a: SocketAddress| #[trigger] reads(s, a) implies !compete(a, b) by {
                    assert(path_takes(path, receiver, a));
                }
                assert forall|a: SocketAddress| #[trigger] follows(s, a) implies !compete(a, b) by {
                    assert(path_takes(path, receiver, a));
                }
                lemma_pair_clear(s, b);
            }
        },
        BondPathTransportConfig::Quic { addr, bind, .. } => {
            if receiver {
                assert forall|a: SocketAddress| #[trigger] reads(addr@, a) implies !compete(
                    a,
                    b,
                ) by {
                    assert(path_takes(path, receiver, a));
                }
                lemma_clear(addr@, b);
            } else {
                assert forall|a: SocketAddress| #[trigger] is_set_to(bind, a) implies !compete(
                    a,
                    b,
                ) by {
                    assert(path_takes(path, receiver, a));
                }
                lemma_set_clear(bind, b);
            }
        },
        BondPathTransportConfig::Relay { .. } => {},
    }
}

proof fn lemma_member_clear(mode: SrtMode, e: SrtBondingEndpoint, b: SocketAddress)
    requires
        forall|a: SocketAddress| #[trigger] member_takes(mode, e, a) ==> !compete(a, b),
    ensures
        if mode is Listener {
            clear_of(e.addr@, b)
        } else {
            e.local_addr is Some ==> clear_of(e.local_addr->0@, b)
        },
{
    if mode is Listener {
        assert forall|a: SocketAddress| #[trigger] reads(e.addr@, a) implies !compete(a, b) by {
            assert(member_takes(mode, e, a));
        }
        lemma_clear(e.addr@, b);
    } else {
        assert forall|a: SocketAddress| #[trigger] is_set_to(e.local_addr, a) implies !compete(
            a,
            b,
        ) by {
            assert(member_takes(mode, e, a));
        }
        lemma_set_clear(e.local_addr, b);
    }
}

proof fn lemma_input_clear(input: InputConfig, b: SocketAddress)
    requires
        forall|a: SocketAddress| #[trigger] input_takes_udp(input, a) ==> !compete(a, b),
    ensures
        input_is_clear(input, b),
{
    match input {
        InputConfig::Rtp(c) => {
            assert forall|a: SocketAddress| #[trigger] reads(c.bind_addr@, a) implies !compete(a, b) by {
                assert(input_takes_udp(input, a));
            }
            lemma_clear(c.bind_addr@, b);
            if c.redundancy is Some {
            assert forall|a: SocketAddress| #[trigger] reads(c.redundancy->0.bind_addr@, a) implies !compete(a, b) by {
                assert(input_takes_udp(input, a));
            }
            lemma_clear(c.redundancy->0.bind_addr@, b);
            }
        },
        InputConfig::Udp(c) => {
            assert forall|a: SocketAddress| #[trigger] reads(c.bind_addr@, a) implies !compete(a, b) by {
                assert(input_takes_udp(input, a));
            }
            lemma_clear(c.bind_addr@, b);
        },
        InputConfig::Srt(c) => {
            assert forall|a: SocketAddress| #[trigger] is_set_to(c.local_addr, a) implies !compete(a, b) by {
                assert(input_takes_udp(input, a));
            }
            lemma_set_clear(c.local_addr, b);
            if c.redundancy is Some {
            assert forall|a: SocketAddress| #[trigger] is_set_to(c.redundancy->0.local_addr, a) implies !compete(a, b) by {
                assert(input_takes_udp(input, a));
            }
            lemma_set_clear(c.redundancy->0.local_addr, b);
            }
            if c.bonding is Some {
                assert forall|k: int| 0 <= k < c.bonding->0.endpoints@.len() implies ({
                    let e = #[trigger] c.bonding->0.endpoints@[k];
                    if c.mode is Listener {
                        clear_of(e.addr@, b)
                    } else {
                        e.local_addr is Some ==> clear_of(e.local_addr->0@, b)
                    }
                }) by {
                    let e = c.bonding->0.endpoints@[k];
                    assert forall|a: SocketAddress| #[trigger] member_takes(
                        c.mode,
                        e,
                        a,
                    ) implies !compete(a, b) by {
                        assert(input_takes_udp(input, a));
                    }
                    lemma_member_clear(c.mode, e, b);
                }
            }
        },
        InputConfig::Rist(c) => {
            assert forall|a: SocketAddress| #[trigger] reads(c.bind_addr@, a) implies !compete(a, b) by {
                assert(input_takes_udp(input, a));
            }
            assert forall|a: SocketAddress| #[trigger] follows(c.bind_addr@, a) implies !compete(a, b) by {
                assert(input_takes_udp(input, a));
            }
            lemma_pair_clear(c.bind_addr@, b);
            if c.redundancy is Some {
            assert forall|a: SocketAddress| #[trigger] reads(c.redundancy->0.bind_addr@, a) implies !compete(a, b) by {
                assert(input_takes_udp(input, a));
            }
            assert forall|a: SocketAddress| #[trigger] follows(c.redundancy->0.bind_addr@, a) implies !compete(a, b) by {
                assert(input_takes_udp(input, a));
            }
            lemma_pair_clear(c.redundancy->0.bind_addr@, b);
            }
        },
        InputConfig::St2110_30(c) => {
            assert forall|a: SocketAddress| #[trigger] reads(c.bind_addr@, a) implies !compete(a, b) by {
                assert(input_takes_udp(input, a));
            }
            lemma_clear(c.bind_addr@, b);
            if c.redundancy is Some {
            assert forall|a: SocketAddress| #[trigger] reads(c.redundancy->0.addr@, a) implies !compete(a, b) by {
                assert(input_takes_udp(input, a));
            }
            lemma_clear(c.redundancy->0.addr@, b);
            }
        },
        InputConfig::St2110_31(c) => {
            assert forall|a: SocketAddress| #[trigger] reads(c.bind_addr@, a) implies !compete(a, b) by {
                assert(input_takes_udp(input, a));
            }
            lemma_clear(c.bind_addr@, b);
            if c.redundancy is Some {
            assert forall|a: SocketAddress| #[trigger] reads(c.redundancy->0.addr@, a) implies !compete(a, b) by {
                assert(input_takes_udp(input, a));
            }
            lemma_clear(c.redundancy->0.addr@, b);
            }
        },
        InputConfig::St2110_40(c) => {
            assert forall|a: SocketAddress| #[trigger] reads(c.bind_addr@, a) implies !compete(a, b) by {
                assert(input_takes_udp(input, a));
            }
            lemma_clear(c.bind_addr@, b);
            if c.redundancy is Some {
            assert forall|a: SocketAddress| #[trigger] reads(c.redundancy->0.addr@, a) implies !compete(a, b) by {
                assert(input_takes_udp(input, a));
            }
            lemma_clear(c.redundancy->0.addr@, b);
            }
        },
        InputConfig::St2110_20(c) => {
            assert forall|a: SocketAddress| #[trigger] reads(c.bind_addr@, a) implies !compete(a, b) by {
                assert(input_takes_udp(input, a));
            }
            lemma_clear(c.bind_addr@, b);
            if c.redundancy is Some {
            assert forall|a: SocketAddress| #[trigger] reads(c.redundancy->0.addr@, a) implies !compete(a, b) by {
                assert(input_takes_udp(input, a));
            }
            lemma_clear(c.redundancy->0.addr@, b);
            }
        },
        InputConfig::RtpAudio(c) => {
            assert forall|a: SocketAddress| #[trigger] reads(c.bind_addr@, a) implies !compete(a, b) by {
                assert(input_takes_udp(input, a));
            }
            lemma_clear(c.bind_addr@, b);
            if c.redundancy is Some {
            assert forall|a: SocketAddress| #[trigger] reads(c.redundancy->0.addr@, a) implies !compete(a, b) by {
                assert(input_takes_udp(input, a));
            }
            lemma_clear(c.redundancy->0.addr@, b);
            }
        },
        InputConfig::St2110_23(c) => {
            assert forall|k: int| 0 <= k < c.sub_streams@.len() implies clear_of(
                (#[trigger] c.sub_streams@[k]).bind_addr@,
                b,
            ) && (c.sub_streams@[k].redundancy is Some ==> clear_of(
                c.sub_streams@[k].redundancy->0.addr@,
                b,
            )) by {
                let s = c.sub_streams@[k];
                assert forall|a: SocketAddress| #[trigger] reads(s.bind_addr@, a) implies !compete(
                    a,
                    b,
                ) by {
                    assert(input_takes_udp(input, a));
                }
                lemma_clear(s.bind_addr@, b);
                if s.redundancy is Some {
                    assert forall|a: SocketAddress| #[trigger] reads(
                        s.redundancy->0.addr@,
                        a,
                    ) implies !compete(a, b) by {
                        assert(input_takes_udp(input, a));
                    }
                    lemma_clear(s.redundancy->0.addr@, b);
                }
            }
        },
        InputConfig::Webrtc(c) => {
            assert forall|a: SocketAddress| #[trigger] is_set_to(c.bind_addr, a) implies !compete(a, b) by {
                assert(input_takes_udp(input, a));
            }
            lemma_set_clear(c.bind_addr, b);
        },
        InputConfig::Bonded(c) => {
            assert forall|k: int| 0 <= k < c.paths@.len() implies path_is_clear(
                #[trigger] c.paths@[k],
                true,
                b,
            ) by {
                let path = c.paths@[k];
                assert forall|a: SocketAddress| #[trigger] path_takes(
                    path,
                    true,
                    a,
                ) implies !compete(a, b) by {
                    assert(input_takes_udp(input, a));
                }
                lemma_path_clear(path, true, b);
            }
        },
        _ => {},
    }
}

spec fn path_is_clear(path: BondPathConfig, receiver: bool, b: SocketAddress) -> bool {
    match path.transport {
        BondPathTransportConfig::Udp { bind, .. } => bind is Some ==> clear_of(bind->0@, b),
        BondPathTransportConfig::Rist { local_bind, .. } => local_bind is Some ==> pair_clear_of(
            local_bind->0@,
            b,
        ),
        BondPathTransportConfig::Quic { addr, bind, .. } => if receiver {
            clear_of(addr@, b)
        } else {
            bind is Some ==> clear_of(bind->0@, b)
        },
        BondPathTransportConfig::Relay { .. } => true,
    }
}

proof fn lemma_output_clear(output: OutputConfig, b: SocketAddress)
    requires
        forall|a: SocketAddress| #[trigger] output_takes_udp(output, a) ==> !compete(a, b),
    ensures
        output_is_clear(output, b),
{
    match output {
        OutputConfig::Rtp(c) => {
            assert forall|a: SocketAddress| #[trigger] is_set_to(c.bind_addr, a) implies !compete(a, b) by {
                assert(output_takes_udp(output, a));
            }
            lemma_set_clear(c.bind_addr, b);
            if c.redundancy is Some {
            assert forall|a: SocketAddress| #[trigger] is_set_to(c.redundancy->0.bind_addr, a) implies !compete(a, b) by {
                assert(output_takes_udp(output, a));
            }
            lemma_set_clear(c.redundancy->0.bind_addr, b);
            }
        },
        OutputConfig::Udp(c) => {
            assert forall|a: SocketAddress| #[trigger] is_set_to(c.bind_addr, a) implies !compete(a, b) by {
                assert(output_takes_udp(output, a));
            }
            lemma_set_clear(c.bind_addr, b);
        },
        OutputConfig::Srt(c) => {
            assert forall|a: SocketAddress| #[trigger] is_set_to(c.local_addr, a) implies !compete(a, b) by {
                assert(output_takes_udp(output, a));
            }
            lemma_set_clear(c.local_addr, b);
            if c.redundancy is Some {
            assert forall|a: SocketAddress| #[trigger] is_set_to(c.redundancy->0.local_addr, a) implies !compete(a, b) by {
                assert(output_takes_udp(output, a));
            }
            lemma_set_clear(c.redundancy->0.local_addr, b);
            }
            if c.bonding is Some {
                assert forall|k: int| 0 <= k < c.bonding->0.endpoints@.len() implies ({
                    let e = #[trigger] c.bonding->0.endpoints@[k];
                    if c.mode is Listener {
                        clear_of(e.addr@, b)
                    } else {
                        e.local_addr is Some ==> clear_of(e.local_addr->0@, b)
                    }
                }) by {
                    let e = c.bonding->0.endpoints@[k];
                    assert forall|a: SocketAddress| #[trigger] member_takes(
                        c.mode,
                        e,
                        a,
                    ) implies !compete(a, b) by {
                        assert(output_takes_udp(output, a));
                    }
                    lemma_member_clear(c.mode, e, b);
                }
            }
        },
        OutputConfig::Rist(c) => {
            if c.local_addr is Some {
            assert forall|a: SocketAddress| #[trigger] reads(c.local_addr->0@, a) implies !compete(a, b) by {
                assert(output_takes_udp(output, a));
            }
            assert forall|a: SocketAddress| #[trigger] follows(c.local_addr->0@, a) implies !compete(a, b) by {
                assert(output_takes_udp(output, a));
            }
            lemma_pair_clear(c.local_addr->0@, b);
            }
            if c.redundancy is Some && c.redundancy->0.local_addr is Some {
            assert forall|a: SocketAddress| #[trigger] reads(c.redundancy->0.local_addr->0@, a) implies !compete(a, b) by {
                assert(output_takes_udp(output, a));
            }
            assert forall|a: SocketAddress| #[trigger] follows(c.redundancy->0.local_addr->0@, a) implies !compete(a, b) by {
                assert(output_takes_udp(output, a));
            }
            lemma_pair_clear(c.redundancy->0.local_addr->0@, b);
            }
        },
        OutputConfig::St2110_30(c) => {
            assert forall|a: SocketAddress| #[trigger] is_set_to(c.bind_addr, a) implies !compete(a, b) by {
                assert(output_takes_udp(output, a));
            }
            lemma_set_clear(c.bind_addr, b);
        },
        OutputConfig::St2110_31(c) => {
            assert forall|a: SocketAddress| #[trigger] is_set_to(c.bind_addr, a) implies !compete(a, b) by {
                assert(output_takes_udp(output, a));
            }
            lemma_set_clear(c.bind_addr, b);
        },
        OutputConfig::St2110_40(c) => {
            assert forall|a: SocketAddress| #[trigger] is_set_to(c.bind_addr, a) implies !compete(a, b) by {
                assert(output_takes_udp(output, a));
            }
            lemma_set_clear(c.bind_addr, b);
        },
        OutputConfig::St2110_20(c) => {
            assert forall|a: SocketAddress| #[trigger] is_set_to(c.bind_addr, a) implies !compete(a, b) by {
                assert(output_takes_udp(output, a));
            }
            lemma_set_clear(c.bind_addr, b);
        },
        OutputConfig::RtpAudio(c) => {
            assert forall|a: SocketAddress| #[trigger] is_set_to(c.bind_addr, a) implies !compete(a, b) by {
                assert(output_takes_udp(output, a));
            }
            lemma_set_clear(c.bind_addr, b);
        },
        OutputConfig::St2110_23(c) => {
            assert forall|k: int| 0 <= k < c.sub_streams@.len() && (
            #[trigger] c.sub_streams@[k]).bind_addr is Some implies clear_of(
                c.sub_streams@[k].bind_addr->0@,
                b,
            ) by {
                let s = c.sub_streams@[k];
                assert forall|a: SocketAddress| #[trigger] is_set_to(
                    s.bind_addr,
                    a,
                ) implies !compete(a, b) by {
                    assert(output_takes_udp(output, a));
                }
                lemma_set_clear(s.bind_addr, b);
            }
        },
        OutputConfig::Bonded(c) => {
            assert forall|k: int| 0 <= k < c.paths@.len() implies path_is_clear(
                #[trigger] c.paths@[k],
                false,
                b,
            ) by {
                let path = c.paths@[k];
                assert forall|a: SocketAddress| #[trigger] path_takes(
                    path,
                    false,
                    a,
                ) implies !compete(a, b) by {
                    assert(output_takes_udp(output, a));
                }
                lemma_path_clear(path, false, b);
            }
        },
        _ => {},
    }
}

// ---------------------------------------------------------------------------
// The legs of one component
// ---------------------------------------------------------------------------

/// Bindings in two parts of an input's own list do not compete.
proof fn lemma_input_parts(
    config: AppConfig,
    i: int,
    x: Seq<Binding>,
    y: Seq<Binding>,
    a: SocketAddress,
    b: SocketAddress,
)
    requires
        ports::port_conflicts_fault(config) is None,
        0 <= i < config.inputs@.len(),
        ports::input_bindings(config.inputs@[i]) == x + y,
        holds(x, Proto::Udp, a),
        holds(y, Proto::Udp, b),
    ensures
        !compete(a, b),
{
    let k = place_in(x, Proto::Udp, a);
    let l = place_in(y, Proto::Udp, b);
    assert((x + y)[k] == x[k]);
    assert((x + y)[x.len() + l] == y[l]);
    let p = lemma_input_place(config, i, k);
    let q = lemma_input_place(config, i, x.len() + l);
    if compete(a, b) {
        lemma_competing_collide(x[k], y[l], Proto::Udp, a, b);
        ports::lemma_accepted_ports_are_disjoint(config, p, q);
    }
}

proof fn lemma_output_parts(
    config: AppConfig,
    i: int,
    x: Seq<Binding>,
    y: Seq<Binding>,
    a: SocketAddress,
    b: SocketAddress,
)
    requires
        ports::port_conflicts_fault(config) is None,
        0 <= i < config.outputs@.len(),
        ports::output_bindings(config.outputs@[i]) == x + y,
        holds(x, Proto::Udp, a),
        holds(y, Proto::Udp, b),
    ensures
        !compete(a, b),
{
    let k = place_in(x, Proto::Udp, a);
    let l = place_in(y, Proto::Udp, b);
    assert((x + y)[k] == x[k]);
    assert((x + y)[x.len() + l] == y[l]);
    let p = lemma_output_place(config, i, k);
    let q = lemma_output_place(config, i, x.len() + l);
    if compete(a, b) {
        lemma_competing_collide(x[k], y[l], Proto::Udp, a, b);
        ports::lemma_accepted_ports_are_disjoint(config, p, q);
    }
}

/// In an accepted configuration the two legs of an input do not compete with each
/// other.
pub proof fn lemma_accepted_legs_of_an_input_do_not_compete(
    config: AppConfig,
    i: int,
    a: SocketAddress,
    b: SocketAddress,
)
    requires
        ports::port_conflicts_fault(config) is None,
        0 <= i < config.inputs@.len(),
        compete(a, b),
    ensures
        match config.inputs@[i].config {
            InputConfig::Rtp(c) => c.redundancy is Some && addr::socket_of(c.bind_addr@) == Some(a)
                ==> addr::socket_of(c.redundancy->0.bind_addr@) != Some(b),
            InputConfig::Srt(c) => c.local_addr is Some && c.redundancy is Some
                && c.redundancy->0.local_addr is Some && addr::socket_of(c.local_addr->0@) == Some(
                a,
            ) ==> addr::socket_of(c.redundancy->0.local_addr->0@) != Some(b),
            InputConfig::Rist(c) => c.redundancy is Some && addr::socket_of(c.bind_addr@) == Some(a)
                ==> addr::socket_of(c.redundancy->0.bind_addr@) != Some(b),
            InputConfig::St2110_30(c) => c.redundancy is Some && addr::socket_of(c.bind_addr@)
                == Some(a) ==> addr::socket_of(c.redundancy->0.addr@) != Some(b),
            InputConfig::St2110_31(c) => c.redundancy is Some && addr::socket_of(c.bind_addr@)
                == Some(a) ==> addr::socket_of(c.redundancy->0.addr@) != Some(b),
            InputConfig::St2110_40(c) => c.redundancy is Some && addr::socket_of(c.bind_addr@)
                == Some(a) ==> addr::socket_of(c.redundancy->0.addr@) != Some(b),
            InputConfig::St2110_20(c) => c.redundancy is Some && addr::socket_of(c.bind_addr@)
                == Some(a) ==> addr::socket_of(c.redundancy->0.addr@) != Some(b),
            InputConfig::RtpAudio(c) => c.redundancy is Some && addr::socket_of(c.bind_addr@)
                == Some(a) ==> addr::socket_of(c.redundancy->0.addr@) != Some(b),
            _ => true,
        },
{
    let u = Proto::Udp;
    let p = "Input '"@ + config.inputs@[i].name@ + "'"@;
    match config.inputs@[i].config {
        InputConfig::Rtp(c) => {
            if c.redundancy is Some && reads(c.bind_addr@, a) && reads(
                c.redundancy->0.bind_addr@,
                b,
            ) {
                let (l1, l2) = (p + " (RTP)"@, p + " (RTP redundancy leg 2)"@);
                lemma_udp_holds(c.bind_addr@, l1, u, a);
                lemma_udp_holds(c.redundancy->0.bind_addr@, l2, u, b);
                let (x, y) = (
                    ports::udp(c.bind_addr@, l1),
                    ports::udp(c.redundancy->0.bind_addr@, l2),
                );
                lemma_input_parts(config, i, x, y, a, b);
            }
        },
        InputConfig::Srt(c) => {
            if c.redundancy is Some && is_set_to(c.local_addr, a) && is_set_to(
                c.redundancy->0.local_addr,
                b,
            ) {
                let (l1, l2) = (p + ports::srt_role(c.mode), p + " (SRT redundancy leg 2)"@);
                lemma_udp_where_set_holds(c.local_addr, l1, u, a);
                lemma_udp_where_set_holds(c.redundancy->0.local_addr, l2, u, b);
                let x = ports::udp_where_set(c.local_addr, l1);
                let y = ports::udp_where_set(c.redundancy->0.local_addr, l2);
                let z = match c.bonding {
                    Some(group) => ports::group_bindings(
                        c.mode,
                        c.local_addr,
                        group.endpoints@,
                        group.endpoints@.len() as int,
                        p,
                    ),
                    None => Seq::empty(),
                };
                lemma_holds_left(y, z, u, b);
                assert(x + y + z =~= x + (y + z));
                lemma_input_parts(config, i, x, y + z, a, b);
            }
        },
        InputConfig::Rist(c) => {
            if c.redundancy is Some && reads(c.bind_addr@, a) && reads(
                c.redundancy->0.bind_addr@,
                b,
            ) {
                let s = c.redundancy->0.bind_addr@;
                let (l1, l2) = (p + " (RIST RTP)"@, p + " (RIST RTCP)"@);
                let (l3, l4) = (p + " (RIST leg 2 RTP)"@, p + " (RIST leg 2 RTCP)"@);
                lemma_rist_holds(c.bind_addr@, l1, l2, u, a);
                lemma_rist_holds(s, l3, l4, u, b);
                lemma_input_parts(
                    config,
                    i,
                    ports::rist_bindings(c.bind_addr@, l1, l2),
                    ports::rist_bindings(s, l3, l4),
                    a,
                    b,
                );
            }
        },
        InputConfig::St2110_30(c) => {
            if c.redundancy is Some && reads(c.bind_addr@, a) && reads(c.redundancy->0.addr@, b) {
                let (l1, l2) = (p + " (ST 2110)"@, p + " (ST 2110 redundancy leg 2)"@);
                lemma_udp_holds(c.bind_addr@, l1, u, a);
                lemma_udp_holds(c.redundancy->0.addr@, l2, u, b);
                let (x, y) = (ports::udp(c.bind_addr@, l1), ports::udp(c.redundancy->0.addr@, l2));
                lemma_input_parts(config, i, x, y, a, b);
            }
        },
        InputConfig::St2110_31(c) => {
            if c.redundancy is Some && reads(c.bind_addr@, a) && reads(c.redundancy->0.addr@, b) {
                let (l1, l2) = (p + " (ST 2110)"@, p + " (ST 2110 redundancy leg 2)"@);
                lemma_udp_holds(c.bind_addr@, l1, u, a);
                lemma_udp_holds(c.redundancy->0.addr@, l2, u, b);
                let (x, y) = (ports::udp(c.bind_addr@, l1), ports::udp(c.redundancy->0.addr@, l2));
                lemma_input_parts(config, i, x, y, a, b);
            }
        },
        InputConfig::St2110_40(c) => {
            if c.redundancy is Some && reads(c.bind_addr@, a) && reads(c.redundancy->0.addr@, b) {
                let (l1, l2) = (p + " (ST 2110-40)"@, p + " (ST 2110-40 redundancy leg 2)"@);
                lemma_udp_holds(c.bind_addr@, l1, u, a);
                lemma_udp_holds(c.redundancy->0.addr@, l2, u, b);
                let (x, y) = (ports::udp(c.bind_addr@, l1), ports::udp(c.redundancy->0.addr@, l2));
                lemma_input_parts(config, i, x, y, a, b);
            }
        },
        InputConfig::St2110_20(c) => {
            if c.redundancy is Some && reads(c.bind_addr@, a) && reads(c.redundancy->0.addr@, b) {
                let (l1, l2) = (p + " (ST 2110-20)"@, p + " (ST 2110-20 leg 2)"@);
                lemma_udp_holds(c.bind_addr@, l1, u, a);
                lemma_udp_holds(c.redundancy->0.addr@, l2, u, b);
                let (x, y) = (ports::udp(c.bind_addr@, l1), ports::udp(c.redundancy->0.addr@, l2));
                lemma_input_parts(config, i, x, y, a, b);
            }
        },
        InputConfig::RtpAudio(c) => {
            if c.redundancy is Some && reads(c.bind_addr@, a) && reads(c.redundancy->0.addr@, b) {
                let (l1, l2) = (p + " (RTP audio)"@, p + " (RTP audio redundancy leg 2)"@);
                lemma_udp_holds(c.bind_addr@, l1, u, a);
                lemma_udp_holds(c.redundancy->0.addr@, l2, u, b);
                let (x, y) = (ports::udp(c.bind_addr@, l1), ports::udp(c.redundancy->0.addr@, l2));
                lemma_input_parts(config, i, x, y, a, b);
            }
        },
        _ => {},
    }
}

/// In an accepted configuration the two legs of an output do not compete with each
/// other.
pub proof fn lemma_accepted_legs_of_an_output_do_not_compete(
    config: AppConfig,
    i: int,
    a: SocketAddress,
    b: SocketAddress,
)
    requires
        ports::port_conflicts_fault(config) is None,
        0 <= i < config.outputs@.len(),
        compete(a, b),
    ensures
        match config.outputs@[i] {
            OutputConfig::Rtp(c) => c.bind_addr is Some && c.redundancy is Some
                && c.redundancy->0.bind_addr is Some && addr::socket_of(c.bind_addr->0@) == Some(a)
                ==> addr::socket_of(c.redundancy->0.bind_addr->0@) != Some(b),
            OutputConfig::Srt(c) => c.local_addr is Some && c.redundancy is Some
                && c.redundancy->0.local_addr is Some && addr::socket_of(c.local_addr->0@) == Some(
                a,
            ) ==> addr::socket_of(c.redundancy->0.local_addr->0@) != Some(b),
            OutputConfig::Rist(c) => c.local_addr is Some && c.redundancy is Some
                && c.redundancy->0.local_addr is Some && addr::socket_of(c.local_addr->0@) == Some(
                a,
            ) ==> addr::socket_of(c.redundancy->0.local_addr->0@) != Some(b),
            _ => true,
        },
{
    let u = Proto::Udp;
    let p = "Output '"@ + config.outputs@[i].spec_name() + "'"@;
    match config.outputs@[i] {
        OutputConfig::Rtp(c) => {
            if c.redundancy is Some && is_set_to(c.bind_addr, a) && is_set_to(
                c.redundancy->0.bind_addr,
                b,
            ) {
                let (l1, l2) = (p + " (RTP)"@, p + " (RTP redundancy leg 2)"@);
                lemma_udp_where_set_holds(c.bind_addr, l1, u, a);
                lemma_udp_where_set_holds(c.redundancy->0.bind_addr, l2, u, b);
                lemma_output_parts(
                    config,
                    i,
                    ports::udp_where_set(c.bind_addr, l1),
                    ports::udp_where_set(c.redundancy->0.bind_addr, l2),
                    a,
                    b,
                );
            }
        },
        OutputConfig::Srt(c) => {
            if c.redundancy is Some && is_set_to(c.local_addr, a) && is_set_to(
                c.redundancy->0.local_addr,
                b,
            ) {
                let (l1, l2) = (p + ports::srt_role(c.mode), p + " (SRT redundancy leg 2)"@);
                lemma_udp_where_set_holds(c.local_addr, l1, u, a);
                lemma_udp_where_set_holds(c.redundancy->0.local_addr, l2, u, b);
                let x = ports::udp_where_set(c.local_addr, l1);
                let y = ports::udp_where_set(c.redundancy->0.local_addr, l2);
                let z = match c.bonding {
                    Some(group) => ports::group_bindings(
                        c.mode,
                        c.local_addr,
                        group.endpoints@,
                        group.endpoints@.len() as int,
                        p,
                    ),
                    None => Seq::empty(),
                };
                lemma_holds_left(y, z, u, b);
                assert(x + y + z =~= x + (y + z));
                lemma_output_parts(config, i, x, y + z, a, b);
            }
        },
        OutputConfig::Rist(c) => {
            if c.redundancy is Some && is_set_to(c.local_addr, a) && is_set_to(
                c.redundancy->0.local_addr,
                b,
            ) {
                let (l1, l2) = (p + " (RIST RTP)"@, p + " (RIST RTCP)"@);
                let (l3, l4) = (p + " (RIST leg 2 RTP)"@, p + " (RIST leg 2 RTCP)"@);
                lemma_rist_where_set_holds(c.local_addr, l1, l2, u, a);
                lemma_rist_where_set_holds(c.redundancy->0.local_addr, l3, l4, u, b);
                lemma_output_parts(
                    config,
                    i,
                    ports::rist_where_set(c.local_addr, l1, l2),
                    ports::rist_where_set(c.redundancy->0.local_addr, l3, l4),
                    a,
                    b,
                );
            }
        },
        _ => {},
    }
}

// ---------------------------------------------------------------------------
// The servers
// ---------------------------------------------------------------------------

/// Whether a server that is given a list of addresses, or else a single one, with a
/// port, listens on `at`.
pub open spec fn listens_on(
    list: Option<Vec<String>>,
    single: String,
    port: u16,
    at: SocketAddress,
) -> bool {
    if list is Some && list->0@.len() > 0 {
        exists|k: int|
            0 <= k < list->0@.len() && addr::socket_of(
                (#[trigger] list->0@[k])@ + ":"@ + text::dec(port as nat),
            ) == Some(at)
    } else {
        addr::socket_of(single@ + ":"@ + text::dec(port as nat)) == Some(at)
    }
}

/// Whether a listener on `at` leaves IPv4 to others: it is IPv6 and one of a list.
pub open spec fn leaves_ipv4(list: Option<Vec<String>>, at: SocketAddress) -> bool {
    list is Some && list->0@.len() > 0 && at.ip is V6
}

spec fn hears(bs: Seq<Binding>, dual_stack: bool, at: SocketAddress) -> bool {
    exists|k: int| 0 <= k < bs.len() && is_ear(#[trigger] bs[k], dual_stack, at)
}

spec fn is_ear(b: Binding, dual_stack: bool, at: SocketAddress) -> bool {
    b.port == at.port && b.ip == at.ip && b.proto is Tcp && b.v6_only == (dual_stack && at.ip is V6)
        && b.wildcard == at.ip.spec_is_unspecified()
}

proof fn lemma_listeners_hear(
    addrs: Seq<String>,
    n: int,
    port: u16,
    dual_stack: bool,
    label: Seq<char>,
    k: int,
    at: SocketAddress,
)
    requires
        counts(at),
        0 <= k < n <= addrs.len(),
        addr::socket_of(addrs[k]@ + ":"@ + text::dec(port as nat)) == Some(at),
    ensures
        hears(ports::listener_bindings(addrs, n, port, dual_stack, label), dual_stack, at),
    decreases n,
{
    let head = ports::listener_bindings(addrs, n - 1, port, dual_stack, label);
    let all = ports::listener_bindings(addrs, n, port, dual_stack, label);
    if k == n - 1 {
        assert(is_ear(all[head.len() as int], dual_stack, at));
    } else {
        lemma_listeners_hear(addrs, n - 1, port, dual_stack, label, k, at);
        let m = choose|m: int| 0 <= m < head.len() && is_ear(#[trigger] head[m], dual_stack, at);
        assert(all[m] == head[m]);
    }
}

proof fn lemma_server_hears(
    list: Option<Vec<String>>,
    single: String,
    port: u16,
    label: Seq<char>,
    at: SocketAddress,
)
    requires
        counts(at),
        listens_on(list, single, port, at),
    ensures
        hears(
            ports::server_bindings(list, single, port, label),
            list is Some && list->0@.len() > 0,
            at,
        ),
{
    let addrs = kinds::listen_addrs_of(list, single);
    let dual_stack = list is Some && list->0@.len() > 0;
    let k = if dual_stack {
        choose|k: int|
            0 <= k < list->0@.len() && addr::socket_of(
                (#[trigger] list->0@[k])@ + ":"@ + text::dec(port as nat),
            ) == Some(at)
    } else {
        0
    };
    lemma_listeners_hear(addrs, addrs.len() as int, port, dual_stack, label, k, at);
}

spec fn ear_in(bs: Seq<Binding>, dual_stack: bool, at: SocketAddress) -> int {
    choose|k: int| 0 <= k < bs.len() && is_ear(#[trigger] bs[k], dual_stack, at)
}

/// In an accepted configuration the API server has its ports to itself: a TCP
/// address that it listens on competes with no RTMP input, no TCP tunnel and no
/// address of the dashboard, except that an IPv6 listener of a list leaves IPv4
/// addresses to others.
pub proof fn lemma_accepted_server_is_alone(config: AppConfig, a: SocketAddress, b: SocketAddress)
    requires
        ports::port_conflicts_fault(config) is None,
        listens_on(
            config.server.listen_addrs,
            config.server.listen_addr,
            config.server.listen_port,
            a,
        ),
        compete(a, b),
        !(leaves_ipv4(config.server.listen_addrs, a) && b.ip is V4),
    ensures
        forall|i: int|
            0 <= i < config.inputs@.len() ==> ((#[trigger] config.inputs@[i]).config matches
                InputConfig::Rtmp(c) ==> addr::socket_of(c.listen_addr@) != Some(b)),
        forall|i: int|
            0 <= i < config.tunnels@.len() && (#[trigger] config.tunnels@[i]).enabled
                && config.tunnels@[i].direction is Egress && config.tunnels@[i].protocol is Tcp
                ==> addr::socket_of(config.tunnels@[i].local_addr@) != Some(b),
        config.monitor is Some && !(leaves_ipv4(config.monitor->0.listen_addrs, b) && a.ip is V4)
            ==> !listens_on(
            config.monitor->0.listen_addrs,
            config.monitor->0.listen_addr,
            config.monitor->0.listen_port,
            b,
        ),
{
    let all = ports::config_bindings(config);
    let (list, single) = (config.server.listen_addrs, config.server.listen_addr);
    let bs = ports::server_bindings(
        list,
        single,
        config.server.listen_port,
        "Edge API server"@,
    );
    let dual_stack = list is Some && list->0@.len() > 0;
    lemma_server_hears(list, single, config.server.listen_port, "Edge API server"@, a);
    let k = ear_in(bs, dual_stack, a);
    assert(all[k] == bs[k]);
    lemma_server_ear(config, k, dual_stack, a, b);
    if config.monitor is Some {
        let m = config.monitor->0;
        if listens_on(m.listen_addrs, m.listen_addr, m.listen_port, b) && !(leaves_ipv4(
            m.listen_addrs,
            b,
        ) && a.ip is V4) {
            let ms = ports::server_bindings(
                m.listen_addrs,
                m.listen_addr,
                m.listen_port,
                "Monitor dashboard"@,
            );
            let dual = m.listen_addrs is Some && m.listen_addrs->0@.len() > 0;
            lemma_server_hears(
                m.listen_addrs,
                m.listen_addr,
                m.listen_port,
                "Monitor dashboard"@,
                b,
            );
            let l = ear_in(ms, dual, b);
            assert(all[bs.len() + l] == ms[l]);
            assert(ports::collide(all[k], all[bs.len() + l]));
            ports::lemma_accepted_ports_are_disjoint(config, k, bs.len() + l);
        }
    }
}

/// A listener of the node itself against the inputs and the tunnels.
proof fn lemma_server_ear(
    config: AppConfig,
    k: int,
    dual_stack: bool,
    a: SocketAddress,
    b: SocketAddress,
)
    requires
        ports::port_conflicts_fault(config) is None,
        0 <= k < ports::own_bindings(config).len(),
        is_ear(ports::config_bindings(config)[k], dual_stack, a),
        compete(a, b),
        !(dual_stack && a.ip is V6 && b.ip is V4),
    ensures
        forall|i: int|
            0 <= i < config.inputs@.len() ==> ((#[trigger] config.inputs@[i]).config matches
                InputConfig::Rtmp(c) ==> addr::socket_of(c.listen_addr@) != Some(b)),
        forall|i: int|
            0 <= i < config.tunnels@.len() && (#[trigger] config.tunnels@[i]).enabled
                && config.tunnels@[i].direction is Egress && config.tunnels@[i].protocol is Tcp
                ==> addr::socket_of(config.tunnels@[i].local_addr@) != Some(b),
{
    let all = ports::config_bindings(config);
    assert forall|i: int| 0 <= i < config.inputs@.len() implies ((
    #[trigger] config.inputs@[i]).config matches InputConfig::Rtmp(c) ==> addr::socket_of(
        c.listen_addr@,
    ) != Some(b)) by {
        if input_takes(config.inputs@[i].config, Proto::Tcp, b) {
            lemma_input_holds(config.inputs@[i], Proto::Tcp, b);
            let l = place_in(ports::input_bindings(config.inputs@[i]), Proto::Tcp, b);
            let q = lemma_input_place(config, i, l);
            assert(ports::collide(all[k], all[q]));
            ports::lemma_accepted_ports_are_disjoint(config, k, q);
        }
    }
    assert forall|i: int| 0 <= i < config.tunnels@.len() && (#[trigger] config.tunnels@[i]).enabled
        && config.tunnels@[i].direction is Egress
        && config.tunnels@[i].protocol is Tcp implies addr::socket_of(
        config.tunnels@[i].local_addr@,
    ) != Some(b) by {
        if tunnel_takes(config.tunnels@[i], Proto::Tcp, b) {
            lemma_tunnel_holds(config.tunnels@[i], Proto::Tcp, b);
            let l = place_in(ports::tunnel_bindings(config.tunnels@[i]), Proto::Tcp, b);
            let q = lemma_tunnel_place(config, i, l);
            assert(ports::collide(all[k], all[q]));
            ports::lemma_accepted_ports_are_disjoint(config, k, q);
        }
    }
}

/// In an accepted configuration the dashboard has its ports to itself, in the same
/// way as the API server.
pub proof fn lemma_accepted_monitor_is_alone(config: AppConfig, a: SocketAddress, b: SocketAddress)
    requires
        ports::port_conflicts_fault(config) is None,
        config.monitor is Some,
        listens_on(
            config.monitor->0.listen_addrs,
            config.monitor->0.listen_addr,
            config.monitor->0.listen_port,
            a,
        ),
        compete(a, b),
        !(leaves_ipv4(config.monitor->0.listen_addrs, a) && b.ip is V4),
    ensures
        forall|i: int|
            0 <= i < config.inputs@.len() ==> ((#[trigger] config.inputs@[i]).config matches
                InputConfig::Rtmp(c) ==> addr::socket_of(c.listen_addr@) != Some(b)),
        forall|i: int|
            0 <= i < config.tunnels@.len() && (#[trigger] config.tunnels@[i]).enabled
                && config.tunnels@[i].direction is Egress && config.tunnels@[i].protocol is Tcp
                ==> addr::socket_of(config.tunnels@[i].local_addr@) != Some(b),
{
    let all = ports::config_bindings(config);
    let first = ports::server_bindings(
        config.server.listen_addrs,
        config.server.listen_addr,
        config.server.listen_port,
        "Edge API server"@,
    );
    let m = config.monitor->0;
    let bs = ports::server_bindings(
        m.listen_addrs,
        m.listen_addr,
        m.listen_port,
        "Monitor dashboard"@,
    );
    let dual_stack = m.listen_addrs is Some && m.listen_addrs->0@.len() > 0;
    lemma_server_hears(m.listen_addrs, m.listen_addr, m.listen_port, "Monitor dashboard"@, a);
    let k = ear_in(bs, dual_stack, a);
    assert(all[first.len() + k] == bs[k]);
    lemma_server_ear(config, first.len() + k, dual_stack, a, b);
}

/// In an accepted configuration two RTMP inputs, two TCP tunnels, and an RTMP input
/// and a TCP tunnel, never listen on competing addresses.
pub proof fn lemma_accepted_tcp_listeners_do_not_compete(
    config: AppConfig,
    i: int,
    j: int,
    a: SocketAddress,
    b: SocketAddress,
)
    requires
        ports::port_conflicts_fault(config) is None,
        compete(a, b),
    ensures
        0 <= i < j < config.inputs@.len() ==> (config.inputs@[i].config matches InputConfig::Rtmp(c)
            ==> config.inputs@[j].config matches InputConfig::Rtmp(d) ==> !(addr::socket_of(
            c.listen_addr@,
        ) == Some(a) && addr::socket_of(d.listen_addr@) == Some(b))),
        0 <= i < j < config.tunnels@.len() && config.tunnels@[i].enabled
            && config.tunnels@[j].enabled && config.tunnels@[i].direction is Egress
            && config.tunnels@[j].direction is Egress && config.tunnels@[i].protocol is Tcp
            && config.tunnels@[j].protocol is Tcp ==> !(addr::socket_of(
            config.tunnels@[i].local_addr@,
        ) == Some(a) && addr::socket_of(config.tunnels@[j].local_addr@) == Some(b)),
        0 <= i < config.tunnels@.len() && 0 <= j < config.inputs@.len()
            && config.tunnels@[i].enabled && config.tunnels@[i].direction is Egress
            && config.tunnels@[i].protocol is Tcp ==> (config.inputs@[j].config matches
            InputConfig::Rtmp(d) ==> !(addr::socket_of(config.tunnels@[i].local_addr@) == Some(a)
            && addr::socket_of(d.listen_addr@) == Some(b))),
{
    let t = Proto::Tcp;
    if 0 <= i < j < config.inputs@.len() && input_takes(config.inputs@[i].config, t, a)
        && input_takes(config.inputs@[j].config, t, b) {
        lemma_accepted_inputs_do_not_compete(config, i, j, t, a, b);
    }
    if 0 <= i < j < config.tunnels@.len() && tunnel_takes(config.tunnels@[i], t, a) && tunnel_takes(
        config.tunnels@[j],
        t,
        b,
    ) {
        lemma_accepted_tunnels_do_not_compete(config, i, j, t, a, b);
    }
    if 0 <= i < config.tunnels@.len() && 0 <= j < config.inputs@.len() && tunnel_takes(
        config.tunnels@[i],
        t,
        a,
    ) && input_takes(config.inputs@[j].config, t, b) {
        lemma_accepted_tunnel_and_input_do_not_compete(config, i, j, t, a, b);
    }
}

// ---------------------------------------------------------------------------
// Nothing else is refused
// ---------------------------------------------------------------------------

/// Ports are refused exactly when two of the bindings share protocol and port, and
/// address or all addresses, and none of the two leaves IPv4 to the other.
pub proof fn lemma_refused_ports_collide(config: AppConfig)
    ensures
        ports::port_conflicts_fault(config) is None <==> forall|i: int, j: int|
            #![trigger ports::config_bindings(config)[i], ports::config_bindings(config)[j]]
            0 <= i < j < ports::config_bindings(config).len() ==> {
                let (x, y) = (
                    ports::config_bindings(config)[i],
                    ports::config_bindings(config)[j],
                );
                ||| x.port != y.port
                ||| x.proto != y.proto
                ||| x.v6_only && y.ip is V4
                ||| y.v6_only && x.ip is V4
                ||| !x.wildcard && !y.wildcard && x.ip != y.ip
            },
{
    let bs = ports::config_bindings(config);
    let test = ports::conflict_with_earlier(bs);
    error::lemma_first_fault_none(bs, test, 0);
    assert forall|j: int| 0 <= j < bs.len() implies ((#[trigger] test(j, bs[j])) is None <==> forall|
        i: int,
    |
        0 <= i < j ==> !ports::collide(#[trigger] bs[i], bs[j])) by {
        let earlier = bs.take(j);
        let one = ports::conflict_with(bs[j]);
        error::lemma_first_fault_none(earlier, one, 0);
        assert forall|i: int| 0 <= i < j implies ((#[trigger] one(i, earlier[i])) is None
            <==> !ports::collide(bs[i], bs[j])) by {
            assert(earlier[i] == bs[i]);
        }
        if test(j, bs[j]) is None {
            assert forall|i: int| 0 <= i < j implies !ports::collide(#[trigger] bs[i], bs[j]) by {
                assert(one(i, earlier[i]) is None);
            }
        }
    }
    if forall|i: int, j: int|
        #![trigger bs[i], bs[j]]
        0 <= i < j < bs.len() ==> !ports::collide(bs[i], bs[j]) {
        assert forall|j: int| 0 <= j < bs.len() implies (#[trigger] test(j, bs[j])) is None by {}
    } else {
        let (i, j) = choose|i: int, j: int|
            #![trigger bs[i], bs[j]]
            0 <= i < j < bs.len() && ports::collide(bs[i], bs[j]);
        assert(!(test(j, bs[j]) is None));
    }
}

/// Whatever an input, an output or a tunnel binds is an address that its settings
/// name, unicast and with a port; nothing is bound for a disabled tunnel.
pub proof fn lemma_bound_addresses_are_named(
    input: InputDefinition,
    output: OutputConfig,
    tunnel: TunnelConfig,
    k: int,
)
    ensures
        0 <= k < ports::input_bindings(input).len() ==> {
            let b = ports::input_bindings(input)[k];
            &&& b.port != 0
            &&& !b.ip.spec_is_multicast()
            &&& !b.v6_only
            &&& input_takes(input.config, b.proto, SocketAddress { ip: b.ip, port: b.port })
        },
        0 <= k < ports::output_bindings(output).len() ==> {
            let b = ports::output_bindings(output)[k];
            &&& b.port != 0
            &&& !b.ip.spec_is_multicast()
            &&& !b.v6_only
            &&& output_takes(output, b.proto, SocketAddress { ip: b.ip, port: b.port })
        },
        0 <= k < ports::tunnel_bindings(tunnel).len() ==> {
            let b = ports::tunnel_bindings(tunnel)[k];
            &&& tunnel.enabled
            &&& b.port != 0
            &&& !b.ip.spec_is_multicast()
            &&& !b.v6_only
            &&& tunnel_takes(tunnel, b.proto, SocketAddress { ip: b.ip, port: b.port })
        },
{
    if 0 <= k < ports::input_bindings(input).len() {
        let bs = ports::input_bindings(input);
        lemma_input_sound(input);
        let at = SocketAddress { ip: bs[k].ip, port: bs[k].port };
        assert(is_for(bs[k], bs[k].proto, at));
        lemma_input_holds(input, bs[k].proto, at);
    }
    if 0 <= k < ports::output_bindings(output).len() {
        let bs = ports::output_bindings(output);
        lemma_output_sound(output);
        let at = SocketAddress { ip: bs[k].ip, port: bs[k].port };
        assert(is_for(bs[k], bs[k].proto, at));
        lemma_output_holds(output, bs[k].proto, at);
    }
    if 0 <= k < ports::tunnel_bindings(tunnel).len() {
        let bs = ports::tunnel_bindings(tunnel);
        let at = SocketAddress { ip: bs[k].ip, port: bs[k].port };
        assert(is_for(bs[k], bs[k].proto, at));
        lemma_tunnel_holds(tunnel, bs[k].proto, at);
    }
}

/// Whether a binding is one that counts, and follows its address.
spec fn is_sound(b: Binding) -> bool {
    b.port != 0 && !b.ip.spec_is_multicast() && !b.v6_only && b.wildcard
        == b.ip.spec_is_unspecified()
}

spec fn all_sound(bs: Seq<Binding>) -> bool {
    forall|k: int| 0 <= k < bs.len() ==> is_sound(#[trigger] bs[k])
}

proof fn lemma_sound_lists(mode: SrtMode, local_addr: Option<String>, members: Seq<SrtBondingEndpoint>, n: int, prefix: Seq<char>)
    requires
        n <= members.len(),
    ensures
        all_sound(ports::group_bindings(mode, local_addr, members, n, prefix)),
        ports::group_bindings(mode, local_addr, members, n, prefix).len() <= if n > 0 {
            n
        } else {
            0
        },
    decreases n,
{
    if n > 0 {
        lemma_sound_lists(mode, local_addr, members, n - 1, prefix);
    }
}

proof fn lemma_sound_bond(paths: Seq<BondPathConfig>, n: int, receiver: bool, prefix: Seq<char>)
    requires
        n <= paths.len(),
    ensures
        all_sound(ports::bond_bindings(paths, n, receiver, prefix)),
    decreases n,
{
    if n > 0 {
        lemma_sound_bond(paths, n - 1, receiver, prefix);
        let tail = ports::leg_bindings(paths[n - 1], receiver, prefix);
        assert(all_sound(tail));
    }
}

proof fn lemma_sound_sub_streams(subs: Seq<St2110_23SubStreamBind>, n: int, prefix: Seq<char>)
    requires
        n <= subs.len(),
    ensures
        all_sound(ports::sub_stream_bindings(subs, n, prefix)),
    decreases n,
{
    if n > 0 {
        lemma_sound_sub_streams(subs, n - 1, prefix);
    }
}

proof fn lemma_sound_sent(subs: Seq<St2110_23SubStreamDest>, n: int, prefix: Seq<char>)
    requires
        n <= subs.len(),
    ensures
        all_sound(ports::sent_sub_stream_bindings(subs, n, prefix)),
    decreases n,
{
    if n > 0 {
        lemma_sound_sent(subs, n - 1, prefix);
    }
}

proof fn lemma_sound_both(a: Seq<Binding>, b: Seq<Binding>)
    requires
        all_sound(a),
        all_sound(b),
    ensures
        all_sound(a + b),
{
    assert forall|k: int| 0 <= k < (a + b).len() implies is_sound(#[trigger] (a + b)[k]) by {
        if k < a.len() {
            assert(is_sound(a[k]));
        } else {
            assert(is_sound(b[k - a.len()]));
        }
    }
}

proof fn lemma_sound_udp(s: Seq<char>, t: Option<String>, label: Seq<char>, other: Seq<char>)
    ensures
        all_sound(ports::udp(s, label)),
        all_sound(ports::udp_where_set(t, label)),
        all_sound(ports::rist_bindings(s, label, other)),
        all_sound(ports::rist_where_set(t, label, other)),
{
}

proof fn lemma_sound_red_blue(
    s: Seq<char>,
    redundancy: Option<RedBlueBindConfig>,
    first: Seq<char>,
    second: Seq<char>,
)
    ensures
        all_sound(ports::red_blue_bindings(s, redundancy, first, second)),
{
    lemma_sound_udp(s, None, first, first);
    if redundancy is Some {
        lemma_sound_udp(redundancy->0.addr@, None, second, second);
        lemma_sound_both(ports::udp(s, first), ports::udp(redundancy->0.addr@, second));
    }
}

proof fn lemma_sound_srt(
    mode: SrtMode,
    local_addr: Option<String>,
    redundancy: Option<SrtRedundancyConfig>,
    bonding: Option<SrtBondingConfig>,
    p: Seq<char>,
)
    ensures
        all_sound(ports::srt_bindings(mode, local_addr, redundancy, bonding, p)),
{
    let a = ports::udp_where_set(local_addr, p + ports::srt_role(mode));
    let b = match redundancy {
        Some(red) => ports::udp_where_set(red.local_addr, p + " (SRT redundancy leg 2)"@),
        None => Seq::empty(),
    };
    let c = match bonding {
        Some(group) => ports::group_bindings(
            mode,
            local_addr,
            group.endpoints@,
            group.endpoints@.len() as int,
            p,
        ),
        None => Seq::empty(),
    };
    lemma_sound_udp(p, local_addr, p + ports::srt_role(mode), p);
    if redundancy is Some {
        lemma_sound_udp(p, redundancy->0.local_addr, p + " (SRT redundancy leg 2)"@, p);
    }
    if bonding is Some {
        let members = bonding->0.endpoints@;
        lemma_sound_lists(mode, local_addr, members, members.len() as int, p);
    }
    lemma_sound_both(a, b);
    lemma_sound_both(a + b, c);
}

proof fn lemma_input_sound(input: InputDefinition)
    ensures
        all_sound(ports::input_bindings(input)),
{
    let p = "Input '"@ + input.name@ + "'"@;
    match input.config {
        InputConfig::Rtp(c) => {
            lemma_sound_udp(c.bind_addr@, None, p + " (RTP)"@, p);
            if c.redundancy is Some {
                let s = c.redundancy->0.bind_addr@;
                lemma_sound_udp(s, None, p + " (RTP redundancy leg 2)"@, p);
                lemma_sound_both(
                    ports::udp(c.bind_addr@, p + " (RTP)"@),
                    ports::udp(s, p + " (RTP redundancy leg 2)"@),
                );
            }
        },
        InputConfig::Udp(c) => {
            lemma_sound_udp(c.bind_addr@, None, p + " (UDP)"@, p);
        },
        InputConfig::Srt(c) => {
            lemma_sound_srt(c.mode, c.local_addr, c.redundancy, c.bonding, p);
        },
        InputConfig::Rist(c) => {
            let (l1, l2) = (p + " (RIST RTP)"@, p + " (RIST RTCP)"@);
            let (l3, l4) = (p + " (RIST leg 2 RTP)"@, p + " (RIST leg 2 RTCP)"@);
            lemma_sound_udp(c.bind_addr@, None, l1, l2);
            if c.redundancy is Some {
                let s = c.redundancy->0.bind_addr@;
                lemma_sound_udp(s, None, l3, l4);
                lemma_sound_both(
                    ports::rist_bindings(c.bind_addr@, l1, l2),
                    ports::rist_bindings(s, l3, l4),
                );
            }
        },
        InputConfig::St2110_30(c) => {
            lemma_sound_red_blue(
                c.bind_addr@,
                c.redundancy,
                p + " (ST 2110)"@,
                p + " (ST 2110 redundancy leg 2)"@,
            );
        },
        InputConfig::St2110_31(c) => {
            lemma_sound_red_blue(
                c.bind_addr@,
                c.redundancy,
                p + " (ST 2110)"@,
                p + " (ST 2110 redundancy leg 2)"@,
            );
        },
        InputConfig::St2110_40(c) => {
            lemma_sound_red_blue(
                c.bind_addr@,
                c.redundancy,
                p + " (ST 2110-40)"@,
                p + " (ST 2110-40 redundancy leg 2)"@,
            );
        },
        InputConfig::St2110_20(c) => {
            lemma_sound_red_blue(
                c.bind_addr@,
                c.redundancy,
                p + " (ST 2110-20)"@,
                p + " (ST 2110-20 leg 2)"@,
            );
        },
        InputConfig::RtpAudio(c) => {
            lemma_sound_red_blue(
                c.bind_addr@,
                c.redundancy,
                p + " (RTP audio)"@,
                p + " (RTP audio redundancy leg 2)"@,
            );
        },
        InputConfig::Webrtc(c) => {
            lemma_sound_udp(p, c.bind_addr, p + " (WebRTC)"@, p);
        },
        InputConfig::St2110_23(c) => {
            lemma_sound_sub_streams(c.sub_streams@, c.sub_streams@.len() as int, p);
        },
        InputConfig::Bonded(c) => {
            lemma_sound_bond(c.paths@, c.paths@.len() as int, true, p);
        },
        _ => {},
    }
}

proof fn lemma_output_sound(output: OutputConfig)
    ensures
        all_sound(ports::output_bindings(output)),
{
    let p = "Output '"@ + output.spec_name() + "'"@;
    match output {
        OutputConfig::Rtp(c) => {
            lemma_sound_udp(p, c.bind_addr, p + " (RTP)"@, p);
            if c.redundancy is Some {
                let s = c.redundancy->0.bind_addr;
                lemma_sound_udp(p, s, p + " (RTP redundancy leg 2)"@, p);
                lemma_sound_both(
                    ports::udp_where_set(c.bind_addr, p + " (RTP)"@),
                    ports::udp_where_set(s, p + " (RTP redundancy leg 2)"@),
                );
            }
        },
        OutputConfig::Udp(c) => {
            lemma_sound_udp(p, c.bind_addr, p + " (UDP)"@, p);
        },
        OutputConfig::Srt(c) => {
            lemma_sound_srt(c.mode, c.local_addr, c.redundancy, c.bonding, p);
        },
        OutputConfig::Rist(c) => {
            let (l1, l2) = (p + " (RIST RTP)"@, p + " (RIST RTCP)"@);
            let (l3, l4) = (p + " (RIST leg 2 RTP)"@, p + " (RIST leg 2 RTCP)"@);
            lemma_sound_udp(p, c.local_addr, l1, l2);
            if c.redundancy is Some {
                let s = c.redundancy->0.local_addr;
                lemma_sound_udp(p, s, l3, l4);
                lemma_sound_both(
                    ports::rist_where_set(c.local_addr, l1, l2),
                    ports::rist_where_set(s, l3, l4),
                );
            }
        },
        OutputConfig::St2110_30(c) => {
            lemma_sound_udp(p, c.bind_addr, p + " (ST 2110)"@, p);
        },
        OutputConfig::St2110_31(c) => {
            lemma_sound_udp(p, c.bind_addr, p + " (ST 2110)"@, p);
        },
        OutputConfig::St2110_40(c) => {
            lemma_sound_udp(p, c.bind_addr, p + " (ST 2110-40)"@, p);
        },
        OutputConfig::St2110_20(c) => {
            lemma_sound_udp(p, c.bind_addr, p + " (ST 2110-20)"@, p);
        },
        OutputConfig::RtpAudio(c) => {
            lemma_sound_udp(p, c.bind_addr, p + " (RTP audio)"@, p);
        },
        OutputConfig::St2110_23(c) => {
            lemma_sound_sent(c.sub_streams@, c.sub_streams@.len() as int, p);
        },
        OutputConfig::Bonded(c) => {
            lemma_sound_bond(c.paths@, c.paths@.len() as int, false, p);
        },
        _ => {},
    }
}

/// An input binds at most one socket for each address that it names, two for a RIST
/// address, and none where it names none.
pub proof fn lemma_bound_addresses_are_few(input: InputDefinition, output: OutputConfig)
    ensures
        match input.config {
            InputConfig::Rtp(c) => ports::input_bindings(input).len() <= if c.redundancy is Some {
                2nat
            } else {
                1
            },
            InputConfig::Udp(_) | InputConfig::Rtmp(_) => ports::input_bindings(input).len() <= 1,
            InputConfig::Webrtc(c) => ports::input_bindings(input).len() <= if c.bind_addr is Some {
                1nat
            } else {
                0
            },
            InputConfig::Rist(c) => ports::input_bindings(input).len() <= if c.redundancy is Some {
                4nat
            } else {
                2
            },
            InputConfig::St2110_30(c) | InputConfig::St2110_31(c) => ports::input_bindings(
                input,
            ).len() <= if c.redundancy is Some {
                2nat
            } else {
                1
            },
            InputConfig::Srt(c) => c.bonding is None ==> ports::input_bindings(input).len()
                <= if c.redundancy is Some {
                2nat
            } else {
                1
            },
            InputConfig::St2110_40(_)
            | InputConfig::St2110_20(_)
            | InputConfig::RtpAudio(_) => ports::input_bindings(input).len() <= 2,
            InputConfig::St2110_23(_) | InputConfig::Bonded(_) => true,
            _ => ports::input_bindings(input).len() == 0,
        },
        match output {
            OutputConfig::Rtp(_) => ports::output_bindings(output).len() <= 2,
            OutputConfig::Srt(c) => c.bonding is None ==> ports::output_bindings(output).len() <= 2,
            OutputConfig::Rist(c) => ports::output_bindings(output).len() <= 4,
            OutputConfig::Udp(_)
            | OutputConfig::St2110_30(_)
            | OutputConfig::St2110_31(_)
            | OutputConfig::St2110_40(_)
            | OutputConfig::St2110_20(_)
            | OutputConfig::RtpAudio(_) => ports::output_bindings(output).len() <= 1,
            OutputConfig::St2110_23(_) | OutputConfig::Bonded(_) => true,
            _ => ports::output_bindings(output).len() == 0,
        },
{
}

// ---------------------------------------------------------------------------
// The parts of one component, where there are many
// ---------------------------------------------------------------------------

/// A list of bindings that grows part by part splits before any part, and what a later
/// part holds is held by what comes after.
proof fn lemma_list_splits(
    f: spec_fn(int) -> Seq<Binding>,
    g: spec_fn(int) -> Seq<Binding>,
    m: int,
    k: int,
    n: int,
    at: SocketAddress,
)
    requires
        m <= k < n,
        forall|i: int| m <= i < n ==> #[trigger] f(i + 1) == f(i) + g(i),
        holds(g(k), Proto::Udp, at),
    ensures
        f(n) == f(m) + f(n).skip(f(m).len() as int),
        f(m).len() <= f(n).len(),
        holds(f(n).skip(f(m).len() as int), Proto::Udp, at),
    decreases n - m,
{
    let last = n - 1;
    assert(f(last + 1) == f(last) + g(last));
    if k == last {
        lemma_list_grows(f, g, m, last);
        let rest = f(last).skip(f(m).len() as int);
        assert(f(n).skip(f(m).len() as int) =~= rest + g(last));
        lemma_holds_right(rest, g(last), Proto::Udp, at);
    } else {
        lemma_list_splits(f, g, m, k, last, at);
        let rest = f(last).skip(f(m).len() as int);
        assert(f(n).skip(f(m).len() as int) =~= rest + g(last));
        lemma_holds_left(rest, g(last), Proto::Udp, at);
    }
    assert(f(n) =~= f(m) + f(n).skip(f(m).len() as int)) by {
        lemma_list_grows(f, g, m, n);
    }
}

proof fn lemma_list_grows(
    f: spec_fn(int) -> Seq<Binding>,
    g: spec_fn(int) -> Seq<Binding>,
    m: int,
    n: int,
)
    requires
        m <= n,
        forall|i: int| m <= i < n ==> #[trigger] f(i + 1) == f(i) + g(i),
    ensures
        f(m).len() <= f(n).len(),
        f(n).take(f(m).len() as int) == f(m),
    decreases n - m,
{
    if m < n {
        let last = n - 1;
        assert(f(last + 1) == f(last) + g(last));
        lemma_list_grows(f, g, m, last);
        assert(f(n).take(f(m).len() as int) =~= f(last).take(f(m).len() as int));
    } else {
        assert(f(n).take(f(m).len() as int) =~= f(m));
    }
}

/// In a configuration whose ports are accepted no two sub-streams of an ST 2110-23 input
/// compete with each other, on either leg.
pub proof fn lemma_accepted_sub_streams_do_not_compete(
    config: AppConfig,
    n: int,
    c: St2110_23InputConfig,
    i: int,
    j: int,
    a: SocketAddress,
    b: SocketAddress,
)
    requires
        ports::port_conflicts_fault(config) is None,
        0 <= n < config.inputs@.len(),
        config.inputs@[n].config == InputConfig::St2110_23(c),
        0 <= i < j < c.sub_streams@.len(),
        addr::socket_of(c.sub_streams@[i].bind_addr@) == Some(a) || c.sub_streams@[i].redundancy
            is Some && addr::socket_of(c.sub_streams@[i].redundancy->0.addr@) == Some(a),
        addr::socket_of(c.sub_streams@[j].bind_addr@) == Some(b) || c.sub_streams@[j].redundancy
            is Some && addr::socket_of(c.sub_streams@[j].redundancy->0.addr@) == Some(b),
    ensures
        !compete(a, b),
{
    if compete(a, b) {
        let p = "Input '"@ + config.inputs@[n].name@ + "'"@;
        let subs = c.sub_streams@;
        let f = |k: int| ports::sub_stream_bindings(subs, k, p);
        let g = |k: int|
            {
                let label = p + " (ST 2110-23 sub_streams["@ + text::dec(k as nat);
                ports::red_blue_bindings(
                    subs[k].bind_addr@,
                    subs[k].redundancy,
                    label + "])"@,
                    label + "] leg 2)"@,
                )
            };
        assert forall|k: int| 0 <= k < subs.len() implies #[trigger] f(k + 1) == f(k) + g(k) by {}
        let label = p + " (ST 2110-23 sub_streams["@ + text::dec(j as nat);
        lemma_red_blue_holds(
            subs[j].bind_addr@,
            subs[j].redundancy,
            label + "])"@,
            label + "] leg 2)"@,
            Proto::Udp,
            b,
        );
        lemma_list_splits(f, g, j, j, subs.len() as int, b);
        lemma_sub_streams_hold(subs, j, p, Proto::Udp, a);
        let x = f(j);
        let y = f(subs.len() as int).skip(x.len() as int);
        lemma_input_parts(config, n, x, y, a, b);
    }
}

/// In a configuration whose ports are accepted no two legs of a bonded input compete with
/// each other.
pub proof fn lemma_accepted_bonded_input_legs_do_not_compete(
    config: AppConfig,
    n: int,
    c: BondedInputConfig,
    i: int,
    j: int,
    a: SocketAddress,
    b: SocketAddress,
)
    requires
        ports::port_conflicts_fault(config) is None,
        0 <= n < config.inputs@.len(),
        config.inputs@[n].config == InputConfig::Bonded(c),
        0 <= i < j < c.paths@.len(),
        path_takes(c.paths@[i], true, a),
        path_takes(c.paths@[j], true, b),
    ensures
        !compete(a, b),
{
    if compete(a, b) {
        let p = "Input '"@ + config.inputs@[n].name@ + "'"@;
        let paths = c.paths@;
        let f = |k: int| ports::bond_bindings(paths, k, true, p);
        let g = |k: int| ports::leg_bindings(paths[k], true, p);
        assert forall|k: int| 0 <= k < paths.len() implies #[trigger] f(k + 1) == f(k) + g(k) by {}
        lemma_leg_holds(paths[j], true, p, Proto::Udp, b);
        lemma_list_splits(f, g, j, j, paths.len() as int, b);
        lemma_bond_holds(paths, j, true, p, Proto::Udp, a);
        let x = f(j);
        let y = f(paths.len() as int).skip(x.len() as int);
        lemma_input_parts(config, n, x, y, a, b);
    }
}

/// In a configuration whose ports are accepted no two legs of a bonded output compete with
/// each other.
pub proof fn lemma_accepted_bonded_output_legs_do_not_compete(
    config: AppConfig,
    n: int,
    c: BondedOutputConfig,
    i: int,
    j: int,
    a: SocketAddress,
    b: SocketAddress,
)
    requires
        ports::port_conflicts_fault(config) is None,
        0 <= n < config.outputs@.len(),
        config.outputs@[n] == OutputConfig::Bonded(c),
        0 <= i < j < c.paths@.len(),
        path_takes(c.paths@[i], false, a),
        path_takes(c.paths@[j], false, b),
    ensures
        !compete(a, b),
{
    if compete(a, b) {
        let p = "Output '"@ + config.outputs@[n].spec_name() + "'"@;
        let paths = c.paths@;
        let f = |k: int| ports::bond_bindings(paths, k, false, p);
        let g = |k: int| ports::leg_bindings(paths[k], false, p);
        assert forall|k: int| 0 <= k < paths.len() implies #[trigger] f(k + 1) == f(k) + g(k) by {}
        lemma_leg_holds(paths[j], false, p, Proto::Udp, b);
        lemma_list_splits(f, g, j, j, paths.len() as int, b);
        lemma_bond_holds(paths, j, false, p, Proto::Udp, a);
        let x = f(j);
        let y = f(paths.len() as int).skip(x.len() as int);
        lemma_output_parts(config, n, x, y, a, b);
    }
}

/// A leg of a bond binds one socket, a RIST leg two, and a relayed leg none; a sub-stream
/// binds one for each of its legs.
pub proof fn lemma_parts_bind_few(
    path: BondPathConfig,
    receiver: bool,
    subs: Seq<St2110_23SubStreamBind>,
    sent: Seq<St2110_23SubStreamDest>,
    n: int,
    p: Seq<char>,
)
    requires
        0 <= n,
        n < subs.len(),
        n < sent.len(),
    ensures
        ports::leg_bindings(path, receiver, p).len() <= match path.transport {
            BondPathTransportConfig::Rist { .. } => 2nat,
            BondPathTransportConfig::Relay { .. } => 0,
            _ => 1,
        },
        ports::sub_stream_bindings(subs, n + 1, p).len() <= ports::sub_stream_bindings(
            subs,
            n,
            p,
        ).len() + if subs[n].redundancy is Some {
            2nat
        } else {
            1
        },
        ports::sent_sub_stream_bindings(sent, n + 1, p).len() <= ports::sent_sub_stream_bindings(
            sent,
            n,
            p,
        ).len() + 1,
{
}

// ---------------------------------------------------------------------------
// Every binding has an owner
// ---------------------------------------------------------------------------

proof fn lemma_gather_origin<A>(s: Seq<A>, f: spec_fn(A) -> Seq<Binding>, n: int, q: int) -> (r: (
    int,
    int,
))
    requires
        0 <= n <= s.len(),
        0 <= q < ports::gather(s, f, n).len(),
    ensures
        0 <= r.0 < n,
        0 <= r.1 < f(s[r.0]).len(),
        ports::gather(s, f, n)[q] == f(s[r.0])[r.1],
    decreases n,
{
    let head = ports::gather(s, f, n - 1);
    if n == 0 {
        (0, 0)
    } else if q < head.len() {
        lemma_gather_origin(s, f, n - 1, q)
    } else {
        (n - 1, q - head.len())
    }
}

proof fn lemma_listeners_are_named(
    addrs: Seq<String>,
    n: int,
    port: u16,
    dual_stack: bool,
    label: Seq<char>,
    q: int,
) -> (k: int)
    requires
        n <= addrs.len(),
        0 <= q < ports::listener_bindings(addrs, n, port, dual_stack, label).len(),
    ensures
        0 <= k < n,
        ({
            let b = ports::listener_bindings(addrs, n, port, dual_stack, label)[q];
            &&& b.proto is Tcp
            &&& b.port != 0
            &&& !b.ip.spec_is_multicast()
            &&& b.v6_only == (dual_stack && b.ip is V6)
            &&& addr::socket_of(addrs[k]@ + ":"@ + text::dec(port as nat)) == Some(
                SocketAddress { ip: b.ip, port: b.port },
            )
        }),
    decreases n,
{
    if n <= 0 {
        0
    } else {
        let head = ports::listener_bindings(addrs, n - 1, port, dual_stack, label);
        if q < head.len() {
            lemma_listeners_are_named(addrs, n - 1, port, dual_stack, label, q)
        } else {
            n - 1
        }
    }
}

proof fn lemma_server_is_named(
    list: Option<Vec<String>>,
    single: String,
    port: u16,
    label: Seq<char>,
    q: int,
)
    requires
        0 <= q < ports::server_bindings(list, single, port, label).len(),
    ensures
        ({
            let b = ports::server_bindings(list, single, port, label)[q];
            &&& b.proto is Tcp
            &&& b.port != 0
            &&& !b.ip.spec_is_multicast()
            &&& b.v6_only == leaves_ipv4(list, SocketAddress { ip: b.ip, port: b.port })
            &&& listens_on(list, single, port, SocketAddress { ip: b.ip, port: b.port })
        }),
{
    let addrs = kinds::listen_addrs_of(list, single);
    let dual_stack = list is Some && list->0@.len() > 0;
    let k = lemma_listeners_are_named(addrs, addrs.len() as int, port, dual_stack, label, q);
    if dual_stack {
        assert(list->0@[k] == addrs[k]);
    }
}

/// Whatever a configuration binds, the API server, the dashboard, an enabled tunnel, an
/// input or an output takes by its settings; it is unicast and has a port.
pub proof fn lemma_every_binding_has_an_owner(config: AppConfig, p: int)
    requires
        0 <= p < ports::config_bindings(config).len(),
    ensures
        ({
            let b = ports::config_bindings(config)[p];
            let at = SocketAddress { ip: b.ip, port: b.port };
            &&& b.port != 0
            &&& !b.ip.spec_is_multicast()
            &&& {
                ||| b.proto is Tcp && listens_on(
                    config.server.listen_addrs,
                    config.server.listen_addr,
                    config.server.listen_port,
                    at,
                )
                ||| b.proto is Tcp && config.monitor is Some && listens_on(
                    config.monitor->0.listen_addrs,
                    config.monitor->0.listen_addr,
                    config.monitor->0.listen_port,
                    at,
                )
                ||| exists|i: int|
                    0 <= i < config.tunnels@.len() && tunnel_takes(
                        #[trigger] config.tunnels@[i],
                        b.proto,
                        at,
                    )
                ||| exists|i: int|
                    0 <= i < config.inputs@.len() && input_takes(
                        (#[trigger] config.inputs@[i]).config,
                        b.proto,
                        at,
                    )
                ||| exists|i: int|
                    0 <= i < config.outputs@.len() && output_takes(
                        #[trigger] config.outputs@[i],
                        b.proto,
                        at,
                    )
            }
        }),
{
    let b = ports::config_bindings(config)[p];
    let at = SocketAddress { ip: b.ip, port: b.port };
    let first = ports::server_bindings(
        config.server.listen_addrs,
        config.server.listen_addr,
        config.server.listen_port,
        "Edge API server"@,
    );
    if p < first.len() {
        lemma_server_is_named(
            config.server.listen_addrs,
            config.server.listen_addr,
            config.server.listen_port,
            "Edge API server"@,
            p,
        );
        assert(b == first[p]);
    } else if p < tunnels_start(config) {
        let m = config.monitor->0;
        let second = ports::server_bindings(
            m.listen_addrs,
            m.listen_addr,
            m.listen_port,
            "Monitor dashboard"@,
        );
        lemma_server_is_named(
            m.listen_addrs,
            m.listen_addr,
            m.listen_port,
            "Monitor dashboard"@,
            p - first.len(),
        );
        assert(b == second[p - first.len()]);
    } else if p < inputs_start(config) {
        let n = config.tunnels@.len() as int;
        let (i, k) = lemma_gather_origin(
            config.tunnels@,
            ports::of_tunnel(),
            n,
            p - tunnels_start(config),
        );
        let t = config.tunnels@[i];
        assert(b == ports::tunnel_bindings(t)[k]);
        assert(is_for(b, b.proto, at));
        lemma_tunnel_holds(t, b.proto, at);
    } else if p < outputs_start(config) {
        let n = config.inputs@.len() as int;
        let (i, k) = lemma_gather_origin(
            config.inputs@,
            ports::of_input(),
            n,
            p - inputs_start(config),
        );
        let input = config.inputs@[i];
        assert(b == ports::input_bindings(input)[k]);
        lemma_input_sound(input);
        assert(is_for(b, b.proto, at));
        lemma_input_holds(input, b.proto, at);
    } else {
        let n = config.outputs@.len() as int;
        let (i, k) = lemma_gather_origin(
            config.outputs@,
            ports::of_output(),
            n,
            p - outputs_start(config),
        );
        let output = config.outputs@[i];
        assert(b == ports::output_bindings(output)[k]);
        lemma_output_sound(output);
        assert(is_for(b, b.proto, at));
        lemma_output_holds(output, b.proto, at);
    }
}

/// A refusal names two components that collide, the earlier one first, with the protocol
/// and the port that they share.
pub proof fn lemma_refusal_names_both(config: AppConfig, message: Seq<char>)
    requires
        ports::port_conflicts_fault(config) == Some(message),
    ensures
        exists|i: int, j: int|
            #![trigger ports::config_bindings(config)[i], ports::config_bindings(config)[j]]
            0 <= i < j < ports::config_bindings(config).len() && {
                let (x, y) = (
                    ports::config_bindings(config)[i],
                    ports::config_bindings(config)[j],
                );
                &&& x.port == y.port
                &&& x.proto == y.proto
                &&& message == "Port conflict: "@ + x.label + " and "@ + y.label + " both bind "@
                    + (if y.proto is Tcp {
                    "TCP"@
                } else {
                    "UDP"@
                }) + " port "@ + text::dec(y.port as nat)
                    + ". Change one of their addresses to avoid the conflict."@
            },
{
    let bs = ports::config_bindings(config);
    let test = ports::conflict_with_earlier(bs);
    let j = lemma_first_fault_place(bs, test, 0, message);
    let earlier = bs.take(j);
    let one = ports::conflict_with(bs[j]);
    let i = lemma_first_fault_place(earlier, one, 0, message);
    assert(earlier[i] == bs[i]);
}

/// The element whose failure decides for a list.
proof fn lemma_first_fault_place<A>(
    s: Seq<A>,
    f: spec_fn(int, A) -> Option<Seq<char>>,
    from: int,
    message: Seq<char>,
) -> (k: int)
    requires
        0 <= from,
        error::first_fault(s, f, from) == Some(message),
    ensures
        from <= k < s.len(),
        f(k, s[k]) == Some(message),
    decreases s.len() - from,
{
    if from < s.len() && f(from, s[from]) is None {
        lemma_first_fault_place(s, f, from + 1, message)
    } else {
        from
    }
}

} // verus!
