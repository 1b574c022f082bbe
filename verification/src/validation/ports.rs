//! Detection of components that would bind the same local port.

use vstd::prelude::*;

use crate::addr;
use crate::addr::{parse_socket, IpAddress, SocketAddress};
use crate::error;
use crate::error::{fail, Checks, ConfigError};
use crate::kinds;
use crate::models::{
    AppConfig, BondPathConfig, BondPathTransportConfig, InputConfig, InputDefinition, OutputConfig,
    RedBlueBindConfig, SrtBondingConfig, SrtBondingEndpoint, SrtMode, SrtRedundancyConfig,
    St2110_23SubStreamBind, St2110_23SubStreamDest,
};
use crate::text;
use crate::tunnel::{TunnelConfig, TunnelDirection, TunnelMode, TunnelProtocol};

verus! {

/// Transport protocol: a TCP port and a UDP port never collide.
#[derive(Debug, Clone, Copy, PartialEq, Eq, Structural)]
pub enum Proto {
    Tcp,
    Udp,
}

impl Proto {
    pub open spec fn text(self) -> Seq<char> {
        match self {
            Proto::Tcp => "TCP"@,
            Proto::Udp => "UDP"@,
        }
    }

    /// The name of the protocol.
    pub fn name(self) -> (r: &'static str)
        ensures
            r@ == self.text(),
    {
        match self {
            Proto::Tcp => "TCP",
            Proto::Udp => "UDP",
        }
    }
}

/// A port that a component intends to bind.
#[derive(Debug, Clone)]
pub struct BoundPort {
    pub port: u16,
    pub proto: Proto,
    /// Whether all local addresses are bound, which collides with every
    /// address on the same port.
    pub wildcard: bool,
    pub ip: IpAddress,
    /// Whether this is an IPv6 listener that leaves IPv4 to others.
    pub v6_only: bool,
    pub label: String,
}

/// What a bound port is, apart from its label.
pub struct Binding {
    pub port: u16,
    pub proto: Proto,
    pub wildcard: bool,
    pub ip: IpAddress,
    pub v6_only: bool,
    pub label: Seq<char>,
}

impl View for BoundPort {
    type V = Binding;

    open spec fn view(&self) -> Binding {
        Binding {
            port: self.port,
            proto: self.proto,
            wildcard: self.wildcard,
            ip: self.ip,
            v6_only: self.v6_only,
            label: self.label@,
        }
    }
}

/// Whether one of two bindings is for IPv6 alone and the other is an IPv4
/// address.
pub open spec fn kept_apart(a: Binding, b: Binding) -> bool {
    a.v6_only && b.ip is V4 || b.v6_only && a.ip is V4
}

/// Two bindings collide when they share port and protocol, and one of them
/// takes all addresses or both take the same one, unless one leaves IPv4 alone
/// and the other is IPv4.
pub open spec fn collide(a: Binding, b: Binding) -> bool {
    a.port == b.port && a.proto == b.proto && !kept_apart(a, b) && (a.wildcard || b.wildcard
        || a.ip == b.ip)
}

fn is_v4(ip: IpAddress) -> (r: bool)
    ensures
        r == (ip is V4),
{
    match ip {
        IpAddress::V4 { .. } => true,
        IpAddress::V6 { .. } => false,
    }
}

/// Whether two bound ports collide.
pub fn ports_conflict(a: &BoundPort, b: &BoundPort) -> (r: bool)
    ensures
        r == collide(a@, b@),
{
    let apart = a.v6_only && is_v4(b.ip) || b.v6_only && is_v4(a.ip);
    a.port == b.port && a.proto == b.proto && !apart && (a.wildcard || b.wildcard || a.ip == b.ip)
}

/// The binding of an address, if it makes one: a port that the operating
/// system picks binds nothing in particular, and a multicast address may be
/// bound more than once.
pub open spec fn binding(addr: Option<SocketAddress>, proto: Proto, label: Seq<char>) -> Seq<Binding> {
    listening(addr, proto, false, label)
}

/// The same, of a listener that leaves IPv4 alone where its address is IPv6 and
/// `dual_stack` holds.
pub open spec fn listening(
    addr: Option<SocketAddress>,
    proto: Proto,
    dual_stack: bool,
    label: Seq<char>,
) -> Seq<Binding> {
    if addr is Some && addr->0.port != 0 && !addr->0.ip.spec_is_multicast() {
        seq![
            Binding {
                port: addr->0.port,
                proto,
                wildcard: addr->0.ip.spec_is_unspecified(),
                ip: addr->0.ip,
                v6_only: dual_stack && addr->0.ip is V6,
                label,
            },
        ]
    } else {
        Seq::empty()
    }
}

/// The bindings of a list of bound ports.
pub open spec fn bindings_of(ports: Seq<BoundPort>) -> Seq<Binding> {
    ports.map_values(|p: BoundPort| p@)
}

fn listen(
    ports: &mut Vec<BoundPort>,
    addr: Option<SocketAddress>,
    proto: Proto,
    dual_stack: bool,
    label: String,
)
    ensures
        bindings_of(final(ports)@) == bindings_of(old(ports)@) + listening(
            addr,
            proto,
            dual_stack,
            label@,
        ),
{
    if let Some(a) = addr {
        if a.port != 0 && !a.ip.is_multicast() {
            let entry = BoundPort {
                port: a.port,
                proto,
                wildcard: a.ip.is_unspecified(),
                ip: a.ip,
                v6_only: dual_stack && !is_v4(a.ip),
                label,
            };
            ports.push(entry);
            assert(bindings_of(ports@) =~= bindings_of(old(ports)@) + listening(
                addr,
                proto,
                dual_stack,
                label@,
            ));
            return;
        }
    }
    assert(bindings_of(ports@) =~= bindings_of(old(ports)@) + listening(
        addr,
        proto,
        dual_stack,
        label@,
    ));
}

fn bind(ports: &mut Vec<BoundPort>, addr: Option<SocketAddress>, proto: Proto, label: String)
    ensures
        bindings_of(final(ports)@) == bindings_of(old(ports)@) + binding(addr, proto, label@),
{
    listen(ports, addr, proto, false, label);
}

// ---------------------------------------------------------------------------
// What each component binds
// ---------------------------------------------------------------------------

/// The listeners at the first `n` of `addrs`, each with the port `port`.
pub open spec fn listener_bindings(
    addrs: Seq<String>,
    n: int,
    port: u16,
    dual_stack: bool,
    label: Seq<char>,
) -> Seq<Binding>
    decreases n,
{
    if n <= 0 {
        Seq::empty()
    } else {
        listener_bindings(addrs, n - 1, port, dual_stack, label) + listening(
            addr::socket_of(addrs[n - 1]@ + ":"@ + text::dec(port as nat)),
            Proto::Tcp,
            dual_stack,
            label,
        )
    }
}

/// What a server listens on: the addresses of `list`, where there are any, and
/// else the one address `single`. Only the former leave IPv4 alone where they
/// are IPv6.
pub open spec fn server_bindings(
    list: Option<Vec<String>>,
    single: String,
    port: u16,
    label: Seq<char>,
) -> Seq<Binding> {
    let addrs = kinds::listen_addrs_of(list, single);
    listener_bindings(
        addrs,
        addrs.len() as int,
        port,
        list is Some && list->0@.len() > 0,
        label,
    )
}

fn bind_server(
    ports: &mut Vec<BoundPort>,
    list: &Option<Vec<String>>,
    addrs: &Vec<String>,
    port: u16,
    label: &str,
    Ghost(single): Ghost<String>,
)
    requires
        addrs@ == kinds::listen_addrs_of(*list, single),
    ensures
        bindings_of(final(ports)@) == bindings_of(old(ports)@) + server_bindings(
            *list,
            single,
            port,
            label@,
        ),
{
    let ghost before = bindings_of(ports@);
    let dual_stack = match list {
        Some(l) => l.len() > 0,
        None => false,
    };
    let mut i: usize = 0;
    assert(before + listener_bindings(addrs@, 0, port, dual_stack, label@) =~= before);
    while i < addrs.len()
        invariant
            i <= addrs@.len(),
            before == bindings_of(old(ports)@),
            bindings_of(ports@) == before + listener_bindings(
                addrs@,
                i as int,
                port,
                dual_stack,
                label@,
            ),
        decreases addrs.len() - i,
    {
        let at = text::cat3(addrs[i].as_str(), ":", text::dec_string(port as u64).as_str());
        listen(ports, parse_socket(at.as_str()), Proto::Tcp, dual_stack, label.to_owned());
        i = i + 1;
        assert(bindings_of(ports@) =~= before + listener_bindings(
            addrs@,
            i as int,
            port,
            dual_stack,
            label@,
        ));
    }
}

/// The protocol that a tunnel binds with.
pub open spec fn tunnel_proto(tunnel: TunnelConfig) -> Proto {
    match tunnel.protocol {
        TunnelProtocol::Tcp => Proto::Tcp,
        TunnelProtocol::Udp => Proto::Udp,
    }
}

/// An egress tunnel listens on its local address; a direct ingress tunnel has
/// a QUIC listener. A disabled tunnel binds nothing.
pub open spec fn tunnel_bindings(tunnel: TunnelConfig) -> Seq<Binding> {
    if !tunnel.enabled {
        Seq::empty()
    } else {
        match tunnel.direction {
            TunnelDirection::Egress => binding(
                addr::socket_of(tunnel.local_addr@),
                tunnel_proto(tunnel),
                "Tunnel '"@ + tunnel.name@ + "' ("@ + tunnel_proto(tunnel).text() + " egress)"@,
            ),
            TunnelDirection::Ingress => if tunnel.mode is Direct
                && tunnel.direct_listen_addr is Some {
                binding(
                    addr::socket_of(tunnel.direct_listen_addr->0@),
                    Proto::Udp,
                    "Tunnel '"@ + tunnel.name@ + "' (direct QUIC listener)"@,
                )
            } else {
                Seq::empty()
            },
        }
    }
}

fn bind_tunnel(ports: &mut Vec<BoundPort>, tunnel: &TunnelConfig)
    ensures
        bindings_of(final(ports)@) == bindings_of(old(ports)@) + tunnel_bindings(*tunnel),
{
    if tunnel.enabled {
        match tunnel.direction {
            TunnelDirection::Egress => {
                let proto = match tunnel.protocol {
                    TunnelProtocol::Tcp => Proto::Tcp,
                    TunnelProtocol::Udp => Proto::Udp,
                };
                let label = text::cat5(
                    "Tunnel '",
                    tunnel.name.as_str(),
                    "' (",
                    proto.name(),
                    " egress)",
                );
                bind(ports, parse_socket(tunnel.local_addr.as_str()), proto, label);
                return;
            },
            TunnelDirection::Ingress => {
                if let TunnelMode::Direct = tunnel.mode {
                    if let Some(listen) = &tunnel.direct_listen_addr {
                        let label = text::cat3(
                            "Tunnel '",
                            tunnel.name.as_str(),
                            "' (direct QUIC listener)",
                        );
                        bind(ports, parse_socket(listen.as_str()), Proto::Udp, label);
                        return;
                    }
                }
            },
        }
    }
    assert(bindings_of(ports@) =~= bindings_of(old(ports)@) + tunnel_bindings(*tunnel));
}

/// The UDP binding of an address text.
pub open spec fn udp(at: Seq<char>, label: Seq<char>) -> Seq<Binding> {
    binding(addr::socket_of(at), Proto::Udp, label)
}

fn bind_udp(ports: &mut Vec<BoundPort>, at: &str, prefix: &str, suffix: &str)
    ensures
        bindings_of(final(ports)@) == bindings_of(old(ports)@) + udp(at@, prefix@ + suffix@),
{
    bind(ports, parse_socket(at), Proto::Udp, text::cat2(prefix, suffix));
}

/// The UDP binding of an optional address text.
pub open spec fn udp_where_set(at: Option<String>, label: Seq<char>) -> Seq<Binding> {
    match at {
        Some(a) => udp(a@, label),
        None => Seq::empty(),
    }
}

fn bind_udp_where_set(ports: &mut Vec<BoundPort>, at: &Option<String>, prefix: &str, suffix: &str)
    ensures
        bindings_of(final(ports)@) == bindings_of(old(ports)@) + udp_where_set(
            *at,
            prefix@ + suffix@,
        ),
{
    if let Some(a) = at {
        bind_udp(ports, a.as_str(), prefix, suffix);
        return;
    }
    assert(bindings_of(ports@) =~= bindings_of(old(ports)@) + udp_where_set(
        *at,
        prefix@ + suffix@,
    ));
}

/// The port after that of `sa`, where the latter is not left to the operating
/// system.
pub open spec fn next_port(sa: Option<SocketAddress>) -> Option<SocketAddress> {
    match sa {
        Some(sa) => if sa.port != 0 {
            Some(SocketAddress { ip: sa.ip, port: sa.port.wrapping_add(1) })
        } else {
            None
        },
        None => None,
    }
}

/// A RIST leg: RTP on its port, RTCP on the next one.
pub open spec fn rist_bindings(at: Seq<char>, rtp: Seq<char>, rtcp: Seq<char>) -> Seq<Binding> {
    udp(at, rtp) + binding(next_port(addr::socket_of(at)), Proto::Udp, rtcp)
}

fn bind_rist(ports: &mut Vec<BoundPort>, at: &str, prefix: &str, rtp: &str, rtcp: &str)
    ensures
        bindings_of(final(ports)@) == bindings_of(old(ports)@) + rist_bindings(
            at@,
            prefix@ + rtp@,
            prefix@ + rtcp@,
        ),
{
    bind_udp(ports, at, prefix, rtp);
    let next = match parse_socket(at) {
        Some(sa) => if sa.port != 0 {
            Some(SocketAddress { ip: sa.ip, port: sa.port.wrapping_add(1) })
        } else {
            None
        },
        None => None,
    };
    bind(ports, next, Proto::Udp, text::cat2(prefix, rtcp));
    assert(bindings_of(ports@) =~= bindings_of(old(ports)@) + rist_bindings(
        at@,
        prefix@ + rtp@,
        prefix@ + rtcp@,
    ));
}

/// A RIST leg whose local address is optional.
pub open spec fn rist_where_set(at: Option<String>, rtp: Seq<char>, rtcp: Seq<char>) -> Seq<Binding> {
    match at {
        Some(a) => rist_bindings(a@, rtp, rtcp),
        None => Seq::empty(),
    }
}

fn bind_rist_where_set(
    ports: &mut Vec<BoundPort>,
    at: &Option<String>,
    prefix: &str,
    rtp: &str,
    rtcp: &str,
)
    ensures
        bindings_of(final(ports)@) == bindings_of(old(ports)@) + rist_where_set(
            *at,
            prefix@ + rtp@,
            prefix@ + rtcp@,
        ),
{
    if let Some(a) = at {
        bind_rist(ports, a.as_str(), prefix, rtp, rtcp);
        return;
    }
    assert(bindings_of(ports@) =~= bindings_of(old(ports)@) + rist_where_set(
        *at,
        prefix@ + rtp@,
        prefix@ + rtcp@,
    ));
}

/// How the first leg of an SRT input or output is called.
pub open spec fn srt_role(mode: SrtMode) -> Seq<char> {
    match mode {
        SrtMode::Caller => " (SRT caller)"@,
        _ => " (SRT listener)"@,
    }
}

/// Whether a text is the socket address of `local_addr`.
pub open spec fn is_same_socket(local_addr: Option<String>, at: Seq<char>) -> bool {
    local_addr is Some && addr::socket_of(at) is Some && addr::socket_of(local_addr->0@)
        == addr::socket_of(at)
}

fn same_socket(local_addr: &Option<String>, at: &str) -> (r: bool)
    ensures
        r == is_same_socket(*local_addr, at@),
{
    match local_addr {
        Some(l) => match (parse_socket(l.as_str()), parse_socket(at)) {
            (Some(x), Some(y)) => x == y,
            _ => false,
        },
        None => false,
    }
}

/// The local address of a member of an SRT bonding group: a listener is given
/// it, and a caller may be bound to one before it connects.
pub open spec fn member_address(mode: SrtMode, member: SrtBondingEndpoint) -> Option<Seq<char>> {
    match mode {
        SrtMode::Listener => Some(member.addr@),
        _ => text::opt_view(member.local_addr),
    }
}

/// What a member of an SRT bonding group binds. A member on the local address
/// of the input or output itself shares its socket.
pub open spec fn member_bindings(
    mode: SrtMode,
    local_addr: Option<String>,
    member: SrtBondingEndpoint,
    prefix: Seq<char>,
) -> Seq<Binding> {
    match member_address(mode, member) {
        Some(at) => if is_same_socket(local_addr, at) {
            Seq::empty()
        } else {
            udp(at, prefix + " (SRT bonding member)"@)
        },
        None => Seq::empty(),
    }
}

fn bind_member(
    ports: &mut Vec<BoundPort>,
    mode: SrtMode,
    local_addr: &Option<String>,
    member: &SrtBondingEndpoint,
    prefix: &str,
)
    ensures
        bindings_of(final(ports)@) == bindings_of(old(ports)@) + member_bindings(
            mode,
            *local_addr,
            *member,
            prefix@,
        ),
{
    let at = match mode {
        SrtMode::Listener => Some(member.addr.as_str()),
        _ => text::opt_as_str(&member.local_addr),
    };
    if let Some(a) = at {
        if !same_socket(local_addr, a) {
            bind_udp(ports, a, prefix, " (SRT bonding member)");
            return;
        }
    }
    assert(bindings_of(ports@) =~= bindings_of(old(ports)@) + member_bindings(
        mode,
        *local_addr,
        *member,
        prefix@,
    ));
}

/// The first `n` members of an SRT bonding group.
pub open spec fn group_bindings(
    mode: SrtMode,
    local_addr: Option<String>,
    members: Seq<SrtBondingEndpoint>,
    n: int,
    prefix: Seq<char>,
) -> Seq<Binding>
    decreases n,
{
    if n <= 0 {
        Seq::empty()
    } else {
        group_bindings(mode, local_addr, members, n - 1, prefix) + member_bindings(
            mode,
            local_addr,
            members[n - 1],
            prefix,
        )
    }
}

fn bind_group(
    ports: &mut Vec<BoundPort>,
    mode: SrtMode,
    local_addr: &Option<String>,
    members: &Vec<SrtBondingEndpoint>,
    prefix: &str,
)
    ensures
        bindings_of(final(ports)@) == bindings_of(old(ports)@) + group_bindings(
            mode,
            *local_addr,
            members@,
            members@.len() as int,
            prefix@,
        ),
{
    let ghost before = bindings_of(ports@);
    let mut i: usize = 0;
    assert(before + group_bindings(mode, *local_addr, members@, 0, prefix@) =~= before);
    while i < members.len()
        invariant
            i <= members@.len(),
            before == bindings_of(old(ports)@),
            bindings_of(ports@) == before + group_bindings(
                mode,
                *local_addr,
                members@,
                i as int,
                prefix@,
            ),
        decreases members.len() - i,
    {
        bind_member(ports, mode, local_addr, &members[i], prefix);
        i = i + 1;
        assert(bindings_of(ports@) =~= before + group_bindings(
            mode,
            *local_addr,
            members@,
            i as int,
            prefix@,
        ));
    }
}

/// Both legs of an SRT input or output, each where its local address is set (a
/// caller binds it before it connects), and the members of its bonding group.
pub open spec fn srt_bindings(
    mode: SrtMode,
    local_addr: Option<String>,
    redundancy: Option<SrtRedundancyConfig>,
    bonding: Option<SrtBondingConfig>,
    prefix: Seq<char>,
) -> Seq<Binding> {
    udp_where_set(local_addr, prefix + srt_role(mode)) + match redundancy {
        Some(red) => udp_where_set(red.local_addr, prefix + " (SRT redundancy leg 2)"@),
        None => Seq::empty(),
    } + match bonding {
        Some(group) => group_bindings(
            mode,
            local_addr,
            group.endpoints@,
            group.endpoints@.len() as int,
            prefix,
        ),
        None => Seq::empty(),
    }
}

fn bind_srt(
    ports: &mut Vec<BoundPort>,
    mode: SrtMode,
    local_addr: &Option<String>,
    redundancy: &Option<SrtRedundancyConfig>,
    bonding: &Option<SrtBondingConfig>,
    prefix: &str,
)
    ensures
        bindings_of(final(ports)@) == bindings_of(old(ports)@) + srt_bindings(
            mode,
            *local_addr,
            *redundancy,
            *bonding,
            prefix@,
        ),
{
    let role = match mode {
        SrtMode::Caller => " (SRT caller)",
        _ => " (SRT listener)",
    };
    bind_udp_where_set(ports, local_addr, prefix, role);
    if let Some(red) = redundancy {
        bind_udp_where_set(ports, &red.local_addr, prefix, " (SRT redundancy leg 2)");
    }
    if let Some(group) = bonding {
        bind_group(ports, mode, local_addr, &group.endpoints, prefix);
    }
    assert(bindings_of(ports@) =~= bindings_of(old(ports)@) + srt_bindings(
        mode,
        *local_addr,
        *redundancy,
        *bonding,
        prefix@,
    ));
}

/// A leg of a bond. A bonded input is the receiving side (`receiver`): its QUIC
/// legs are servers, those of an output are clients with an optional source.
pub open spec fn leg_bindings(path: BondPathConfig, receiver: bool, prefix: Seq<char>) -> Seq<Binding> {
    let p = prefix + " (bond leg '"@ + path.name@;
    match path.transport {
        BondPathTransportConfig::Udp { bind, .. } => udp_where_set(bind, p + "')"@),
        BondPathTransportConfig::Rist { local_bind, .. } => rist_where_set(
            local_bind,
            p + "' RTP)"@,
            p + "' RTCP)"@,
        ),
        BondPathTransportConfig::Quic { addr, bind, .. } => if receiver {
            udp(addr@, p + "')"@)
        } else {
            udp_where_set(bind, p + "')"@)
        },
        BondPathTransportConfig::Relay { .. } => Seq::empty(),
    }
}

fn bind_leg(ports: &mut Vec<BoundPort>, path: &BondPathConfig, receiver: bool, prefix: &str)
    ensures
        bindings_of(final(ports)@) == bindings_of(old(ports)@) + leg_bindings(
            *path,
            receiver,
            prefix@,
        ),
{
    let label = text::cat3(prefix, " (bond leg '", path.name.as_str());
    let p = label.as_str();
    match &path.transport {
        BondPathTransportConfig::Udp { bind, .. } => {
            bind_udp_where_set(ports, bind, p, "')");
        },
        BondPathTransportConfig::Rist { local_bind, .. } => {
            bind_rist_where_set(ports, local_bind, p, "' RTP)", "' RTCP)");
        },
        BondPathTransportConfig::Quic { addr, bind, .. } => {
            if receiver {
                bind_udp(ports, addr.as_str(), p, "')");
            } else {
                bind_udp_where_set(ports, bind, p, "')");
            }
        },
        BondPathTransportConfig::Relay { .. } => {
            assert(bindings_of(ports@) =~= bindings_of(old(ports)@) + leg_bindings(
                *path,
                receiver,
                prefix@,
            ));
        },
    }
}

/// The first `n` legs of a bond.
pub open spec fn bond_bindings(
    paths: Seq<BondPathConfig>,
    n: int,
    receiver: bool,
    prefix: Seq<char>,
) -> Seq<Binding>
    decreases n,
{
    if n <= 0 {
        Seq::empty()
    } else {
        bond_bindings(paths, n - 1, receiver, prefix) + leg_bindings(
            paths[n - 1],
            receiver,
            prefix,
        )
    }
}

fn bind_bond(ports: &mut Vec<BoundPort>, paths: &Vec<BondPathConfig>, receiver: bool, prefix: &str)
    ensures
        bindings_of(final(ports)@) == bindings_of(old(ports)@) + bond_bindings(
            paths@,
            paths@.len() as int,
            receiver,
            prefix@,
        ),
{
    let ghost before = bindings_of(ports@);
    let mut i: usize = 0;
    assert(before + bond_bindings(paths@, 0, receiver, prefix@) =~= before);
    while i < paths.len()
        invariant
            i <= paths@.len(),
            before == bindings_of(old(ports)@),
            bindings_of(ports@) == before + bond_bindings(paths@, i as int, receiver, prefix@),
        decreases paths.len() - i,
    {
        bind_leg(ports, &paths[i], receiver, prefix);
        i = i + 1;
        assert(bindings_of(ports@) =~= before + bond_bindings(
            paths@,
            i as int,
            receiver,
            prefix@,
        ));
    }
}

/// A primary leg with an optional Red/Blue second leg.
pub open spec fn red_blue_bindings(
    at: Seq<char>,
    redundancy: Option<RedBlueBindConfig>,
    first: Seq<char>,
    second: Seq<char>,
) -> Seq<Binding> {
    udp(at, first) + match redundancy {
        Some(red) => udp(red.addr@, second),
        None => Seq::empty(),
    }
}

fn bind_red_blue(
    ports: &mut Vec<BoundPort>,
    at: &str,
    redundancy: &Option<RedBlueBindConfig>,
    prefix: &str,
    first: &str,
    second: &str,
)
    ensures
        bindings_of(final(ports)@) == bindings_of(old(ports)@) + red_blue_bindings(
            at@,
            *redundancy,
            prefix@ + first@,
            prefix@ + second@,
        ),
{
    bind_udp(ports, at, prefix, first);
    if let Some(red) = redundancy {
        bind_udp(ports, red.addr.as_str(), prefix, second);
    }
    assert(bindings_of(ports@) =~= bindings_of(old(ports)@) + red_blue_bindings(
        at@,
        *redundancy,
        prefix@ + first@,
        prefix@ + second@,
    ));
}

/// The first `n` sub-streams of an ST 2110-23 input.
pub open spec fn sub_stream_bindings(
    subs: Seq<St2110_23SubStreamBind>,
    n: int,
    prefix: Seq<char>,
) -> Seq<Binding>
    decreases n,
{
    if n <= 0 {
        Seq::empty()
    } else {
        let label = prefix + " (ST 2110-23 sub_streams["@ + text::dec((n - 1) as nat);
        sub_stream_bindings(subs, n - 1, prefix) + red_blue_bindings(
            subs[n - 1].bind_addr@,
            subs[n - 1].redundancy,
            label + "])"@,
            label + "] leg 2)"@,
        )
    }
}

fn bind_sub_streams(ports: &mut Vec<BoundPort>, subs: &Vec<St2110_23SubStreamBind>, prefix: &str)
    ensures
        bindings_of(final(ports)@) == bindings_of(old(ports)@) + sub_stream_bindings(
            subs@,
            subs@.len() as int,
            prefix@,
        ),
{
    let ghost before = bindings_of(ports@);
    let mut i: usize = 0;
    assert(before + sub_stream_bindings(subs@, 0, prefix@) =~= before);
    while i < subs.len()
        invariant
            i <= subs@.len(),
            before == bindings_of(old(ports)@),
            bindings_of(ports@) == before + sub_stream_bindings(subs@, i as int, prefix@),
        decreases subs.len() - i,
    {
        let label = text::cat3(
            prefix,
            " (ST 2110-23 sub_streams[",
            text::dec_string(i as u64).as_str(),
        );
        bind_red_blue(
            ports,
            subs[i].bind_addr.as_str(),
            &subs[i].redundancy,
            label.as_str(),
            "])",
            "] leg 2)",
        );
        i = i + 1;
        assert(bindings_of(ports@) =~= before + sub_stream_bindings(subs@, i as int, prefix@));
    }
}

/// What an input binds. RTSP and WHEP inputs, and the inputs that take their
/// media from this machine, bind no port of their own.
pub open spec fn input_bindings(input: InputDefinition) -> Seq<Binding> {
    let p = "Input '"@ + input.name@ + "'"@;
    match input.config {
        InputConfig::Rtp(c) => udp(c.bind_addr@, p + " (RTP)"@) + match c.redundancy {
            Some(red) => udp(red.bind_addr@, p + " (RTP redundancy leg 2)"@),
            None => Seq::empty(),
        },
        InputConfig::Udp(c) => udp(c.bind_addr@, p + " (UDP)"@),
        InputConfig::Srt(c) => srt_bindings(c.mode, c.local_addr, c.redundancy, c.bonding, p),
        InputConfig::Rist(c) => rist_bindings(
            c.bind_addr@,
            p + " (RIST RTP)"@,
            p + " (RIST RTCP)"@,
        ) + match c.redundancy {
            Some(red) => rist_bindings(
                red.bind_addr@,
                p + " (RIST leg 2 RTP)"@,
                p + " (RIST leg 2 RTCP)"@,
            ),
            None => Seq::empty(),
        },
        InputConfig::Rtmp(c) => binding(
            addr::socket_of(c.listen_addr@),
            Proto::Tcp,
            p + " (RTMP server)"@,
        ),
        InputConfig::St2110_30(c) | InputConfig::St2110_31(c) => red_blue_bindings(
            c.bind_addr@,
            c.redundancy,
            p + " (ST 2110)"@,
            p + " (ST 2110 redundancy leg 2)"@,
        ),
        InputConfig::St2110_40(c) => red_blue_bindings(
            c.bind_addr@,
            c.redundancy,
            p + " (ST 2110-40)"@,
            p + " (ST 2110-40 redundancy leg 2)"@,
        ),
        InputConfig::RtpAudio(c) => red_blue_bindings(
            c.bind_addr@,
            c.redundancy,
            p + " (RTP audio)"@,
            p + " (RTP audio redundancy leg 2)"@,
        ),
        InputConfig::St2110_20(c) => red_blue_bindings(
            c.bind_addr@,
            c.redundancy,
            p + " (ST 2110-20)"@,
            p + " (ST 2110-20 leg 2)"@,
        ),
        InputConfig::St2110_23(c) => sub_stream_bindings(
            c.sub_streams@,
            c.sub_streams@.len() as int,
            p,
        ),
        InputConfig::Webrtc(c) => udp_where_set(c.bind_addr, p + " (WebRTC)"@),
        InputConfig::Bonded(c) => bond_bindings(c.paths@, c.paths@.len() as int, true, p),
        _ => Seq::empty(),
    }
}

fn bind_input(ports: &mut Vec<BoundPort>, input: &InputDefinition)
    ensures
        bindings_of(final(ports)@) == bindings_of(old(ports)@) + input_bindings(*input),
{
    let label = text::cat3("Input '", input.name.as_str(), "'");
    let p = label.as_str();
    match &input.config {
        InputConfig::Rtp(c) => {
            bind_udp(ports, c.bind_addr.as_str(), p, " (RTP)");
            if let Some(red) = &c.redundancy {
                bind_udp(ports, red.bind_addr.as_str(), p, " (RTP redundancy leg 2)");
            }
        },
        InputConfig::Udp(c) => {
            bind_udp(ports, c.bind_addr.as_str(), p, " (UDP)");
        },
        InputConfig::Srt(c) => {
            bind_srt(ports, c.mode, &c.local_addr, &c.redundancy, &c.bonding, p);
        },
        InputConfig::Rist(c) => {
            bind_rist(ports, c.bind_addr.as_str(), p, " (RIST RTP)", " (RIST RTCP)");
            if let Some(red) = &c.redundancy {
                bind_rist(
                    ports,
                    red.bind_addr.as_str(),
                    p,
                    " (RIST leg 2 RTP)",
                    " (RIST leg 2 RTCP)",
                );
            }
        },
        InputConfig::Rtmp(c) => {
            bind(
                ports,
                parse_socket(c.listen_addr.as_str()),
                Proto::Tcp,
                text::cat2(p, " (RTMP server)"),
            );
        },
        InputConfig::St2110_30(c) | InputConfig::St2110_31(c) => {
            bind_red_blue(
                ports,
                c.bind_addr.as_str(),
                &c.redundancy,
                p,
                " (ST 2110)",
                " (ST 2110 redundancy leg 2)",
            );
        },
        InputConfig::St2110_40(c) => {
            bind_red_blue(
                ports,
                c.bind_addr.as_str(),
                &c.redundancy,
                p,
                " (ST 2110-40)",
                " (ST 2110-40 redundancy leg 2)",
            );
        },
        InputConfig::RtpAudio(c) => {
            bind_red_blue(
                ports,
                c.bind_addr.as_str(),
                &c.redundancy,
                p,
                " (RTP audio)",
                " (RTP audio redundancy leg 2)",
            );
        },
        InputConfig::St2110_20(c) => {
            bind_red_blue(
                ports,
                c.bind_addr.as_str(),
                &c.redundancy,
                p,
                " (ST 2110-20)",
                " (ST 2110-20 leg 2)",
            );
        },
        InputConfig::St2110_23(c) => {
            bind_sub_streams(ports, &c.sub_streams, p);
        },
        InputConfig::Webrtc(c) => {
            bind_udp_where_set(ports, &c.bind_addr, p, " (WebRTC)");
        },
        InputConfig::Bonded(c) => {
            bind_bond(ports, &c.paths, true, p);
        },
        _ => {},
    }
    assert(bindings_of(ports@) =~= bindings_of(old(ports)@) + input_bindings(*input));
}

/// The first `n` sub-streams of an ST 2110-23 output.
pub open spec fn sent_sub_stream_bindings(
    subs: Seq<St2110_23SubStreamDest>,
    n: int,
    prefix: Seq<char>,
) -> Seq<Binding>
    decreases n,
{
    if n <= 0 {
        Seq::empty()
    } else {
        sent_sub_stream_bindings(subs, n - 1, prefix) + udp_where_set(
            subs[n - 1].bind_addr,
            prefix + " (ST 2110-23 sub_streams["@ + text::dec((n - 1) as nat) + "])"@,
        )
    }
}

fn bind_sent_sub_streams(
    ports: &mut Vec<BoundPort>,
    subs: &Vec<St2110_23SubStreamDest>,
    prefix: &str,
)
    ensures
        bindings_of(final(ports)@) == bindings_of(old(ports)@) + sent_sub_stream_bindings(
            subs@,
            subs@.len() as int,
            prefix@,
        ),
{
    let ghost before = bindings_of(ports@);
    let mut i: usize = 0;
    assert(before + sent_sub_stream_bindings(subs@, 0, prefix@) =~= before);
    while i < subs.len()
        invariant
            i <= subs@.len(),
            before == bindings_of(old(ports)@),
            bindings_of(ports@) == before + sent_sub_stream_bindings(subs@, i as int, prefix@),
        decreases subs.len() - i,
    {
        let label = text::cat3(
            prefix,
            " (ST 2110-23 sub_streams[",
            text::dec_string(i as u64).as_str(),
        );
        bind_udp_where_set(ports, &subs[i].bind_addr, label.as_str(), "])");
        i = i + 1;
        assert(bindings_of(ports@) =~= before + sent_sub_stream_bindings(subs@, i as int, prefix@));
    }
}

/// What an output binds: the local address that it sends from or listens on,
/// where it is set. Outputs that connect to a server, or that play out on this
/// machine, bind no port of their own.
pub open spec fn output_bindings(output: OutputConfig) -> Seq<Binding> {
    let p = "Output '"@ + output.spec_name() + "'"@;
    match output {
        OutputConfig::Rtp(c) => udp_where_set(c.bind_addr, p + " (RTP)"@) + match c.redundancy {
            Some(red) => udp_where_set(red.bind_addr, p + " (RTP redundancy leg 2)"@),
            None => Seq::empty(),
        },
        OutputConfig::Udp(c) => udp_where_set(c.bind_addr, p + " (UDP)"@),
        OutputConfig::Srt(c) => srt_bindings(c.mode, c.local_addr, c.redundancy, c.bonding, p),
        OutputConfig::Rist(c) => rist_where_set(
            c.local_addr,
            p + " (RIST RTP)"@,
            p + " (RIST RTCP)"@,
        ) + match c.redundancy {
            Some(red) => rist_where_set(
                red.local_addr,
                p + " (RIST leg 2 RTP)"@,
                p + " (RIST leg 2 RTCP)"@,
            ),
            None => Seq::empty(),
        },
        OutputConfig::St2110_30(c) | OutputConfig::St2110_31(c) => udp_where_set(
            c.bind_addr,
            p + " (ST 2110)"@,
        ),
        OutputConfig::St2110_40(c) => udp_where_set(c.bind_addr, p + " (ST 2110-40)"@),
        OutputConfig::St2110_20(c) => udp_where_set(c.bind_addr, p + " (ST 2110-20)"@),
        OutputConfig::St2110_23(c) => sent_sub_stream_bindings(
            c.sub_streams@,
            c.sub_streams@.len() as int,
            p,
        ),
        OutputConfig::RtpAudio(c) => udp_where_set(c.bind_addr, p + " (RTP audio)"@),
        OutputConfig::Bonded(c) => bond_bindings(c.paths@, c.paths@.len() as int, false, p),
        _ => Seq::empty(),
    }
}

fn bind_output(ports: &mut Vec<BoundPort>, output: &OutputConfig)
    ensures
        bindings_of(final(ports)@) == bindings_of(old(ports)@) + output_bindings(*output),
{
    let label = text::cat3("Output '", output.name(), "'");
    let p = label.as_str();
    match output {
        OutputConfig::Rtp(c) => {
            bind_udp_where_set(ports, &c.bind_addr, p, " (RTP)");
            if let Some(red) = &c.redundancy {
                bind_udp_where_set(ports, &red.bind_addr, p, " (RTP redundancy leg 2)");
            }
        },
        OutputConfig::Udp(c) => {
            bind_udp_where_set(ports, &c.bind_addr, p, " (UDP)");
        },
        OutputConfig::Srt(c) => {
            bind_srt(ports, c.mode, &c.local_addr, &c.redundancy, &c.bonding, p);
        },
        OutputConfig::Rist(c) => {
            bind_rist_where_set(ports, &c.local_addr, p, " (RIST RTP)", " (RIST RTCP)");
            if let Some(red) = &c.redundancy {
                bind_rist_where_set(
                    ports,
                    &red.local_addr,
                    p,
                    " (RIST leg 2 RTP)",
                    " (RIST leg 2 RTCP)",
                );
            }
        },
        OutputConfig::St2110_30(c) | OutputConfig::St2110_31(c) => {
            bind_udp_where_set(ports, &c.bind_addr, p, " (ST 2110)");
        },
        OutputConfig::St2110_40(c) => {
            bind_udp_where_set(ports, &c.bind_addr, p, " (ST 2110-40)");
        },
        OutputConfig::St2110_20(c) => {
            bind_udp_where_set(ports, &c.bind_addr, p, " (ST 2110-20)");
        },
        OutputConfig::St2110_23(c) => {
            bind_sent_sub_streams(ports, &c.sub_streams, p);
        },
        OutputConfig::RtpAudio(c) => {
            bind_udp_where_set(ports, &c.bind_addr, p, " (RTP audio)");
        },
        OutputConfig::Bonded(c) => {
            bind_bond(ports, &c.paths, false, p);
        },
        _ => {},
    }
    assert(bindings_of(ports@) =~= bindings_of(old(ports)@) + output_bindings(*output));
}

// ---------------------------------------------------------------------------
// All bindings of a configuration
// ---------------------------------------------------------------------------

/// The bindings of the first `n` elements of a list.
pub open spec fn gather<A>(s: Seq<A>, f: spec_fn(A) -> Seq<Binding>, n: int) -> Seq<Binding>
    decreases n,
{
    if n <= 0 {
        Seq::empty()
    } else {
        gather(s, f, n - 1) + f(s[n - 1])
    }
}

/// The bindings of each tunnel.
pub open spec fn of_tunnel() -> spec_fn(TunnelConfig) -> Seq<Binding> {
    |t: TunnelConfig| tunnel_bindings(t)
}

/// The bindings of each input.
pub open spec fn of_input() -> spec_fn(InputDefinition) -> Seq<Binding> {
    |i: InputDefinition| input_bindings(i)
}

/// The bindings of each output.
pub open spec fn of_output() -> spec_fn(OutputConfig) -> Seq<Binding> {
    |o: OutputConfig| output_bindings(o)
}

/// What the node binds for itself.
pub open spec fn own_bindings(config: AppConfig) -> Seq<Binding> {
    server_bindings(
        config.server.listen_addrs,
        config.server.listen_addr,
        config.server.listen_port,
        "Edge API server"@,
    ) + match config.monitor {
        Some(m) => server_bindings(
            m.listen_addrs,
            m.listen_addr,
            m.listen_port,
            "Monitor dashboard"@,
        ),
        None => Seq::empty(),
    }
}

/// Everything that a configuration binds: the API server, the dashboard, the
/// tunnels, the inputs and the outputs, in this order.
pub open spec fn config_bindings(config: AppConfig) -> Seq<Binding> {
    own_bindings(config) + gather(config.tunnels@, of_tunnel(), config.tunnels@.len() as int) + gather(
        config.inputs@,
        of_input(),
        config.inputs@.len() as int,
    ) + gather(config.outputs@, of_output(), config.outputs@.len() as int)
}

fn collect_ports(config: &AppConfig) -> (ports: Vec<BoundPort>)
    ensures
        bindings_of(ports@) == config_bindings(*config),
{
    let mut ports: Vec<BoundPort> = Vec::new();
    bind_server(
        &mut ports,
        &config.server.listen_addrs,
        &config.server.effective_listen_addrs(),
        config.server.listen_port,
        "Edge API server",
        Ghost(config.server.listen_addr),
    );
    if let Some(m) = &config.monitor {
        bind_server(
            &mut ports,
            &m.listen_addrs,
            &m.effective_listen_addrs(),
            m.listen_port,
            "Monitor dashboard",
            Ghost(m.listen_addr),
        );
    }
    let ghost base = own_bindings(*config);
    assert(bindings_of(ports@) =~= base + gather(config.tunnels@, of_tunnel(), 0));
    let mut i: usize = 0;
    while i < config.tunnels.len()
        invariant
            i <= config.tunnels@.len(),
            bindings_of(ports@) == base + gather(config.tunnels@, of_tunnel(), i as int),
        decreases config.tunnels.len() - i,
    {
        bind_tunnel(&mut ports, &config.tunnels[i]);
        i = i + 1;
        assert(bindings_of(ports@) =~= base + gather(config.tunnels@, of_tunnel(), i as int));
    }
    let ghost base = base + gather(config.tunnels@, of_tunnel(), config.tunnels@.len() as int);
    assert(bindings_of(ports@) =~= base + gather(config.inputs@, of_input(), 0));
    let mut i: usize = 0;
    while i < config.inputs.len()
        invariant
            i <= config.inputs@.len(),
            bindings_of(ports@) == base + gather(config.inputs@, of_input(), i as int),
        decreases config.inputs.len() - i,
    {
        bind_input(&mut ports, &config.inputs[i]);
        i = i + 1;
        assert(bindings_of(ports@) =~= base + gather(config.inputs@, of_input(), i as int));
    }
    let ghost base = base + gather(config.inputs@, of_input(), config.inputs@.len() as int);
    assert(bindings_of(ports@) =~= base + gather(config.outputs@, of_output(), 0));
    let mut i: usize = 0;
    while i < config.outputs.len()
        invariant
            i <= config.outputs@.len(),
            bindings_of(ports@) == base + gather(config.outputs@, of_output(), i as int),
        decreases config.outputs.len() - i,
    {
        bind_output(&mut ports, &config.outputs[i]);
        i = i + 1;
        assert(bindings_of(ports@) =~= base + gather(config.outputs@, of_output(), i as int));
    }
    ports
}

/// What is said of a collision.
pub open spec fn conflict_text(a: Binding, b: Binding) -> Seq<char> {
    "Port conflict: "@ + a.label + " and "@ + b.label + " both bind "@ + b.proto.text() + " port "@
        + text::dec(b.port as nat)
        + ". Change one of their addresses to avoid the conflict."@
}

/// The check of a binding against one that came before it.
pub open spec fn conflict_with(b: Binding) -> spec_fn(int, Binding) -> Option<Seq<char>> {
    |i: int, a: Binding| error::check(collide(a, b), conflict_text(a, b))
}

/// The check of a binding against all that came before it.
pub open spec fn conflict_with_earlier(bindings: Seq<Binding>) -> spec_fn(int, Binding) -> Option<
    Seq<char>,
> {
    |j: int, b: Binding| error::first_fault(bindings.take(j), conflict_with(b), 0)
}

/// No two bindings may collide.
pub open spec fn bindings_fault(bindings: Seq<Binding>) -> Option<Seq<char>> {
    error::first_fault(bindings, conflict_with_earlier(bindings), 0)
}

fn check_port(ports: &Vec<BoundPort>, j: usize) -> (r: Result<(), ConfigError>)
    requires
        j < ports@.len(),
    ensures
        error::is_outcome(
            r,
            error::first_fault(
                bindings_of(ports@).take(j as int),
                conflict_with(ports@[j as int]@),
                0,
            ),
        ),
{
    let ghost earlier = bindings_of(ports@).take(j as int);
    let ghost test = conflict_with(ports@[j as int]@);
    let entry = &ports[j];
    let mut i: usize = 0;
    while i < j
        invariant
            i <= j < ports@.len(),
            earlier == bindings_of(ports@).take(j as int),
            test == conflict_with(ports@[j as int]@),
            *entry == ports@[j as int],
            error::first_fault(earlier, test, 0) == error::first_fault(earlier, test, i as int),
        decreases j - i,
    {
        let existing = &ports[i];
        assert(earlier[i as int] == existing@);
        if ports_conflict(existing, entry) {
            let what = text::cat8(
                "Port conflict: ",
                existing.label.as_str(),
                " and ",
                entry.label.as_str(),
                " both bind ",
                entry.proto.name(),
                " port ",
                text::dec_string(entry.port as u64).as_str(),
            );
            return fail(
                text::cat2(
                    what.as_str(),
                    ". Change one of their addresses to avoid the conflict.",
                ),
            );
        }
        i = i + 1;
    }
    Ok(())
}

/// The components of a configuration must not bind the same local port.
pub open spec fn port_conflicts_fault(config: AppConfig) -> Option<Seq<char>> {
    bindings_fault(config_bindings(config))
}

/// Checks that no two components of the configuration bind the same local
/// port.
pub fn validate_port_conflicts(config: &AppConfig) -> (r: Result<(), ConfigError>)
    ensures
        error::is_outcome(r, port_conflicts_fault(*config)),
{
    let ports = collect_ports(config);
    let ghost bindings = bindings_of(ports@);
    let ghost test = conflict_with_earlier(bindings);
    let mut j: usize = 0;
    while j < ports.len()
        invariant
            j <= ports@.len(),
            bindings == bindings_of(ports@),
            bindings == config_bindings(*config),
            test == conflict_with_earlier(bindings),
            error::first_fault(bindings, test, 0) == error::first_fault(bindings, test, j as int),
        decreases ports.len() - j,
    {
        assert(bindings[j as int] == ports@[j as int]@);
        check_port(&ports, j)?;
        j = j + 1;
    }
    Ok(())
}

/// Colliding is mutual.
pub proof fn lemma_collide_is_symmetric(a: Binding, b: Binding)
    ensures
        collide(a, b) == collide(b, a),
{
}

/// A configuration that passes has no two bindings that collide.
pub proof fn lemma_accepted_ports_are_disjoint(config: AppConfig, i: int, j: int)
    requires
        port_conflicts_fault(config) is None,
        0 <= i < config_bindings(config).len(),
        0 <= j < config_bindings(config).len(),
        i != j,
    ensures
        !collide(config_bindings(config)[i], config_bindings(config)[j]),
{
    let b = config_bindings(config);
    let (lo, hi) = if i < j {
        (i, j)
    } else {
        (j, i)
    };
    error::lemma_first_fault_none(b, conflict_with_earlier(b), 0);
    assert(conflict_with_earlier(b)(hi, b[hi]) is None);
    error::lemma_first_fault_none(b.take(hi), conflict_with(b[hi]), 0);
    assert(b.take(hi)[lo] == b[lo]);
    assert(conflict_with(b[hi])(lo, b.take(hi)[lo]) is None);
    lemma_collide_is_symmetric(b[lo], b[hi]);
}

} // verus!
