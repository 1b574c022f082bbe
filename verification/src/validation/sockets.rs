//! Rules on the sockets of inputs and outputs: the sources of multicasts, the
//! interfaces that sockets are pinned to, and SRT bonding groups.

use vstd::prelude::*;

use crate::addr;
use crate::addr::parse_ip;
use crate::error;
use crate::error::{fail, Checks, ConfigError};
use crate::models::{
    InputConfig, InterfaceBinding, OutputConfig, RedBlueBindConfig, SrtBondingConfig,
    SrtBondingEndpoint, SrtMode, SrtRedundancyConfig, St2110_23SubStreamBind,
    St2110_23SubStreamDest,
};
use crate::text;
use crate::validation::bounds;
use crate::validation::bounds::validate_bounds;
use crate::validation::fields;
use crate::validation::fields::{interface_family_differs, validate_ip_addr, validate_socket_addr};

verus! {

/// The source of a source-specific multicast: one machine, of the family of the
/// address that is bound.
pub open spec fn source_fault(
    source: Option<String>,
    bind_addr: Seq<char>,
    context: Seq<char>,
) -> Option<Seq<char>> {
    error::when(
        source is Some,
        fields::ip_addr_fault(source->0@, context + " source_addr"@).otherwise(
            error::check(
                addr::ip_of(source->0@)->0.spec_is_multicast(),
                context + ": source_addr must be unicast"@,
            ),
        ).otherwise(
            error::check(
                fields::interface_differs(bind_addr, source->0@),
                context + ": source_addr must be of the address family of bind_addr"@,
            ),
        ),
    )
}

/// Checks the source of a source-specific multicast.
pub fn validate_source(source: &Option<String>, bind_addr: &str, context: &str) -> (r: Result<
    (),
    ConfigError,
>)
    ensures
        error::is_outcome(r, source_fault(*source, bind_addr@, context@)),
{
    if let Some(s) = source {
        validate_ip_addr(s.as_str(), text::cat2(context, " source_addr").as_str())?;
        if let Some(ip) = parse_ip(s.as_str()) {
            if ip.is_multicast() {
                return fail(text::cat2(context, ": source_addr must be unicast"));
            }
        }
        if interface_family_differs(bind_addr, s.as_str()) {
            return fail(
                text::cat2(
                    context,
                    ": source_addr must be of the address family of bind_addr",
                ),
            );
        }
    }
    Ok(())
}

/// Whether a text names a network interface: up to 15 letters, digits, dots,
/// underscores and hyphens.
pub open spec fn is_interface_name(s: Seq<char>) -> bool {
    1 <= s.len() <= 15 && forall|i: int| 0 <= i < s.len() ==> is_interface_char(#[trigger] s[i])
}

/// Whether a character may stand in the name of a network interface.
pub open spec fn is_interface_char(c: char) -> bool {
    'a' <= c <= 'z' || 'A' <= c <= 'Z' || '0' <= c <= '9' || c == '.' || c == '_' || c == '-'
}

/// See [`is_interface_name`].
pub fn names_interface(s: &str) -> (r: bool)
    ensures
        r == is_interface_name(s@),
{
    let n: usize = s.unicode_len();
    if !(1 <= n && n <= 15) {
        return false;
    }
    let mut i: usize = 0;
    while i < n
        invariant
            n == s@.len(),
            i <= n,
            forall|j: int| 0 <= j < i ==> is_interface_char(#[trigger] s@[j]),
        decreases n - i,
    {
        let c: u32 = s.get_char(i) as u32;
        if !((0x61 <= c && c <= 0x7A) || (0x41 <= c && c <= 0x5A) || (0x30 <= c && c <= 0x39) || c
            == 0x2E || c == 0x5F || c == 0x2D) {
            assert(!is_interface_char(s@[i as int]));
            return false;
        }
        i = i + 1;
    }
    true
}

/// The interface that a socket is pinned to.
pub open spec fn pin_fault(
    binding: Option<InterfaceBinding>,
    context: Seq<char>,
) -> Option<Seq<char>> {
    error::check(
        binding is Some && !is_interface_name(binding->0.name@),
        context + ": interface_binding name '"@ + binding->0.name@
            + "' is not an interface name"@,
    )
}

/// Checks the interface that a socket is pinned to.
pub fn validate_pin(binding: &Option<InterfaceBinding>, context: &str) -> (r: Result<
    (),
    ConfigError,
>)
    ensures
        error::is_outcome(r, pin_fault(*binding, context@)),
{
    if let Some(b) = binding {
        if !names_interface(b.name.as_str()) {
            return fail(
                text::cat4(
                    context,
                    ": interface_binding name '",
                    b.name.as_str(),
                    "' is not an interface name",
                ),
            );
        }
    }
    Ok(())
}

/// The second leg that an input receives.
pub open spec fn received_leg_fault(leg: Option<RedBlueBindConfig>, context: Seq<char>) -> Option<
    Seq<char>,
> {
    error::when(
        leg is Some,
        source_fault(leg->0.source_addr, leg->0.addr@, context).otherwise(
            pin_fault(leg->0.interface_binding, context),
        ),
    )
}

/// Checks the second leg that an input receives.
pub fn validate_received_leg(leg: &Option<RedBlueBindConfig>, context: &str) -> (r: Result<
    (),
    ConfigError,
>)
    ensures
        error::is_outcome(r, received_leg_fault(*leg, context@)),
{
    if let Some(l) = leg {
        validate_source(&l.source_addr, l.addr.as_str(), context)?;
        validate_pin(&l.interface_binding, context)?;
    }
    Ok(())
}

/// The second leg that an output sends.
pub open spec fn sent_leg_fault(leg: Option<RedBlueBindConfig>, context: Seq<char>) -> Option<
    Seq<char>,
> {
    error::when(leg is Some, pin_fault(leg->0.interface_binding, context))
}

/// Checks the second leg that an output sends.
pub fn validate_sent_leg(leg: &Option<RedBlueBindConfig>, context: &str) -> (r: Result<
    (),
    ConfigError,
>)
    ensures
        error::is_outcome(r, sent_leg_fault(*leg, context@)),
{
    if let Some(l) = leg {
        validate_pin(&l.interface_binding, context)?;
    }
    Ok(())
}

/// The check of every sub-stream of ST 2110-23 video.
pub open spec fn sub_stream_check() -> spec_fn(int, St2110_23SubStreamBind) -> Option<Seq<char>> {
    |i: int, s: St2110_23SubStreamBind|
        source_fault(s.source_addr, s.bind_addr@, "ST 2110-23 input"@).otherwise(
            received_leg_fault(s.redundancy, "ST 2110-23 input redundancy"@),
        )
}

fn validate_sub_streams(streams: &Vec<St2110_23SubStreamBind>) -> (r: Result<(), ConfigError>)
    ensures
        error::is_outcome(r, error::first_fault(streams@, sub_stream_check(), 0)),
{
    let mut i: usize = 0;
    while i < streams.len()
        invariant
            i <= streams@.len(),
            error::first_fault(streams@, sub_stream_check(), 0) == error::first_fault(
                streams@,
                sub_stream_check(),
                i as int,
            ),
        decreases streams.len() - i,
    {
        let s = &streams[i];
        validate_source(&s.source_addr, s.bind_addr.as_str(), "ST 2110-23 input")?;
        validate_received_leg(&s.redundancy, "ST 2110-23 input redundancy")?;
        i = i + 1;
    }
    Ok(())
}

/// The check of every member of an SRT bonding group: the address that it calls
/// or listens on, where a caller is bound, and the interface that it is pinned
/// to.
pub open spec fn member_check(mode: SrtMode, context: Seq<char>) -> spec_fn(
    int,
    SrtBondingEndpoint,
) -> Option<Seq<char>> {
    |i: int, e: SrtBondingEndpoint|
        fields::socket_addr_fault(e.addr@, context + " bonding endpoint addr"@).otherwise(
            error::when(
                !(mode is Listener) && e.local_addr is Some,
                fields::socket_addr_fault(
                    e.local_addr->0@,
                    context + " bonding endpoint local_addr"@,
                ),
            ),
        ).otherwise(pin_fault(e.interface_binding, context + " bonding endpoint"@))
}

/// The rules for an SRT bonding group: two to eight members, and no second leg
/// beside it.
pub open spec fn bonding_fault(
    mode: SrtMode,
    bonding: Option<SrtBondingConfig>,
    redundancy: Option<SrtRedundancyConfig>,
    context: Seq<char>,
) -> Option<Seq<char>> {
    error::when(
        bonding is Some,
        error::check(
            redundancy is Some,
            context + ": bonding and redundancy are mutually exclusive"@,
        ).otherwise(
            bounds::bounds_fault(
                bonding->0.endpoints@.len(),
                2,
                8,
                "number of bonding endpoints"@,
                context,
            ),
        ).otherwise(error::first_fault(bonding->0.endpoints@, member_check(mode, context), 0)),
    )
}

fn validate_members(
    mode: SrtMode,
    endpoints: &Vec<SrtBondingEndpoint>,
    context: &str,
) -> (r: Result<(), ConfigError>)
    ensures
        error::is_outcome(r, error::first_fault(endpoints@, member_check(mode, context@), 0)),
{
    let mut i: usize = 0;
    while i < endpoints.len()
        invariant
            i <= endpoints@.len(),
            error::first_fault(endpoints@, member_check(mode, context@), 0) == error::first_fault(
                endpoints@,
                member_check(mode, context@),
                i as int,
            ),
        decreases endpoints.len() - i,
    {
        let e = &endpoints[i];
        validate_socket_addr(
            e.addr.as_str(),
            text::cat2(context, " bonding endpoint addr").as_str(),
        )?;
        if let Some(local) = &e.local_addr {
            if !matches!(mode, SrtMode::Listener) {
                validate_socket_addr(
                    local.as_str(),
                    text::cat2(context, " bonding endpoint local_addr").as_str(),
                )?;
            }
        }
        validate_pin(
            &e.interface_binding,
            text::cat2(context, " bonding endpoint").as_str(),
        )?;
        i = i + 1;
    }
    Ok(())
}

/// Checks an SRT bonding group.
pub fn validate_bonding(
    mode: SrtMode,
    bonding: &Option<SrtBondingConfig>,
    redundancy: &Option<SrtRedundancyConfig>,
    context: &str,
) -> (r: Result<(), ConfigError>)
    ensures
        error::is_outcome(r, bonding_fault(mode, *bonding, *redundancy, context@)),
{
    if let Some(b) = bonding {
        if redundancy.is_some() {
            return fail(text::cat2(context, ": bonding and redundancy are mutually exclusive"));
        }
        validate_bounds(
            b.endpoints.len() as u64,
            2,
            8,
            "number of bonding endpoints",
            context,
        )?;
        validate_members(mode, &b.endpoints, context)?;
    }
    Ok(())
}

/// The check of every sub-stream that ST 2110-23 video is sent as.
pub open spec fn sent_sub_stream_check(
    context: Seq<char>,
) -> spec_fn(int, St2110_23SubStreamDest) -> Option<Seq<char>> {
    |i: int, s: St2110_23SubStreamDest| sent_leg_fault(s.redundancy, context + " redundancy"@)
}

fn validate_sent_sub_streams(streams: &Vec<St2110_23SubStreamDest>, context: &str) -> (r: Result<
    (),
    ConfigError,
>)
    ensures
        error::is_outcome(r, error::first_fault(streams@, sent_sub_stream_check(context@), 0)),
{
    let mut i: usize = 0;
    while i < streams.len()
        invariant
            i <= streams@.len(),
            error::first_fault(streams@, sent_sub_stream_check(context@), 0) == error::first_fault(
                streams@,
                sent_sub_stream_check(context@),
                i as int,
            ),
        decreases streams.len() - i,
    {
        validate_sent_leg(&streams[i].redundancy, text::cat2(context, " redundancy").as_str())?;
        i = i + 1;
    }
    Ok(())
}

/// The rules for the sockets of an input.
pub open spec fn input_sockets_fault(input: InputConfig) -> Option<Seq<char>> {
    match input {
        InputConfig::Rtp(c) => pin_fault(c.interface_binding, "RTP input"@).otherwise(
            source_fault(c.source_addr, c.bind_addr@, "RTP input"@),
        ).otherwise(
            error::when(
                c.redundancy is Some,
                pin_fault(c.redundancy->0.interface_binding, "RTP input redundancy"@).otherwise(
                    source_fault(
                        c.redundancy->0.source_addr,
                        c.redundancy->0.bind_addr@,
                        "RTP input redundancy"@,
                    ),
                ),
            ),
        ),
        InputConfig::Udp(c) => pin_fault(c.interface_binding, "UDP input"@).otherwise(
            source_fault(c.source_addr, c.bind_addr@, "UDP input"@),
        ),
        InputConfig::Srt(c) => pin_fault(c.interface_binding, "SRT input"@).otherwise(
            error::when(
                c.redundancy is Some,
                pin_fault(c.redundancy->0.interface_binding, "SRT input redundancy"@),
            ),
        ).otherwise(
            bonding_fault(c.mode, c.bonding, c.redundancy, "SRT input"@),
        ),
        InputConfig::Rist(c) => pin_fault(c.interface_binding, "RIST input"@).otherwise(
            error::when(
                c.redundancy is Some,
                pin_fault(c.redundancy->0.interface_binding, "RIST input redundancy"@),
            ),
        ),
        InputConfig::St2110_30(c) => pin_fault(c.interface_binding, "ST 2110-30 input"@).otherwise(
            source_fault(c.source_addr, c.bind_addr@, "ST 2110-30 input"@),
        ).otherwise(
            received_leg_fault(c.redundancy, "ST 2110-30 input redundancy"@),
        ),
        InputConfig::St2110_31(c) => pin_fault(c.interface_binding, "ST 2110-31 input"@).otherwise(
            source_fault(c.source_addr, c.bind_addr@, "ST 2110-31 input"@),
        ).otherwise(
            received_leg_fault(c.redundancy, "ST 2110-31 input redundancy"@),
        ),
        InputConfig::St2110_40(c) => pin_fault(c.interface_binding, "ST 2110-40 input"@).otherwise(
            source_fault(c.source_addr, c.bind_addr@, "ST 2110-40 input"@),
        ).otherwise(
            received_leg_fault(c.redundancy, "ST 2110-40 input redundancy"@),
        ),
        InputConfig::St2110_20(c) => pin_fault(c.interface_binding, "ST 2110-20 input"@).otherwise(
            source_fault(c.source_addr, c.bind_addr@, "ST 2110-20 input"@),
        ).otherwise(
            received_leg_fault(c.redundancy, "ST 2110-20 input redundancy"@),
        ),
        InputConfig::St2110_23(c) => pin_fault(c.interface_binding, "ST 2110-23 input"@).otherwise(
            error::first_fault(c.sub_streams@, sub_stream_check(), 0),
        ),
        InputConfig::RtpAudio(c) => pin_fault(c.interface_binding, "rtp_audio input"@).otherwise(
            source_fault(c.source_addr, c.bind_addr@, "rtp_audio input"@),
        ).otherwise(
            received_leg_fault(c.redundancy, "rtp_audio input redundancy"@),
        ),
        _ => None,
    }
}

/// Checks the sockets of an input.
pub fn validate_input_sockets(input: &InputConfig) -> (r: Result<(), ConfigError>)
    ensures
        error::is_outcome(r, input_sockets_fault(*input)),
{
    match input {
        InputConfig::Rtp(c) => {
            validate_pin(&c.interface_binding, "RTP input")?;
            validate_source(&c.source_addr, c.bind_addr.as_str(), "RTP input")?;
            if let Some(red) = &c.redundancy {
                validate_pin(&red.interface_binding, "RTP input redundancy")?;
                validate_source(&red.source_addr, red.bind_addr.as_str(), "RTP input redundancy")?;
            }
            Ok(())
        },
        InputConfig::Udp(c) => {
            validate_pin(&c.interface_binding, "UDP input")?;
            validate_source(&c.source_addr, c.bind_addr.as_str(), "UDP input")
        },
        InputConfig::Srt(c) => {
            validate_pin(&c.interface_binding, "SRT input")?;
            if let Some(red) = &c.redundancy {
                validate_pin(&red.interface_binding, "SRT input redundancy")?;
            }
            validate_bonding(c.mode, &c.bonding, &c.redundancy, "SRT input")
        },
        InputConfig::Rist(c) => {
            validate_pin(&c.interface_binding, "RIST input")?;
            if let Some(red) = &c.redundancy {
                validate_pin(&red.interface_binding, "RIST input redundancy")?;
            }
            Ok(())
        },
        InputConfig::St2110_30(c) => {
            validate_pin(&c.interface_binding, "ST 2110-30 input")?;
            validate_source(&c.source_addr, c.bind_addr.as_str(), "ST 2110-30 input")?;
            validate_received_leg(&c.redundancy, "ST 2110-30 input redundancy")
        },
        InputConfig::St2110_31(c) => {
            validate_pin(&c.interface_binding, "ST 2110-31 input")?;
            validate_source(&c.source_addr, c.bind_addr.as_str(), "ST 2110-31 input")?;
            validate_received_leg(&c.redundancy, "ST 2110-31 input redundancy")
        },
        InputConfig::St2110_40(c) => {
            validate_pin(&c.interface_binding, "ST 2110-40 input")?;
            validate_source(&c.source_addr, c.bind_addr.as_str(), "ST 2110-40 input")?;
            validate_received_leg(&c.redundancy, "ST 2110-40 input redundancy")
        },
        InputConfig::St2110_20(c) => {
            validate_pin(&c.interface_binding, "ST 2110-20 input")?;
            validate_source(&c.source_addr, c.bind_addr.as_str(), "ST 2110-20 input")?;
            validate_received_leg(&c.redundancy, "ST 2110-20 input redundancy")
        },
        InputConfig::St2110_23(c) => {
            validate_pin(&c.interface_binding, "ST 2110-23 input")?;
            validate_sub_streams(&c.sub_streams)
        },
        InputConfig::RtpAudio(c) => {
            validate_pin(&c.interface_binding, "rtp_audio input")?;
            validate_source(&c.source_addr, c.bind_addr.as_str(), "rtp_audio input")?;
            validate_received_leg(&c.redundancy, "rtp_audio input redundancy")
        },
        _ => Ok(()),
    }
}

/// The rules for the sockets of an output.
pub open spec fn output_sockets_fault(output: OutputConfig) -> Option<Seq<char>> {
    let context = "Output '"@ + output.spec_id() + "'"@;
    match output {
        OutputConfig::Rtp(c) => pin_fault(c.interface_binding, context).otherwise(
            error::when(
                c.redundancy is Some,
                pin_fault(c.redundancy->0.interface_binding, context + " redundancy"@),
            ),
        ),
        OutputConfig::Udp(c) => pin_fault(c.interface_binding, context),
        OutputConfig::Srt(c) => pin_fault(c.interface_binding, context).otherwise(
            error::when(
                c.redundancy is Some,
                pin_fault(c.redundancy->0.interface_binding, context + " redundancy"@),
            ),
        ).otherwise(
            bonding_fault(c.mode, c.bonding, c.redundancy, context),
        ),
        OutputConfig::Rist(c) => pin_fault(c.interface_binding, context).otherwise(
            error::when(
                c.redundancy is Some,
                pin_fault(c.redundancy->0.interface_binding, context + " redundancy"@),
            ),
        ),
        OutputConfig::St2110_30(c) => pin_fault(c.interface_binding, context).otherwise(
            sent_leg_fault(c.redundancy, context + " redundancy"@),
        ),
        OutputConfig::St2110_31(c) => pin_fault(c.interface_binding, context).otherwise(
            sent_leg_fault(c.redundancy, context + " redundancy"@),
        ),
        OutputConfig::St2110_40(c) => pin_fault(c.interface_binding, context).otherwise(
            sent_leg_fault(c.redundancy, context + " redundancy"@),
        ),
        OutputConfig::St2110_20(c) => pin_fault(c.interface_binding, context).otherwise(
            sent_leg_fault(c.redundancy, context + " redundancy"@),
        ),
        OutputConfig::St2110_23(c) => pin_fault(c.interface_binding, context).otherwise(
            error::first_fault(c.sub_streams@, sent_sub_stream_check(context), 0),
        ),
        OutputConfig::RtpAudio(c) => pin_fault(c.interface_binding, context).otherwise(
            sent_leg_fault(c.redundancy, context + " redundancy"@),
        ),
        _ => None,
    }
}

/// Checks the sockets of an output.
pub fn validate_output_sockets(output: &OutputConfig) -> (r: Result<(), ConfigError>)
    ensures
        error::is_outcome(r, output_sockets_fault(*output)),
{
    let label = text::cat3("Output '", output.id(), "'");
    let context = label.as_str();
    let leg = text::cat2(context, " redundancy");
    match output {
        OutputConfig::Rtp(c) => {
            validate_pin(&c.interface_binding, context)?;
            if let Some(red) = &c.redundancy {
                validate_pin(&red.interface_binding, leg.as_str())?;
            }
            Ok(())
        },
        OutputConfig::Udp(c) => {
            validate_pin(&c.interface_binding, context)
        },
        OutputConfig::Srt(c) => {
            validate_pin(&c.interface_binding, context)?;
            if let Some(red) = &c.redundancy {
                validate_pin(&red.interface_binding, leg.as_str())?;
            }
            validate_bonding(c.mode, &c.bonding, &c.redundancy, context)
        },
        OutputConfig::Rist(c) => {
            validate_pin(&c.interface_binding, context)?;
            if let Some(red) = &c.redundancy {
                validate_pin(&red.interface_binding, leg.as_str())?;
            }
            Ok(())
        },
        OutputConfig::St2110_30(c) => {
            validate_pin(&c.interface_binding, context)?;
            validate_sent_leg(&c.redundancy, leg.as_str())
        },
        OutputConfig::St2110_31(c) => {
            validate_pin(&c.interface_binding, context)?;
            validate_sent_leg(&c.redundancy, leg.as_str())
        },
        OutputConfig::St2110_40(c) => {
            validate_pin(&c.interface_binding, context)?;
            validate_sent_leg(&c.redundancy, leg.as_str())
        },
        OutputConfig::St2110_20(c) => {
            validate_pin(&c.interface_binding, context)?;
            validate_sent_leg(&c.redundancy, leg.as_str())
        },
        OutputConfig::St2110_23(c) => {
            validate_pin(&c.interface_binding, context)?;
            validate_sent_sub_streams(&c.sub_streams, context)
        },
        OutputConfig::RtpAudio(c) => {
            validate_pin(&c.interface_binding, context)?;
            validate_sent_leg(&c.redundancy, leg.as_str())
        },
        _ => Ok(()),
    }
}

} // verus!
