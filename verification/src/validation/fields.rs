//! Checks of single fields that several parts of the configuration share.

use vstd::prelude::*;

use crate::addr;
use crate::addr::{ip_string, parse_ip, parse_socket};
use crate::error;
use crate::error::{fail, Checks, ConfigError};
use crate::models::{FecConfig, RedBlueBindConfig};
use crate::ratio;
use crate::text;

verus! {

/// `addr` must be a socket address.
pub open spec fn socket_addr_fault(addr: Seq<char>, context: Seq<char>) -> Option<Seq<char>> {
    error::check(
        addr::socket_of(addr) is None,
        context + ": invalid socket address '"@ + addr + "': invalid socket address syntax"@,
    )
}

/// Checks that `addr` is an `ip:port` socket address.
pub fn validate_socket_addr(addr: &str, context: &str) -> (r: Result<(), ConfigError>)
    ensures
        error::is_outcome(r, socket_addr_fault(addr@, context@)),
{
    if parse_socket(addr).is_none() {
        return fail(
            text::cat4(
                context,
                ": invalid socket address '",
                addr,
                "': invalid socket address syntax",
            ),
        );
    }
    Ok(())
}

/// `addr` must be an IP address.
pub open spec fn ip_addr_fault(addr: Seq<char>, context: Seq<char>) -> Option<Seq<char>> {
    error::check(
        addr::ip_of(addr) is None,
        context + ": invalid IP address '"@ + addr + "': invalid IP address syntax"@,
    )
}

/// Checks that `addr` is an IP address without a port.
pub fn validate_ip_addr(addr: &str, context: &str) -> (r: Result<(), ConfigError>)
    ensures
        error::is_outcome(r, ip_addr_fault(addr@, context@)),
{
    if parse_ip(addr).is_none() {
        return fail(
            text::cat4(context, ": invalid IP address '", addr, "': invalid IP address syntax"),
        );
    }
    Ok(())
}

/// The rules for an identifier: not empty, at most 64 bytes.
pub open spec fn id_fault(id: Seq<char>, context: Seq<char>) -> Option<Seq<char>> {
    error::check(id.len() == 0, context + " ID cannot be empty"@).otherwise(
        error::check(text::byte_len(id) > 64, context + " ID must be at most 64 characters"@),
    )
}

/// Checks an identifier: not empty, at most 64 bytes.
pub fn validate_id(id: &str, context: &str) -> (r: Result<(), ConfigError>)
    ensures
        error::is_outcome(r, id_fault(id@, context@)),
{
    if id.is_empty() {
        return fail(text::cat2(context, " ID cannot be empty"));
    }
    if text::byte_count(id) > 64 {
        return fail(text::cat2(context, " ID must be at most 64 characters"));
    }
    Ok(())
}

/// The rules for a name: not empty, at most 256 bytes.
pub open spec fn name_fault(name: Seq<char>, context: Seq<char>) -> Option<Seq<char>> {
    error::check(name.len() == 0, context + " name cannot be empty"@).otherwise(
        error::check(
            text::byte_len(name) > 256,
            context + " name must be at most 256 characters"@,
        ),
    )
}

/// Checks a name: not empty, at most 256 bytes.
pub fn validate_name(name: &str, context: &str) -> (r: Result<(), ConfigError>)
    ensures
        error::is_outcome(r, name_fault(name@, context@)),
{
    if name.is_empty() {
        return fail(text::cat2(context, " name cannot be empty"));
    }
    if text::byte_count(name) > 256 {
        return fail(text::cat2(context, " name must be at most 256 characters"));
    }
    Ok(())
}

/// The rules for an MPEG-TS program selector: program 0 is reserved for the
/// NIT.
pub open spec fn program_number_fault(
    prog: Option<u16>,
    context: Seq<char>,
) -> Option<Seq<char>> {
    error::check(
        prog is Some && prog->0 == 0,
        context + ": program_number must be > 0 (0 is reserved for the NIT)"@,
    )
}

/// Checks an MPEG-TS program selector: program 0 is reserved for the NIT.
pub fn validate_program_number(prog: Option<u16>, context: &str) -> (r: Result<(), ConfigError>)
    ensures
        error::is_outcome(r, program_number_fault(prog, context@)),
{
    if let Some(n) = prog {
        if n == 0 {
            return fail(text::cat2(context, ": program_number must be > 0 (0 is reserved for the NIT)"));
        }
    }
    Ok(())
}

/// The rules for a PTP clock domain.
pub open spec fn clock_domain_fault(
    domain: Option<u8>,
    context: Seq<char>,
) -> Option<Seq<char>> {
    error::check(
        domain is Some && domain->0 > 127,
        context + ": clock_domain must be 0-127 (IEEE 1588), got "@ + text::dec(domain->0 as nat),
    )
}

/// Checks a PTP clock domain.
pub fn validate_clock_domain(domain: Option<u8>, context: &str) -> (r: Result<(), ConfigError>)
    ensures
        error::is_outcome(r, clock_domain_fault(domain, context@)),
{
    if let Some(d) = domain {
        if d > 127 {
            return fail(text::cat3(
                context,
                ": clock_domain must be 0-127 (IEEE 1588), got ",
                text::dec_string(d as u64).as_str(),
            ));
        }
    }
    Ok(())
}

/// The rule that an RTP payload type is in the dynamic range.
pub open spec fn payload_type_fault(pt: u8, context: Seq<char>) -> Option<Seq<char>> {
    error::check(
        !(96 <= pt <= 127),
        context + ": payload_type must be in dynamic range 96-127, got "@ + text::dec(pt as nat),
    )
}

/// Checks that an RTP payload type is in the dynamic range.
pub fn validate_rtp_payload_type(pt: u8, context: &str) -> (r: Result<(), ConfigError>)
    ensures
        error::is_outcome(r, payload_type_fault(pt, context@)),
{
    if !(96 <= pt && pt <= 127) {
        return fail(text::cat3(
            context,
            ": payload_type must be in dynamic range 96-127, got ",
            text::dec_string(pt as u64).as_str(),
        ));
    }
    Ok(())
}

/// The rules for SMPTE 2022-1 FEC parameters: 1 to 20 columns, 4 to 20
/// rows.
pub open spec fn fec_fault(fec: FecConfig) -> Option<Seq<char>> {
    error::check(
        fec.columns < 1 || fec.columns > 20,
        "FEC columns must be 1-20, got "@ + text::dec(fec.columns as nat),
    ).otherwise(
        error::check(
            fec.rows < 4 || fec.rows > 20,
            "FEC rows must be 4-20, got "@ + text::dec(fec.rows as nat),
        ),
    )
}

/// Checks SMPTE 2022-1 FEC parameters: 1 to 20 columns, 4 to 20 rows.
pub fn validate_fec(fec: &FecConfig) -> (r: Result<(), ConfigError>)
    ensures
        error::is_outcome(r, fec_fault(*fec)),
{
    if fec.columns < 1 || fec.columns > 20 {
        return fail(text::cat2(
            "FEC columns must be 1-20, got ",
            text::dec_string(fec.columns as u64).as_str(),
        ));
    }
    if fec.rows < 4 || fec.rows > 20 {
        return fail(text::cat2("FEC rows must be 4-20, got ", text::dec_string(fec.rows as u64).as_str()));
    }
    Ok(())
}

/// The rules for an RTP payload budget.
pub open spec fn payload_budget_fault(n: usize, ctx: Seq<char>) -> Option<Seq<char>> {
    error::check(
        !(512 <= n <= 8952),
        ctx + ": payload_budget must be 512..=8952, got "@ + text::dec(n as nat),
    )
}

/// Checks an RTP payload budget.
pub fn validate_payload_budget(n: usize, ctx: &str) -> (r: Result<(), ConfigError>)
    ensures
        error::is_outcome(r, payload_budget_fault(n, ctx@)),
{
    if !(512 <= n && n <= 8952) {
        return fail(text::cat3(
            ctx,
            ": payload_budget must be 512..=8952, got ",
            text::dec_string(n as u64).as_str(),
        ));
    }
    Ok(())
}

/// The rules for frame dimensions and a frame rate of 1 to 240 frames per
/// second.
pub open spec fn video_dims_fault(
    width: u32,
    height: u32,
    fps_num: u32,
    fps_den: u32,
    ctx: Seq<char>,
) -> Option<Seq<char>> {
    error::check(
        !(64 <= width <= 8192) || width % 2 != 0,
        ctx + ": width must be 64..=8192 and even, got "@ + text::dec(width as nat),
    ).otherwise(
        error::check(
            !(64 <= height <= 8192) || height % 2 != 0,
            ctx + ": height must be 64..=8192 and even, got "@ + text::dec(height as nat),
        ),
    ).otherwise(
        error::check(fps_den == 0, ctx + ": frame_rate_den must be > 0"@),
    ).otherwise(
        error::check(
            !(fps_den <= fps_num <= 240 * fps_den),
            ctx + ": frame_rate must be between 1 and 240 fps, got "@ + ratio::three_places(
                fps_num as nat,
                fps_den as nat,
            ),
        ),
    )
}

/// Checks frame dimensions and a frame rate of 1 to 240 frames per second.
pub fn validate_video_dims(
    width: u32,
    height: u32,
    fps_num: u32,
    fps_den: u32,
    ctx: &str,
) -> (r: Result<(), ConfigError>)
    ensures
        error::is_outcome(r, video_dims_fault(width, height, fps_num, fps_den, ctx@)),
{
    if !(64 <= width && width <= 8192) || width % 2 != 0 {
        return fail(text::cat3(
            ctx,
            ": width must be 64..=8192 and even, got ",
            text::dec_string(width as u64).as_str(),
        ));
    }
    if !(64 <= height && height <= 8192) || height % 2 != 0 {
        return fail(text::cat3(
            ctx,
            ": height must be 64..=8192 and even, got ",
            text::dec_string(height as u64).as_str(),
        ));
    }
    if fps_den == 0 {
        return fail(text::cat2(ctx, ": frame_rate_den must be > 0"));
    }
    if fps_num < fps_den || fps_num as u64 > 240 * (fps_den as u64) {
        return fail(
            text::cat3(
                ctx,
                ": frame_rate must be between 1 and 240 fps, got ",
                ratio::three_places_string(fps_num, fps_den).as_str(),
            ),
        );
    }
    Ok(())
}

/// The rules for the optional group tag of an output.
pub open spec fn output_group_fault(
    group: Option<Seq<char>>,
    output_id: Seq<char>,
) -> Option<Seq<char>> {
    error::check(
        group is Some && text::byte_len(group->0) > 64,
        "Output '"@ + output_id + "': group tag must be at most 64 characters"@,
    )
}

/// Checks the optional group tag of an output.
pub fn validate_output_group(
    group: Option<&str>,
    output_id: &str,
) -> (r: Result<(), ConfigError>)
    ensures
        error::is_outcome(r, output_group_fault(text::opt_str_view(group), output_id@)),
{
    if let Some(g) = group {
        if text::byte_count(g) > 64 {
            return fail(
                text::cat3("Output '", output_id, "': group tag must be at most 64 characters"),
            );
        }
    }
    Ok(())
}

/// The rules for the parameters of generic RTP audio.
pub open spec fn rtp_audio_params_fault(
    sample_rate: u32,
    bit_depth: u8,
    channels: u8,
    packet_time_us: u32,
    context: Seq<char>,
) -> Option<Seq<char>> {
    error::check(
        !(sample_rate == 32_000 || sample_rate == 44_100 || sample_rate == 48_000
            || sample_rate == 88_200 || sample_rate == 96_000),
        context + ": sample_rate must be one of 32000, 44100, 48000, 88200, 96000, got "@
            + text::dec(sample_rate as nat),
    ).otherwise(
        error::check(
            bit_depth != 16 && bit_depth != 24,
            context + ": bit_depth must be 16 or 24, got "@ + text::dec(bit_depth as nat),
        ),
    ).otherwise(
        error::check(
            channels == 0 || channels > 16,
            context + ": channels must be 1..=16, got "@ + text::dec(channels as nat),
        ),
    ).otherwise(
        error::check(
            !(packet_time_us == 125 || packet_time_us == 250 || packet_time_us == 333
                || packet_time_us == 500 || packet_time_us == 1_000 || packet_time_us == 4_000
                || packet_time_us == 20_000),
            context + ": packet_time_us must be one of 125, 250, 333, 500, 1000, 4000, 20000, got "@
                + text::dec(packet_time_us as nat),
        ),
    )
}

/// Checks the parameters of generic RTP audio.
pub fn validate_rtp_audio_params(
    sample_rate: u32,
    bit_depth: u8,
    channels: u8,
    packet_time_us: u32,
    context: &str,
) -> (r: Result<(), ConfigError>)
    ensures
        error::is_outcome(r, rtp_audio_params_fault(
            sample_rate,
            bit_depth,
            channels,
            packet_time_us,
            context@,
        )),
{
    if !(sample_rate == 32_000 || sample_rate == 44_100 || sample_rate == 48_000
        || sample_rate == 88_200 || sample_rate == 96_000) {
        return fail(text::cat3(
            context,
            ": sample_rate must be one of 32000, 44100, 48000, 88200, 96000, got ",
            text::dec_string(sample_rate as u64).as_str(),
        ));
    }
    if bit_depth != 16 && bit_depth != 24 {
        return fail(text::cat3(
            context,
            ": bit_depth must be 16 or 24, got ",
            text::dec_string(bit_depth as u64).as_str(),
        ));
    }
    if channels == 0 || channels > 16 {
        return fail(text::cat3(
            context,
            ": channels must be 1..=16, got ",
            text::dec_string(channels as u64).as_str(),
        ));
    }
    if !(packet_time_us == 125 || packet_time_us == 250 || packet_time_us == 333
        || packet_time_us == 500 || packet_time_us == 1_000 || packet_time_us == 4_000
        || packet_time_us == 20_000) {
        return fail(text::cat3(
            context,
            ": packet_time_us must be one of 125, 250, 333, 500, 1000, 4000, 20000, got ",
            text::dec_string(packet_time_us as u64).as_str(),
        ));
    }
    Ok(())
}

/// Whether two texts are socket addresses of different families.
pub open spec fn families_differ(a: Seq<char>, b: Seq<char>) -> bool {
    addr::socket_of(a) is Some && addr::socket_of(b) is Some
        && addr::socket_of(a)->0.ip.spec_is_ipv4() != addr::socket_of(b)->0.ip.spec_is_ipv4()
}

/// See [`families_differ`].
pub fn differ_in_family(a: &str, b: &str) -> (r: bool)
    ensures
        r == families_differ(a@, b@),
{
    match (parse_socket(a), parse_socket(b)) {
        (Some(x), Some(y)) => x.ip.is_ipv4() != y.ip.is_ipv4(),
        _ => false,
    }
}

/// Whether two texts are a socket address and an IP address of different
/// families.
pub open spec fn interface_differs(socket: Seq<char>, iface: Seq<char>) -> bool {
    addr::socket_of(socket) is Some && addr::ip_of(iface) is Some
        && addr::socket_of(socket)->0.ip.spec_is_ipv4() != addr::ip_of(iface)->0.spec_is_ipv4()
}

/// See [`interface_differs`].
pub fn interface_family_differs(socket: &str, iface: &str) -> (r: bool)
    ensures
        r == interface_differs(socket@, iface@),
{
    match (parse_socket(socket), parse_ip(iface)) {
        (Some(x), Some(y)) => x.ip.is_ipv4() != y.is_ipv4(),
        _ => false,
    }
}

/// Reading a text as a socket address, and nothing else.
pub open spec fn socket_syntax_fault(s: Seq<char>) -> Option<Seq<char>> {
    error::check(addr::socket_of(s) is None, "invalid socket address syntax"@)
}

/// Checks that a text can be read as a socket address.
pub fn validate_socket_syntax(s: &str) -> (r: Result<(), ConfigError>)
    ensures
        error::is_outcome(r, socket_syntax_fault(s@)),
{
    if parse_socket(s).is_none() {
        return fail("invalid socket address syntax".to_owned());
    }
    Ok(())
}

/// Reading a text as an IP address, and nothing else.
pub open spec fn ip_syntax_fault(s: Seq<char>) -> Option<Seq<char>> {
    error::check(addr::ip_of(s) is None, "invalid IP address syntax"@)
}

/// Checks that a text can be read as an IP address.
pub fn validate_ip_syntax(s: &str) -> (r: Result<(), ConfigError>)
    ensures
        error::is_outcome(r, ip_syntax_fault(s@)),
{
    if parse_ip(s).is_none() {
        return fail("invalid IP address syntax".to_owned());
    }
    Ok(())
}

/// The second leg of SMPTE 2022-7 operation: a socket address of the primary
/// leg's family, on an interface of that family too. Two unicast legs must not
/// share an IP address.
pub open spec fn red_blue_fault(
    red: RedBlueBindConfig,
    primary_addr: Seq<char>,
    context: Seq<char>,
) -> Option<Seq<char>> {
    let leg1 = addr::socket_of(primary_addr);
    let leg2 = addr::socket_of(red.addr@);
    let ip1 = leg1->0.ip;
    let ip2 = leg2->0.ip;
    socket_addr_fault(red.addr@, context + " addr"@).otherwise(
        error::when(
            red.interface_addr is Some,
            ip_addr_fault(red.interface_addr->0@, context + " interface_addr"@),
        ),
    ).otherwise(
        error::check(
            leg1 is None,
            context + ": primary addr '"@ + primary_addr
                + "' is not parseable: invalid socket address syntax"@,
        ),
    ).otherwise(
        error::check(
            ip1.spec_is_ipv4() != ip2.spec_is_ipv4(),
            context + ": leg 1 ("@ + primary_addr + ") and leg 2 ("@ + red.addr@
                + ") must use the same address family"@,
        ),
    ).otherwise(
        error::check(
            red.interface_addr is Some && ip2.spec_is_ipv4() != addr::ip_of(
                red.interface_addr->0@,
            )->0.spec_is_ipv4(),
            context + ": leg 2 addr and interface_addr must use the same address family"@,
        ),
    ).otherwise(
        error::check(
            !ip1.spec_is_unspecified() && !ip2.spec_is_unspecified() && !ip1.spec_is_multicast()
                && !ip2.spec_is_multicast() && ip1 == ip2,
            context + ": leg 1 and leg 2 must use distinct IPs for SMPTE 2022-7 (got "@
                + addr::ip_text(ip1) + " for both)"@,
        ),
    )
}

/// Checks the second leg of SMPTE 2022-7 (Red/Blue) operation.
pub fn validate_red_blue_bind(red: &RedBlueBindConfig, primary_addr: &str, context: &str) -> (r:
    Result<(), ConfigError>)
    ensures
        error::is_outcome(r, red_blue_fault(*red, primary_addr@, context@)),
{
    validate_socket_addr(red.addr.as_str(), text::cat2(context, " addr").as_str())?;
    if let Some(iface) = &red.interface_addr {
        validate_ip_addr(iface.as_str(), text::cat2(context, " interface_addr").as_str())?;
    }
    let leg1 = match parse_socket(primary_addr) {
        Some(a) => a,
        None => {
            return fail(
                text::cat4(
                    context,
                    ": primary addr '",
                    primary_addr,
                    "' is not parseable: invalid socket address syntax",
                ),
            );
        },
    };
    let leg2 = match parse_socket(red.addr.as_str()) {
        Some(a) => a,
        None => {
            // The address was checked above.
            return Ok(());
        },
    };
    if leg1.ip.is_ipv4() != leg2.ip.is_ipv4() {
        return fail(
            text::cat6(
                context,
                ": leg 1 (",
                primary_addr,
                ") and leg 2 (",
                red.addr.as_str(),
                ") must use the same address family",
            ),
        );
    }
    if let Some(iface) = &red.interface_addr {
        if let Some(ip) = parse_ip(iface.as_str()) {
            if leg2.ip.is_ipv4() != ip.is_ipv4() {
                return fail(
                    text::cat2(
                        context,
                        ": leg 2 addr and interface_addr must use the same address family",
                    ),
                );
            }
        }
    }
    if !leg1.ip.is_unspecified() && !leg2.ip.is_unspecified() && !leg1.ip.is_multicast()
        && !leg2.ip.is_multicast() && leg1.ip == leg2.ip {
        return fail(
            text::cat4(
                context,
                ": leg 1 and leg 2 must use distinct IPs for SMPTE 2022-7 (got ",
                ip_string(leg1.ip).as_str(),
                " for both)",
            ),
        );
    }
    Ok(())
}

/// The check of every element of an allow-list of source addresses.
pub open spec fn source_check(context: Seq<char>) -> spec_fn(int, String) -> Option<Seq<char>> {
    |i: int, s: String| ip_addr_fault(s@, context)
}

/// An allow-list of source addresses: every one must be an IP address.
pub open spec fn sources_fault(sources: Option<Vec<String>>, context: Seq<char>) -> Option<Seq<char>> {
    error::when(
        sources is Some,
        error::first_fault(sources->0@, source_check(context), 0),
    )
}

/// Checks an optional allow-list of source addresses.
pub fn validate_sources(sources: &Option<Vec<String>>, context: &str) -> (r: Result<(), ConfigError>)
    ensures
        error::is_outcome(r, sources_fault(*sources, context@)),
{
    if let Some(list) = sources {
        let mut i: usize = 0;
        while i < list.len()
            invariant
                i <= list@.len(),
                *sources == Some(*list),
                error::first_fault(list@, source_check(context@), 0) == error::first_fault(
                    list@,
                    source_check(context@),
                    i as int,
                ),
            decreases list.len() - i,
        {
            validate_ip_addr(list[i].as_str(), context)?;
            i = i + 1;
        }
    }
    Ok(())
}

} // verus!
