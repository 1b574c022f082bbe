//! Rules on bonds: their keys, their legs, and how the legs share the traffic.

use vstd::prelude::*;

use crate::binary;
use crate::error;
use crate::error::{fail, Checks, ConfigError};
use crate::models::{
    BondCongestionConfig, BondFecAlgorithm, BondFecConfig, BondPathConfig, BondPathTransportConfig,
    BondRistRole, BondedInputConfig, BondedOutputConfig
};
use crate::text;
use crate::validation::bounds;
use crate::validation::bounds::{validate_bounds, validate_set_bounds};
use crate::validation::tunnels;
use crate::validation::tunnels::is_all_hex;

verus! {

/// A key or secret `what` of 32 bytes, written as 64 hexadecimal digits.
pub open spec fn key_fault(key: Option<String>, what: Seq<char>, context: Seq<char>) -> Option<
    Seq<char>,
> {
    error::check(
        key is Some && !(text::byte_len(key->0@) == 64 && tunnels::all_hex(key->0@)),
        context + ": "@ + what + " must be exactly 64 hex characters (32 bytes)"@,
    )
}

/// Checks a key or secret.
pub fn validate_key(key: &Option<String>, what: &str, context: &str) -> (r: Result<
    (),
    ConfigError,
>)
    ensures
        error::is_outcome(r, key_fault(*key, what@, context@)),
{
    if let Some(k) = key {
        if !(text::byte_count(k.as_str()) == 64 && is_all_hex(k.as_str())) {
            return fail(
                text::cat4(context, ": ", what, " must be exactly 64 hex characters (32 bytes)"),
            );
        }
    }
    Ok(())
}

/// The check of every leg of a bond, which is `keyed` or not: a relayed leg
/// carries exactly one layer of encryption, the bond's or its own.
pub open spec fn relay_check(keyed: bool, context: Seq<char>) -> spec_fn(
    int,
    BondPathConfig,
) -> Option<Seq<char>> {
    |i: int, path: BondPathConfig|
        match path.transport {
            BondPathTransportConfig::Relay { tunnel_encryption_key, .. } => error::check(
                tunnel_encryption_key is Some == keyed,
                context + ": relay leg '"@ + path.name@
                    + "' must carry exactly one encryption layer, the bond's or its own"@,
            ),
            _ => None,
        }
}

/// The rules for the relayed legs of a bond.
pub open spec fn relays_fault(
    paths: Seq<BondPathConfig>,
    keyed: bool,
    context: Seq<char>,
) -> Option<Seq<char>> {
    error::first_fault(paths, relay_check(keyed, context), 0)
}

/// Checks the relayed legs of a bond.
pub fn validate_relays(paths: &Vec<BondPathConfig>, keyed: bool, context: &str) -> (r: Result<
    (),
    ConfigError,
>)
    ensures
        error::is_outcome(r, relays_fault(paths@, keyed, context@)),
{
    let mut i: usize = 0;
    while i < paths.len()
        invariant
            i <= paths@.len(),
            relays_fault(paths@, keyed, context@) == error::first_fault(
                paths@,
                relay_check(keyed, context@),
                i as int,
            ),
        decreases paths.len() - i,
    {
        if let BondPathTransportConfig::Relay { tunnel_encryption_key, .. } = &paths[i].transport {
            if tunnel_encryption_key.is_some() == keyed {
                return fail(
                    text::cat4(
                        context,
                        ": relay leg '",
                        paths[i].name.as_str(),
                        "' must carry exactly one encryption layer, the bond's or its own",
                    ),
                );
            }
        }
        i = i + 1;
    }
    Ok(())
}

/// The rules for what carries a leg. The leg of an output sends; that of an
/// input receives.
pub open spec fn carrier_fault(
    transport: BondPathTransportConfig,
    sends: bool,
    context: Seq<char>,
) -> Option<Seq<char>> {
    match transport {
        BondPathTransportConfig::Udp { bind, remote, interface, gateway, source } => error::check(
            sends && remote is None,
            context + " requires remote"@,
        ).otherwise(
            error::check(!sends && bind is None, context + " requires bind"@),
        ).otherwise(
            error::check(gateway is Some && source is None, context + ": gateway requires source"@),
        ).otherwise(
            error::check(
                gateway is Some && interface is Some,
                context + ": gateway and interface are mutually exclusive"@,
            ),
        ),
        BondPathTransportConfig::Relay {
            relay_addrs,
            tunnel_bind_secret,
            tunnel_encryption_key,
            interface,
            source,
            gateway,
            ..
        } => error::check(
            relay_addrs@.len() == 0,
            context + " requires at least one relay address"@,
        ).otherwise(
            key_fault(tunnel_bind_secret, "tunnel_bind_secret"@, context),
        ).otherwise(
            key_fault(tunnel_encryption_key, "tunnel_encryption_key"@, context),
        ).otherwise(
            error::check(
                gateway is Some && (source is None || interface is None),
                context + ": gateway requires source and interface"@,
            ),
        ),
        BondPathTransportConfig::Rist { role, local_bind, .. } => error::check(
            role is Receiver && local_bind is None,
            context + " requires local_bind"@,
        ),
        BondPathTransportConfig::Quic { .. } => None,
    }
}

/// Checks what carries a leg.
pub fn validate_carrier(transport: &BondPathTransportConfig, sends: bool, context: &str) -> (r:
    Result<(), ConfigError>)
    ensures
        error::is_outcome(r, carrier_fault(*transport, sends, context@)),
{
    match transport {
        BondPathTransportConfig::Udp { bind, remote, interface, gateway, source } => {
            if sends && remote.is_none() {
                return fail(text::cat2(context, " requires remote"));
            }
            if !sends && bind.is_none() {
                return fail(text::cat2(context, " requires bind"));
            }
            if gateway.is_some() && source.is_none() {
                return fail(text::cat2(context, ": gateway requires source"));
            }
            if gateway.is_some() && interface.is_some() {
                return fail(
                    text::cat2(context, ": gateway and interface are mutually exclusive"),
                );
            }
            Ok(())
        },
        BondPathTransportConfig::Relay {
            relay_addrs,
            tunnel_bind_secret,
            tunnel_encryption_key,
            interface,
            source,
            gateway,
            ..
        } => {
            if relay_addrs.len() == 0 {
                return fail(text::cat2(context, " requires at least one relay address"));
            }
            validate_key(tunnel_bind_secret, "tunnel_bind_secret", context)?;
            validate_key(tunnel_encryption_key, "tunnel_encryption_key", context)?;
            if gateway.is_some() && (source.is_none() || interface.is_none()) {
                return fail(text::cat2(context, ": gateway requires source and interface"));
            }
            Ok(())
        },
        BondPathTransportConfig::Rist { role, local_bind, .. } => {
            if matches!(role, BondRistRole::Receiver) && local_bind.is_none() {
                return fail(text::cat2(context, " requires local_bind"));
            }
            Ok(())
        },
        BondPathTransportConfig::Quic { .. } => Ok(()),
    }
}

/// Whether one of the first `n` legs has the identifier `id`.
pub open spec fn leg_defined(paths: Seq<BondPathConfig>, n: int, id: u8) -> bool {
    exists|i: int| 0 <= i < n && i < paths.len() && #[trigger] paths[i].id == id
}

fn is_leg_defined(paths: &Vec<BondPathConfig>, n: usize, id: u8) -> (r: bool)
    requires
        n <= paths@.len(),
    ensures
        r == leg_defined(paths@, n as int, id),
{
    let mut i: usize = 0;
    while i < n
        invariant
            i <= n <= paths@.len(),
            !leg_defined(paths@, i as int, id),
        decreases n - i,
    {
        if paths[i].id == id {
            return true;
        }
        i = i + 1;
    }
    false
}

/// The check of every leg of a bond: an identifier of its own, what carries it,
/// and one model of forward error correction, the bond's or the leg's.
pub open spec fn leg_check(
    paths: Seq<BondPathConfig>,
    fec: Option<BondFecConfig>,
    sends: bool,
    context: Seq<char>,
) -> spec_fn(int, BondPathConfig) -> Option<Seq<char>> {
    |i: int, path: BondPathConfig|
        error::check(
            leg_defined(paths, i, path.id),
            context + ": duplicate path id "@ + text::dec(path.id as nat),
        ).otherwise(
            error::check(
                path.fec is Some && fec is Some,
                context + " leg '"@ + path.name@
                    + "': fec of the leg and of the bond are mutually exclusive"@,
            ),
        ).otherwise(carrier_fault(path.transport, sends, context + " leg '"@ + path.name@ + "'"@))
}

/// The rules for a bond: its encryption, its error correction and its legs.
pub open spec fn bond_fault(
    key: Option<String>,
    fec: Option<BondFecConfig>,
    paths: Seq<BondPathConfig>,
    sends: bool,
    context: Seq<char>,
) -> Option<Seq<char>> {
    relays_fault(paths, key is Some, context).otherwise(
        key_fault(key, "encryption_key"@, context),
    ).otherwise(
        error::check(
            fec is Some && fec->0.algorithm == Some(BondFecAlgorithm::ReedSolomon),
            context + ": reed_solomon fec is per leg only"@,
        ),
    ).otherwise(error::first_fault(paths, leg_check(paths, fec, sends, context), 0))
}

/// Checks a bond.
pub fn validate_bond(
    key: &Option<String>,
    fec: &Option<BondFecConfig>,
    paths: &Vec<BondPathConfig>,
    sends: bool,
    context: &str,
) -> (r: Result<(), ConfigError>)
    ensures
        error::is_outcome(r, bond_fault(*key, *fec, paths@, sends, context@)),
{
    validate_relays(paths, key.is_some(), context)?;
    validate_key(key, "encryption_key", context)?;
    if let Some(f) = fec {
        if matches!(f.algorithm, Some(BondFecAlgorithm::ReedSolomon)) {
            return fail(text::cat2(context, ": reed_solomon fec is per leg only"));
        }
    }
    let mut i: usize = 0;
    while i < paths.len()
        invariant
            i <= paths@.len(),
            error::first_fault(paths@, leg_check(paths@, *fec, sends, context@), 0)
                == error::first_fault(
                paths@,
                leg_check(paths@, *fec, sends, context@),
                i as int,
            ),
            relays_fault(paths@, *key is Some, context@) is None,
            key_fault(*key, "encryption_key"@, context@) is None,
            !(*fec is Some && fec->0.algorithm == Some(BondFecAlgorithm::ReedSolomon)),
        decreases paths.len() - i,
    {
        let path = &paths[i];
        if is_leg_defined(paths, i, path.id) {
            return fail(
                text::cat3(
                    context,
                    ": duplicate path id ",
                    text::dec_string(path.id as u64).as_str(),
                ),
            );
        }
        if path.fec.is_some() && fec.is_some() {
            return fail(
                text::cat4(
                    context,
                    " leg '",
                    path.name.as_str(),
                    "': fec of the leg and of the bond are mutually exclusive",
                ),
            );
        }
        validate_carrier(
            &path.transport,
            sends,
            text::cat4(context, " leg '", path.name.as_str(), "'").as_str(),
        )?;
        i = i + 1;
    }
    Ok(())
}

/// The rules for how a bond avoids congestion.
pub open spec fn congestion_fault(
    c: BondCongestionConfig,
    context: Seq<char>,
) -> Option<Seq<char>> {
    error::check(
        c.probe_cap_mult is Some && !(binary::le(
            binary::ELEVEN_TENTHS,
            c.probe_cap_mult->0.bits,
        ) && binary::le(c.probe_cap_mult->0.bits, binary::TEN)),
        context + ": probe_cap_mult must be 1.1-10.0, got "@ + c.probe_cap_mult->0.text@,
    ).otherwise(
        error::when(
            c.rtt_min_window_ms is Some,
            bounds::bounds_fault(
                c.rtt_min_window_ms->0 as nat,
                1000,
                120_000,
                "rtt_min_window_ms"@,
                context,
            ),
        ),
    ).otherwise(
        bounds::set_bounds_fault(c.jitter_demote_ms, 0, 5000, "jitter_demote_ms"@, context),
    )
}

/// Checks how a bond avoids congestion.
pub fn validate_congestion(c: &BondCongestionConfig, context: &str) -> (r: Result<(), ConfigError>)
    ensures
        error::is_outcome(r, congestion_fault(*c, context@)),
{
    if let Some(m) = &c.probe_cap_mult {
        if !(binary::at_most(binary::ELEVEN_TENTHS, m.bits) && binary::at_most(
            m.bits,
            binary::TEN,
        )) {
            return fail(
                text::cat3(
                    context,
                    ": probe_cap_mult must be 1.1-10.0, got ",
                    m.text.as_str(),
                ),
            );
        }
    }
    if let Some(ms) = c.rtt_min_window_ms {
        validate_bounds(ms, 1000, 120_000, "rtt_min_window_ms", context)?;
    }
    validate_set_bounds(c.jitter_demote_ms, 0, 5000, "jitter_demote_ms", context)
}

/// The rules for a bonded input.
pub open spec fn bonded_input_fault(c: BondedInputConfig) -> Option<Seq<char>> {
    bond_fault(c.encryption_key, c.fec, c.paths@, false, "Bonded input"@)
}

/// The rules for a bonded output.
pub open spec fn bonded_output_fault(
    c: BondedOutputConfig,
    context: Seq<char>,
) -> Option<Seq<char>> {
    bond_fault(c.encryption_key, c.fec, c.paths@, true, context).otherwise(
        error::when(c.congestion is Some, congestion_fault(c.congestion->0, context)),
    ).otherwise(
        error::when(
            c.redundancy is Some && c.redundancy->0.replicas is Some,
            bounds::bounds_fault(
                c.redundancy->0.replicas->0 as nat,
                2,
                8,
                "replicas"@,
                context,
            ),
        ),
    ).otherwise(bounds::set_bounds_fault(c.path_mtu, 576, 9000, "path_mtu"@, context))
}

/// Checks a bonded output.
pub fn validate_bonded_output(c: &BondedOutputConfig, context: &str) -> (r: Result<
    (),
    ConfigError,
>)
    ensures
        error::is_outcome(r, bonded_output_fault(*c, context@)),
{
    validate_bond(&c.encryption_key, &c.fec, &c.paths, true, context)?;
    if let Some(congestion) = &c.congestion {
        validate_congestion(congestion, context)?;
    }
    if let Some(redundancy) = &c.redundancy {
        if let Some(replicas) = redundancy.replicas {
            validate_bounds(replicas as u64, 2, 8, "replicas", context)?;
        }
    }
    validate_set_bounds(c.path_mtu, 576, 9000, "path_mtu", context)
}

/// Checks a bonded input.
pub fn validate_bonded_input(c: &BondedInputConfig) -> (r: Result<(), ConfigError>)
    ensures
        error::is_outcome(r, bonded_input_fault(*c)),
{
    validate_bond(&c.encryption_key, &c.fec, &c.paths, false, "Bonded input")
}

} // verus!
