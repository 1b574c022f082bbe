//! Checks of tunnels.

use vstd::prelude::*;
use vstd::string::*;
use vstd::utf8::*;

use crate::number;
use crate::error;
use crate::error::{fail, Checks, ConfigError};
use crate::text;
use crate::tunnel::{TunnelConfig, TunnelDirection, TunnelMode};
use crate::validation::fields;
use crate::validation::fields::{validate_id, validate_name, validate_socket_addr};

verus! {

/// A UUID with hyphens: groups of 8, 4, 4, 4 and 12 hexadecimal digits.
pub open spec fn is_hyphenated_uuid(b: Seq<u8>) -> bool {
    &&& b.len() == 36
    &&& forall|i: int|
        0 <= i < 36 ==> if i == 8 || i == 13 || i == 18 || i == 23 {
            #[trigger] b[i] == 0x2D
        } else {
            number::digit_value(b[i]) < 16
        }
}

/// An ASCII letter in lower case; every other byte as it is.
pub open spec fn lower(b: u8) -> u8 {
    if 0x41 <= b <= 0x5A {
        (b + 0x20) as u8
    } else {
        b
    }
}

/// The bytes of `urn:uuid:`.
pub open spec fn urn_prefix() -> Seq<u8> {
    seq![0x75u8, 0x72, 0x6E, 0x3A, 0x75, 0x75, 0x69, 0x64, 0x3A]
}

/// The text forms of a UUID: 32 hexadecimal digits; with hyphens; with hyphens
/// in braces; with hyphens behind `urn:uuid:` in letters of either case.
pub open spec fn is_uuid_text(b: Seq<u8>) -> bool {
    ||| b.len() == 32 && number::all_digits(b, 16)
    ||| is_hyphenated_uuid(b)
    ||| b.len() == 38 && b[0] == 0x7B && b[37] == 0x7D && is_hyphenated_uuid(b.subrange(1, 37))
    ||| b.len() == 45 && b.take(9).map_values(|c: u8| lower(c)) == urn_prefix()
        && is_hyphenated_uuid(b.skip(9))
}

/// `uuid::Uuid::parse_str`: it accepts the text forms of [`is_uuid_text`] and
/// no others.
#[verifier::external_body]
fn is_uuid(s: &str) -> (r: bool)
    ensures
        r == is_uuid_text(encode_utf8(s@)),
{
    uuid::Uuid::parse_str(s).is_ok()
}

/// Whether a character is a hexadecimal digit.
pub open spec fn is_hex_char(c: char) -> bool {
    '0' <= c <= '9' || 'a' <= c <= 'f' || 'A' <= c <= 'F'
}

/// Whether a text consists of hexadecimal digits.
pub open spec fn all_hex(s: Seq<char>) -> bool {
    forall|i: int| 0 <= i < s.len() ==> is_hex_char(#[trigger] s[i])
}

/// See [`all_hex`].
pub fn is_all_hex(s: &str) -> (r: bool)
    ensures
        r == all_hex(s@),
{
    let n: usize = s.unicode_len();
    let mut i: usize = 0;
    while i < n
        invariant
            n == s@.len(),
            i <= n,
            forall|j: int| 0 <= j < i ==> is_hex_char(#[trigger] s@[j]),
        decreases n - i,
    {
        let c: u32 = s.get_char(i) as u32;
        if !((0x30 <= c && c <= 0x39) || (0x61 <= c && c <= 0x66) || (0x41 <= c && c <= 0x46)) {
            assert(!is_hex_char(s@[i as int]));
            return false;
        }
        i = i + 1;
    }
    true
}

/// What a tunnel needs to reach its other end.
pub open spec fn tunnel_ends_fault(tunnel: TunnelConfig) -> Option<Seq<char>> {
    match tunnel.mode {
        TunnelMode::Relay => error::check(
            tunnel.relay_addr is None,
            "Tunnel '"@ + tunnel.id@ + "': relay_addr is required for relay mode"@,
        ).otherwise(
            error::check(
                tunnel.relay_addr->0@.len() == 0 || text::byte_len(tunnel.relay_addr->0@) > 256,
                "Tunnel '"@ + tunnel.id@ + "': relay_addr must be 1-256 characters"@,
            ),
        ),
        TunnelMode::Direct => match tunnel.direction {
            TunnelDirection::Egress => error::check(
                tunnel.peer_addr is None,
                "Tunnel '"@ + tunnel.id@ + "': peer_addr is required for direct egress"@,
            ),
            TunnelDirection::Ingress => error::check(
                tunnel.direct_listen_addr is None,
                "Tunnel '"@ + tunnel.id@ + "': direct_listen_addr is required for direct ingress"@,
            ),
        },
    }
}

/// Checks what a tunnel needs to reach its other end.
pub fn validate_tunnel_ends(tunnel: &TunnelConfig) -> (r: Result<(), ConfigError>)
    ensures
        error::is_outcome(r, tunnel_ends_fault(*tunnel)),
{
    match tunnel.mode {
        TunnelMode::Relay => match &tunnel.relay_addr {
            Some(relay_addr) => {
                if relay_addr.as_str().is_empty() || text::byte_count(relay_addr.as_str()) > 256 {
                    return fail(
                        text::cat3(
                            "Tunnel '",
                            tunnel.id.as_str(),
                            "': relay_addr must be 1-256 characters",
                        ),
                    );
                }
            },
            None => {
                return fail(
                    text::cat3(
                        "Tunnel '",
                        tunnel.id.as_str(),
                        "': relay_addr is required for relay mode",
                    ),
                );
            },
        },
        TunnelMode::Direct => match tunnel.direction {
            TunnelDirection::Egress => {
                if tunnel.peer_addr.is_none() {
                    return fail(
                        text::cat3(
                            "Tunnel '",
                            tunnel.id.as_str(),
                            "': peer_addr is required for direct egress",
                        ),
                    );
                }
            },
            TunnelDirection::Ingress => {
                if tunnel.direct_listen_addr.is_none() {
                    return fail(
                        text::cat3(
                            "Tunnel '",
                            tunnel.id.as_str(),
                            "': direct_listen_addr is required for direct ingress",
                        ),
                    );
                }
            },
        },
    }
    Ok(())
}

/// The rules for a tunnel.
pub open spec fn tunnel_fault(tunnel: TunnelConfig) -> Option<Seq<char>> {
    fields::id_fault(tunnel.id@, "Tunnel"@).otherwise(
        error::check(
            !is_uuid_text(encode_utf8(tunnel.id@)),
            "Tunnel '"@ + tunnel.id@
                + "': id must be a valid UUID (e.g., '550e8400-e29b-41d4-a716-446655440000')"@,
        ),
    ).otherwise(
        fields::name_fault(tunnel.name@, "Tunnel"@),
    ).otherwise(
        fields::socket_addr_fault(tunnel.local_addr@, "Tunnel local_addr"@),
    ).otherwise(
        tunnel_ends_fault(tunnel),
    ).otherwise(
        error::when(
            tunnel.tunnel_encryption_key is Some,
            error::check(
                text::byte_len(tunnel.tunnel_encryption_key->0@) != 64,
                "Tunnel '"@ + tunnel.id@
                    + "': tunnel_encryption_key must be exactly 64 hex characters (32 bytes), got "@
                    + text::dec(text::byte_len(tunnel.tunnel_encryption_key->0@)) + " chars"@,
            ).otherwise(
                error::check(
                    !all_hex(tunnel.tunnel_encryption_key->0@),
                    "Tunnel '"@ + tunnel.id@
                        + "': tunnel_encryption_key must contain only hex characters"@,
                ),
            ),
        ),
    ).otherwise(
        error::check(
            tunnel.tunnel_encryption_key is None && tunnel.mode is Relay,
            "Tunnel '"@ + tunnel.id@
                + "': tunnel_encryption_key is required for relay mode (end-to-end encryption)"@,
        ),
    ).otherwise(
        error::when(
            tunnel.tunnel_bind_secret is Some,
            error::check(
                text::byte_len(tunnel.tunnel_bind_secret->0@) != 64,
                "Tunnel '"@ + tunnel.id@
                    + "': tunnel_bind_secret must be exactly 64 hex characters (32 bytes), got "@
                    + text::dec(text::byte_len(tunnel.tunnel_bind_secret->0@)) + " chars"@,
            ).otherwise(
                error::check(
                    !all_hex(tunnel.tunnel_bind_secret->0@),
                    "Tunnel '"@ + tunnel.id@
                        + "': tunnel_bind_secret must contain only hex characters"@,
                ),
            ),
        ),
    ).otherwise(
        error::check(
            tunnel.tunnel_psk is Some && text::byte_len(tunnel.tunnel_psk->0@) > 256,
            "Tunnel '"@ + tunnel.id@ + "': tunnel_psk must be at most 256 characters"@,
        ),
    ).otherwise(
        error::check(
            tunnel.peer_addr is Some && text::byte_len(tunnel.peer_addr->0@) > 256,
            "Tunnel '"@ + tunnel.id@ + "': peer_addr must be at most 256 characters"@,
        ),
    ).otherwise(
        error::when(
            tunnel.direct_listen_addr is Some,
            fields::socket_addr_fault(
                tunnel.direct_listen_addr->0@,
                "Tunnel '"@ + tunnel.id@ + "' direct_listen_addr"@,
            ),
        ),
    )
}

/// Checks a tunnel.
pub fn validate_tunnel(tunnel: &TunnelConfig) -> (r: Result<(), ConfigError>)
    ensures
        error::is_outcome(r, tunnel_fault(*tunnel)),
{
    validate_id(tunnel.id.as_str(), "Tunnel")?;
    if !is_uuid(tunnel.id.as_str()) {
        return fail(
            text::cat3(
                "Tunnel '",
                tunnel.id.as_str(),
                "': id must be a valid UUID (e.g., '550e8400-e29b-41d4-a716-446655440000')",
            ),
        );
    }
    validate_name(tunnel.name.as_str(), "Tunnel")?;
    validate_socket_addr(tunnel.local_addr.as_str(), "Tunnel local_addr")?;
    validate_tunnel_ends(tunnel)?;
    if let Some(key) = &tunnel.tunnel_encryption_key {
        if text::byte_count(key.as_str()) != 64 {
            return fail(text::cat5(
                "Tunnel '",
                tunnel.id.as_str(),
                "': tunnel_encryption_key must be exactly 64 hex characters (32 bytes), got ",
                text::dec_string(text::byte_count(key.as_str()) as u64).as_str(),
                " chars",
            ));
        }
        if !is_all_hex(key.as_str()) {
            return fail(text::cat3(
                "Tunnel '",
                tunnel.id.as_str(),
                "': tunnel_encryption_key must contain only hex characters",
            ));
        }
    }
    if tunnel.tunnel_encryption_key.is_none() {
        if let TunnelMode::Relay = tunnel.mode {
            return fail(
                text::cat3(
                    "Tunnel '",
                    tunnel.id.as_str(),
                    "': tunnel_encryption_key is required for relay mode (end-to-end encryption)",
                ),
            );
        }
    }
    if let Some(key) = &tunnel.tunnel_bind_secret {
        if text::byte_count(key.as_str()) != 64 {
            return fail(text::cat5(
                "Tunnel '",
                tunnel.id.as_str(),
                "': tunnel_bind_secret must be exactly 64 hex characters (32 bytes), got ",
                text::dec_string(text::byte_count(key.as_str()) as u64).as_str(),
                " chars",
            ));
        }
        if !is_all_hex(key.as_str()) {
            return fail(text::cat3(
                "Tunnel '",
                tunnel.id.as_str(),
                "': tunnel_bind_secret must contain only hex characters",
            ));
        }
    }
    if let Some(psk) = &tunnel.tunnel_psk {
        if text::byte_count(psk.as_str()) > 256 {
            return fail(text::cat3(
                "Tunnel '",
                tunnel.id.as_str(),
                "': tunnel_psk must be at most 256 characters",
            ));
        }
    }
    if let Some(addr) = &tunnel.peer_addr {
        if text::byte_count(addr.as_str()) > 256 {
            return fail(text::cat3(
                "Tunnel '",
                tunnel.id.as_str(),
                "': peer_addr must be at most 256 characters",
            ));
        }
    }
    if let Some(addr) = &tunnel.direct_listen_addr {
        validate_socket_addr(
            addr.as_str(),
            text::cat3("Tunnel '", tunnel.id.as_str(), "' direct_listen_addr").as_str(),
        )?;
    }
    Ok(())
}

} // verus!
