//! Checks of the settings that every SRT leg has.

use vstd::prelude::*;

use crate::error;
use crate::error::{fail, Checks, ConfigError};
use crate::models::{SrtInputConfig, SrtMode, SrtOutputConfig, SrtRedundancyConfig};
use crate::srt_filter::{FilterParse, PacketFilter};
use crate::text;
use crate::validation::fields;
use crate::validation::fields::validate_socket_addr;

verus! {

/// The settings of an SRT leg that are checked in the same way for inputs,
/// outputs and second legs.
pub struct SrtKnobs<'a> {
    pub mode: SrtMode,
    pub remote_addr: &'a Option<String>,
    pub passphrase: &'a Option<String>,
    pub aes_key_len: Option<usize>,
    pub crypto_mode: &'a Option<String>,
    pub max_rexmit_bw: Option<i64>,
    pub stream_id: &'a Option<String>,
    pub packet_filter: &'a Option<PacketFilter>,
    pub max_bw: Option<i64>,
    pub overhead_bw: Option<i32>,
    pub flight_flag_size: Option<u32>,
    pub send_buffer_size: Option<u32>,
    pub recv_buffer_size: Option<u32>,
    pub ip_tos: Option<i32>,
    pub retransmit_algo: &'a Option<String>,
    pub send_drop_delay: Option<i32>,
    pub loss_max_ttl: Option<i32>,
    pub km_refresh_rate: Option<u32>,
    pub km_pre_announce: Option<u32>,
    pub payload_size: Option<u32>,
    pub mss: Option<u32>,
    pub ip_ttl: Option<i32>,
}

/// The shared settings of an SRT input.
pub open spec fn spec_input_knobs<'a>(srt: &'a SrtInputConfig) -> SrtKnobs<'a> {
    SrtKnobs {
        mode: srt.mode,
        remote_addr: &srt.remote_addr,
        passphrase: &srt.passphrase,
        aes_key_len: srt.aes_key_len,
        crypto_mode: &srt.crypto_mode,
        max_rexmit_bw: srt.max_rexmit_bw,
        stream_id: &srt.stream_id,
        packet_filter: &srt.packet_filter,
        max_bw: srt.max_bw,
        overhead_bw: srt.overhead_bw,
        flight_flag_size: srt.flight_flag_size,
        send_buffer_size: srt.send_buffer_size,
        recv_buffer_size: srt.recv_buffer_size,
        ip_tos: srt.ip_tos,
        retransmit_algo: &srt.retransmit_algo,
        send_drop_delay: srt.send_drop_delay,
        loss_max_ttl: srt.loss_max_ttl,
        km_refresh_rate: srt.km_refresh_rate,
        km_pre_announce: srt.km_pre_announce,
        payload_size: srt.payload_size,
        mss: srt.mss,
        ip_ttl: srt.ip_ttl,
    }
}

/// The shared settings of an SRT input.
pub fn input_knobs<'a>(srt: &'a SrtInputConfig) -> (k: SrtKnobs<'a>)
    ensures
        k == spec_input_knobs(srt),
{
    SrtKnobs {
        mode: srt.mode,
        remote_addr: &srt.remote_addr,
        passphrase: &srt.passphrase,
        aes_key_len: srt.aes_key_len,
        crypto_mode: &srt.crypto_mode,
        max_rexmit_bw: srt.max_rexmit_bw,
        stream_id: &srt.stream_id,
        packet_filter: &srt.packet_filter,
        max_bw: srt.max_bw,
        overhead_bw: srt.overhead_bw,
        flight_flag_size: srt.flight_flag_size,
        send_buffer_size: srt.send_buffer_size,
        recv_buffer_size: srt.recv_buffer_size,
        ip_tos: srt.ip_tos,
        retransmit_algo: &srt.retransmit_algo,
        send_drop_delay: srt.send_drop_delay,
        loss_max_ttl: srt.loss_max_ttl,
        km_refresh_rate: srt.km_refresh_rate,
        km_pre_announce: srt.km_pre_announce,
        payload_size: srt.payload_size,
        mss: srt.mss,
        ip_ttl: srt.ip_ttl,
    }
}

/// The shared settings of an SRT output.
pub open spec fn spec_output_knobs<'a>(srt: &'a SrtOutputConfig) -> SrtKnobs<'a> {
    SrtKnobs {
        mode: srt.mode,
        remote_addr: &srt.remote_addr,
        passphrase: &srt.passphrase,
        aes_key_len: srt.aes_key_len,
        crypto_mode: &srt.crypto_mode,
        max_rexmit_bw: srt.max_rexmit_bw,
        stream_id: &srt.stream_id,
        packet_filter: &srt.packet_filter,
        max_bw: srt.max_bw,
        overhead_bw: srt.overhead_bw,
        flight_flag_size: srt.flight_flag_size,
        send_buffer_size: srt.send_buffer_size,
        recv_buffer_size: srt.recv_buffer_size,
        ip_tos: srt.ip_tos,
        retransmit_algo: &srt.retransmit_algo,
        send_drop_delay: srt.send_drop_delay,
        loss_max_ttl: srt.loss_max_ttl,
        km_refresh_rate: srt.km_refresh_rate,
        km_pre_announce: srt.km_pre_announce,
        payload_size: srt.payload_size,
        mss: srt.mss,
        ip_ttl: srt.ip_ttl,
    }
}

/// The shared settings of an SRT output.
pub fn output_knobs<'a>(srt: &'a SrtOutputConfig) -> (k: SrtKnobs<'a>)
    ensures
        k == spec_output_knobs(srt),
{
    SrtKnobs {
        mode: srt.mode,
        remote_addr: &srt.remote_addr,
        passphrase: &srt.passphrase,
        aes_key_len: srt.aes_key_len,
        crypto_mode: &srt.crypto_mode,
        max_rexmit_bw: srt.max_rexmit_bw,
        stream_id: &srt.stream_id,
        packet_filter: &srt.packet_filter,
        max_bw: srt.max_bw,
        overhead_bw: srt.overhead_bw,
        flight_flag_size: srt.flight_flag_size,
        send_buffer_size: srt.send_buffer_size,
        recv_buffer_size: srt.recv_buffer_size,
        ip_tos: srt.ip_tos,
        retransmit_algo: &srt.retransmit_algo,
        send_drop_delay: srt.send_drop_delay,
        loss_max_ttl: srt.loss_max_ttl,
        km_refresh_rate: srt.km_refresh_rate,
        km_pre_announce: srt.km_pre_announce,
        payload_size: srt.payload_size,
        mss: srt.mss,
        ip_ttl: srt.ip_ttl,
    }
}

/// The shared settings of a second leg.
pub open spec fn spec_redundancy_knobs<'a>(red: &'a SrtRedundancyConfig) -> SrtKnobs<'a> {
    SrtKnobs {
        mode: red.mode,
        remote_addr: &red.remote_addr,
        passphrase: &red.passphrase,
        aes_key_len: red.aes_key_len,
        crypto_mode: &red.crypto_mode,
        max_rexmit_bw: red.max_rexmit_bw,
        stream_id: &red.stream_id,
        packet_filter: &red.packet_filter,
        max_bw: red.max_bw,
        overhead_bw: red.overhead_bw,
        flight_flag_size: red.flight_flag_size,
        send_buffer_size: red.send_buffer_size,
        recv_buffer_size: red.recv_buffer_size,
        ip_tos: red.ip_tos,
        retransmit_algo: &red.retransmit_algo,
        send_drop_delay: red.send_drop_delay,
        loss_max_ttl: red.loss_max_ttl,
        km_refresh_rate: red.km_refresh_rate,
        km_pre_announce: red.km_pre_announce,
        payload_size: red.payload_size,
        mss: red.mss,
        ip_ttl: red.ip_ttl,
    }
}

/// The shared settings of a second leg.
pub fn redundancy_knobs<'a>(red: &'a SrtRedundancyConfig) -> (k: SrtKnobs<'a>)
    ensures
        k == spec_redundancy_knobs(red),
{
    SrtKnobs {
        mode: red.mode,
        remote_addr: &red.remote_addr,
        passphrase: &red.passphrase,
        aes_key_len: red.aes_key_len,
        crypto_mode: &red.crypto_mode,
        max_rexmit_bw: red.max_rexmit_bw,
        stream_id: &red.stream_id,
        packet_filter: &red.packet_filter,
        max_bw: red.max_bw,
        overhead_bw: red.overhead_bw,
        flight_flag_size: red.flight_flag_size,
        send_buffer_size: red.send_buffer_size,
        recv_buffer_size: red.recv_buffer_size,
        ip_tos: red.ip_tos,
        retransmit_algo: &red.retransmit_algo,
        send_drop_delay: red.send_drop_delay,
        loss_max_ttl: red.loss_max_ttl,
        km_refresh_rate: red.km_refresh_rate,
        km_pre_announce: red.km_pre_announce,
        payload_size: red.payload_size,
        mss: red.mss,
        ip_ttl: red.ip_ttl,
    }
}

/// The name of a connection mode.
pub open spec fn mode_text(mode: SrtMode) -> Seq<char> {
    match mode {
        SrtMode::Caller => "Caller"@,
        SrtMode::Listener => "Listener"@,
        SrtMode::Rendezvous => "Rendezvous"@,
    }
}

/// The name of a connection mode.
pub fn mode_name(mode: SrtMode) -> (r: &'static str)
    ensures
        r@ == mode_text(mode),
{
    match mode {
        SrtMode::Caller => "Caller",
        SrtMode::Listener => "Listener",
        SrtMode::Rendezvous => "Rendezvous",
    }
}

/// The local address of a leg: a listener and a rendezvous leg need one, and
/// where there is one it must be a socket address.
pub open spec fn local_addr_fault(
    mode: SrtMode,
    local_addr: Option<String>,
    context: Seq<char>,
) -> Option<Seq<char>> {
    error::check(
        mode !is Caller && local_addr is None,
        context + " local_addr is required for "@ + mode_text(mode) + " mode"@,
    ).otherwise(
        error::when(
            local_addr is Some,
            fields::socket_addr_fault(local_addr->0@, context + " local_addr"@),
        ),
    )
}

/// Checks the local address of a leg.
pub fn validate_srt_local_addr(mode: SrtMode, local_addr: &Option<String>, context: &str) -> (r:
    Result<(), ConfigError>)
    ensures
        error::is_outcome(r, local_addr_fault(mode, *local_addr, context@)),
{
    match local_addr {
        Some(addr) => validate_socket_addr(
            addr.as_str(),
            text::cat2(context, " local_addr").as_str(),
        ),
        None => match mode {
            SrtMode::Caller => Ok(()),
            _ => fail(
                text::cat4(context, " local_addr is required for ", mode_name(mode), " mode"),
            ),
        },
    }
}

/// The rules for a packet filter: its length, then the protocol library's
/// reading of it.
pub open spec fn packet_filter_fault(
    pf: PacketFilter,
    context: Seq<char>,
) -> Option<Seq<char>> {
    error::check(
        text::byte_len(pf.spec_text@) > 512,
        context + ": packet_filter must be at most 512 characters, got "@
            + text::dec(text::byte_len(pf.spec_text@)),
    ).otherwise(
        (match pf.parsed {
            FilterParse::Matrix(m) => error::check(
                m.cols == 0 || m.cols > 256,
                context + ": FEC cols must be 1-256, got "@ + text::dec(m.cols as nat),
            ).otherwise(
                error::check(
                    m.rows == 0 || m.rows > 256,
                    context + ": FEC rows must be 1-256, got "@ + text::dec(m.rows as nat),
                ),
            ),
            FilterParse::Invalid(e) => Some(context + ": invalid packet_filter: "@ + e@),
        }),
    )
}

/// Checks a packet filter: its length, then the protocol library's reading of it.
pub fn validate_packet_filter(pf: &PacketFilter, context: &str) -> (r: Result<(), ConfigError>)
    ensures
        error::is_outcome(r, packet_filter_fault(*pf, context@)),
{
    if text::byte_count(pf.spec_text.as_str()) > 512 {
        return fail(text::cat3(
            context,
            ": packet_filter must be at most 512 characters, got ",
            text::dec_string(text::byte_count(pf.spec_text.as_str()) as u64).as_str(),
        ));
    }
    match &pf.parsed {
        FilterParse::Matrix(m) => {
            if m.cols == 0 || m.cols > 256 {
                return fail(
                    text::cat3(
                        context,
                        ": FEC cols must be 1-256, got ",
                        text::dec_string(m.cols as u64).as_str(),
                    ),
                );
            }
            if m.rows == 0 || m.rows > 256 {
                return fail(
                    text::cat3(
                        context,
                        ": FEC rows must be 1-256, got ",
                        text::dec_string(m.rows as u64).as_str(),
                    ),
                );
            }
        },
        FilterParse::Invalid(e) => {
            return fail(text::cat3(context, ": invalid packet_filter: ", e.as_str()));
        },
    }
    Ok(())
}

/// The rules for the SRT settings that inputs, outputs and second legs
/// share.
pub open spec fn srt_common_fault(k: SrtKnobs, context: Seq<char>) -> Option<Seq<char>> {
    error::when(
        k.mode !is Listener,
        error::check(
            k.remote_addr is None,
            context + ": remote_addr is required for caller/rendezvous mode"@,
        ).otherwise(
            fields::socket_addr_fault(k.remote_addr->0@, context + " remote_addr"@),
        ),
    ).otherwise(
        error::check(
            k.passphrase is Some && (text::byte_len(k.passphrase->0@) < 10
                || text::byte_len(k.passphrase->0@) > 79),
            context + ": passphrase must be 10-79 characters, got "@
                + text::dec(text::byte_len(k.passphrase->0@)),
        ),
    ).otherwise(
        error::check(
            k.aes_key_len is Some && k.aes_key_len->0 != 16 && k.aes_key_len->0 != 24
                && k.aes_key_len->0 != 32,
            context + ": aes_key_len must be 16, 24, or 32, got "@
                + text::dec(k.aes_key_len->0 as nat),
        ),
    ).otherwise(
        error::when(
            k.crypto_mode is Some,
            error::check(
                !(k.crypto_mode->0@ == "aes-ctr"@ || k.crypto_mode->0@ == "aes-gcm"@),
                context + ": crypto_mode must be \"aes-ctr\" or \"aes-gcm\", got \""@
                    + k.crypto_mode->0@ + "\""@,
            ).otherwise(
                error::check(
                k.crypto_mode->0@ == "aes-gcm"@ && k.aes_key_len == Some(24usize),
                context + ": AES-GCM does not support AES-192 (aes_key_len 24); use 16 or 32"@,
            ),
            ),
        ),
    ).otherwise(
        error::check(
            k.max_rexmit_bw is Some && k.max_rexmit_bw->0 < -1,
            context + ": max_rexmit_bw must be -1 (unlimited), 0 (disable), or > 0 (bytes/sec), got "@
                + text::dec_int(k.max_rexmit_bw->0 as int),
        ),
    ).otherwise(
        error::check(
            k.stream_id is Some && text::byte_len(k.stream_id->0@) > 512,
            context + ": stream_id must be at most 512 characters (per SRT spec), got "@
                + text::dec(text::byte_len(k.stream_id->0@)),
        ),
    ).otherwise(
        error::when(
            k.packet_filter is Some,
            packet_filter_fault(k.packet_filter->0, context),
        ),
    ).otherwise(
        error::check(
            k.max_bw is Some && k.max_bw->0 < 0,
            context + ": max_bw must be >= 0 (0 = unlimited), got "@
                + text::dec_int(k.max_bw->0 as int),
        ),
    ).otherwise(
        error::check(
            k.overhead_bw is Some && (k.overhead_bw->0 < 5 || k.overhead_bw->0 > 100),
            context + ": overhead_bw must be 5-100 (percentage), got "@
                + text::dec_int(k.overhead_bw->0 as int),
        ),
    ).otherwise(
        error::check(
            k.flight_flag_size is Some && k.flight_flag_size->0 < 32,
            context + ": flight_flag_size must be >= 32 packets, got "@
                + text::dec(k.flight_flag_size->0 as nat),
        ),
    ).otherwise(
        error::check(
            k.send_buffer_size is Some && k.send_buffer_size->0 < 32,
            context + ": send_buffer_size must be >= 32 packets, got "@
                + text::dec(k.send_buffer_size->0 as nat),
        ),
    ).otherwise(
        error::check(
            k.recv_buffer_size is Some && k.recv_buffer_size->0 < 32,
            context + ": recv_buffer_size must be >= 32 packets, got "@
                + text::dec(k.recv_buffer_size->0 as nat),
        ),
    ).otherwise(
        error::check(
            k.ip_tos is Some && !(0 <= k.ip_tos->0 <= 255),
            context + ": ip_tos must be 0-255, got "@ + text::dec_int(k.ip_tos->0 as int),
        ),
    ).otherwise(
        error::check(
            k.retransmit_algo is Some && !(k.retransmit_algo->0@ == "default"@
                || k.retransmit_algo->0@ == "reduced"@),
            context + ": retransmit_algo must be \"default\" or \"reduced\", got \""@
                + k.retransmit_algo->0@ + "\""@,
        ),
    ).otherwise(
        error::check(
            k.send_drop_delay is Some && k.send_drop_delay->0 < -1,
            context + ": send_drop_delay must be >= -1, got "@
                + text::dec_int(k.send_drop_delay->0 as int),
        ),
    ).otherwise(
        error::check(
            k.loss_max_ttl is Some && k.loss_max_ttl->0 < 0,
            context + ": loss_max_ttl must be >= 0, got "@
                + text::dec_int(k.loss_max_ttl->0 as int),
        ),
    ).otherwise(
        error::check(
            k.km_refresh_rate is Some && k.km_refresh_rate->0 == 0,
            context + ": km_refresh_rate must be > 0"@,
        ),
    ).otherwise(
        error::check(
            k.km_pre_announce is Some && k.km_pre_announce->0 == 0,
            context + ": km_pre_announce must be > 0"@,
        ),
    ).otherwise(
        error::check(
            k.payload_size is Some && (k.payload_size->0 < 188 || k.payload_size->0 > 1456),
            context + ": payload_size must be 188-1456, got "@
                + text::dec(k.payload_size->0 as nat),
        ),
    ).otherwise(
        error::check(
            k.mss is Some && (k.mss->0 < 76 || k.mss->0 > 9000),
            context + ": mss must be 76-9000, got "@ + text::dec(k.mss->0 as nat),
        ),
    ).otherwise(
        error::check(
            k.ip_ttl is Some && !(1 <= k.ip_ttl->0 <= 255),
            context + ": ip_ttl must be 1-255, got "@ + text::dec_int(k.ip_ttl->0 as int),
        ),
    )
}

/// Checks the SRT settings that inputs, outputs and second legs share.
pub fn validate_srt_common(k: &SrtKnobs, context: &str) -> (r: Result<(), ConfigError>)
    ensures
        error::is_outcome(r, srt_common_fault(*k, context@)),
{
    match k.mode {
        SrtMode::Caller | SrtMode::Rendezvous => {
            match k.remote_addr {
                Some(addr) => {
                    validate_socket_addr(
                        addr.as_str(),
                        text::cat2(context, " remote_addr").as_str(),
                    )?;
                },
                None => {
                    return fail(
                        text::cat2(
                            context,
                            ": remote_addr is required for caller/rendezvous mode",
                        ),
                    );
                },
            }
        },
        SrtMode::Listener => {},
    }
    if let Some(pass) = k.passphrase {
        if text::byte_count(pass.as_str()) < 10 || text::byte_count(pass.as_str()) > 79 {
            return fail(text::cat3(
                context,
                ": passphrase must be 10-79 characters, got ",
                text::dec_string(text::byte_count(pass.as_str()) as u64).as_str(),
            ));
        }
    }
    if let Some(key_len) = k.aes_key_len {
        if key_len != 16 && key_len != 24 && key_len != 32 {
            return fail(text::cat3(
                context,
                ": aes_key_len must be 16, 24, or 32, got ",
                text::dec_string(key_len as u64).as_str(),
            ));
        }
    }
    if let Some(cm) = k.crypto_mode {
        if !(text::str_eq(cm.as_str(), "aes-ctr") || text::str_eq(cm.as_str(), "aes-gcm")) {
            return fail(text::cat4(
                context,
                ": crypto_mode must be \"aes-ctr\" or \"aes-gcm\", got \"",
                cm.as_str(),
                "\"",
            ));
        }
        if text::str_eq(cm.as_str(), "aes-gcm") {
            if let Some(24) = k.aes_key_len {
                return fail(
                    text::cat2(
                        context,
                        ": AES-GCM does not support AES-192 (aes_key_len 24); use 16 or 32",
                    ),
                );
            }
        }
    }
    if let Some(bw) = k.max_rexmit_bw {
        if bw < -1 {
            return fail(text::cat3(
                context,
                ": max_rexmit_bw must be -1 (unlimited), 0 (disable), or > 0 (bytes/sec), got ",
                text::dec_int_string(bw as i64).as_str(),
            ));
        }
    }
    if let Some(sid) = k.stream_id {
        if text::byte_count(sid.as_str()) > 512 {
            return fail(text::cat3(
                context,
                ": stream_id must be at most 512 characters (per SRT spec), got ",
                text::dec_string(text::byte_count(sid.as_str()) as u64).as_str(),
            ));
        }
    }
    if let Some(pf) = k.packet_filter {
        validate_packet_filter(pf, context)?;
    }
    if let Some(bw) = k.max_bw {
        if bw < 0 {
            return fail(text::cat3(
                context,
                ": max_bw must be >= 0 (0 = unlimited), got ",
                text::dec_int_string(bw as i64).as_str(),
            ));
        }
    }
    if let Some(pct) = k.overhead_bw {
        if pct < 5 || pct > 100 {
            return fail(text::cat3(
                context,
                ": overhead_bw must be 5-100 (percentage), got ",
                text::dec_int_string(pct as i64).as_str(),
            ));
        }
    }
    if let Some(ffs) = k.flight_flag_size {
        if ffs < 32 {
            return fail(text::cat3(
                context,
                ": flight_flag_size must be >= 32 packets, got ",
                text::dec_string(ffs as u64).as_str(),
            ));
        }
    }
    if let Some(s) = k.send_buffer_size {
        if s < 32 {
            return fail(text::cat3(
                context,
                ": send_buffer_size must be >= 32 packets, got ",
                text::dec_string(s as u64).as_str(),
            ));
        }
    }
    if let Some(s) = k.recv_buffer_size {
        if s < 32 {
            return fail(text::cat3(
                context,
                ": recv_buffer_size must be >= 32 packets, got ",
                text::dec_string(s as u64).as_str(),
            ));
        }
    }
    if let Some(t) = k.ip_tos {
        if !(0 <= t && t <= 255) {
            return fail(text::cat3(
                context,
                ": ip_tos must be 0-255, got ",
                text::dec_int_string(t as i64).as_str(),
            ));
        }
    }
    if let Some(algo) = k.retransmit_algo {
        if !(text::str_eq(algo.as_str(), "default") || text::str_eq(algo.as_str(), "reduced")) {
            return fail(text::cat4(
                context,
                ": retransmit_algo must be \"default\" or \"reduced\", got \"",
                algo.as_str(),
                "\"",
            ));
        }
    }
    if let Some(d) = k.send_drop_delay {
        if d < -1 {
            return fail(text::cat3(
                context,
                ": send_drop_delay must be >= -1, got ",
                text::dec_int_string(d as i64).as_str(),
            ));
        }
    }
    if let Some(t) = k.loss_max_ttl {
        if t < 0 {
            return fail(text::cat3(
                context,
                ": loss_max_ttl must be >= 0, got ",
                text::dec_int_string(t as i64).as_str(),
            ));
        }
    }
    if let Some(rate) = k.km_refresh_rate {
        if rate == 0 {
            return fail(text::cat2(context, ": km_refresh_rate must be > 0"));
        }
    }
    if let Some(packets) = k.km_pre_announce {
        if packets == 0 {
            return fail(text::cat2(context, ": km_pre_announce must be > 0"));
        }
    }
    if let Some(s) = k.payload_size {
        if s < 188 || s > 1456 {
            return fail(text::cat3(
                context,
                ": payload_size must be 188-1456, got ",
                text::dec_string(s as u64).as_str(),
            ));
        }
    }
    if let Some(s) = k.mss {
        if s < 76 || s > 9000 {
            return fail(text::cat3(
                context,
                ": mss must be 76-9000, got ",
                text::dec_string(s as u64).as_str(),
            ));
        }
    }
    if let Some(t) = k.ip_ttl {
        if !(1 <= t && t <= 255) {
            return fail(text::cat3(
                context,
                ": ip_ttl must be 1-255, got ",
                text::dec_int_string(t as i64).as_str(),
            ));
        }
    }
    Ok(())
}

/// The second leg of an SRT input or output.
pub open spec fn srt_redundancy_fault(red: SrtRedundancyConfig, context: Seq<char>) -> Option<
    Seq<char>,
> {
    local_addr_fault(red.mode, red.local_addr, context + " redundancy"@).otherwise(
        srt_common_fault(spec_redundancy_knobs(&red), context + " redundancy"@),
    )
}

/// Checks the second leg of an SRT input or output.
pub fn validate_srt_redundancy(red: &SrtRedundancyConfig, context: &str) -> (r: Result<
    (),
    ConfigError,
>)
    ensures
        error::is_outcome(r, srt_redundancy_fault(*red, context@)),
{
    let leg = text::cat2(context, " redundancy");
    validate_srt_local_addr(red.mode, &red.local_addr, leg.as_str())?;
    validate_srt_common(&redundancy_knobs(red), leg.as_str())
}

} // verus!
