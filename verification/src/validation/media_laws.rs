//! Which streams, packet identifiers and bonds are accepted.

use std::collections::BTreeMap;

use vstd::prelude::*;

use super::{bonds, encode, media, tunnels};
use crate::binary;
use crate::error;
use crate::models::{
    AudioEncodeConfig, BondFecAlgorithm, BondFecConfig, BondPathConfig, BondPathTransportConfig,
    BondedInputConfig, BondedOutputConfig, EgressPacingMode, InputConfig, InterfaceBinding,
    OutputConfig, SrtBondingConfig, SrtRedundancyConfig, TsPidOverridesMap, VideoEncodeConfig,
};
use crate::text;

verus! {

/// The packet identifiers that may be assigned are 0x0010 to 0x1FFE.
pub proof fn lemma_assignable_pids(pid: u16)
    ensures
        media::is_assignable(pid) <==> 0x0010 <= pid <= 0x1FFE,
{
}

/// A map of packet identifiers is accepted exactly when all that it maps, from and to, may
/// be assigned.
pub proof fn lemma_pid_map_accepts(map: BTreeMap<u16, u16>, context: Seq<char>)
    ensures
        media::pid_map_fault(None, context) is None,
        media::pid_map_fault(Some(map), context) is None <==> forall|k: u16| #[trigger]
            map@.contains_key(k) ==> 0x0010 <= k <= 0x1FFE && 0x0010 <= map@[k] <= 0x1FFE,
{
}

/// Overrides are accepted exactly when each packet identifier that they set may be
/// assigned, a stream that is made here overrides program 1 and no other, and a stream that
/// is encoded anew overrides at most one program.
pub proof fn lemma_overrides_accepts(
    overrides: TsPidOverridesMap,
    synthetic: bool,
    single: bool,
    context: Seq<char>,
)
    ensures
        media::overrides_fault(None, synthetic, single, context) is None,
        media::overrides_fault(Some(overrides), synthetic, single, context) is None <==> {
            &&& forall|k: u16| #[trigger]
                overrides@.contains_key(k) ==> {
                    let e = overrides@[k];
                    &&& e.pmt_pid is Some ==> 0x0010 <= e.pmt_pid->0 <= 0x1FFE
                    &&& e.video_pid is Some ==> 0x0010 <= e.video_pid->0 <= 0x1FFE
                    &&& e.audio_pid is Some ==> 0x0010 <= e.audio_pid->0 <= 0x1FFE
                    &&& e.pcr_pid is Some ==> 0x0010 <= e.pcr_pid->0 <= 0x1FFE
                    &&& e.audio_pids is Some ==> forall|p: u16| #[trigger]
                        e.audio_pids->0@.contains_key(p) ==> 0x0010 <= p <= 0x1FFE && 0x0010
                            <= e.audio_pids->0@[p] <= 0x1FFE
                }
            &&& synthetic ==> forall|k: u16| #[trigger] overrides@.contains_key(k) <==> k == 1
            &&& single ==> overrides@.len() <= 1
        },
{
    assert forall|k: u16| #[trigger] overrides@.contains_key(k) implies (media::entry_assigns(
        overrides@[k],
    ) <==> {
        let e = overrides@[k];
        &&& e.pmt_pid is Some ==> 0x0010 <= e.pmt_pid->0 <= 0x1FFE
        &&& e.video_pid is Some ==> 0x0010 <= e.video_pid->0 <= 0x1FFE
        &&& e.audio_pid is Some ==> 0x0010 <= e.audio_pid->0 <= 0x1FFE
        &&& e.pcr_pid is Some ==> 0x0010 <= e.pcr_pid->0 <= 0x1FFE
        &&& e.audio_pids is Some ==> forall|p: u16| #[trigger]
            e.audio_pids->0@.contains_key(p) ==> 0x0010 <= p <= 0x1FFE && 0x0010
                <= e.audio_pids->0@[p] <= 0x1FFE
    }) by {}
    if forall|k: u16| #[trigger] overrides@.contains_key(k) <==> k == 1 {
        assert(overrides@.dom() =~= set![1u16]);
    }
    if overrides@.dom() == set![1u16] {
        assert forall|k: u16| #[trigger] overrides@.contains_key(k) <==> k == 1 by {
            assert(overrides@.dom().contains(k) <==> set![1u16].contains(k));
        }
    }
}

/// The declared bitrate is that of the audio and that of the video together.
pub proof fn lemma_declared_bitrate(audio: AudioEncodeConfig, video: VideoEncodeConfig)
    ensures
        media::declared_kbps(None, None) == 0,
        audio.bitrate_kbps is Some ==> media::declared_kbps(Some(audio), None)
            == audio.bitrate_kbps->0,
        audio.bitrate_kbps is None ==> media::declared_kbps(Some(audio), None) == 0,
        video.bitrate_kbps is Some ==> media::declared_kbps(None, Some(video))
            == video.bitrate_kbps->0,
        video.bitrate_kbps is None ==> media::declared_kbps(None, Some(video)) == 0,
        media::declared_kbps(Some(audio), Some(video)) == media::declared_kbps(Some(audio), None)
            + media::declared_kbps(None, Some(video)),
{
}

/// A connector name has 1 to 64 characters, capital letters, digits and hyphens, and
/// starts with a letter.
pub proof fn lemma_connector_names(s: Seq<char>)
    ensures
        media::is_connector(s) <==> {
            &&& 1 <= s.len() <= 64
            &&& 'A' <= s[0] <= 'Z'
            &&& forall|i: int|
                0 <= i < s.len() ==> {
                    let c = #[trigger] s[i];
                    'A' <= c <= 'Z' || '0' <= c <= '9' || c == '-'
                }
        },
{
}

/// A pin is strict where it says so, on the input or output itself, on its second leg, or
/// on a member of its bonding group.
pub proof fn lemma_strict_pins(
    pin: InterfaceBinding,
    red: SrtRedundancyConfig,
    group: SrtBondingConfig,
    i: int,
)
    ensures
        !media::is_strict(None),
        media::is_strict(Some(pin)) <==> pin.strict,
        !media::has_strict_leg(None),
        media::has_strict_leg(Some(red)) <==> red.interface_binding is Some
            && red.interface_binding->0.strict,
        !media::has_strict_member(None),
        0 <= i < group.endpoints@.len() && group.endpoints@[i].interface_binding is Some
            && group.endpoints@[i].interface_binding->0.strict ==> media::has_strict_member(
            Some(group),
        ),
        (forall|k: int|
            0 <= k < group.endpoints@.len() ==> ((
            #[trigger] group.endpoints@[k]).interface_binding is Some
                ==> !group.endpoints@[k].interface_binding->0.strict))
            ==> !media::has_strict_member(Some(group)),
{
    if 0 <= i < group.endpoints@.len() {
        let e = group.endpoints@[i];
        assert(media::is_strict(e.interface_binding) <==> e.interface_binding is Some
            && e.interface_binding->0.strict);
    }
}

/// What an output carries is accepted exactly when its program, its maps and its encoder
/// are, a buffer is asked for only of a paced output, padding leaves room above what is
/// encoded, an SRT caller does not call itself and is not pinned strictly, a bond is
/// accepted, and a display or SDI output names its connector and a small offset.
pub proof fn lemma_output_media_accepts(output: OutputConfig)
    ensures
        media::output_media_fault(output) is None <==> {
            let context = "Output '"@ + output.spec_id() + "'"@;
            &&& media::output_stream_fault(output, context) is None
            &&& match output {
                OutputConfig::Rtp(c) => {
                    &&& c.egress_buffer_ms is Some
                        ==> c.egress_pacing == Some(EgressPacingMode::Servo)
                    &&& c.egress_buffer_ms is Some ==> 20 <= c.egress_buffer_ms->0 <= 2000
                    &&& c.cbr_pad_to_kbps is Some ==> 1000 <= c.cbr_pad_to_kbps->0 <= 1_000_000
                    &&& c.cbr_pad_to_kbps is Some
                        ==> 100 * c.cbr_pad_to_kbps->0 >= 105 * media::declared_kbps(
                            c.audio_encode,
                            c.video_encode,
                        )
                },
                OutputConfig::Udp(c) => {
                    &&& c.egress_buffer_ms is Some
                        ==> c.egress_pacing == Some(EgressPacingMode::Servo)
                    &&& c.egress_buffer_ms is Some ==> 20 <= c.egress_buffer_ms->0 <= 2000
                    &&& c.cbr_pad_to_kbps is Some ==> 1000 <= c.cbr_pad_to_kbps->0 <= 1_000_000
                    &&& c.cbr_pad_to_kbps is Some
                        ==> 100 * c.cbr_pad_to_kbps->0 >= 105 * media::declared_kbps(
                            c.audio_encode,
                            c.video_encode,
                        )
                },
                OutputConfig::Srt(c) => {
                    &&& c.mode is Caller && c.local_addr is Some && c.remote_addr is Some
                        ==> c.local_addr->0@ != c.remote_addr->0@
                    &&& !(media::is_strict(c.interface_binding) || media::has_strict_leg(c.redundancy)
                        || media::has_strict_member(c.bonding))
                    &&& c.cbr_pad_to_kbps is Some ==> 1000 <= c.cbr_pad_to_kbps->0 <= 1_000_000
                    &&& c.cbr_pad_to_kbps is Some
                        ==> 100 * c.cbr_pad_to_kbps->0 >= 105 * media::declared_kbps(
                            c.audio_encode,
                            c.video_encode,
                        )
                },
                OutputConfig::Bonded(c) => bonds::bonded_output_fault(c, context) is None,
                OutputConfig::Display(c) => media::is_connector(c.device@),
                OutputConfig::Sdi(c) => -1000 <= c.audio_offset_ms <= 1000,
                _ => true,
            }
        },
{
}

/// The stream of an output is accepted exactly when its program, its maps and the encoder
/// that is not checked with its protocol are.
pub proof fn lemma_output_stream_accepts(output: OutputConfig, context: Seq<char>)
    ensures
        media::output_stream_fault(output, context) is None <==> {
            &&& media::output_program(output) != Some(0u16)
            &&& media::output_pid_map(output) is Some
                ==> media::maps_assignable(media::output_pid_map(output)->0@)
            &&& media::overrides_fault(
                media::output_overrides(output),
                media::wraps_302m(output),
                media::re_encodes(output),
                context,
            ) is None
            &&& media::output_video(output) is Some
                ==> encode::video_encode_fault(media::output_video(output)->0, context) is None
        },
{
}

/// What an input carries is accepted exactly when its program, its maps and its encoders
/// are, an SRT caller does not call itself and is not pinned strictly, AES3 audio is neither
/// transcoded nor encoded but as SMPTE 302M, a bond is accepted, and SDI is not v210.
pub proof fn lemma_input_media_accepts(input: InputConfig)
    ensures
        media::input_media_fault(input) is None <==> {
            &&& media::input_stream_fault(
                input,
                "Input of type '"@ + input.spec_type_tag() + "'"@,
            ) is None
            &&& match input {
                InputConfig::Srt(c) => {
                    &&& c.mode is Caller && c.local_addr is Some && c.remote_addr is Some
                        ==> c.local_addr->0@ != c.remote_addr->0@
                    &&& !(media::is_strict(c.interface_binding) || media::has_strict_leg(c.redundancy)
                        || media::has_strict_member(c.bonding))
                },
                InputConfig::St2110_31(c) => {
                    &&& c.transcode is None
                    &&& c.audio_encode is Some ==> c.audio_encode->0.codec@ == "s302m"@
                },
                InputConfig::Bonded(c) => bonds::bonded_input_fault(c) is None,
                InputConfig::Sdi(c) => c.pixel_format@ != "v210"@,
                _ => true,
            }
        },
{
}

/// The stream of an input is accepted exactly when its program, its maps and its encoders
/// are.
pub proof fn lemma_input_stream_accepts(input: InputConfig, context: Seq<char>)
    ensures
        media::input_stream_fault(input, context) is None <==> {
            &&& media::input_program(input) != Some(0u16)
            &&& media::input_pid_map(input) is Some
                ==> media::maps_assignable(media::input_pid_map(input)->0@)
            &&& media::overrides_fault(
                media::input_overrides(input),
                media::is_synthetic(input),
                false,
                context,
            ) is None
            &&& media::input_audio(input) is Some
                ==> encode::audio_encode_fault(
                    media::input_audio(input)->0,
                    seq!["aac_lc", "he_aac_v1", "he_aac_v2", "mp2", "ac3"],
                    context,
                ) is None
            &&& media::input_video(input) is Some
                ==> encode::video_encode_fault(media::input_video(input)->0, context) is None
        },
{
}

/// Every input that has them contributes its own overrides, program, map and encoders.
pub proof fn lemma_input_parts(input: InputConfig)
    ensures
        match input {
            InputConfig::Rtp(c) => media::input_overrides(input) == c.pid_overrides,
            InputConfig::Udp(c) => media::input_overrides(input) == c.pid_overrides,
            InputConfig::Srt(c) => media::input_overrides(input) == c.pid_overrides,
            InputConfig::Rist(c) => media::input_overrides(input) == c.pid_overrides,
            InputConfig::Rtmp(c) => media::input_overrides(input) == c.pid_overrides,
            InputConfig::Rtsp(c) => media::input_overrides(input) == c.pid_overrides,
            InputConfig::Webrtc(c) => media::input_overrides(input) == c.pid_overrides,
            InputConfig::Whep(c) => media::input_overrides(input) == c.pid_overrides,
            InputConfig::St2110_30(c) => media::input_overrides(input) == c.pid_overrides,
            InputConfig::St2110_31(c) => media::input_overrides(input) == c.pid_overrides,
            InputConfig::St2110_20(c) => media::input_overrides(input) == c.pid_overrides,
            InputConfig::St2110_23(c) => media::input_overrides(input) == c.pid_overrides,
            InputConfig::RtpAudio(c) => media::input_overrides(input) == c.pid_overrides,
            InputConfig::TestPattern(c) => media::input_overrides(input) == c.pid_overrides,
            InputConfig::MediaPlayer(c) => media::input_overrides(input) == c.pid_overrides,
            InputConfig::Replay(c) => media::input_overrides(input) == c.pid_overrides,
            InputConfig::MxlVideo(c) => media::input_overrides(input) == c.pid_overrides,
            InputConfig::MxlAudio(c) => media::input_overrides(input) == c.pid_overrides,
            InputConfig::Sdi(c) => media::input_overrides(input) == c.pid_overrides,
            InputConfig::St2110_40(_)
            | InputConfig::Bonded(_)
            | InputConfig::MxlAnc(_) => media::input_overrides(input) is None,
        },
        match input {
            InputConfig::Rtp(c) => media::input_program(input) == c.program_number,
            InputConfig::Udp(c) => media::input_program(input) == c.program_number,
            InputConfig::Srt(c) => media::input_program(input) == c.program_number,
            InputConfig::Rist(c) => media::input_program(input) == c.program_number,
            InputConfig::Rtmp(c) => media::input_program(input) == c.program_number,
            InputConfig::Rtsp(c) => media::input_program(input) == c.program_number,
            InputConfig::Webrtc(c) => media::input_program(input) == c.program_number,
            InputConfig::Whep(c) => media::input_program(input) == c.program_number,
            InputConfig::TestPattern(c) => media::input_program(input) == c.program_number,
            InputConfig::MediaPlayer(c) => media::input_program(input) == c.program_number,
            InputConfig::Replay(c) => media::input_program(input) == c.program_number,
            _ => media::input_program(input) is None,
        },
        match input {
            InputConfig::Rtp(c) => media::input_pid_map(input) == c.pid_map,
            InputConfig::Udp(c) => media::input_pid_map(input) == c.pid_map,
            InputConfig::Srt(c) => media::input_pid_map(input) == c.pid_map,
            InputConfig::Rist(c) => media::input_pid_map(input) == c.pid_map,
            InputConfig::Rtmp(c) => media::input_pid_map(input) == c.pid_map,
            InputConfig::Rtsp(c) => media::input_pid_map(input) == c.pid_map,
            InputConfig::Webrtc(c) => media::input_pid_map(input) == c.pid_map,
            InputConfig::Whep(c) => media::input_pid_map(input) == c.pid_map,
            InputConfig::TestPattern(c) => media::input_pid_map(input) == c.pid_map,
            InputConfig::MediaPlayer(c) => media::input_pid_map(input) == c.pid_map,
            InputConfig::Replay(c) => media::input_pid_map(input) == c.pid_map,
            _ => media::input_pid_map(input) is None,
        },
        match input {
            InputConfig::Rtp(c) => media::input_video(input) == c.video_encode,
            InputConfig::Udp(c) => media::input_video(input) == c.video_encode,
            InputConfig::Srt(c) => media::input_video(input) == c.video_encode,
            InputConfig::Rist(c) => media::input_video(input) == c.video_encode,
            InputConfig::Rtmp(c) => media::input_video(input) == c.video_encode,
            InputConfig::Rtsp(c) => media::input_video(input) == c.video_encode,
            InputConfig::Webrtc(c) => media::input_video(input) == c.video_encode,
            InputConfig::Whep(c) => media::input_video(input) == c.video_encode,
            InputConfig::TestPattern(c) => media::input_video(input) == c.video_encode,
            InputConfig::MediaPlayer(c) => media::input_video(input) == c.video_encode,
            InputConfig::Replay(c) => media::input_video(input) == c.video_encode,
            InputConfig::MxlVideo(c) => media::input_video(input) == Some(c.video_encode),
            InputConfig::Sdi(c) => media::input_video(input) == Some(c.video_encode),
            _ => media::input_video(input) is None,
        },
        match input {
            InputConfig::Rtp(c) => media::input_audio(input) == c.audio_encode,
            InputConfig::Udp(c) => media::input_audio(input) == c.audio_encode,
            InputConfig::Srt(c) => media::input_audio(input) == c.audio_encode,
            InputConfig::Rist(c) => media::input_audio(input) == c.audio_encode,
            InputConfig::Rtmp(c) => media::input_audio(input) == c.audio_encode,
            InputConfig::Rtsp(c) => media::input_audio(input) == c.audio_encode,
            InputConfig::Webrtc(c) => media::input_audio(input) == c.audio_encode,
            InputConfig::Whep(c) => media::input_audio(input) == c.audio_encode,
            InputConfig::TestPattern(c) => media::input_audio(input) == c.audio_encode,
            InputConfig::MediaPlayer(c) => media::input_audio(input) == c.audio_encode,
            InputConfig::Replay(c) => media::input_audio(input) == c.audio_encode,
            InputConfig::St2110_30(c) => media::input_audio(input) == c.audio_encode,
            InputConfig::RtpAudio(c) => media::input_audio(input) == c.audio_encode,
            InputConfig::MxlAudio(c) => media::input_audio(input) == c.audio_encode,
            InputConfig::Sdi(c) => media::input_audio(input) == c.audio_encode,
            _ => media::input_audio(input) is None,
        },
{
}

/// Which inputs make their transport stream here, and which encode audio.
pub proof fn lemma_made_streams(input: InputConfig)
    ensures
        match input {
            InputConfig::Rtmp(_)
            | InputConfig::Rtsp(_)
            | InputConfig::Webrtc(_)
            | InputConfig::Whep(_)
            | InputConfig::St2110_20(_)
            | InputConfig::St2110_23(_)
            | InputConfig::TestPattern(_)
            | InputConfig::MediaPlayer(_)
            | InputConfig::Replay(_)
            | InputConfig::MxlVideo(_)
            | InputConfig::Sdi(_) => media::is_synthetic(input),
            InputConfig::St2110_30(c) | InputConfig::St2110_31(c) => media::is_synthetic(input)
                <==> c.audio_encode is Some,
            InputConfig::RtpAudio(c) => media::is_synthetic(input) <==> (c.audio_encode is Some),
            InputConfig::MxlAudio(c) => media::is_synthetic(input) <==> (c.audio_encode is Some),
            _ => !media::is_synthetic(input),
        },
        match input {
            InputConfig::St2110_30(c) | InputConfig::St2110_31(c) => media::is_encoded_audio(input)
                <==> c.audio_encode is Some,
            InputConfig::RtpAudio(c) => media::is_encoded_audio(input)
                <==> c.audio_encode is Some,
            InputConfig::MxlAudio(c) => media::is_encoded_audio(input)
                <==> c.audio_encode is Some,
            _ => !media::is_encoded_audio(input),
        },
{
}

/// Every output that has them contributes its own overrides, program, map and encoder.
pub proof fn lemma_output_parts(output: OutputConfig)
    ensures
        match output {
            OutputConfig::Rtp(c) => media::output_overrides(output) == c.pid_overrides,
            OutputConfig::Udp(c) => media::output_overrides(output) == c.pid_overrides,
            OutputConfig::Srt(c) => media::output_overrides(output) == c.pid_overrides,
            OutputConfig::Rist(c) => media::output_overrides(output) == c.pid_overrides,
            OutputConfig::Rtmp(c) => media::output_overrides(output) == c.pid_overrides,
            OutputConfig::Cmaf(c) => media::output_overrides(output) == c.pid_overrides,
            OutputConfig::Webrtc(c) => media::output_overrides(output) == c.pid_overrides,
            OutputConfig::RtpAudio(c) => media::output_overrides(output) == c.pid_overrides,
            _ => media::output_overrides(output) is None,
        },
        match output {
            OutputConfig::Rtp(c) => media::output_pid_map(output) == c.pid_map,
            OutputConfig::Udp(c) => media::output_pid_map(output) == c.pid_map,
            OutputConfig::Srt(c) => media::output_pid_map(output) == c.pid_map,
            OutputConfig::Rist(c) => media::output_pid_map(output) == c.pid_map,
            OutputConfig::Hls(c) => media::output_pid_map(output) == c.pid_map,
            OutputConfig::Bonded(c) => media::output_pid_map(output) == c.pid_map,
            _ => media::output_pid_map(output) is None,
        },
        match output {
            OutputConfig::Bonded(c) => media::output_program(output) == c.program_number,
            OutputConfig::Display(c) => media::output_program(output) == c.program_number,
            OutputConfig::Sdi(c) => media::output_program(output) == c.program_number,
            _ => media::output_program(output) is None,
        },
        match output {
            OutputConfig::Rtmp(c) => media::output_video(output) == c.video_encode,
            OutputConfig::Webrtc(c) => media::output_video(output) == c.video_encode,
            _ => media::output_video(output) is None,
        },
        match output {
            OutputConfig::Rtp(c) => media::re_encodes(output) <==> (c.audio_encode is Some
    || c.video_encode is Some),
            OutputConfig::Udp(c) => media::re_encodes(output) <==> (c.audio_encode is Some
    || c.video_encode is Some),
            OutputConfig::Srt(c) => media::re_encodes(output) <==> (c.audio_encode is Some
    || c.video_encode is Some),
            OutputConfig::Rist(c) => media::re_encodes(output) <==> (c.audio_encode is Some
    || c.video_encode is Some),
            OutputConfig::Rtmp(c) => media::re_encodes(output) <==> (c.audio_encode is Some
    || c.video_encode is Some),
            OutputConfig::Cmaf(c) => media::re_encodes(output) <==> (c.audio_encode is Some
    || c.video_encode is Some),
            OutputConfig::Webrtc(c) => media::re_encodes(output) <==> (c.audio_encode is Some
    || c.video_encode is Some),
            _ => !media::re_encodes(output),
        },
{
}

/// An output wraps audio in SMPTE 302M exactly when it is UDP, SRT or RTP audio and its
/// transport mode says so; these and ST 2110 audio need uncompressed audio.
pub proof fn lemma_302m_outputs(output: OutputConfig)
    ensures
        match output {
            OutputConfig::Udp(c) => media::wraps_302m(output) <==> (c.transport_mode is Some
                && c.transport_mode->0@ == "audio_302m"@),
            OutputConfig::Srt(c) => media::wraps_302m(output) <==> (c.transport_mode is Some
                && c.transport_mode->0@ == "audio_302m"@),
            OutputConfig::RtpAudio(c) => media::wraps_302m(output) <==> (c.transport_mode is Some
                && c.transport_mode->0@ == "audio_302m"@),
            _ => !media::wraps_302m(output),
        },
        media::needs_pcm(output) <==> (output is St2110_30 || output is St2110_31
            || media::wraps_302m(output)),
{
}

/// A leg of a bond is accepted exactly when it can carry what it should: a UDP leg has a
/// remote address where it sends and a local one where it receives, a relayed leg has a
/// relay and whole keys, a RIST receiver has a local address, and a gateway comes with the
/// source that it needs.
pub proof fn lemma_carrier_accepts(
    transport: BondPathTransportConfig,
    sends: bool,
    context: Seq<char>,
)
    ensures
        bonds::carrier_fault(transport, sends, context) is None <==> {
            &&& match transport {
                BondPathTransportConfig::Udp { bind, remote, interface, gateway, source } => {
                    &&& sends ==> remote is Some
                    &&& !sends ==> bind is Some
                    &&& gateway is Some ==> source is Some
                    &&& gateway is Some ==> interface is None
                },
                BondPathTransportConfig::Relay { relay_addrs, tunnel_bind_secret, tunnel_encryption_key, interface, source, gateway, .. } => {
                    &&& relay_addrs@.len() > 0
                    &&& tunnel_bind_secret is Some
                        ==> text::byte_len(tunnel_bind_secret->0@) == 64
                        && tunnels::all_hex(tunnel_bind_secret->0@)
                    &&& tunnel_encryption_key is Some
                        ==> text::byte_len(tunnel_encryption_key->0@) == 64
                        && tunnels::all_hex(tunnel_encryption_key->0@)
                    &&& gateway is Some ==> (source is Some && interface is Some)
                },
                BondPathTransportConfig::Rist { role, local_bind, .. } => role is Receiver
                    ==> local_bind is Some,
                BondPathTransportConfig::Quic { .. } => true,
            }
        },
{
}

/// A bond is accepted exactly when each relayed leg is encrypted by the bond or by itself
/// and not by both, its key is whole, Reed-Solomon correction is left to the legs, no two
/// legs share an identifier, correction is configured for the bond or for a leg and not
/// for both, and each leg can carry what it should.
pub proof fn lemma_bond_accepts(
    key: Option<String>,
    fec: Option<BondFecConfig>,
    paths: Seq<BondPathConfig>,
    sends: bool,
    context: Seq<char>,
)
    ensures
        bonds::bond_fault(key, fec, paths, sends, context) is None <==> {
            &&& forall|i: int|
                #![trigger paths[i]]
                0 <= i < paths.len() ==> (paths[i].transport matches BondPathTransportConfig::Relay {
                    tunnel_encryption_key,
                    ..
                } ==> (tunnel_encryption_key is Some <==> key is None))
            &&& key is Some ==> text::byte_len(key->0@) == 64 && tunnels::all_hex(key->0@)
            &&& fec is Some ==> fec->0.algorithm != Some(BondFecAlgorithm::ReedSolomon)
            &&& forall|i: int, j: int|
                #![trigger paths[i], paths[j]]
                0 <= i < j < paths.len() ==> paths[i].id != paths[j].id
            &&& forall|i: int|
                #![trigger paths[i]]
                0 <= i < paths.len() ==> {
                    &&& !(paths[i].fec is Some && fec is Some)
                    &&& bonds::carrier_fault(
                        paths[i].transport,
                        sends,
                        context + " leg '"@ + paths[i].name@ + "'"@,
                    ) is None
                }
        },
{
    let relay = bonds::relay_check(key is Some, context);
    error::lemma_first_fault_none(paths, relay, 0);
    assert forall|i: int|
        #![trigger paths[i]]
        0 <= i < paths.len() implies (relay(i, paths[i]) is None <==> (
    paths[i].transport matches BondPathTransportConfig::Relay { tunnel_encryption_key, .. } ==> (
    tunnel_encryption_key is Some <==> key is None))) by {}
    let leg = bonds::leg_check(paths, fec, sends, context);
    error::lemma_first_fault_none(paths, leg, 0);
    assert forall|j: int|
        #![trigger paths[j]]
        0 <= j < paths.len() implies (leg(j, paths[j]) is None <==> {
        &&& forall|i: int| 0 <= i < j ==> (#[trigger] paths[i]).id != paths[j].id
        &&& !(paths[j].fec is Some && fec is Some)
        &&& bonds::carrier_fault(
            paths[j].transport,
            sends,
            context + " leg '"@ + paths[j].name@ + "'"@,
        ) is None
    }) by {}
    if bonds::bond_fault(key, fec, paths, sends, context) is None {
        assert forall|i: int, j: int|
            #![trigger paths[i], paths[j]]
            0 <= i < j < paths.len() implies paths[i].id != paths[j].id by {
            assert(leg(j, paths[j]) is None);
        }
    }
}

/// A bonded output is accepted exactly when its bond is, and its congestion control, its
/// replicas and its packet size are within their limits.
pub proof fn lemma_bonded_output_accepts(c: BondedOutputConfig, context: Seq<char>)
    ensures
        bonds::bonded_output_fault(c, context) is None <==> {
            &&& bonds::bond_fault(c.encryption_key, c.fec, c.paths@, true, context) is None
            &&& c.congestion is Some && c.congestion->0.probe_cap_mult is Some
                ==> (binary::le(binary::ELEVEN_TENTHS, c.congestion->0.probe_cap_mult->0.bits)
                && binary::le(c.congestion->0.probe_cap_mult->0.bits, binary::TEN))
            &&& c.congestion is Some && c.congestion->0.rtt_min_window_ms is Some
                ==> 1000 <= c.congestion->0.rtt_min_window_ms->0 <= 120_000
            &&& c.congestion is Some && c.congestion->0.jitter_demote_ms is Some
                ==> 0 <= c.congestion->0.jitter_demote_ms->0 <= 5000
            &&& c.redundancy is Some && c.redundancy->0.replicas is Some
                ==> 2 <= c.redundancy->0.replicas->0 <= 8
            &&& c.path_mtu is Some ==> 576 <= c.path_mtu->0 <= 9000
        },
{
}

/// A bonded input is accepted exactly when its bond is, as the receiving side.
pub proof fn lemma_bonded_input_accepts(c: BondedInputConfig)
    ensures
        bonds::bonded_input_fault(c) is None <==> bonds::bond_fault(
            c.encryption_key,
            c.fec,
            c.paths@,
            false,
            "Bonded input"@,
        ) is None,
{
}

} // verus!
