//! Which encoding and transcoding blocks are accepted.

use vstd::prelude::*;

use super::encode;
use crate::audio_transcode;
use crate::audio_transcode::{BitDepth, InputFormat, TranscodeJson, TranscodeResolution};
use crate::models::{AudioEncodeConfig, VideoEncodeConfig};
use crate::text;

verus! {

proof fn lemma_video_codecs_listed(s: Seq<char>)
    ensures
        text::is_one_of(s, encode::video_codecs()) <==> (s == "x264"@ || s == "x265"@
            || s == "h264_nvenc"@ || s == "hevc_nvenc"@ || s == "h264_qsv"@ || s == "hevc_qsv"@
            || s == "h264_vaapi"@ || s == "hevc_vaapi"@ || s == "h264_rkmpp"@
            || s == "hevc_rkmpp"@ || s == "h264_auto"@ || s == "hevc_auto"@),
{
    assert(encode::video_codecs()[0]@ == "x264"@);
    assert(encode::video_codecs()[1]@ == "x265"@);
    assert(encode::video_codecs()[2]@ == "h264_nvenc"@);
    assert(encode::video_codecs()[3]@ == "hevc_nvenc"@);
    assert(encode::video_codecs()[4]@ == "h264_qsv"@);
    assert(encode::video_codecs()[5]@ == "hevc_qsv"@);
    assert(encode::video_codecs()[6]@ == "h264_vaapi"@);
    assert(encode::video_codecs()[7]@ == "hevc_vaapi"@);
    assert(encode::video_codecs()[8]@ == "h264_rkmpp"@);
    assert(encode::video_codecs()[9]@ == "hevc_rkmpp"@);
    assert(encode::video_codecs()[10]@ == "h264_auto"@);
    assert(encode::video_codecs()[11]@ == "hevc_auto"@);
}

proof fn lemma_profiles_listed(s: Seq<char>)
    ensures
        text::is_one_of(s, encode::profiles()) <==> (s == "baseline"@ || s == "main"@
            || s == "high"@ || s == "high10"@ || s == "high422"@ || s == "high444"@
            || s == "main10"@),
{
    assert(encode::profiles()[0]@ == "baseline"@);
    assert(encode::profiles()[1]@ == "main"@);
    assert(encode::profiles()[2]@ == "high"@);
    assert(encode::profiles()[3]@ == "high10"@);
    assert(encode::profiles()[4]@ == "high422"@);
    assert(encode::profiles()[5]@ == "high444"@);
    assert(encode::profiles()[6]@ == "main10"@);
}

proof fn lemma_chromas_listed(s: Seq<char>)
    ensures
        text::is_one_of(s, encode::chromas()) <==> (s == "yuv420p"@ || s == "yuv422p"@
            || s == "yuv444p"@),
{
    assert(encode::chromas()[0]@ == "yuv420p"@);
    assert(encode::chromas()[1]@ == "yuv422p"@);
    assert(encode::chromas()[2]@ == "yuv444p"@);
}

proof fn lemma_rate_controls_listed(s: Seq<char>)
    ensures
        text::is_one_of(s, encode::rate_controls()) <==> (s == "vbr"@ || s == "cbr"@
            || s == "crf"@ || s == "abr"@),
{
    assert(encode::rate_controls()[0]@ == "vbr"@);
    assert(encode::rate_controls()[1]@ == "cbr"@);
    assert(encode::rate_controls()[2]@ == "crf"@);
    assert(encode::rate_controls()[3]@ == "abr"@);
}

proof fn lemma_tunes_listed(s: Seq<char>)
    ensures
        text::is_one_of(s, encode::tunes()) <==> (s == "zerolatency"@ || s == "film"@
            || s == "animation"@ || s == "grain"@ || s == "stillimage"@ || s == "fastdecode"@
            || s == "psnr"@ || s == "ssim"@ || s == ""@),
{
    assert(encode::tunes()[0]@ == "zerolatency"@);
    assert(encode::tunes()[1]@ == "film"@);
    assert(encode::tunes()[2]@ == "animation"@);
    assert(encode::tunes()[3]@ == "grain"@);
    assert(encode::tunes()[4]@ == "stillimage"@);
    assert(encode::tunes()[5]@ == "fastdecode"@);
    assert(encode::tunes()[6]@ == "psnr"@);
    assert(encode::tunes()[7]@ == "ssim"@);
    assert(encode::tunes()[8]@ == ""@);
}

proof fn lemma_primaries_listed(s: Seq<char>)
    ensures
        text::is_one_of(s, encode::primaries()) <==> (s == "bt709"@ || s == "bt2020"@
            || s == "smpte170m"@ || s == "smpte240m"@ || s == "bt470m"@ || s == "bt470bg"@),
{
    assert(encode::primaries()[0]@ == "bt709"@);
    assert(encode::primaries()[1]@ == "bt2020"@);
    assert(encode::primaries()[2]@ == "smpte170m"@);
    assert(encode::primaries()[3]@ == "smpte240m"@);
    assert(encode::primaries()[4]@ == "bt470m"@);
    assert(encode::primaries()[5]@ == "bt470bg"@);
}

proof fn lemma_transfers_listed(s: Seq<char>)
    ensures
        text::is_one_of(s, encode::transfers()) <==> (s == "bt709"@ || s == "smpte170m"@
            || s == "smpte2084"@ || s == "arib-std-b67"@ || s == "bt2020-10"@ || s == "bt2020-12"@),
{
    assert(encode::transfers()[0]@ == "bt709"@);
    assert(encode::transfers()[1]@ == "smpte170m"@);
    assert(encode::transfers()[2]@ == "smpte2084"@);
    assert(encode::transfers()[3]@ == "arib-std-b67"@);
    assert(encode::transfers()[4]@ == "bt2020-10"@);
    assert(encode::transfers()[5]@ == "bt2020-12"@);
}

proof fn lemma_matrices_listed(s: Seq<char>)
    ensures
        text::is_one_of(s, encode::matrices()) <==> (s == "bt709"@ || s == "bt2020nc"@
            || s == "bt2020c"@ || s == "smpte170m"@ || s == "smpte240m"@),
{
    assert(encode::matrices()[0]@ == "bt709"@);
    assert(encode::matrices()[1]@ == "bt2020nc"@);
    assert(encode::matrices()[2]@ == "bt2020c"@);
    assert(encode::matrices()[3]@ == "smpte170m"@);
    assert(encode::matrices()[4]@ == "smpte240m"@);
}

proof fn lemma_color_ranges_listed(s: Seq<char>)
    ensures
        text::is_one_of(s, encode::color_ranges()) <==> (s == "tv"@ || s == "pc"@),
{
    assert(encode::color_ranges()[0]@ == "tv"@);
    assert(encode::color_ranges()[1]@ == "pc"@);
}

/// A video encoding block is accepted exactly when its codec, preset, profile, chroma,
/// rate control, tune and colour tags are known names, its numbers are within their
/// limits, its frame rate is whole and between 0.5 and 240, and the profile, the chroma
/// and the encoder fit together.
pub proof fn lemma_video_encode_accepts(enc: VideoEncodeConfig, context: Seq<char>)
    ensures
        encode::video_encode_fault(enc, context) is None <==> {
            &&& enc.codec@ == "x264"@ || enc.codec@ == "x265"@ || enc.codec@ == "h264_nvenc"@
                || enc.codec@ == "hevc_nvenc"@ || enc.codec@ == "h264_qsv"@
                || enc.codec@ == "hevc_qsv"@ || enc.codec@ == "h264_vaapi"@
                || enc.codec@ == "hevc_vaapi"@ || enc.codec@ == "h264_rkmpp"@
                || enc.codec@ == "hevc_rkmpp"@ || enc.codec@ == "h264_auto"@
                || enc.codec@ == "hevc_auto"@
            &&& enc.width is Some ==> 64 <= enc.width->0 <= 7680
            &&& enc.height is Some ==> 64 <= enc.height->0 <= 4320
            &&& (enc.fps_num is Some <==> enc.fps_den is Some)
            &&& enc.fps_num is Some ==> enc.fps_num->0 != 0
            &&& enc.fps_num is Some ==> enc.fps_den->0 != 0
            &&& enc.fps_num is Some ==> enc.fps_den->0 <= 2 * enc.fps_num->0
            &&& enc.fps_num is Some ==> enc.fps_num->0 <= 240 * enc.fps_den->0
            &&& enc.bitrate_kbps is Some ==> 100 <= enc.bitrate_kbps->0 <= 100_000
            &&& enc.gop_size is Some ==> 1 <= enc.gop_size->0 <= 600
            &&& enc.preset is Some ==> (enc.preset->0@ == "ultrafast"@
                || enc.preset->0@ == "superfast"@ || enc.preset->0@ == "veryfast"@
                || enc.preset->0@ == "faster"@ || enc.preset->0@ == "fast"@
                || enc.preset->0@ == "medium"@ || enc.preset->0@ == "slow"@
                || enc.preset->0@ == "slower"@ || enc.preset->0@ == "veryslow"@)
            &&& enc.profile is Some ==> (enc.profile->0@ == "baseline"@
                || enc.profile->0@ == "main"@ || enc.profile->0@ == "high"@
                || enc.profile->0@ == "high10"@ || enc.profile->0@ == "high422"@
                || enc.profile->0@ == "high444"@ || enc.profile->0@ == "main10"@)
            &&& enc.chroma is Some ==> (enc.chroma->0@ == "yuv420p"@
                || enc.chroma->0@ == "yuv422p"@ || enc.chroma->0@ == "yuv444p"@)
            &&& enc.bit_depth is Some ==> (enc.bit_depth->0 == 8 || enc.bit_depth->0 == 10)
            &&& text::opt_view(enc.profile) == Some("high10"@) ==> enc.bit_depth == Some(10u8)
            &&& text::opt_view(enc.profile) == Some("main10"@) ==> enc.bit_depth == Some(10u8)
            &&& text::opt_view(enc.profile) == Some("high422"@)
                ==> text::opt_view(enc.chroma) == Some("yuv422p"@)
            &&& text::opt_view(enc.profile) == Some("high444"@)
                ==> text::opt_view(enc.chroma) == Some("yuv444p"@)
            &&& text::opt_view(enc.chroma) == Some("yuv444p"@) ==> (enc.codec@ != "h264_nvenc"@
                && enc.codec@ != "hevc_nvenc"@)
            &&& enc.bit_depth == Some(10u8) ==> enc.codec@ != "h264_nvenc"@
            &&& enc.rate_control is Some ==> (enc.rate_control->0@ == "vbr"@
                || enc.rate_control->0@ == "cbr"@ || enc.rate_control->0@ == "crf"@
                || enc.rate_control->0@ == "abr"@)
            &&& enc.crf is Some ==> 0 <= enc.crf->0 <= 51
            &&& enc.max_bitrate_kbps is Some ==> 100 <= enc.max_bitrate_kbps->0 <= 100_000
            &&& enc.bframes is Some ==> 0 <= enc.bframes->0 <= 16
            &&& enc.refs is Some ==> 1 <= enc.refs->0 <= 16
            &&& enc.tune is Some ==> (enc.tune->0@ == "zerolatency"@ || enc.tune->0@ == "film"@
                || enc.tune->0@ == "animation"@ || enc.tune->0@ == "grain"@
                || enc.tune->0@ == "stillimage"@ || enc.tune->0@ == "fastdecode"@
                || enc.tune->0@ == "psnr"@ || enc.tune->0@ == "ssim"@ || enc.tune->0@ == ""@)
            &&& enc.color_primaries is Some ==> (enc.color_primaries->0@ == "bt709"@
                || enc.color_primaries->0@ == "bt2020"@
                || enc.color_primaries->0@ == "smpte170m"@
                || enc.color_primaries->0@ == "smpte240m"@
                || enc.color_primaries->0@ == "bt470m"@ || enc.color_primaries->0@ == "bt470bg"@)
            &&& enc.color_transfer is Some ==> (enc.color_transfer->0@ == "bt709"@
                || enc.color_transfer->0@ == "smpte170m"@
                || enc.color_transfer->0@ == "smpte2084"@
                || enc.color_transfer->0@ == "arib-std-b67"@
                || enc.color_transfer->0@ == "bt2020-10"@ || enc.color_transfer->0@ == "bt2020-12"@)
            &&& enc.color_matrix is Some ==> (enc.color_matrix->0@ == "bt709"@
                || enc.color_matrix->0@ == "bt2020nc"@ || enc.color_matrix->0@ == "bt2020c"@
                || enc.color_matrix->0@ == "smpte170m"@ || enc.color_matrix->0@ == "smpte240m"@)
            &&& enc.color_range is Some ==> (enc.color_range->0@ == "tv"@
                || enc.color_range->0@ == "pc"@)
            &&& enc.source_video_pid is Some ==> 0x0010 <= enc.source_video_pid->0 <= 0x1FFE
        },
{
    lemma_video_codecs_listed(enc.codec@);
    if enc.profile is Some {
        lemma_profiles_listed(enc.profile->0@);
    }
    if enc.chroma is Some {
        lemma_chromas_listed(enc.chroma->0@);
    }
    if enc.rate_control is Some {
        lemma_rate_controls_listed(enc.rate_control->0@);
    }
    if enc.tune is Some {
        lemma_tunes_listed(enc.tune->0@);
    }
    if enc.color_primaries is Some {
        lemma_primaries_listed(enc.color_primaries->0@);
    }
    if enc.color_transfer is Some {
        lemma_transfers_listed(enc.color_transfer->0@);
    }
    if enc.color_matrix is Some {
        lemma_matrices_listed(enc.color_matrix->0@);
    }
    if enc.color_range is Some {
        lemma_color_ranges_listed(enc.color_range->0@);
    }
}

/// An audio encoding block is accepted exactly when its codec is one of the allowed ones,
/// its bitrate, sample rate and channels are within the codec's limits, and an Opus block
/// names a known mode and frame duration.
pub proof fn lemma_audio_encode_accepts(
    enc: AudioEncodeConfig,
    allowed: Seq<&str>,
    context: Seq<char>,
)
    ensures
        encode::audio_encode_fault(enc, allowed, context) is None <==> {
            let rate = enc.sample_rate->0;
            &&& text::is_one_of(enc.codec@, allowed)
            &&& enc.bitrate_kbps is Some ==> 16 <= enc.bitrate_kbps->0 <= 512
            &&& enc.sample_rate is Some ==> (rate == 8_000 || rate == 16_000 || rate == 22_050
                || rate == 24_000 || rate == 32_000 || rate == 44_100 || rate == 48_000)
            &&& enc.channels is Some
                ==> 1 <= enc.channels->0 <= if enc.codec@ == "aac_lc"@ { 8u8 } else if enc.codec@ == "ac3"@ { 6 } else { 2 }
            &&& enc.source_audio_pid is Some ==> 0x0010 <= enc.source_audio_pid->0 <= 0x1FFE
            &&& enc.codec@ == "opus"@ && enc.opus_vbr_mode is Some
                ==> (enc.opus_vbr_mode->0@ == "vbr"@ || enc.opus_vbr_mode->0@ == "cbr"@)
            &&& enc.codec@ == "opus"@ && enc.opus_frame_duration_ms is Some
                ==> (enc.opus_frame_duration_ms->0 == 5 || enc.opus_frame_duration_ms->0 == 10
                || enc.opus_frame_duration_ms->0 == 20 || enc.opus_frame_duration_ms->0 == 40
                || enc.opus_frame_duration_ms->0 == 60)
        },
{
}

/// A transcode block is accepted exactly when each of its settings is one of the known
/// ones, it has a channel map or a preset but not both, and the engine has no complaint
/// about the incoming audio, whose depth is 16, 20 or 24 bits.
pub proof fn lemma_transcode_accepts(
    tj: TranscodeJson,
    in_sample_rate: u32,
    in_bit_depth: u8,
    in_channels: u8,
    context: Seq<char>,
)
    ensures
        encode::transcode_fault(tj, in_sample_rate, in_bit_depth, in_channels, context) is None <==> {
            &&& tj.sample_rate is Some ==> (tj.sample_rate->0 == 32_000 || tj.sample_rate->0
                == 44_100 || tj.sample_rate->0 == 48_000 || tj.sample_rate->0 == 88_200
                || tj.sample_rate->0 == 96_000)
            &&& tj.bit_depth is Some ==> (tj.bit_depth->0 == 16 || tj.bit_depth->0 == 20
                || tj.bit_depth->0 == 24)
            &&& tj.channels is Some ==> 1 <= tj.channels->0 <= 16
            &&& tj.packet_time_us is Some ==> (tj.packet_time_us->0 == 125 || tj.packet_time_us->0
                == 250 || tj.packet_time_us->0 == 333 || tj.packet_time_us->0 == 500
                || tj.packet_time_us->0 == 1_000 || tj.packet_time_us->0 == 4_000)
            &&& tj.payload_type is Some ==> 96 <= tj.payload_type->0 <= 127
            &&& !(tj.channel_map is Some && tj.channel_map_preset is Some)
            &&& in_bit_depth == 16 || in_bit_depth == 20 || in_bit_depth == 24
            &&& tj.resolution_fault(
                InputFormat {
                    sample_rate: in_sample_rate,
                    bit_depth: if in_bit_depth == 16 {
                        BitDepth::L16
                    } else if in_bit_depth == 20 {
                        BitDepth::L20
                    } else {
                        BitDepth::L24
                    },
                    channels: in_channels,
                },
            ) is None
        },
{
}

/// The engine's complaint about an input format is that of its first verdict on it;
/// without a verdict there is none.
pub proof fn lemma_first_verdict_counts(verdicts: Seq<TranscodeResolution>, input: InputFormat, n: int)
    requires
        0 <= n <= verdicts.len(),
        forall|i: int| 0 <= i < n ==> (#[trigger] verdicts[i]).input != input,
    ensures
        n == verdicts.len() ==> audio_transcode::resolution_fault_in(verdicts, input) is None,
        n < verdicts.len() && verdicts[n].input == input
            ==> audio_transcode::resolution_fault_in(verdicts, input) == text::opt_view(
            verdicts[n].fault,
        ),
    decreases n,
{
    if n > 0 {
        let rest = verdicts.skip(1);
        assert forall|i: int| 0 <= i < n - 1 implies (#[trigger] rest[i]).input != input by {
            assert(rest[i] == verdicts[i + 1]);
        }
        lemma_first_verdict_counts(rest, input, n - 1);
    }
}

} // verus!
