//! Video encoding that every WebRTC viewer can decode.

use vstd::prelude::*;

use crate::models::VideoEncodeConfig;
use crate::text;
use crate::validation::encode;

verus! {

/// Whether a codec name stands for HEVC, which browsers do not decode.
pub open spec fn is_hevc_codec(codec: Seq<char>) -> bool {
    codec == "x265"@ || codec == "hevc_nvenc"@ || codec == "hevc_qsv"@ || codec == "hevc_vaapi"@
        || codec == "hevc_rkmpp"@ || codec == "hevc_auto"@
}

/// Whether a profile needs more than 8-bit 4:2:0.
pub open spec fn is_deep_profile(profile: Seq<char>) -> bool {
    profile == "high10"@ || profile == "high422"@ || profile == "high444"@ || profile == "main10"@
        || profile == "main422-10"@ || profile == "main422-10-intra"@
}

/// The codec in place of `codec`: H.264 where it is blank or HEVC.
pub open spec fn safe_codec(codec: Seq<char>) -> Seq<char> {
    if text::trimmed(codec).len() == 0 || is_hevc_codec(codec) {
        "h264_auto"@
    } else {
        codec
    }
}

/// The profile in place of `profile`.
pub open spec fn safe_profile(profile: Option<Seq<char>>) -> Option<Seq<char>> {
    match profile {
        Some(p) => if is_deep_profile(p) {
            Some("main"@)
        } else {
            Some(p)
        },
        None => None,
    }
}

/// Whether `r` is `v` made safe: H.264, no B-frames, 8-bit 4:2:0, a profile
/// that fits, a tune; everything else as it was.
pub open spec fn is_made_safe(v: VideoEncodeConfig, r: VideoEncodeConfig) -> bool {
    &&& r.codec@ == safe_codec(v.codec@)
    &&& r.bframes == Some(0u8)
    &&& text::opt_view(r.chroma) == Some("yuv420p"@)
    &&& r.bit_depth == Some(8u8)
    &&& text::opt_view(r.profile) == safe_profile(text::opt_view(v.profile))
    &&& text::opt_view(r.tune) == (if v.tune is Some {
        text::opt_view(v.tune)
    } else {
        Some("zerolatency"@)
    })
    &&& r.source_video_pid == v.source_video_pid
    &&& r.width == v.width
    &&& r.height == v.height
    &&& r.fps_num == v.fps_num
    &&& r.fps_den == v.fps_den
    &&& r.bitrate_kbps == v.bitrate_kbps
    &&& r.gop_size == v.gop_size
    &&& r.preset == v.preset
    &&& r.rate_control == v.rate_control
    &&& r.crf == v.crf
    &&& r.max_bitrate_kbps == v.max_bitrate_kbps
    &&& r.refs == v.refs
    &&& r.level == v.level
    &&& r.color_primaries == v.color_primaries
    &&& r.color_transfer == v.color_transfer
    &&& r.color_matrix == v.color_matrix
    &&& r.color_range == v.color_range
    &&& r.hw_decode == v.hw_decode
}

/// Whether `v` is the block that stands in for an absent one: H.264 with
/// nothing else set.
pub open spec fn is_blank(v: VideoEncodeConfig) -> bool {
    &&& v.codec@ == "h264_auto"@
    &&& v.source_video_pid is None
    &&& v.width is None
    &&& v.height is None
    &&& v.fps_num is None
    &&& v.fps_den is None
    &&& v.bitrate_kbps is None
    &&& v.gop_size is None
    &&& v.preset is None
    &&& v.profile is None
    &&& v.chroma is None
    &&& v.bit_depth is None
    &&& v.rate_control is None
    &&& v.crf is None
    &&& v.max_bitrate_kbps is None
    &&& v.bframes is None
    &&& v.refs is None
    &&& v.level is None
    &&& v.tune is None
    &&& v.color_primaries is None
    &&& v.color_transfer is None
    &&& v.color_matrix is None
    &&& v.color_range is None
    &&& v.hw_decode is None
}

fn copy_of(v: &VideoEncodeConfig) -> (r: VideoEncodeConfig)
    ensures
        r == *v,
{
    VideoEncodeConfig {
        codec: v.codec.clone(),
        source_video_pid: v.source_video_pid,
        width: v.width,
        height: v.height,
        fps_num: v.fps_num,
        fps_den: v.fps_den,
        bitrate_kbps: v.bitrate_kbps,
        gop_size: v.gop_size,
        preset: v.preset.clone(),
        profile: v.profile.clone(),
        chroma: v.chroma.clone(),
        bit_depth: v.bit_depth,
        rate_control: v.rate_control.clone(),
        crf: v.crf,
        max_bitrate_kbps: v.max_bitrate_kbps,
        bframes: v.bframes,
        refs: v.refs,
        level: v.level.clone(),
        tune: v.tune.clone(),
        color_primaries: v.color_primaries.clone(),
        color_transfer: v.color_transfer.clone(),
        color_matrix: v.color_matrix.clone(),
        color_range: v.color_range.clone(),
        hw_decode: v.hw_decode,
    }
}

fn blank() -> (r: VideoEncodeConfig)
    ensures
        is_blank(r),
{
    VideoEncodeConfig {
        codec: "h264_auto".to_owned(),
        source_video_pid: None,
        width: None,
        height: None,
        fps_num: None,
        fps_den: None,
        bitrate_kbps: None,
        gop_size: None,
        preset: None,
        profile: None,
        chroma: None,
        bit_depth: None,
        rate_control: None,
        crf: None,
        max_bitrate_kbps: None,
        bframes: None,
        refs: None,
        level: None,
        tune: None,
        color_primaries: None,
        color_transfer: None,
        color_matrix: None,
        color_range: None,
        hw_decode: None,
    }
}

fn is_hevc(codec: &str) -> (r: bool)
    ensures
        r == is_hevc_codec(codec@),
{
    text::str_eq(codec, "x265") || text::str_eq(codec, "hevc_nvenc") || text::str_eq(
        codec,
        "hevc_qsv",
    ) || text::str_eq(codec, "hevc_vaapi") || text::str_eq(codec, "hevc_rkmpp") || text::str_eq(
        codec,
        "hevc_auto",
    )
}

fn is_deep(profile: &str) -> (r: bool)
    ensures
        r == is_deep_profile(profile@),
{
    text::str_eq(profile, "high10") || text::str_eq(profile, "high422") || text::str_eq(
        profile,
        "high444",
    ) || text::str_eq(profile, "main10") || text::str_eq(profile, "main422-10") || text::str_eq(
        profile,
        "main422-10-intra",
    )
}

/// The encoding block to use for WebRTC viewers in place of `existing`.
pub fn webrtc_safe_video_encode(existing: Option<&VideoEncodeConfig>) -> (r: VideoEncodeConfig)
    ensures
        existing matches Some(v) ==> is_made_safe(*v, r),
        existing is None ==> exists|v: VideoEncodeConfig|
            is_blank(v) && #[trigger] is_made_safe(v, r),
{
    let mut enc = match existing {
        Some(v) => copy_of(v),
        None => blank(),
    };
    let ghost v = enc;
    if text::trim(enc.codec.as_str()).is_empty() || is_hevc(enc.codec.as_str()) {
        enc.codec = "h264_auto".to_owned();
    }
    enc.bframes = Some(0);
    enc.chroma = Some("yuv420p".to_owned());
    enc.bit_depth = Some(8);
    let deep = match &enc.profile {
        Some(p) => is_deep(p.as_str()),
        None => false,
    };
    if deep {
        enc.profile = Some("main".to_owned());
    }
    if enc.tune.is_none() {
        enc.tune = Some("zerolatency".to_owned());
    }
    assert(is_made_safe(v, enc));
    enc
}

/// What the first letters of the names involved show: the replacement codec is
/// neither blank nor HEVC, and the replacement profile is shallow.
proof fn lemma_replacements_are_safe()
    ensures
        text::trimmed("h264_auto"@).len() > 0,
        !is_hevc_codec("h264_auto"@),
        !is_deep_profile("main"@),
{
    reveal_strlit("h264_auto");
    reveal_strlit("x265");
    reveal_strlit("hevc_nvenc");
    reveal_strlit("hevc_qsv");
    reveal_strlit("hevc_vaapi");
    reveal_strlit("hevc_rkmpp");
    reveal_strlit("hevc_auto");
    reveal_strlit("main");
    reveal_strlit("high10");
    reveal_strlit("high422");
    reveal_strlit("high444");
    reveal_strlit("main10");
    reveal_strlit("main422-10");
    reveal_strlit("main422-10-intra");
    assert("h264_auto"@[0] == 'h');
    assert(!text::is_white_space('h'));
    assert(text::trim_start("h264_auto"@) == "h264_auto"@);
    assert("h264_auto"@.last() == 'o');
    assert(!text::is_white_space('o'));
    assert(text::trim_end("h264_auto"@) == "h264_auto"@);
    assert("x265"@[0] == 'x');
    assert("hevc_nvenc"@[1] == 'e');
    assert("hevc_qsv"@[1] == 'e');
    assert("hevc_vaapi"@[1] == 'e');
    assert("hevc_rkmpp"@[1] == 'e');
    assert("hevc_auto"@[1] == 'e');
    assert("h264_auto"@[1] == '2');
    assert("main"@.len() == 4);
    assert("high10"@.len() == 6);
    assert("high422"@.len() == 7);
    assert("high444"@.len() == 7);
    assert("main10"@.len() == 6);
    assert("main422-10"@.len() == 10);
    assert("main422-10-intra"@.len() == 16);
}

/// A block that was made safe stays as it is when it is made safe again.
pub proof fn lemma_made_safe_once(v: VideoEncodeConfig, r: VideoEncodeConfig, again: VideoEncodeConfig)
    requires
        is_made_safe(v, r),
        is_made_safe(r, again),
    ensures
        again.codec@ == r.codec@,
        again.bframes == r.bframes,
        text::opt_view(again.chroma) == text::opt_view(r.chroma),
        again.bit_depth == r.bit_depth,
        text::opt_view(again.profile) == text::opt_view(r.profile),
        text::opt_view(again.tune) == text::opt_view(r.tune),
{
    lemma_replacements_are_safe();
}

/// What a viewer gets is never HEVC.
pub proof fn lemma_made_safe_is_not_hevc(v: VideoEncodeConfig, r: VideoEncodeConfig)
    requires
        is_made_safe(v, r),
    ensures
        !is_hevc_codec(r.codec@),
        text::trimmed(r.codec@).len() > 0,
{
    lemma_replacements_are_safe();
}

/// A block that passes validation passes it after it was made safe too, and so
/// does the block that stands in for an absent one.
pub proof fn lemma_made_safe_is_accepted(
    v: VideoEncodeConfig,
    r: VideoEncodeConfig,
    context: Seq<char>,
)
    requires
        is_made_safe(v, r),
        encode::video_encode_fault(v, context) is None || is_blank(v),
    ensures
        encode::video_encode_fault(r, context) is None,
{
    assert(text::is_one_of(r.codec@, encode::video_codecs())) by {
        assert(encode::video_codecs()[10]@ == "h264_auto"@);
    }
    assert(text::is_one_of("yuv420p"@, encode::chromas())) by {
        assert(encode::chromas()[0]@ == "yuv420p"@);
    }
    assert(text::is_one_of("zerolatency"@, encode::tunes())) by {
        assert(encode::tunes()[0]@ == "zerolatency"@);
    }
    assert(text::is_one_of("main"@, encode::profiles())) by {
        assert(encode::profiles()[1]@ == "main"@);
    }
    assert("yuv420p"@ != "yuv444p"@) by {
        reveal_strlit("yuv420p");
        reveal_strlit("yuv444p");
        assert("yuv420p"@[4] != "yuv444p"@[4]);
    }
    assert(!encode::lacks_format(r)) by {
        lemma_replacements_are_safe();
    }
}

/// A profile of 8-bit 4:2:0 is kept, whatever it is called; one of the six profiles
/// that imply more bits or more colour becomes `main`; an absent one stays absent.
pub proof fn lemma_shallow_profile_is_kept(v: VideoEncodeConfig, r: VideoEncodeConfig)
    requires
        is_made_safe(v, r),
    ensures
        v.profile is None ==> r.profile is None,
        v.profile is Some ==> r.profile is Some,
        v.profile is Some && v.profile->0@ != "high10"@ && v.profile->0@ != "high422"@
            && v.profile->0@ != "high444"@ && v.profile->0@ != "main10"@
            && v.profile->0@ != "main422-10"@ && v.profile->0@ != "main422-10-intra"@
            ==> r.profile->0@ == v.profile->0@,
        v.profile is Some && v.profile->0@ == "high10"@ ==> r.profile->0@ == "main"@,
        v.profile is Some && v.profile->0@ == "high422"@ ==> r.profile->0@ == "main"@,
        v.profile is Some && v.profile->0@ == "high444"@ ==> r.profile->0@ == "main"@,
        v.profile is Some && v.profile->0@ == "main10"@ ==> r.profile->0@ == "main"@,
        v.profile is Some && v.profile->0@ == "main422-10"@ ==> r.profile->0@ == "main"@,
        v.profile is Some && v.profile->0@ == "main422-10-intra"@ ==> r.profile->0@ == "main"@,
{
}

/// An H.264 encoder is kept; each of the six HEVC encoders, and a blank name, becomes
/// the automatic H.264 one.
pub proof fn lemma_h264_codec_is_kept(v: VideoEncodeConfig, r: VideoEncodeConfig)
    requires
        is_made_safe(v, r),
    ensures
        text::trimmed(v.codec@).len() > 0 && v.codec@ != "x265"@ && v.codec@ != "hevc_nvenc"@
            && v.codec@ != "hevc_qsv"@ && v.codec@ != "hevc_vaapi"@ && v.codec@ != "hevc_rkmpp"@
            && v.codec@ != "hevc_auto"@
            ==> r.codec@ == v.codec@,
        v.codec@ == "x265"@ ==> r.codec@ == "h264_auto"@,
        v.codec@ == "hevc_nvenc"@ ==> r.codec@ == "h264_auto"@,
        v.codec@ == "hevc_qsv"@ ==> r.codec@ == "h264_auto"@,
        v.codec@ == "hevc_vaapi"@ ==> r.codec@ == "h264_auto"@,
        v.codec@ == "hevc_rkmpp"@ ==> r.codec@ == "h264_auto"@,
        v.codec@ == "hevc_auto"@ ==> r.codec@ == "h264_auto"@,
        text::trimmed(v.codec@).len() == 0 ==> r.codec@ == "h264_auto"@,
        v.codec@.len() == 0 ==> r.codec@ == "h264_auto"@,
{
}

/// Pictures are 8-bit 4:2:0 without B-frames; a tune that is set is kept, and so is
/// every setting that says nothing of the format.
pub proof fn lemma_made_safe_changes_the_format_only(v: VideoEncodeConfig, r: VideoEncodeConfig)
    requires
        is_made_safe(v, r),
    ensures
        r.bframes == Some(0u8),
        r.bit_depth == Some(8u8),
        r.chroma is Some && r.chroma->0@ == "yuv420p"@,
        r.tune is Some,
        v.tune is Some ==> r.tune->0@ == v.tune->0@,
        v.tune is None ==> r.tune->0@ == "zerolatency"@,
        r.source_video_pid == v.source_video_pid,
        r.width == v.width,
        r.height == v.height,
        r.fps_num == v.fps_num,
        r.fps_den == v.fps_den,
        r.bitrate_kbps == v.bitrate_kbps,
        r.gop_size == v.gop_size,
        r.preset == v.preset,
        r.rate_control == v.rate_control,
        r.crf == v.crf,
        r.max_bitrate_kbps == v.max_bitrate_kbps,
        r.refs == v.refs,
        r.level == v.level,
        r.color_primaries == v.color_primaries,
        r.color_transfer == v.color_transfer,
        r.color_matrix == v.color_matrix,
        r.color_range == v.color_range,
        r.hw_decode == v.hw_decode,
{
}

/// In place of an absent block viewers get automatic H.264 with nothing else chosen.
pub proof fn lemma_absent_block_is_plain_h264(v: VideoEncodeConfig, r: VideoEncodeConfig)
    requires
        is_blank(v),
        is_made_safe(v, r),
    ensures
        r.codec@ == "h264_auto"@,
        r.profile is None,
        r.tune is Some && r.tune->0@ == "zerolatency"@,
        r.bframes == Some(0u8),
        r.bit_depth == Some(8u8),
        r.chroma is Some && r.chroma->0@ == "yuv420p"@,
        r.source_video_pid is None,
        r.width is None,
        r.height is None,
        r.fps_num is None,
        r.fps_den is None,
        r.bitrate_kbps is None,
        r.gop_size is None,
        r.preset is None,
        r.rate_control is None,
        r.crf is None,
        r.max_bitrate_kbps is None,
        r.refs is None,
        r.level is None,
        r.color_primaries is None,
        r.color_transfer is None,
        r.color_matrix is None,
        r.color_range is None,
        r.hw_decode is None,
{
    lemma_replacements_are_safe();
}

} // verus!
