//! Checks of the encoding and transcoding blocks of outputs.

use vstd::prelude::*;

use crate::audio_transcode::{BitDepth, InputFormat, TranscodeJson};
use crate::error;
use crate::error::{fail, Checks, ConfigError};
use crate::models::{AudioEncodeConfig, VideoEncodeConfig};
use crate::ratio;
use crate::text;
use crate::validation::media;

verus! {

/// A frame rate: both parts or none, neither zero, and from one half to 240
/// frames per second.
pub open spec fn frame_rate_fault(
    num: Option<u32>,
    den: Option<u32>,
    context: Seq<char>,
) -> Option<Seq<char>> {
    error::check(
        num is Some != den is Some,
        context + ": video_encode.fps_num and fps_den must be set together"@,
    ).otherwise(
        error::when(
            num is Some,
            error::check(
                num->0 == 0 || den->0 == 0,
                context + ": video_encode.fps_num and fps_den must be non-zero (got "@ + text::dec(
                    num->0 as nat,
                ) + "/"@ + text::dec(den->0 as nat) + ")"@,
            ).otherwise(
                error::check(
                    !(den->0 <= 2 * num->0 && num->0 <= 240 * den->0),
                    context + ": video_encode effective frame rate "@ + ratio::three_places(
                        num->0 as nat,
                        den->0 as nat,
                    ) + " is out of range (0.5..=240)"@,
                ),
            ),
        ),
    )
}

/// The video encoders.
pub open spec fn video_codecs() -> Seq<&'static str> {
    seq![
        "x264", "x265", "h264_nvenc", "hevc_nvenc", "h264_qsv", "hevc_qsv", "h264_vaapi",
        "hevc_vaapi", "h264_rkmpp", "hevc_rkmpp", "h264_auto", "hevc_auto",
    ]
}

/// The profiles of a video encoder.
pub open spec fn profiles() -> Seq<&'static str> {
    seq![
        "baseline", "main", "high", "high10", "high422", "high444", "main10",
    ]
}

/// The chroma subsamplings.
pub open spec fn chromas() -> Seq<&'static str> {
    seq![
        "yuv420p", "yuv422p", "yuv444p",
    ]
}

/// The rate control modes.
pub open spec fn rate_controls() -> Seq<&'static str> {
    seq![
        "vbr", "cbr", "crf", "abr",
    ]
}

/// The tunes of a video encoder; the empty one leaves the choice to it.
pub open spec fn tunes() -> Seq<&'static str> {
    seq![
        "zerolatency", "film", "animation", "grain", "stillimage", "fastdecode", "psnr", "ssim",
        "",
    ]
}

/// The colour primaries.
pub open spec fn primaries() -> Seq<&'static str> {
    seq![
        "bt709", "bt2020", "smpte170m", "smpte240m", "bt470m", "bt470bg",
    ]
}

/// The transfer characteristics.
pub open spec fn transfers() -> Seq<&'static str> {
    seq![
        "bt709", "smpte170m", "smpte2084", "arib-std-b67", "bt2020-10", "bt2020-12",
    ]
}

/// The matrix coefficients.
pub open spec fn matrices() -> Seq<&'static str> {
    seq![
        "bt709", "bt2020nc", "bt2020c", "smpte170m", "smpte240m",
    ]
}

/// The colour ranges.
pub open spec fn color_ranges() -> Seq<&'static str> {
    seq![
        "tv", "pc",
    ]
}

/// The profiles, as messages list them.
pub open spec fn profile_names() -> Seq<char> {
    "baseline, main, high, high10, high422, high444, main10"@
}

/// The tunes, as messages list them.
pub open spec fn tune_names() -> Seq<char> {
    "zerolatency, film, animation, grain, stillimage, fastdecode, psnr, ssim"@
}

/// A setting `what` that is one of `allowed`, where it is set. Messages list
/// these as `names`.
pub open spec fn choice_fault(
    value: Option<String>,
    allowed: Seq<&str>,
    what: Seq<char>,
    names: Seq<char>,
    context: Seq<char>,
) -> Option<Seq<char>> {
    error::check(
        value is Some && !text::is_one_of(value->0@, allowed),
        context + ": video_encode."@ + what + " '"@ + value->0@
            + "' is not recognised; expected one of "@ + names,
    )
}

fn validate_choice(
    value: &Option<String>,
    allowed: &[&str],
    what: &str,
    names: &str,
    context: &str,
) -> (r: Result<(), ConfigError>)
    ensures
        error::is_outcome(r, choice_fault(*value, allowed@, what@, names@, context@)),
{
    if let Some(v) = value {
        if !text::one_of(v.as_str(), allowed) {
            return fail(
                text::cat7(
                    context,
                    ": video_encode.",
                    what,
                    " '",
                    v.as_str(),
                    "' is not recognised; expected one of ",
                    names,
                ),
            );
        }
    }
    Ok(())
}

/// A number `what` from `low` to `high`, where it is set.
pub open spec fn range_fault(
    value: Option<u8>,
    low: u8,
    high: u8,
    what: Seq<char>,
    context: Seq<char>,
) -> Option<Seq<char>> {
    error::check(
        value is Some && !(low <= value->0 <= high),
        context + ": video_encode."@ + what + " must be "@ + text::dec(low as nat) + "..="@
            + text::dec(high as nat) + ", got "@ + text::dec(value->0 as nat),
    )
}

fn validate_range(
    value: Option<u8>,
    low: u8,
    high: u8,
    what: &str,
    context: &str,
) -> (r: Result<(), ConfigError>)
    ensures
        error::is_outcome(r, range_fault(value, low, high, what@, context@)),
{
    if let Some(v) = value {
        if !(low <= v && v <= high) {
            let bounds = text::cat8(
                context,
                ": video_encode.",
                what,
                " must be ",
                text::dec_string(low as u64).as_str(),
                "..=",
                text::dec_string(high as u64).as_str(),
                ", got ",
            );
            return fail(text::cat2(bounds.as_str(), text::dec_string(v as u64).as_str()));
        }
    }
    Ok(())
}

/// Whether a profile needs a chroma subsampling or a bit depth that the block
/// does not ask for.
pub open spec fn lacks_format(enc: VideoEncodeConfig) -> bool {
    let profile = text::opt_view(enc.profile);
    ||| (profile == Some("high10"@) || profile == Some("main10"@)) && enc.bit_depth != Some(10u8)
    ||| profile == Some("high422"@) && text::opt_view(enc.chroma) != Some("yuv422p"@)
    ||| profile == Some("high444"@) && text::opt_view(enc.chroma) != Some("yuv444p"@)
}

/// The higher profiles go with a matching chroma subsampling or bit depth.
pub open spec fn profile_format_fault(enc: VideoEncodeConfig, context: Seq<char>) -> Option<
    Seq<char>,
> {
    error::check(
        lacks_format(enc),
        context + ": video_encode.profile '"@ + enc.profile->0@
            + "' requires a matching chroma and bit_depth"@,
    )
}

fn validate_profile_format(enc: &VideoEncodeConfig, context: &str) -> (r: Result<(), ConfigError>)
    ensures
        error::is_outcome(r, profile_format_fault(*enc, context@)),
{
    if let Some(p) = &enc.profile {
        let ten = match enc.bit_depth {
            Some(depth) => depth == 10,
            None => false,
        };
        let lacks_depth = (text::str_eq(p.as_str(), "high10") || text::str_eq(p.as_str(), "main10"))
            && !ten;
        let lacks_422 = text::str_eq(p.as_str(), "high422") && !text::opt_str_is(
            &enc.chroma,
            "yuv422p",
        );
        let lacks_444 = text::str_eq(p.as_str(), "high444") && !text::opt_str_is(
            &enc.chroma,
            "yuv444p",
        );
        if lacks_depth || lacks_422 || lacks_444 {
            return fail(
                text::cat4(
                    context,
                    ": video_encode.profile '",
                    p.as_str(),
                    "' requires a matching chroma and bit_depth",
                ),
            );
        }
    }
    Ok(())
}

/// The rules for a `video_encode` block: the bounds of its schema, and what
/// its encoder can do.
pub open spec fn video_encode_fault(
    enc: VideoEncodeConfig,
    context: Seq<char>,
) -> Option<Seq<char>> {
    error::check(
        !text::is_one_of(enc.codec@, video_codecs()),
        context + ": video_encode.codec '"@ + enc.codec@
            + "' is not recognised; expected one of x264, x265, h264_nvenc, hevc_nvenc, h264_qsv, hevc_qsv, h264_vaapi, hevc_vaapi, h264_rkmpp, hevc_rkmpp, h264_auto, hevc_auto"@,
    ).otherwise(
        error::check(
            enc.width is Some && !(64 <= enc.width->0 <= 7680),
            context + ": video_encode.width must be 64..=7680, got "@
                + text::dec(enc.width->0 as nat),
        ),
    ).otherwise(
        error::check(
            enc.height is Some && !(64 <= enc.height->0 <= 4320),
            context + ": video_encode.height must be 64..=4320, got "@
                + text::dec(enc.height->0 as nat),
        ),
    ).otherwise(
        frame_rate_fault(enc.fps_num, enc.fps_den, context),
    ).otherwise(
        error::check(
            enc.bitrate_kbps is Some && !(100 <= enc.bitrate_kbps->0 <= 100_000),
            context + ": video_encode.bitrate_kbps must be 100..=100000, got "@
                + text::dec(enc.bitrate_kbps->0 as nat),
        ),
    ).otherwise(
        error::check(
            enc.gop_size is Some && !(1 <= enc.gop_size->0 <= 600),
            context + ": video_encode.gop_size must be 1..=600, got "@
                + text::dec(enc.gop_size->0 as nat),
        ),
    ).otherwise(
        error::check(
            enc.preset is Some && !(enc.preset->0@ == "ultrafast"@ || enc.preset->0@ == "superfast"@
                || enc.preset->0@ == "veryfast"@ || enc.preset->0@ == "faster"@
                || enc.preset->0@ == "fast"@ || enc.preset->0@ == "medium"@
                || enc.preset->0@ == "slow"@ || enc.preset->0@ == "slower"@
                || enc.preset->0@ == "veryslow"@),
            context + ": video_encode.preset '"@ + enc.preset->0@
                + "' is not recognised; expected one of ultrafast, superfast, veryfast, faster, fast, medium, slow, slower, veryslow"@,
        ),
    ).otherwise(
        choice_fault(enc.profile, profiles(), "profile"@, profile_names(), context),
    ).otherwise(
        choice_fault(enc.chroma, chromas(), "chroma"@, "yuv420p, yuv422p, yuv444p"@, context),
    ).otherwise(
        error::check(
            enc.bit_depth is Some && !(enc.bit_depth->0 == 8 || enc.bit_depth->0 == 10),
            context + ": video_encode.bit_depth must be 8 or 10, got "@ + text::dec(
                enc.bit_depth->0 as nat,
            ),
        ),
    ).otherwise(
        profile_format_fault(enc, context),
    ).otherwise(
        error::check(
            text::opt_view(enc.chroma) == Some("yuv444p"@) && (enc.codec@ == "h264_nvenc"@
                || enc.codec@ == "hevc_nvenc"@),
            context + ": video_encode.chroma 'yuv444p' is not supported by "@ + enc.codec@,
        ),
    ).otherwise(
        error::check(
            enc.bit_depth == Some(10u8) && enc.codec@ == "h264_nvenc"@,
            context + ": video_encode.bit_depth 10 is not supported by h264_nvenc"@,
        ),
    ).otherwise(
        choice_fault(
            enc.rate_control,
            rate_controls(),
            "rate_control"@,
            "vbr, cbr, crf, abr"@,
            context,
        ),
    ).otherwise(
        range_fault(enc.crf, 0, 51, "crf"@, context),
    ).otherwise(
        error::check(
            enc.max_bitrate_kbps is Some && !(100 <= enc.max_bitrate_kbps->0 <= 100_000),
            context + ": video_encode.max_bitrate_kbps must be 100..=100000, got "@ + text::dec(
                enc.max_bitrate_kbps->0 as nat,
            ),
        ),
    ).otherwise(
        range_fault(enc.bframes, 0, 16, "bframes"@, context),
    ).otherwise(
        range_fault(enc.refs, 1, 16, "refs"@, context),
    ).otherwise(
        choice_fault(enc.tune, tunes(), "tune"@, tune_names(), context),
    ).otherwise(
        choice_fault(
            enc.color_primaries,
            primaries(),
            "color_primaries"@,
            "bt709, bt2020, smpte170m, smpte240m, bt470m, bt470bg"@,
            context,
        ),
    ).otherwise(
        choice_fault(
            enc.color_transfer,
            transfers(),
            "color_transfer"@,
            "bt709, smpte170m, smpte2084, arib-std-b67, bt2020-10, bt2020-12"@,
            context,
        ),
    ).otherwise(
        choice_fault(
            enc.color_matrix,
            matrices(),
            "color_matrix"@,
            "bt709, bt2020nc, bt2020c, smpte170m, smpte240m"@,
            context,
        ),
    ).otherwise(
        choice_fault(enc.color_range, color_ranges(), "color_range"@, "tv, pc"@, context),
    ).otherwise(
        error::check(
            !media::is_unset_or_assignable(enc.source_video_pid),
            context + ": video_encode.source_video_pid must be 0x0010-0x1FFE"@,
        ),
    )
}

/// Checks a `video_encode` block against the bounds of its schema, whichever encoder
/// backends are available.
pub fn validate_video_encode(
    enc: &VideoEncodeConfig,
    context: &str,
) -> (r: Result<(), ConfigError>)
    ensures
        error::is_outcome(r, video_encode_fault(*enc, context@)),
{
    if !text::one_of(
        enc.codec.as_str(),
        &[
            "x264", "x265", "h264_nvenc", "hevc_nvenc", "h264_qsv", "hevc_qsv", "h264_vaapi",
            "hevc_vaapi", "h264_rkmpp", "hevc_rkmpp", "h264_auto", "hevc_auto",
        ],
    ) {
        return fail(text::cat4(
            context,
            ": video_encode.codec '",
            enc.codec.as_str(),
            "' is not recognised; expected one of x264, x265, h264_nvenc, hevc_nvenc, h264_qsv, hevc_qsv, h264_vaapi, hevc_vaapi, h264_rkmpp, hevc_rkmpp, h264_auto, hevc_auto",
        ));
    }
    if let Some(w) = enc.width {
        if !(64 <= w && w <= 7680) {
            return fail(text::cat3(
                context,
                ": video_encode.width must be 64..=7680, got ",
                text::dec_string(w as u64).as_str(),
            ));
        }
    }
    if let Some(h) = enc.height {
        if !(64 <= h && h <= 4320) {
            return fail(text::cat3(
                context,
                ": video_encode.height must be 64..=4320, got ",
                text::dec_string(h as u64).as_str(),
            ));
        }
    }
    match (enc.fps_num, enc.fps_den) {
        (Some(n), Some(d)) => {
            if n == 0 || d == 0 {
                return fail(
                    text::cat6(
                        context,
                        ": video_encode.fps_num and fps_den must be non-zero (got ",
                        text::dec_string(n as u64).as_str(),
                        "/",
                        text::dec_string(d as u64).as_str(),
                        ")",
                    ),
                );
            }
            // From half a frame per second to 240.
            if 2 * (n as u64) < d as u64 || n as u64 > 240 * (d as u64) {
                return fail(
                    text::cat4(
                        context,
                        ": video_encode effective frame rate ",
                        ratio::three_places_string(n, d).as_str(),
                        " is out of range (0.5..=240)",
                    ),
                );
            }
        },
        (None, None) => {},
        _ => {
            return fail(
                text::cat2(context, ": video_encode.fps_num and fps_den must be set together"),
            );
        },
    }
    if let Some(b) = enc.bitrate_kbps {
        if !(100 <= b && b <= 100_000) {
            return fail(text::cat3(
                context,
                ": video_encode.bitrate_kbps must be 100..=100000, got ",
                text::dec_string(b as u64).as_str(),
            ));
        }
    }
    if let Some(g) = enc.gop_size {
        if !(1 <= g && g <= 600) {
            return fail(text::cat3(
                context,
                ": video_encode.gop_size must be 1..=600, got ",
                text::dec_string(g as u64).as_str(),
            ));
        }
    }
    if let Some(p) = &enc.preset {
        if !(text::str_eq(p.as_str(), "ultrafast") || text::str_eq(p.as_str(), "superfast")
            || text::str_eq(p.as_str(), "veryfast") || text::str_eq(p.as_str(), "faster")
            || text::str_eq(p.as_str(), "fast") || text::str_eq(p.as_str(), "medium")
            || text::str_eq(p.as_str(), "slow") || text::str_eq(p.as_str(), "slower")
            || text::str_eq(p.as_str(), "veryslow")) {
            return fail(text::cat4(
                context,
                ": video_encode.preset '",
                p.as_str(),
                "' is not recognised; expected one of ultrafast, superfast, veryfast, faster, fast, medium, slow, slower, veryslow",
            ));
        }
    }
    validate_choice(
        &enc.profile,
        &[
            "baseline", "main", "high", "high10", "high422", "high444", "main10",
        ],
        "profile",
        "baseline, main, high, high10, high422, high444, main10",
        context,
    )?;
    validate_choice(
        &enc.chroma,
        &[
            "yuv420p", "yuv422p", "yuv444p",
        ],
        "chroma",
        "yuv420p, yuv422p, yuv444p",
        context,
    )?;
    if let Some(depth) = enc.bit_depth {
        if !(depth == 8 || depth == 10) {
            return fail(
                text::cat3(
                    context,
                    ": video_encode.bit_depth must be 8 or 10, got ",
                    text::dec_string(depth as u64).as_str(),
                ),
            );
        }
    }
    validate_profile_format(enc, context)?;
    let h264_nvenc = text::str_eq(enc.codec.as_str(), "h264_nvenc");
    if text::opt_str_is(&enc.chroma, "yuv444p") && (h264_nvenc || text::str_eq(
        enc.codec.as_str(),
        "hevc_nvenc",
    )) {
        return fail(
            text::cat3(
                context,
                ": video_encode.chroma 'yuv444p' is not supported by ",
                enc.codec.as_str(),
            ),
        );
    }
    if let Some(depth) = enc.bit_depth {
        if depth == 10 && h264_nvenc {
            return fail(
                text::cat2(context, ": video_encode.bit_depth 10 is not supported by h264_nvenc"),
            );
        }
    }
    validate_choice(
        &enc.rate_control,
        &[
            "vbr", "cbr", "crf", "abr",
        ],
        "rate_control",
        "vbr, cbr, crf, abr",
        context,
    )?;
    validate_range(enc.crf, 0, 51, "crf", context)?;
    if let Some(b) = enc.max_bitrate_kbps {
        if !(100 <= b && b <= 100_000) {
            return fail(text::cat3(
                context,
                ": video_encode.max_bitrate_kbps must be 100..=100000, got ",
                text::dec_string(b as u64).as_str(),
            ));
        }
    }
    validate_range(enc.bframes, 0, 16, "bframes", context)?;
    validate_range(enc.refs, 1, 16, "refs", context)?;
    validate_choice(
        &enc.tune,
        &[
            "zerolatency", "film", "animation", "grain", "stillimage", "fastdecode", "psnr",
            "ssim", "",
        ],
        "tune",
        "zerolatency, film, animation, grain, stillimage, fastdecode, psnr, ssim",
        context,
    )?;
    validate_choice(
        &enc.color_primaries,
        &[
            "bt709", "bt2020", "smpte170m", "smpte240m", "bt470m", "bt470bg",
        ],
        "color_primaries",
        "bt709, bt2020, smpte170m, smpte240m, bt470m, bt470bg",
        context,
    )?;
    validate_choice(
        &enc.color_transfer,
        &[
            "bt709", "smpte170m", "smpte2084", "arib-std-b67", "bt2020-10", "bt2020-12",
        ],
        "color_transfer",
        "bt709, smpte170m, smpte2084, arib-std-b67, bt2020-10, bt2020-12",
        context,
    )?;
    validate_choice(
        &enc.color_matrix,
        &[
            "bt709", "bt2020nc", "bt2020c", "smpte170m", "smpte240m",
        ],
        "color_matrix",
        "bt709, bt2020nc, bt2020c, smpte170m, smpte240m",
        context,
    )?;
    validate_choice(
        &enc.color_range,
        &[
            "tv", "pc",
        ],
        "color_range",
        "tv, pc",
        context,
    )?;
    if !media::unset_or_assignable(enc.source_video_pid) {
        return fail(
            text::cat2(context, ": video_encode.source_video_pid must be 0x0010-0x1FFE"),
        );
    }
    Ok(())
}

/// The channel limit of an audio codec.
pub open spec fn max_channels(codec: Seq<char>) -> u8 {
    if codec == "aac_lc"@ {
        8
    } else if codec == "ac3"@ {
        6
    } else {
        2
    }
}

fn codec_max_channels(codec: &str) -> (r: u8)
    ensures
        r == max_channels(codec@),
{
    if text::str_eq(codec, "aac_lc") {
        8
    } else if text::str_eq(codec, "ac3") {
        6
    } else {
        2
    }
}

/// The rules for the settings that only Opus has.
pub open spec fn opus_fault(enc: AudioEncodeConfig, context: Seq<char>) -> Option<Seq<char>> {
    let ms = enc.opus_frame_duration_ms->0;
    error::check(
        enc.opus_vbr_mode is Some && !(enc.opus_vbr_mode->0@ == "vbr"@ || enc.opus_vbr_mode->0@
            == "cbr"@),
        context + ": audio_encode.opus_vbr_mode must be 'vbr' or 'cbr', got '"@
            + enc.opus_vbr_mode->0@ + "'"@,
    ).otherwise(
        error::check(
            enc.opus_frame_duration_ms is Some && !(ms == 5 || ms == 10 || ms == 20 || ms == 40 || ms
                == 60),
            context
                + ": audio_encode.opus_frame_duration_ms must be one of 5, 10, 20, 40, 60, got "@
                + text::dec(ms as nat),
        ),
    )
}

fn validate_opus(enc: &AudioEncodeConfig, context: &str) -> (r: Result<(), ConfigError>)
    ensures
        error::is_outcome(r, opus_fault(*enc, context@)),
{
    if let Some(mode) = &enc.opus_vbr_mode {
        if !(text::str_eq(mode.as_str(), "vbr") || text::str_eq(mode.as_str(), "cbr")) {
            return fail(
                text::cat4(
                    context,
                    ": audio_encode.opus_vbr_mode must be 'vbr' or 'cbr', got '",
                    mode.as_str(),
                    "'",
                ),
            );
        }
    }
    if let Some(ms) = enc.opus_frame_duration_ms {
        if !(ms == 5 || ms == 10 || ms == 20 || ms == 40 || ms == 60) {
            return fail(
                text::cat3(
                    context,
                    ": audio_encode.opus_frame_duration_ms must be one of 5, 10, 20, 40, 60, got ",
                    text::dec_string(ms as u64).as_str(),
                ),
            );
        }
    }
    Ok(())
}

/// The rules for an `audio_encode` block, for an output that takes the codecs
/// `allowed`.
pub open spec fn audio_encode_fault(
    enc: AudioEncodeConfig,
    allowed: Seq<&str>,
    context: Seq<char>,
) -> Option<Seq<char>> {
    let rate = enc.sample_rate->0;
    let limit = max_channels(enc.codec@);
    error::check(
        !text::is_one_of(enc.codec@, allowed),
        context + ": audio_encode.codec '"@ + enc.codec@
            + "' is not allowed for this output; allowed: "@ + text::debug_list(allowed),
    ).otherwise(
        error::check(
            enc.bitrate_kbps is Some && !(16 <= enc.bitrate_kbps->0 <= 512),
            context + ": audio_encode.bitrate_kbps must be 16..=512, got "@ + text::dec(
                enc.bitrate_kbps->0 as nat,
            ),
        ),
    ).otherwise(
        error::check(
            enc.sample_rate is Some && !(rate == 8_000 || rate == 16_000 || rate == 22_050 || rate
                == 24_000 || rate == 32_000 || rate == 44_100 || rate == 48_000),
            context
                + ": audio_encode.sample_rate must be one of [8000, 16000, 22050, 24000, 32000, 44100, 48000], got "@
                + text::dec(rate as nat),
        ),
    ).otherwise(
        error::check(
            enc.channels is Some && (enc.channels->0 == 0 || enc.channels->0 > limit),
            context + ": audio_encode.channels must be 1-"@ + text::dec(limit as nat) + " for "@
                + enc.codec@ + ", got "@ + text::dec(enc.channels->0 as nat),
        ),
    ).otherwise(
        error::check(
            !media::is_unset_or_assignable(enc.source_audio_pid),
            context + ": audio_encode.source_audio_pid must be 0x0010-0x1FFE"@,
        ),
    ).otherwise(
        error::when(enc.codec@ == "opus"@, opus_fault(enc, context)),
    )
}

/// Checks an `audio_encode` block. Each output type passes the codecs that it
/// takes, so that a combination such as Opus on RTMP is rejected up front.
pub fn validate_audio_encode(enc: &AudioEncodeConfig, allowed_codecs: &[&str], context: &str) -> (r:
    Result<(), ConfigError>)
    ensures
        error::is_outcome(r, audio_encode_fault(*enc, allowed_codecs@, context@)),
{
    if !text::one_of(enc.codec.as_str(), allowed_codecs) {
        return fail(
            text::cat5(
                context,
                ": audio_encode.codec '",
                enc.codec.as_str(),
                "' is not allowed for this output; allowed: ",
                text::debug_list_string(allowed_codecs).as_str(),
            ),
        );
    }
    if let Some(br) = enc.bitrate_kbps {
        if !(16 <= br && br <= 512) {
            return fail(
                text::cat3(
                    context,
                    ": audio_encode.bitrate_kbps must be 16..=512, got ",
                    text::dec_string(br as u64).as_str(),
                ),
            );
        }
    }
    if let Some(sr) = enc.sample_rate {
        if !(sr == 8_000 || sr == 16_000 || sr == 22_050 || sr == 24_000 || sr == 32_000 || sr
            == 44_100 || sr == 48_000) {
            return fail(
                text::cat3(
                    context,
                    ": audio_encode.sample_rate must be one of [8000, 16000, 22050, 24000, 32000, 44100, 48000], got ",
                    text::dec_string(sr as u64).as_str(),
                ),
            );
        }
    }
    if let Some(ch) = enc.channels {
        let max_ch: u8 = codec_max_channels(enc.codec.as_str());
        if ch == 0 || ch > max_ch {
            return fail(
                text::cat7(
                    context,
                    ": audio_encode.channels must be 1-",
                    text::dec_string(max_ch as u64).as_str(),
                    " for ",
                    enc.codec.as_str(),
                    ", got ",
                    text::dec_string(ch as u64).as_str(),
                ),
            );
        }
    }
    if !media::unset_or_assignable(enc.source_audio_pid) {
        return fail(
            text::cat2(context, ": audio_encode.source_audio_pid must be 0x0010-0x1FFE"),
        );
    }
    if text::str_eq(enc.codec.as_str(), "opus") {
        validate_opus(enc, context)?;
    }
    Ok(())
}

/// The sample depth of a number of bits.
pub open spec fn depth_of(bits: u8) -> Option<BitDepth> {
    if bits == 16 {
        Some(BitDepth::L16)
    } else if bits == 20 {
        Some(BitDepth::L20)
    } else if bits == 24 {
        Some(BitDepth::L24)
    } else {
        None
    }
}

/// The rules for a `transcode` block: the range of every field, then what
/// the engine says of its channel map on the given input format.
pub open spec fn transcode_fault(
    tj: TranscodeJson,
    in_sample_rate: u32,
    in_bit_depth: u8,
    in_channels: u8,
    context: Seq<char>,
) -> Option<Seq<char>> {
    error::check(
        tj.sample_rate is Some && !(tj.sample_rate->0 == 32_000 || tj.sample_rate->0 == 44_100
            || tj.sample_rate->0 == 48_000 || tj.sample_rate->0 == 88_200
            || tj.sample_rate->0 == 96_000),
        context + ".sample_rate must be one of 32000, 44100, 48000, 88200, 96000, got "@
            + text::dec(tj.sample_rate->0 as nat),
    ).otherwise(
        error::check(
            tj.bit_depth is Some && !(tj.bit_depth->0 == 16 || tj.bit_depth->0 == 20
                || tj.bit_depth->0 == 24),
            context + ".bit_depth must be 16, 20, or 24, got "@ + text::dec(tj.bit_depth->0 as nat),
        ),
    ).otherwise(
        error::check(
            tj.channels is Some && (tj.channels->0 == 0 || tj.channels->0 > 16),
            context + ".channels must be 1..=16, got "@ + text::dec(tj.channels->0 as nat),
        ),
    ).otherwise(
        error::check(
            tj.packet_time_us is Some && !(tj.packet_time_us->0 == 125
                || tj.packet_time_us->0 == 250 || tj.packet_time_us->0 == 333
                || tj.packet_time_us->0 == 500 || tj.packet_time_us->0 == 1_000
                || tj.packet_time_us->0 == 4_000),
            context + ".packet_time_us must be one of 125, 250, 333, 500, 1000, 4000, got "@
                + text::dec(tj.packet_time_us->0 as nat),
        ),
    ).otherwise(
        error::check(
            tj.payload_type is Some && !(96 <= tj.payload_type->0 <= 127),
            context + ".payload_type must be in dynamic range 96-127, got "@
                + text::dec(tj.payload_type->0 as nat),
        ),
    ).otherwise(
        error::check(
            tj.channel_map is Some && tj.channel_map_preset is Some,
            context + ": channel_map and channel_map_preset are mutually exclusive"@,
        ),
    ).otherwise(
        (match depth_of(in_bit_depth) {
            None => Some(
                context + ": input bit_depth "@ + text::dec(in_bit_depth as nat)
                    + " not supported"@,
            ),
            Some(bit_depth) => match tj.resolution_fault(
                InputFormat { sample_rate: in_sample_rate, bit_depth, channels: in_channels },
            ) {
                Some(complaint) => Some(context + ": "@ + complaint),
                None => None,
            },
        }),
    )
}

/// Checks a `transcode` block: the range of every field, then what the engine says of its
/// channel map on the given input format.
pub fn validate_transcode_block(
    tj: &TranscodeJson,
    in_sample_rate: u32,
    in_bit_depth: u8,
    in_channels: u8,
    context: &str,
) -> (r: Result<(), ConfigError>)
    ensures
        error::is_outcome(r, transcode_fault(
            *tj,
            in_sample_rate,
            in_bit_depth,
            in_channels,
            context@,
        )),
{
    if let Some(sr) = tj.sample_rate {
        if !(sr == 32_000 || sr == 44_100 || sr == 48_000 || sr == 88_200 || sr == 96_000) {
            return fail(text::cat3(
                context,
                ".sample_rate must be one of 32000, 44100, 48000, 88200, 96000, got ",
                text::dec_string(sr as u64).as_str(),
            ));
        }
    }
    if let Some(bd) = tj.bit_depth {
        if !(bd == 16 || bd == 20 || bd == 24) {
            return fail(text::cat3(
                context,
                ".bit_depth must be 16, 20, or 24, got ",
                text::dec_string(bd as u64).as_str(),
            ));
        }
    }
    if let Some(ch) = tj.channels {
        if ch == 0 || ch > 16 {
            return fail(text::cat3(
                context,
                ".channels must be 1..=16, got ",
                text::dec_string(ch as u64).as_str(),
            ));
        }
    }
    if let Some(pt) = tj.packet_time_us {
        if !(pt == 125 || pt == 250 || pt == 333 || pt == 500 || pt == 1_000 || pt == 4_000) {
            return fail(text::cat3(
                context,
                ".packet_time_us must be one of 125, 250, 333, 500, 1000, 4000, got ",
                text::dec_string(pt as u64).as_str(),
            ));
        }
    }
    if let Some(pt) = tj.payload_type {
        if !(96 <= pt && pt <= 127) {
            return fail(text::cat3(
                context,
                ".payload_type must be in dynamic range 96-127, got ",
                text::dec_string(pt as u64).as_str(),
            ));
        }
    }
    if tj.channel_map.is_some() && tj.channel_map_preset.is_some() {
        return fail(text::cat2(context, ": channel_map and channel_map_preset are mutually exclusive"));
    }
    let bit_depth = match in_bit_depth {
        16 => BitDepth::L16,
        20 => BitDepth::L20,
        24 => BitDepth::L24,
        other => {
            return fail(
                text::cat4(
                    context,
                    ": input bit_depth ",
                    text::dec_string(other as u64).as_str(),
                    " not supported",
                ),
            );
        },
    };
    let input = InputFormat { sample_rate: in_sample_rate, bit_depth, channels: in_channels };
    if let Some(complaint) = tj.resolve(input) {
        return fail(text::cat3(context, ": ", complaint));
    }
    Ok(())
}

} // verus!
