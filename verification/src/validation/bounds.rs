//! Bounds on single settings: logging and resource monitoring, clocks and
//! recordings, generated and played media, delays, displays and cards.

use vstd::prelude::*;

use crate::binary;
use crate::binary::Binary64;
use crate::error;
use crate::error::{fail, Checks, ConfigError};
use crate::models::{
    DisplayOutputConfig, InputConfig, JsonLogTarget, LoggingConfig, MasterClockConfig,
    MediaPlayerInputConfig, MediaPlayerSource, NmosRegistrationConfig, OutputConfig, OutputDelay, RecordingConfig,
    ResourceLimitConfig, TestPatternInputConfig,
};
use crate::text;
use crate::validation::fields;
use crate::validation::fields::{
    validate_clock_domain, validate_id, validate_name, validate_program_number,
};

verus! {

/// A number `what` from `low` to `high`.
pub open spec fn bounds_fault(
    value: nat,
    low: nat,
    high: nat,
    what: Seq<char>,
    context: Seq<char>,
) -> Option<Seq<char>> {
    error::check(
        !(low <= value <= high),
        context + ": "@ + what + " must be "@ + text::dec(low) + "-"@ + text::dec(high) + ", got "@
            + text::dec(value),
    )
}

/// Checks a number `what` from `low` to `high`.
pub fn validate_bounds(value: u64, low: u64, high: u64, what: &str, context: &str) -> (r: Result<
    (),
    ConfigError,
>)
    ensures
        error::is_outcome(
            r,
            bounds_fault(value as nat, low as nat, high as nat, what@, context@),
        ),
{
    if !(low <= value && value <= high) {
        let rule = text::cat8(
            context,
            ": ",
            what,
            " must be ",
            text::dec_string(low).as_str(),
            "-",
            text::dec_string(high).as_str(),
            ", got ",
        );
        return fail(text::cat2(rule.as_str(), text::dec_string(value).as_str()));
    }
    Ok(())
}

/// A number `what` from `low` to `high`, where it is set.
pub open spec fn set_bounds_fault(
    value: Option<u32>,
    low: nat,
    high: nat,
    what: Seq<char>,
    context: Seq<char>,
) -> Option<Seq<char>> {
    error::when(value is Some, bounds_fault(value->0 as nat, low, high, what, context))
}

/// Checks a number `what` from `low` to `high`, where it is set.
pub fn validate_set_bounds(
    value: Option<u32>,
    low: u64,
    high: u64,
    what: &str,
    context: &str,
) -> (r: Result<(), ConfigError>)
    ensures
        error::is_outcome(r, set_bounds_fault(value, low as nat, high as nat, what@, context@)),
{
    match value {
        Some(v) => validate_bounds(v as u64, low, high, what, context),
        None => Ok(()),
    }
}

// ---------------------------------------------------------------------------
// The node
// ---------------------------------------------------------------------------

/// The rules for the log shipper: a log file is rotated at 1 to 4096 MB, with at
/// most 100 backups.
pub open spec fn logging_fault(logging: LoggingConfig) -> Option<Seq<char>> {
    match logging.json_target {
        Some(JsonLogTarget::File { max_size_mb, max_backups, .. }) => bounds_fault(
            max_size_mb as nat,
            1,
            4096,
            "max_size_mb"@,
            "Logging"@,
        ).otherwise(bounds_fault(max_backups as nat, 0, 100, "max_backups"@, "Logging"@)),
        _ => None,
    }
}

/// Checks the log shipper.
pub fn validate_logging(logging: &LoggingConfig) -> (r: Result<(), ConfigError>)
    ensures
        error::is_outcome(r, logging_fault(*logging)),
{
    if let Some(JsonLogTarget::File { max_size_mb, max_backups, .. }) = &logging.json_target {
        validate_bounds(*max_size_mb as u64, 1, 4096, "max_size_mb", "Logging")?;
        validate_bounds(*max_backups as u64, 0, 100, "max_backups", "Logging")?;
    }
    Ok(())
}

/// A percentage `what`.
pub open spec fn percent_fault(value: Binary64, what: Seq<char>) -> Option<Seq<char>> {
    error::check(
        !(binary::le(0, value.bits) && binary::le(value.bits, binary::HUNDRED)),
        "Resource limits: "@ + what + " must be 0-100, got "@ + value.text@,
    )
}

fn validate_percent(value: &Binary64, what: &str) -> (r: Result<(), ConfigError>)
    ensures
        error::is_outcome(r, percent_fault(*value, what@)),
{
    if !(binary::at_most(0, value.bits) && binary::at_most(value.bits, binary::HUNDRED)) {
        return fail(
            text::cat4("Resource limits: ", what, " must be 0-100, got ", value.text.as_str()),
        );
    }
    Ok(())
}

/// The rules for the resource thresholds: percentages.
pub open spec fn resources_fault(limits: ResourceLimitConfig) -> Option<Seq<char>> {
    percent_fault(limits.cpu_warning_percent, "cpu_warning_percent"@).otherwise(
        percent_fault(limits.cpu_critical_percent, "cpu_critical_percent"@),
    ).otherwise(
        percent_fault(limits.ram_warning_percent, "ram_warning_percent"@),
    ).otherwise(
        percent_fault(limits.ram_critical_percent, "ram_critical_percent"@),
    )
}

/// Checks the resource thresholds.
pub fn validate_resources(limits: &ResourceLimitConfig) -> (r: Result<(), ConfigError>)
    ensures
        error::is_outcome(r, resources_fault(*limits)),
{
    validate_percent(&limits.cpu_warning_percent, "cpu_warning_percent")?;
    validate_percent(&limits.cpu_critical_percent, "cpu_critical_percent")?;
    validate_percent(&limits.ram_warning_percent, "ram_warning_percent")?;
    validate_percent(&limits.ram_critical_percent, "ram_critical_percent")
}

/// The rules for the registration with an NMOS registry, where it is enabled.
pub open spec fn nmos_fault(nmos: NmosRegistrationConfig) -> Option<Seq<char>> {
    error::check(
        nmos.enabled && nmos.api_version@ != "v1.3"@,
        "NMOS registration: api_version must be 'v1.3', got '"@ + nmos.api_version@ + "'"@,
    )
}

/// Checks the registration with an NMOS registry.
pub fn validate_nmos(nmos: &NmosRegistrationConfig) -> (r: Result<(), ConfigError>)
    ensures
        error::is_outcome(r, nmos_fault(*nmos)),
{
    if nmos.enabled && !text::str_eq(nmos.api_version.as_str(), "v1.3") {
        return fail(
            text::cat3(
                "NMOS registration: api_version must be 'v1.3', got '",
                nmos.api_version.as_str(),
                "'",
            ),
        );
    }
    Ok(())
}

// ---------------------------------------------------------------------------
// Flows
// ---------------------------------------------------------------------------

/// The rules for the master clock of a flow. A lock timeout of zero means none.
pub open spec fn master_clock_fault(
    clock: MasterClockConfig,
    context: Seq<char>,
) -> Option<Seq<char>> {
    error::when(
        clock.pll_lock_timeout_s != Some(0u32),
        set_bounds_fault(clock.pll_lock_timeout_s, 5, 300, "pll_lock_timeout_s"@, context),
    ).otherwise(
        set_bounds_fault(clock.pll_lock_jitter_us, 50, 5000, "pll_lock_jitter_us"@, context),
    )
}

/// Checks the master clock of a flow.
pub fn validate_master_clock(clock: &MasterClockConfig, context: &str) -> (r: Result<
    (),
    ConfigError,
>)
    ensures
        error::is_outcome(r, master_clock_fault(*clock, context@)),
{
    if let Some(secs) = clock.pll_lock_timeout_s {
        if secs != 0 {
            validate_bounds(secs as u64, 5, 300, "pll_lock_timeout_s", context)?;
        }
    }
    validate_set_bounds(clock.pll_lock_jitter_us, 50, 5000, "pll_lock_jitter_us", context)
}

/// The rules for the recording of a flow.
pub open spec fn recording_fault(
    recording: RecordingConfig,
    context: Seq<char>,
) -> Option<Seq<char>> {
    bounds_fault(recording.segment_seconds as nat, 2, 60, "segment_seconds"@, context).otherwise(
        set_bounds_fault(recording.pre_buffer_seconds, 1, 300, "pre_buffer_seconds"@, context),
    ).otherwise(
        set_bounds_fault(recording.filmstrip_seconds, 1, 30, "filmstrip_seconds"@, context),
    )
}

/// Checks the recording of a flow.
pub fn validate_recording(recording: &RecordingConfig, context: &str) -> (r: Result<
    (),
    ConfigError,
>)
    ensures
        error::is_outcome(r, recording_fault(*recording, context@)),
{
    validate_bounds(recording.segment_seconds as u64, 2, 60, "segment_seconds", context)?;
    validate_set_bounds(recording.pre_buffer_seconds, 1, 300, "pre_buffer_seconds", context)?;
    validate_set_bounds(recording.filmstrip_seconds, 1, 30, "filmstrip_seconds", context)
}

// ---------------------------------------------------------------------------
// Inputs
// ---------------------------------------------------------------------------

/// The rules for a test pattern.
pub open spec fn test_pattern_fault(c: TestPatternInputConfig) -> Option<Seq<char>> {
    error::check(
        c.width % 2 != 0 || c.height % 2 != 0,
        "Test pattern input: width and height must be divisible by 2"@,
    ).otherwise(
        bounds_fault(c.fps as nat, 1, 60, "fps"@, "Test pattern input"@),
    ).otherwise(
        error::check(
            !(binary::FIFTY_SINGLE <= c.tone_hz.bits <= binary::EIGHT_THOUSAND_SINGLE),
            "Test pattern input: tone_hz must be 50-8000"@,
        ),
    ).otherwise(
        error::check(
            c.av_sync_marker && !c.audio_enabled,
            "Test pattern input: av_sync_marker requires audio_enabled"@,
        ),
    ).otherwise(
        error::check(
            c.audio_enabled && !(c.audio_channels == 1 || c.audio_channels == 2
                || c.audio_channels == 6 || c.audio_channels == 8),
            "Test pattern input: audio_channels must be 1, 2, 6 or 8"@,
        ),
    ).otherwise(
        bounds_fault(
            c.ts_packets_per_datagram as nat,
            1,
            348,
            "ts_packets_per_datagram"@,
            "Test pattern input"@,
        ),
    )
}

/// Checks a test pattern.
pub fn validate_test_pattern(c: &TestPatternInputConfig) -> (r: Result<(), ConfigError>)
    ensures
        error::is_outcome(r, test_pattern_fault(*c)),
{
    if c.width % 2 != 0 || c.height % 2 != 0 {
        return fail("Test pattern input: width and height must be divisible by 2".to_owned());
    }
    validate_bounds(c.fps as u64, 1, 60, "fps", "Test pattern input")?;
    if !(binary::FIFTY_SINGLE <= c.tone_hz.bits && c.tone_hz.bits
        <= binary::EIGHT_THOUSAND_SINGLE) {
        return fail("Test pattern input: tone_hz must be 50-8000".to_owned());
    }
    if c.av_sync_marker && !c.audio_enabled {
        return fail("Test pattern input: av_sync_marker requires audio_enabled".to_owned());
    }
    if c.audio_enabled && !(c.audio_channels == 1 || c.audio_channels == 2 || c.audio_channels == 6
        || c.audio_channels == 8) {
        return fail("Test pattern input: audio_channels must be 1, 2, 6 or 8".to_owned());
    }
    validate_bounds(
        c.ts_packets_per_datagram as u64,
        1,
        348,
        "ts_packets_per_datagram",
        "Test pattern input",
    )
}

/// Whether a text names a file on its own, with no directory.
pub open spec fn is_file_name(s: Seq<char>) -> bool {
    s.len() > 0 && s != "."@ && s != ".."@ && !s.contains('/')
}

fn names_file(s: &str) -> (r: bool)
    ensures
        r == is_file_name(s@),
{
    if s.is_empty() || text::str_eq(s, ".") || text::str_eq(s, "..") {
        return false;
    }
    let n: usize = s.unicode_len();
    let mut i: usize = 0;
    while i < n
        invariant
            n == s@.len(),
            i <= n,
            forall|j: int| 0 <= j < i ==> s@[j] != '/',
        decreases n - i,
    {
        if s.get_char(i) == '/' {
            assert(s@[i as int] == '/');
            return false;
        }
        i = i + 1;
    }
    true
}

/// The file of an asset.
pub open spec fn asset_name(source: MediaPlayerSource) -> Seq<char> {
    match source {
        MediaPlayerSource::Ts { name, .. } => name@,
        MediaPlayerSource::Mp4 { name } => name@,
        MediaPlayerSource::Image { name, .. } => name@,
    }
}

/// The rules for an asset of a media player: a file in the media library, and
/// the program that is played of it.
pub open spec fn asset_fault(source: MediaPlayerSource) -> Option<Seq<char>> {
    error::check(
        !is_file_name(asset_name(source)),
        "Media player input source: '"@ + asset_name(source) + "' is not a file name"@,
    ).otherwise(
        match source {
            MediaPlayerSource::Ts { program_number, .. } => fields::program_number_fault(
                program_number,
                "Media player input source"@,
            ),
            _ => None,
        },
    )
}

/// The check of every asset of a media player.
pub open spec fn asset_check() -> spec_fn(int, MediaPlayerSource) -> Option<Seq<char>> {
    |i: int, source: MediaPlayerSource| asset_fault(source)
}

/// Checks an asset of a media player.
pub fn validate_asset(source: &MediaPlayerSource) -> (r: Result<(), ConfigError>)
    ensures
        error::is_outcome(r, asset_fault(*source)),
{
    let name = match source {
        MediaPlayerSource::Ts { name, .. } => name,
        MediaPlayerSource::Mp4 { name } => name,
        MediaPlayerSource::Image { name, .. } => name,
    };
    if !names_file(name.as_str()) {
        return fail(
            text::cat3(
                "Media player input source: '",
                name.as_str(),
                "' is not a file name",
            ),
        );
    }
    if let MediaPlayerSource::Ts { program_number, .. } = source {
        validate_program_number(*program_number, "Media player input source")?;
    }
    Ok(())
}

/// The rules for a media player.
pub open spec fn media_player_fault(c: MediaPlayerInputConfig) -> Option<Seq<char>> {
    error::check(
        c.sources@.len() == 0,
        "Media player input: sources cannot be empty"@,
    ).otherwise(
        error::first_fault(c.sources@, asset_check(), 0),
    ).otherwise(
        error::when(
            c.paced_bitrate_bps is Some,
            bounds_fault(
                c.paced_bitrate_bps->0 as nat,
                100_000,
                200_000_000,
                "paced_bitrate_bps"@,
                "Media player input"@,
            ),
        ),
    ).otherwise(
        bounds_fault(
            c.ts_packets_per_datagram as nat,
            1,
            348,
            "ts_packets_per_datagram"@,
            "Media player input"@,
        ),
    )
}

/// Checks a media player.
pub fn validate_media_player(c: &MediaPlayerInputConfig) -> (r: Result<(), ConfigError>)
    ensures
        error::is_outcome(r, media_player_fault(*c)),
{
    if c.sources.len() == 0 {
        return fail("Media player input: sources cannot be empty".to_owned());
    }
    let mut i: usize = 0;
    while i < c.sources.len()
        invariant
            i <= c.sources@.len(),
            c.sources@.len() > 0,
            error::first_fault(c.sources@, asset_check(), 0) == error::first_fault(
                c.sources@,
                asset_check(),
                i as int,
            ),
        decreases c.sources.len() - i,
    {
        validate_asset(&c.sources[i])?;
        i = i + 1;
    }
    if let Some(bps) = c.paced_bitrate_bps {
        validate_bounds(bps, 100_000, 200_000_000, "paced_bitrate_bps", "Media player input")?;
    }
    validate_bounds(
        c.ts_packets_per_datagram as u64,
        1,
        348,
        "ts_packets_per_datagram",
        "Media player input",
    )
}

/// A fixed delay of an input: up to a second.
pub open spec fn ingress_delay_fault(
    delay_ms: Option<u16>,
    context: Seq<char>,
) -> Option<Seq<char>> {
    error::when(
        delay_ms is Some,
        bounds_fault(delay_ms->0 as nat, 0, 1000, "ingress_delay_ms"@, context),
    )
}

/// Checks a fixed delay of an input.
pub fn validate_ingress_delay(delay_ms: Option<u16>, context: &str) -> (r: Result<(), ConfigError>)
    ensures
        error::is_outcome(r, ingress_delay_fault(delay_ms, context@)),
{
    match delay_ms {
        Some(ms) => validate_bounds(ms as u64, 0, 1000, "ingress_delay_ms", context),
        None => Ok(()),
    }
}

/// A de-jitter buffer of an input.
pub open spec fn dejitter_fault(depth_ms: Option<u32>, context: Seq<char>) -> Option<Seq<char>> {
    set_bounds_fault(depth_ms, 20, 2000, "ingress_dejitter_ms"@, context)
}

/// The number of channels of audio in shared memory.
pub open spec fn mxl_channels_fault(channels: u8, context: Seq<char>) -> Option<Seq<char>> {
    error::check(
        !(channels == 1 || channels == 2 || channels == 4 || channels == 8 || channels == 16),
        context + ": channels must be 1, 2, 4, 8 or 16, got "@ + text::dec(channels as nat),
    )
}

fn validate_mxl_channels(channels: u8, context: &str) -> (r: Result<(), ConfigError>)
    ensures
        error::is_outcome(r, mxl_channels_fault(channels, context@)),
{
    if !(channels == 1 || channels == 2 || channels == 4 || channels == 8 || channels == 16) {
        return fail(
            text::cat3(
                context,
                ": channels must be 1, 2, 4, 8 or 16, got ",
                text::dec_string(channels as u64).as_str(),
            ),
        );
    }
    Ok(())
}

/// The bounds on the settings of an input.
pub open spec fn input_bounds_fault(input: InputConfig) -> Option<Seq<char>> {
    match input {
        InputConfig::Rtp(c) => ingress_delay_fault(c.ingress_delay_ms, "RTP input"@).otherwise(
            dejitter_fault(c.ingress_dejitter_ms, "RTP input"@),
        ).otherwise(
            error::when(
                c.redundancy is Some,
                set_bounds_fault(
                    c.redundancy->0.path_differential_ms,
                    5,
                    2000,
                    "path_differential_ms"@,
                    "RTP input redundancy"@,
                ),
            ),
        ),
        InputConfig::Udp(c) => ingress_delay_fault(c.ingress_delay_ms, "UDP input"@).otherwise(
            dejitter_fault(c.ingress_dejitter_ms, "UDP input"@),
        ),
        InputConfig::Srt(c) => ingress_delay_fault(c.ingress_delay_ms, "SRT input"@),
        InputConfig::Rtmp(c) => ingress_delay_fault(c.ingress_delay_ms, "RTMP input"@),
        InputConfig::Rtsp(c) => ingress_delay_fault(c.ingress_delay_ms, "RTSP input"@),
        InputConfig::TestPattern(c) => test_pattern_fault(c),
        InputConfig::MediaPlayer(c) => media_player_fault(c),
        InputConfig::Replay(c) => error::check(
            c.recording_id@.len() == 0,
            "Replay input: recording_id cannot be empty"@,
        ),
        InputConfig::MxlVideo(c) => fields::clock_domain_fault(c.clock_domain, "MXL input"@),
        InputConfig::MxlAudio(c) => mxl_channels_fault(c.channels, "MXL input"@).otherwise(
            fields::clock_domain_fault(c.clock_domain, "MXL input"@),
        ),
        InputConfig::MxlAnc(c) => fields::clock_domain_fault(c.clock_domain, "MXL input"@),
        InputConfig::Sdi(c) => sdi_channels_fault(c.audio_channels, "SDI input"@),
        _ => None,
    }
}

/// Checks the bounds on the settings of an input.
pub fn validate_input_bounds(input: &InputConfig) -> (r: Result<(), ConfigError>)
    ensures
        error::is_outcome(r, input_bounds_fault(*input)),
{
    match input {
        InputConfig::Rtp(c) => {
            validate_ingress_delay(c.ingress_delay_ms, "RTP input")?;
            validate_set_bounds(
                c.ingress_dejitter_ms,
                20,
                2000,
                "ingress_dejitter_ms",
                "RTP input",
            )?;
            if let Some(red) = &c.redundancy {
                validate_set_bounds(
                    red.path_differential_ms,
                    5,
                    2000,
                    "path_differential_ms",
                    "RTP input redundancy",
                )?;
            }
            Ok(())
        },
        InputConfig::Udp(c) => {
            validate_ingress_delay(c.ingress_delay_ms, "UDP input")?;
            validate_set_bounds(c.ingress_dejitter_ms, 20, 2000, "ingress_dejitter_ms", "UDP input")
        },
        InputConfig::Srt(c) => validate_ingress_delay(c.ingress_delay_ms, "SRT input"),
        InputConfig::Rtmp(c) => validate_ingress_delay(c.ingress_delay_ms, "RTMP input"),
        InputConfig::Rtsp(c) => validate_ingress_delay(c.ingress_delay_ms, "RTSP input"),
        InputConfig::TestPattern(c) => validate_test_pattern(c),
        InputConfig::MediaPlayer(c) => validate_media_player(c),
        InputConfig::Replay(c) => {
            if c.recording_id.as_str().is_empty() {
                return fail("Replay input: recording_id cannot be empty".to_owned());
            }
            Ok(())
        },
        InputConfig::MxlVideo(c) => validate_clock_domain(c.clock_domain, "MXL input"),
        InputConfig::MxlAudio(c) => {
            validate_mxl_channels(c.channels, "MXL input")?;
            validate_clock_domain(c.clock_domain, "MXL input")
        },
        InputConfig::MxlAnc(c) => validate_clock_domain(c.clock_domain, "MXL input"),
        InputConfig::Sdi(c) => validate_sdi_channels(c.audio_channels, "SDI input"),
        _ => Ok(()),
    }
}

// ---------------------------------------------------------------------------
// Outputs
// ---------------------------------------------------------------------------

/// The number of embedded audio channels of an SDI signal.
pub open spec fn sdi_channels_fault(channels: u8, context: Seq<char>) -> Option<Seq<char>> {
    error::check(
        !(channels == 0 || channels == 2 || channels == 8 || channels == 16),
        context + ": audio_channels must be 0, 2, 8 or 16, got "@ + text::dec(channels as nat),
    )
}

fn validate_sdi_channels(channels: u8, context: &str) -> (r: Result<(), ConfigError>)
    ensures
        error::is_outcome(r, sdi_channels_fault(channels, context@)),
{
    if !(channels == 0 || channels == 2 || channels == 8 || channels == 16) {
        return fail(
            text::cat3(
                context,
                ": audio_channels must be 0, 2, 8 or 16, got ",
                text::dec_string(channels as u64).as_str(),
            ),
        );
    }
    Ok(())
}

/// The rules for the delay of an output.
pub open spec fn delay_fault(delay: Option<OutputDelay>, context: Seq<char>) -> Option<Seq<char>> {
    match delay {
        Some(OutputDelay::Fixed { ms }) => bounds_fault(ms as nat, 0, 10_000, "delay ms"@, context),
        Some(OutputDelay::TargetMs { ms }) => bounds_fault(
            ms as nat,
            1,
            10_000,
            "delay ms"@,
            context,
        ),
        Some(OutputDelay::TargetFrames { frames, .. }) => error::check(
            !(binary::le(binary::HUNDREDTH, frames.bits) && binary::le(
                frames.bits,
                binary::THREE_HUNDRED,
            )),
            context + ": delay frames must be 0.01-300.0, got "@ + frames.text@,
        ),
        None => None,
    }
}

/// Checks the delay of an output.
pub fn validate_delay(delay: &Option<OutputDelay>, context: &str) -> (r: Result<(), ConfigError>)
    ensures
        error::is_outcome(r, delay_fault(*delay, context@)),
{
    match delay {
        Some(OutputDelay::Fixed { ms }) => validate_bounds(*ms, 0, 10_000, "delay ms", context),
        Some(OutputDelay::TargetMs { ms }) => validate_bounds(*ms, 1, 10_000, "delay ms", context),
        Some(OutputDelay::TargetFrames { frames, .. }) => {
            if !(binary::at_most(binary::HUNDREDTH, frames.bits) && binary::at_most(
                frames.bits,
                binary::THREE_HUNDRED,
            )) {
                return fail(
                    text::cat3(
                        context,
                        ": delay frames must be 0.01-300.0, got ",
                        frames.text.as_str(),
                    ),
                );
            }
            Ok(())
        },
        None => Ok(()),
    }
}

/// The rules for the audio of a display: one of 16 tracks, and two of its first
/// eight channels.
pub open spec fn display_audio_fault(
    c: DisplayOutputConfig,
    context: Seq<char>,
) -> Option<Seq<char>> {
    let (left, right) = (c.audio_channel_pair@[0], c.audio_channel_pair@[1]);
    error::when(
        c.audio_track_index is Some,
        bounds_fault(c.audio_track_index->0 as nat, 0, 15, "audio_track_index"@, context),
    ).otherwise(
        error::check(
            left >= 8 || right >= 8 || left == right,
            context + ": audio_channel_pair must be two different channels below 8"@,
        ),
    )
}

fn validate_display_audio(c: &DisplayOutputConfig, context: &str) -> (r: Result<(), ConfigError>)
    ensures
        error::is_outcome(r, display_audio_fault(*c, context@)),
{
    if let Some(track) = c.audio_track_index {
        validate_bounds(track as u64, 0, 15, "audio_track_index", context)?;
    }
    let left: u8 = c.audio_channel_pair[0];
    let right: u8 = c.audio_channel_pair[1];
    if left >= 8 || right >= 8 || left == right {
        return fail(
            text::cat2(context, ": audio_channel_pair must be two different channels below 8"),
        );
    }
    Ok(())
}

/// The identifier and the name of an output for which the rules of its protocol
/// do not ask.
pub open spec fn naming_fault(
    id: Seq<char>,
    name: Seq<char>,
    context: Seq<char>,
) -> Option<Seq<char>> {
    fields::id_fault(id, context).otherwise(fields::name_fault(name, context))
}

fn validate_naming(id: &str, name: &str, context: &str) -> (r: Result<(), ConfigError>)
    ensures
        error::is_outcome(r, naming_fault(id@, name@, context@)),
{
    validate_id(id, context)?;
    validate_name(name, context)
}

/// The bounds on the settings of an output.
pub open spec fn output_bounds_fault(output: OutputConfig) -> Option<Seq<char>> {
    let context = "Output '"@ + output.spec_id() + "'"@;
    match output {
        OutputConfig::Rtp(c) => delay_fault(c.delay, context),
        OutputConfig::Udp(c) => delay_fault(c.delay, context),
        OutputConfig::Srt(c) => delay_fault(c.delay, context),
        OutputConfig::Rist(c) => delay_fault(c.delay, context),
        OutputConfig::Bonded(c) => naming_fault(c.id@, c.name@, "Bonded output"@),
        OutputConfig::Display(c) => naming_fault(c.id@, c.name@, "Display output"@).otherwise(
            display_audio_fault(c, context),
        ),
        OutputConfig::Sdi(c) => naming_fault(c.id@, c.name@, "SDI output"@).otherwise(
            error::check(c.mode@.len() == 0, context + ": mode cannot be empty"@),
        ).otherwise(sdi_channels_fault(c.audio_channels, context)),
        OutputConfig::MxlVideo(c) => naming_fault(c.id@, c.name@, "MXL output"@).otherwise(
            fields::clock_domain_fault(c.clock_domain, context),
        ),
        OutputConfig::MxlAudio(c) => naming_fault(c.id@, c.name@, "MXL output"@).otherwise(
            mxl_channels_fault(c.channels, context),
        ).otherwise(fields::clock_domain_fault(c.clock_domain, context)),
        OutputConfig::MxlAnc(c) => naming_fault(c.id@, c.name@, "MXL output"@).otherwise(
            fields::clock_domain_fault(c.clock_domain, context),
        ),
        _ => None,
    }
}

/// Checks the bounds on the settings of an output.
pub fn validate_output_bounds(output: &OutputConfig) -> (r: Result<(), ConfigError>)
    ensures
        error::is_outcome(r, output_bounds_fault(*output)),
{
    let label = text::cat3("Output '", output.id(), "'");
    let context = label.as_str();
    match output {
        OutputConfig::Rtp(c) => validate_delay(&c.delay, context),
        OutputConfig::Udp(c) => validate_delay(&c.delay, context),
        OutputConfig::Srt(c) => validate_delay(&c.delay, context),
        OutputConfig::Rist(c) => validate_delay(&c.delay, context),
        OutputConfig::Bonded(c) => validate_naming(
            c.id.as_str(),
            c.name.as_str(),
            "Bonded output",
        ),
        OutputConfig::Display(c) => {
            validate_naming(c.id.as_str(), c.name.as_str(), "Display output")?;
            validate_display_audio(c, context)
        },
        OutputConfig::Sdi(c) => {
            validate_naming(c.id.as_str(), c.name.as_str(), "SDI output")?;
            if c.mode.as_str().is_empty() {
                return fail(text::cat2(context, ": mode cannot be empty"));
            }
            validate_sdi_channels(c.audio_channels, context)
        },
        OutputConfig::MxlVideo(c) => {
            validate_naming(c.id.as_str(), c.name.as_str(), "MXL output")?;
            validate_clock_domain(c.clock_domain, context)
        },
        OutputConfig::MxlAudio(c) => {
            validate_naming(c.id.as_str(), c.name.as_str(), "MXL output")?;
            validate_mxl_channels(c.channels, context)?;
            validate_clock_domain(c.clock_domain, context)
        },
        OutputConfig::MxlAnc(c) => {
            validate_naming(c.id.as_str(), c.name.as_str(), "MXL output")?;
            validate_clock_domain(c.clock_domain, context)
        },
        _ => Ok(()),
    }
}

} // verus!
