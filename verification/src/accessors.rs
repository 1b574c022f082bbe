//! What all outputs, and all inputs, have in common.

use vstd::prelude::*;

use crate::models::{
    BondedOutputConfig, CmafOutputConfig, DisplayOutputConfig, HlsOutputConfig, InputConfig,
    MxlAncOutputConfig, MxlAudioOutputConfig, MxlVideoOutputConfig, OutputConfig,
    RistOutputConfig, RtmpOutputConfig, RtpAudioOutputConfig, RtpOutputConfig, SdiOutputConfig,
    SrtOutputConfig, St2110AncillaryOutputConfig, St2110AudioOutputConfig,
    St2110VideoOutputConfig, St2110_23OutputConfig, UdpOutputConfig, WebrtcOutputConfig,
};
use crate::text;

verus! {

impl OutputConfig {
    /// The identifier of the output.
    pub open spec fn spec_id(self) -> Seq<char> {
        match self {
            OutputConfig::Rtp(c) => c.id@,
            OutputConfig::Udp(c) => c.id@,
            OutputConfig::Srt(c) => c.id@,
            OutputConfig::Rist(c) => c.id@,
            OutputConfig::Rtmp(c) => c.id@,
            OutputConfig::Hls(c) => c.id@,
            OutputConfig::Cmaf(c) => c.id@,
            OutputConfig::Webrtc(c) => c.id@,
            OutputConfig::St2110_30(c) => c.id@,
            OutputConfig::St2110_31(c) => c.id@,
            OutputConfig::St2110_40(c) => c.id@,
            OutputConfig::St2110_20(c) => c.id@,
            OutputConfig::St2110_23(c) => c.id@,
            OutputConfig::RtpAudio(c) => c.id@,
            OutputConfig::Bonded(c) => c.id@,
            OutputConfig::Display(c) => c.id@,
            OutputConfig::Sdi(c) => c.id@,
            OutputConfig::MxlVideo(c) => c.id@,
            OutputConfig::MxlAudio(c) => c.id@,
            OutputConfig::MxlAnc(c) => c.id@,
        }
    }

    /// The name of the output.
    pub open spec fn spec_name(self) -> Seq<char> {
        match self {
            OutputConfig::Rtp(c) => c.name@,
            OutputConfig::Udp(c) => c.name@,
            OutputConfig::Srt(c) => c.name@,
            OutputConfig::Rist(c) => c.name@,
            OutputConfig::Rtmp(c) => c.name@,
            OutputConfig::Hls(c) => c.name@,
            OutputConfig::Cmaf(c) => c.name@,
            OutputConfig::Webrtc(c) => c.name@,
            OutputConfig::St2110_30(c) => c.name@,
            OutputConfig::St2110_31(c) => c.name@,
            OutputConfig::St2110_40(c) => c.name@,
            OutputConfig::St2110_20(c) => c.name@,
            OutputConfig::St2110_23(c) => c.name@,
            OutputConfig::RtpAudio(c) => c.name@,
            OutputConfig::Bonded(c) => c.name@,
            OutputConfig::Display(c) => c.name@,
            OutputConfig::Sdi(c) => c.name@,
            OutputConfig::MxlVideo(c) => c.name@,
            OutputConfig::MxlAudio(c) => c.name@,
            OutputConfig::MxlAnc(c) => c.name@,
        }
    }

    /// Whether the output is active.
    pub open spec fn spec_active(self) -> bool {
        match self {
            OutputConfig::Rtp(c) => c.active,
            OutputConfig::Udp(c) => c.active,
            OutputConfig::Srt(c) => c.active,
            OutputConfig::Rist(c) => c.active,
            OutputConfig::Rtmp(c) => c.active,
            OutputConfig::Hls(c) => c.active,
            OutputConfig::Cmaf(c) => c.active,
            OutputConfig::Webrtc(c) => c.active,
            OutputConfig::St2110_30(c) => c.active,
            OutputConfig::St2110_31(c) => c.active,
            OutputConfig::St2110_40(c) => c.active,
            OutputConfig::St2110_20(c) => c.active,
            OutputConfig::St2110_23(c) => c.active,
            OutputConfig::RtpAudio(c) => c.active,
            OutputConfig::Bonded(c) => c.active,
            OutputConfig::Display(c) => c.active,
            OutputConfig::Sdi(c) => c.active,
            OutputConfig::MxlVideo(c) => c.active,
            OutputConfig::MxlAudio(c) => c.active,
            OutputConfig::MxlAnc(c) => c.active,
        }
    }

    /// The group tag of the output.
    pub open spec fn spec_group(self) -> Option<Seq<char>> {
        match self {
            OutputConfig::Rtp(c) => text::opt_view(c.group),
            OutputConfig::Udp(c) => text::opt_view(c.group),
            OutputConfig::Srt(c) => text::opt_view(c.group),
            OutputConfig::Rist(c) => text::opt_view(c.group),
            OutputConfig::Rtmp(c) => text::opt_view(c.group),
            OutputConfig::Hls(c) => text::opt_view(c.group),
            OutputConfig::Cmaf(c) => text::opt_view(c.group),
            OutputConfig::Webrtc(c) => text::opt_view(c.group),
            OutputConfig::St2110_30(c) => text::opt_view(c.group),
            OutputConfig::St2110_31(c) => text::opt_view(c.group),
            OutputConfig::St2110_40(c) => text::opt_view(c.group),
            OutputConfig::St2110_20(c) => text::opt_view(c.group),
            OutputConfig::St2110_23(c) => text::opt_view(c.group),
            OutputConfig::RtpAudio(c) => text::opt_view(c.group),
            OutputConfig::Bonded(c) => text::opt_view(c.group),
            OutputConfig::Display(c) => text::opt_view(c.group),
            OutputConfig::Sdi(c) => text::opt_view(c.group),
            OutputConfig::MxlVideo(c) => text::opt_view(c.group),
            OutputConfig::MxlAudio(c) => text::opt_view(c.group),
            OutputConfig::MxlAnc(c) => text::opt_view(c.group),
        }
    }

    /// The name of the output's type in the configuration file.
    pub open spec fn spec_type_tag(self) -> Seq<char> {
        match self {
            OutputConfig::Rtp(_) => "rtp"@,
            OutputConfig::Udp(_) => "udp"@,
            OutputConfig::Srt(_) => "srt"@,
            OutputConfig::Rist(_) => "rist"@,
            OutputConfig::Rtmp(_) => "rtmp"@,
            OutputConfig::Hls(_) => "hls"@,
            OutputConfig::Cmaf(_) => "cmaf"@,
            OutputConfig::Webrtc(_) => "webrtc"@,
            OutputConfig::St2110_30(_) => "st2110_30"@,
            OutputConfig::St2110_31(_) => "st2110_31"@,
            OutputConfig::St2110_40(_) => "st2110_40"@,
            OutputConfig::St2110_20(_) => "st2110_20"@,
            OutputConfig::St2110_23(_) => "st2110_23"@,
            OutputConfig::RtpAudio(_) => "rtp_audio"@,
            OutputConfig::Bonded(_) => "bonded"@,
            OutputConfig::Display(_) => "display"@,
            OutputConfig::Sdi(_) => "sdi"@,
            OutputConfig::MxlVideo(_) => "mxl_video"@,
            OutputConfig::MxlAudio(_) => "mxl_audio"@,
            OutputConfig::MxlAnc(_) => "mxl_anc"@,
        }
    }

    /// The output with its active flag replaced.
    pub open spec fn with_active(self, active: bool) -> OutputConfig {
        match self {
            OutputConfig::Rtp(c) => OutputConfig::Rtp(RtpOutputConfig { active, ..c }),
            OutputConfig::Udp(c) => OutputConfig::Udp(UdpOutputConfig { active, ..c }),
            OutputConfig::Srt(c) => OutputConfig::Srt(SrtOutputConfig { active, ..c }),
            OutputConfig::Rist(c) => OutputConfig::Rist(RistOutputConfig { active, ..c }),
            OutputConfig::Rtmp(c) => OutputConfig::Rtmp(RtmpOutputConfig { active, ..c }),
            OutputConfig::Hls(c) => OutputConfig::Hls(HlsOutputConfig { active, ..c }),
            OutputConfig::Cmaf(c) => OutputConfig::Cmaf(CmafOutputConfig { active, ..c }),
            OutputConfig::Webrtc(c) => OutputConfig::Webrtc(WebrtcOutputConfig { active, ..c }),
            OutputConfig::St2110_30(c) => OutputConfig::St2110_30(St2110AudioOutputConfig { active, ..c }),
            OutputConfig::St2110_31(c) => OutputConfig::St2110_31(St2110AudioOutputConfig { active, ..c }),
            OutputConfig::St2110_40(c) => OutputConfig::St2110_40(St2110AncillaryOutputConfig { active, ..c }),
            OutputConfig::St2110_20(c) => OutputConfig::St2110_20(St2110VideoOutputConfig { active, ..c }),
            OutputConfig::St2110_23(c) => OutputConfig::St2110_23(St2110_23OutputConfig { active, ..c }),
            OutputConfig::RtpAudio(c) => OutputConfig::RtpAudio(RtpAudioOutputConfig { active, ..c }),
            OutputConfig::Bonded(c) => OutputConfig::Bonded(BondedOutputConfig { active, ..c }),
            OutputConfig::Display(c) => OutputConfig::Display(DisplayOutputConfig { active, ..c }),
            OutputConfig::Sdi(c) => OutputConfig::Sdi(SdiOutputConfig { active, ..c }),
            OutputConfig::MxlVideo(c) => OutputConfig::MxlVideo(MxlVideoOutputConfig { active, ..c }),
            OutputConfig::MxlAudio(c) => OutputConfig::MxlAudio(MxlAudioOutputConfig { active, ..c }),
            OutputConfig::MxlAnc(c) => OutputConfig::MxlAnc(MxlAncOutputConfig { active, ..c }),
        }
    }

    /// The identifier of the output.
    pub fn id(&self) -> (r: &str)
        ensures
            r@ == self.spec_id(),
    {
        match self {
            OutputConfig::Rtp(c) => c.id.as_str(),
            OutputConfig::Udp(c) => c.id.as_str(),
            OutputConfig::Srt(c) => c.id.as_str(),
            OutputConfig::Rist(c) => c.id.as_str(),
            OutputConfig::Rtmp(c) => c.id.as_str(),
            OutputConfig::Hls(c) => c.id.as_str(),
            OutputConfig::Cmaf(c) => c.id.as_str(),
            OutputConfig::Webrtc(c) => c.id.as_str(),
            OutputConfig::St2110_30(c) => c.id.as_str(),
            OutputConfig::St2110_31(c) => c.id.as_str(),
            OutputConfig::St2110_40(c) => c.id.as_str(),
            OutputConfig::St2110_20(c) => c.id.as_str(),
            OutputConfig::St2110_23(c) => c.id.as_str(),
            OutputConfig::RtpAudio(c) => c.id.as_str(),
            OutputConfig::Bonded(c) => c.id.as_str(),
            OutputConfig::Display(c) => c.id.as_str(),
            OutputConfig::Sdi(c) => c.id.as_str(),
            OutputConfig::MxlVideo(c) => c.id.as_str(),
            OutputConfig::MxlAudio(c) => c.id.as_str(),
            OutputConfig::MxlAnc(c) => c.id.as_str(),
        }
    }

    /// The name of the output.
    pub fn name(&self) -> (r: &str)
        ensures
            r@ == self.spec_name(),
    {
        match self {
            OutputConfig::Rtp(c) => c.name.as_str(),
            OutputConfig::Udp(c) => c.name.as_str(),
            OutputConfig::Srt(c) => c.name.as_str(),
            OutputConfig::Rist(c) => c.name.as_str(),
            OutputConfig::Rtmp(c) => c.name.as_str(),
            OutputConfig::Hls(c) => c.name.as_str(),
            OutputConfig::Cmaf(c) => c.name.as_str(),
            OutputConfig::Webrtc(c) => c.name.as_str(),
            OutputConfig::St2110_30(c) => c.name.as_str(),
            OutputConfig::St2110_31(c) => c.name.as_str(),
            OutputConfig::St2110_40(c) => c.name.as_str(),
            OutputConfig::St2110_20(c) => c.name.as_str(),
            OutputConfig::St2110_23(c) => c.name.as_str(),
            OutputConfig::RtpAudio(c) => c.name.as_str(),
            OutputConfig::Bonded(c) => c.name.as_str(),
            OutputConfig::Display(c) => c.name.as_str(),
            OutputConfig::Sdi(c) => c.name.as_str(),
            OutputConfig::MxlVideo(c) => c.name.as_str(),
            OutputConfig::MxlAudio(c) => c.name.as_str(),
            OutputConfig::MxlAnc(c) => c.name.as_str(),
        }
    }

    /// The name of the output's type in the configuration file.
    pub fn type_tag(&self) -> (r: &'static str)
        ensures
            r@ == self.spec_type_tag(),
    {
        match self {
            OutputConfig::Rtp(_) => "rtp",
            OutputConfig::Udp(_) => "udp",
            OutputConfig::Srt(_) => "srt",
            OutputConfig::Rist(_) => "rist",
            OutputConfig::Rtmp(_) => "rtmp",
            OutputConfig::Hls(_) => "hls",
            OutputConfig::Cmaf(_) => "cmaf",
            OutputConfig::Webrtc(_) => "webrtc",
            OutputConfig::St2110_30(_) => "st2110_30",
            OutputConfig::St2110_31(_) => "st2110_31",
            OutputConfig::St2110_40(_) => "st2110_40",
            OutputConfig::St2110_20(_) => "st2110_20",
            OutputConfig::St2110_23(_) => "st2110_23",
            OutputConfig::RtpAudio(_) => "rtp_audio",
            OutputConfig::Bonded(_) => "bonded",
            OutputConfig::Display(_) => "display",
            OutputConfig::Sdi(_) => "sdi",
            OutputConfig::MxlVideo(_) => "mxl_video",
            OutputConfig::MxlAudio(_) => "mxl_audio",
            OutputConfig::MxlAnc(_) => "mxl_anc",
        }
    }

    /// Whether the output is active.
    pub fn active(&self) -> (r: bool)
        ensures
            r == self.spec_active(),
    {
        match self {
            OutputConfig::Rtp(c) => c.active,
            OutputConfig::Udp(c) => c.active,
            OutputConfig::Srt(c) => c.active,
            OutputConfig::Rist(c) => c.active,
            OutputConfig::Rtmp(c) => c.active,
            OutputConfig::Hls(c) => c.active,
            OutputConfig::Cmaf(c) => c.active,
            OutputConfig::Webrtc(c) => c.active,
            OutputConfig::St2110_30(c) => c.active,
            OutputConfig::St2110_31(c) => c.active,
            OutputConfig::St2110_40(c) => c.active,
            OutputConfig::St2110_20(c) => c.active,
            OutputConfig::St2110_23(c) => c.active,
            OutputConfig::RtpAudio(c) => c.active,
            OutputConfig::Bonded(c) => c.active,
            OutputConfig::Display(c) => c.active,
            OutputConfig::Sdi(c) => c.active,
            OutputConfig::MxlVideo(c) => c.active,
            OutputConfig::MxlAudio(c) => c.active,
            OutputConfig::MxlAnc(c) => c.active,
        }
    }

    /// Makes the output active or passive. Nothing else changes.
    pub fn set_active(&mut self, active: bool)
        ensures
            *final(self) == old(self).with_active(active),
            final(self).spec_active() == active,
            final(self).spec_id() == old(self).spec_id(),
    {
        match self {
            OutputConfig::Rtp(c) => c.active = active,
            OutputConfig::Udp(c) => c.active = active,
            OutputConfig::Srt(c) => c.active = active,
            OutputConfig::Rist(c) => c.active = active,
            OutputConfig::Rtmp(c) => c.active = active,
            OutputConfig::Hls(c) => c.active = active,
            OutputConfig::Cmaf(c) => c.active = active,
            OutputConfig::Webrtc(c) => c.active = active,
            OutputConfig::St2110_30(c) => c.active = active,
            OutputConfig::St2110_31(c) => c.active = active,
            OutputConfig::St2110_40(c) => c.active = active,
            OutputConfig::St2110_20(c) => c.active = active,
            OutputConfig::St2110_23(c) => c.active = active,
            OutputConfig::RtpAudio(c) => c.active = active,
            OutputConfig::Bonded(c) => c.active = active,
            OutputConfig::Display(c) => c.active = active,
            OutputConfig::Sdi(c) => c.active = active,
            OutputConfig::MxlVideo(c) => c.active = active,
            OutputConfig::MxlAudio(c) => c.active = active,
            OutputConfig::MxlAnc(c) => c.active = active,
        }
    }

    /// The group tag of the output.
    pub fn group(&self) -> (r: Option<&str>)
        ensures
            text::opt_str_view(r) == self.spec_group(),
    {
        match self {
            OutputConfig::Rtp(c) => text::opt_as_str(&c.group),
            OutputConfig::Udp(c) => text::opt_as_str(&c.group),
            OutputConfig::Srt(c) => text::opt_as_str(&c.group),
            OutputConfig::Rist(c) => text::opt_as_str(&c.group),
            OutputConfig::Rtmp(c) => text::opt_as_str(&c.group),
            OutputConfig::Hls(c) => text::opt_as_str(&c.group),
            OutputConfig::Cmaf(c) => text::opt_as_str(&c.group),
            OutputConfig::Webrtc(c) => text::opt_as_str(&c.group),
            OutputConfig::St2110_30(c) => text::opt_as_str(&c.group),
            OutputConfig::St2110_31(c) => text::opt_as_str(&c.group),
            OutputConfig::St2110_40(c) => text::opt_as_str(&c.group),
            OutputConfig::St2110_20(c) => text::opt_as_str(&c.group),
            OutputConfig::St2110_23(c) => text::opt_as_str(&c.group),
            OutputConfig::RtpAudio(c) => text::opt_as_str(&c.group),
            OutputConfig::Bonded(c) => text::opt_as_str(&c.group),
            OutputConfig::Display(c) => text::opt_as_str(&c.group),
            OutputConfig::Sdi(c) => text::opt_as_str(&c.group),
            OutputConfig::MxlVideo(c) => text::opt_as_str(&c.group),
            OutputConfig::MxlAudio(c) => text::opt_as_str(&c.group),
            OutputConfig::MxlAnc(c) => text::opt_as_str(&c.group),
        }
    }
}

impl InputConfig {
    /// The name of the input's type in the configuration file.
    pub open spec fn spec_type_tag(self) -> Seq<char> {
        match self {
            InputConfig::Rtp(_) => "rtp"@,
            InputConfig::Udp(_) => "udp"@,
            InputConfig::Srt(_) => "srt"@,
            InputConfig::Rist(_) => "rist"@,
            InputConfig::Rtmp(_) => "rtmp"@,
            InputConfig::Rtsp(_) => "rtsp"@,
            InputConfig::Webrtc(_) => "webrtc"@,
            InputConfig::Whep(_) => "whep"@,
            InputConfig::St2110_30(_) => "st2110_30"@,
            InputConfig::St2110_31(_) => "st2110_31"@,
            InputConfig::St2110_40(_) => "st2110_40"@,
            InputConfig::St2110_20(_) => "st2110_20"@,
            InputConfig::St2110_23(_) => "st2110_23"@,
            InputConfig::RtpAudio(_) => "rtp_audio"@,
            InputConfig::Bonded(_) => "bonded"@,
            InputConfig::TestPattern(_) => "test_pattern"@,
            InputConfig::MediaPlayer(_) => "media_player"@,
            InputConfig::Replay(_) => "replay"@,
            InputConfig::MxlVideo(_) => "mxl_video"@,
            InputConfig::MxlAudio(_) => "mxl_audio"@,
            InputConfig::MxlAnc(_) => "mxl_anc"@,
            InputConfig::Sdi(_) => "sdi"@,
        }
    }

    /// Whether the input delivers an MPEG transport stream. Uncompressed audio
    /// does only when it is encoded on the way in, ancillary data never.
    pub open spec fn carries_ts(self) -> bool {
        match self {
            InputConfig::St2110_30(c) => c.audio_encode is Some,
            InputConfig::St2110_31(c) => c.audio_encode is Some,
            InputConfig::RtpAudio(c) => c.audio_encode is Some,
            InputConfig::MxlAudio(c) => c.audio_encode is Some,
            InputConfig::St2110_40(_) | InputConfig::MxlAnc(_) => false,
            _ => true,
        }
    }

    /// The name of the input's type in the configuration file.
    pub fn type_tag(&self) -> (r: &'static str)
        ensures
            r@ == self.spec_type_tag(),
    {
        match self {
            InputConfig::Rtp(_) => "rtp",
            InputConfig::Udp(_) => "udp",
            InputConfig::Srt(_) => "srt",
            InputConfig::Rist(_) => "rist",
            InputConfig::Rtmp(_) => "rtmp",
            InputConfig::Rtsp(_) => "rtsp",
            InputConfig::Webrtc(_) => "webrtc",
            InputConfig::Whep(_) => "whep",
            InputConfig::St2110_30(_) => "st2110_30",
            InputConfig::St2110_31(_) => "st2110_31",
            InputConfig::St2110_40(_) => "st2110_40",
            InputConfig::St2110_20(_) => "st2110_20",
            InputConfig::St2110_23(_) => "st2110_23",
            InputConfig::RtpAudio(_) => "rtp_audio",
            InputConfig::Bonded(_) => "bonded",
            InputConfig::TestPattern(_) => "test_pattern",
            InputConfig::MediaPlayer(_) => "media_player",
            InputConfig::Replay(_) => "replay",
            InputConfig::MxlVideo(_) => "mxl_video",
            InputConfig::MxlAudio(_) => "mxl_audio",
            InputConfig::MxlAnc(_) => "mxl_anc",
            InputConfig::Sdi(_) => "sdi",
        }
    }

    /// Whether the input delivers an MPEG transport stream.
    pub fn is_ts_carrier(&self) -> (r: bool)
        ensures
            r == self.carries_ts(),
    {
        match self {
            InputConfig::Rtp(_)
            | InputConfig::Udp(_)
            | InputConfig::Srt(_)
            | InputConfig::Rist(_)
            | InputConfig::Rtmp(_)
            | InputConfig::Rtsp(_)
            | InputConfig::Webrtc(_)
            | InputConfig::Whep(_)
            | InputConfig::St2110_20(_)
            | InputConfig::St2110_23(_)
            | InputConfig::Bonded(_)
            | InputConfig::TestPattern(_)
            | InputConfig::MediaPlayer(_)
            | InputConfig::Replay(_) => true,
            InputConfig::St2110_30(c) => c.audio_encode.is_some(),
            InputConfig::RtpAudio(c) => c.audio_encode.is_some(),
            InputConfig::St2110_31(c) => c.audio_encode.is_some(),
            InputConfig::St2110_40(_) => false,
            InputConfig::MxlVideo(_) => true,
            InputConfig::MxlAudio(c) => c.audio_encode.is_some(),
            InputConfig::MxlAnc(_) => false,
            InputConfig::Sdi(_) => true,
        }
    }

    /// The same question, asked of what the input puts on the flow.
    pub fn produces_ts(&self) -> (r: bool)
        ensures
            r == self.carries_ts(),
    {
        self.is_ts_carrier()
    }
}

// ---------------------------------------------------------------------------
// Laws
// ---------------------------------------------------------------------------

/// What is said of an output as a whole is what its own settings say.
pub proof fn lemma_output_is_read_from_its_settings(output: OutputConfig)
    ensures
        match output {
            OutputConfig::Rtp(c) => output.spec_id() == c.id@ && output.spec_name() == c.name@
                && output.spec_active() == c.active
                    && output.spec_group() == text::opt_view(c.group)
                && output.spec_type_tag() == "rtp"@,
            OutputConfig::Udp(c) => output.spec_id() == c.id@ && output.spec_name() == c.name@
                && output.spec_active() == c.active
                    && output.spec_group() == text::opt_view(c.group)
                && output.spec_type_tag() == "udp"@,
            OutputConfig::Srt(c) => output.spec_id() == c.id@ && output.spec_name() == c.name@
                && output.spec_active() == c.active
                    && output.spec_group() == text::opt_view(c.group)
                && output.spec_type_tag() == "srt"@,
            OutputConfig::Rist(c) => output.spec_id() == c.id@ && output.spec_name() == c.name@
                && output.spec_active() == c.active
                    && output.spec_group() == text::opt_view(c.group)
                && output.spec_type_tag() == "rist"@,
            OutputConfig::Rtmp(c) => output.spec_id() == c.id@ && output.spec_name() == c.name@
                && output.spec_active() == c.active
                    && output.spec_group() == text::opt_view(c.group)
                && output.spec_type_tag() == "rtmp"@,
            OutputConfig::Hls(c) => output.spec_id() == c.id@ && output.spec_name() == c.name@
                && output.spec_active() == c.active
                    && output.spec_group() == text::opt_view(c.group)
                && output.spec_type_tag() == "hls"@,
            OutputConfig::Cmaf(c) => output.spec_id() == c.id@ && output.spec_name() == c.name@
                && output.spec_active() == c.active
                    && output.spec_group() == text::opt_view(c.group)
                && output.spec_type_tag() == "cmaf"@,
            OutputConfig::Webrtc(c) => output.spec_id() == c.id@ && output.spec_name() == c.name@
                && output.spec_active() == c.active
                    && output.spec_group() == text::opt_view(c.group)
                && output.spec_type_tag() == "webrtc"@,
            OutputConfig::St2110_30(c) => output.spec_id() == c.id@ && output.spec_name() == c.name@
                && output.spec_active() == c.active
                    && output.spec_group() == text::opt_view(c.group)
                && output.spec_type_tag() == "st2110_30"@,
            OutputConfig::St2110_31(c) => output.spec_id() == c.id@ && output.spec_name() == c.name@
                && output.spec_active() == c.active
                    && output.spec_group() == text::opt_view(c.group)
                && output.spec_type_tag() == "st2110_31"@,
            OutputConfig::St2110_40(c) => output.spec_id() == c.id@ && output.spec_name() == c.name@
                && output.spec_active() == c.active
                    && output.spec_group() == text::opt_view(c.group)
                && output.spec_type_tag() == "st2110_40"@,
            OutputConfig::St2110_20(c) => output.spec_id() == c.id@ && output.spec_name() == c.name@
                && output.spec_active() == c.active
                    && output.spec_group() == text::opt_view(c.group)
                && output.spec_type_tag() == "st2110_20"@,
            OutputConfig::St2110_23(c) => output.spec_id() == c.id@ && output.spec_name() == c.name@
                && output.spec_active() == c.active
                    && output.spec_group() == text::opt_view(c.group)
                && output.spec_type_tag() == "st2110_23"@,
            OutputConfig::RtpAudio(c) => output.spec_id() == c.id@ && output.spec_name() == c.name@
                && output.spec_active() == c.active
                    && output.spec_group() == text::opt_view(c.group)
                && output.spec_type_tag() == "rtp_audio"@,
            OutputConfig::Bonded(c) => output.spec_id() == c.id@ && output.spec_name() == c.name@
                && output.spec_active() == c.active
                    && output.spec_group() == text::opt_view(c.group)
                && output.spec_type_tag() == "bonded"@,
            OutputConfig::Display(c) => output.spec_id() == c.id@ && output.spec_name() == c.name@
                && output.spec_active() == c.active
                    && output.spec_group() == text::opt_view(c.group)
                && output.spec_type_tag() == "display"@,
            OutputConfig::Sdi(c) => output.spec_id() == c.id@ && output.spec_name() == c.name@
                && output.spec_active() == c.active
                    && output.spec_group() == text::opt_view(c.group)
                && output.spec_type_tag() == "sdi"@,
            OutputConfig::MxlVideo(c) => output.spec_id() == c.id@ && output.spec_name() == c.name@
                && output.spec_active() == c.active
                    && output.spec_group() == text::opt_view(c.group)
                && output.spec_type_tag() == "mxl_video"@,
            OutputConfig::MxlAudio(c) => output.spec_id() == c.id@ && output.spec_name() == c.name@
                && output.spec_active() == c.active
                    && output.spec_group() == text::opt_view(c.group)
                && output.spec_type_tag() == "mxl_audio"@,
            OutputConfig::MxlAnc(c) => output.spec_id() == c.id@ && output.spec_name() == c.name@
                && output.spec_active() == c.active
                    && output.spec_group() == text::opt_view(c.group)
                && output.spec_type_tag() == "mxl_anc"@,
        },
{
}

/// Switching an output on or off changes nothing else of it.
pub proof fn lemma_switching_changes_nothing_else(output: OutputConfig, active: bool)
    ensures
        match output {
            OutputConfig::Rtp(c) => output.with_active(active) == OutputConfig::Rtp(
                RtpOutputConfig { active, ..c },
            ),
            OutputConfig::Udp(c) => output.with_active(active) == OutputConfig::Udp(
                UdpOutputConfig { active, ..c },
            ),
            OutputConfig::Srt(c) => output.with_active(active) == OutputConfig::Srt(
                SrtOutputConfig { active, ..c },
            ),
            OutputConfig::Rist(c) => output.with_active(active) == OutputConfig::Rist(
                RistOutputConfig { active, ..c },
            ),
            OutputConfig::Rtmp(c) => output.with_active(active) == OutputConfig::Rtmp(
                RtmpOutputConfig { active, ..c },
            ),
            OutputConfig::Hls(c) => output.with_active(active) == OutputConfig::Hls(
                HlsOutputConfig { active, ..c },
            ),
            OutputConfig::Cmaf(c) => output.with_active(active) == OutputConfig::Cmaf(
                CmafOutputConfig { active, ..c },
            ),
            OutputConfig::Webrtc(c) => output.with_active(active) == OutputConfig::Webrtc(
                WebrtcOutputConfig { active, ..c },
            ),
            OutputConfig::St2110_30(c) => output.with_active(active) == OutputConfig::St2110_30(
                St2110AudioOutputConfig { active, ..c },
            ),
            OutputConfig::St2110_31(c) => output.with_active(active) == OutputConfig::St2110_31(
                St2110AudioOutputConfig { active, ..c },
            ),
            OutputConfig::St2110_40(c) => output.with_active(active) == OutputConfig::St2110_40(
                St2110AncillaryOutputConfig { active, ..c },
            ),
            OutputConfig::St2110_20(c) => output.with_active(active) == OutputConfig::St2110_20(
                St2110VideoOutputConfig { active, ..c },
            ),
            OutputConfig::St2110_23(c) => output.with_active(active) == OutputConfig::St2110_23(
                St2110_23OutputConfig { active, ..c },
            ),
            OutputConfig::RtpAudio(c) => output.with_active(active) == OutputConfig::RtpAudio(
                RtpAudioOutputConfig { active, ..c },
            ),
            OutputConfig::Bonded(c) => output.with_active(active) == OutputConfig::Bonded(
                BondedOutputConfig { active, ..c },
            ),
            OutputConfig::Display(c) => output.with_active(active) == OutputConfig::Display(
                DisplayOutputConfig { active, ..c },
            ),
            OutputConfig::Sdi(c) => output.with_active(active) == OutputConfig::Sdi(
                SdiOutputConfig { active, ..c },
            ),
            OutputConfig::MxlVideo(c) => output.with_active(active) == OutputConfig::MxlVideo(
                MxlVideoOutputConfig { active, ..c },
            ),
            OutputConfig::MxlAudio(c) => output.with_active(active) == OutputConfig::MxlAudio(
                MxlAudioOutputConfig { active, ..c },
            ),
            OutputConfig::MxlAnc(c) => output.with_active(active) == OutputConfig::MxlAnc(
                MxlAncOutputConfig { active, ..c },
            ),
        },
{
}

/// Every kind of input has its own tag, and every one carries a transport stream but
/// ancillary data and audio that is not encoded.
pub proof fn lemma_input_kinds(input: InputConfig)
    ensures
        match input {
            InputConfig::Rtp(_) => input.spec_type_tag() == "rtp"@,
            InputConfig::Udp(_) => input.spec_type_tag() == "udp"@,
            InputConfig::Srt(_) => input.spec_type_tag() == "srt"@,
            InputConfig::Rist(_) => input.spec_type_tag() == "rist"@,
            InputConfig::Rtmp(_) => input.spec_type_tag() == "rtmp"@,
            InputConfig::Rtsp(_) => input.spec_type_tag() == "rtsp"@,
            InputConfig::Webrtc(_) => input.spec_type_tag() == "webrtc"@,
            InputConfig::Whep(_) => input.spec_type_tag() == "whep"@,
            InputConfig::St2110_30(_) => input.spec_type_tag() == "st2110_30"@,
            InputConfig::St2110_31(_) => input.spec_type_tag() == "st2110_31"@,
            InputConfig::St2110_40(_) => input.spec_type_tag() == "st2110_40"@,
            InputConfig::St2110_20(_) => input.spec_type_tag() == "st2110_20"@,
            InputConfig::St2110_23(_) => input.spec_type_tag() == "st2110_23"@,
            InputConfig::RtpAudio(_) => input.spec_type_tag() == "rtp_audio"@,
            InputConfig::Bonded(_) => input.spec_type_tag() == "bonded"@,
            InputConfig::TestPattern(_) => input.spec_type_tag() == "test_pattern"@,
            InputConfig::MediaPlayer(_) => input.spec_type_tag() == "media_player"@,
            InputConfig::Replay(_) => input.spec_type_tag() == "replay"@,
            InputConfig::MxlVideo(_) => input.spec_type_tag() == "mxl_video"@,
            InputConfig::MxlAudio(_) => input.spec_type_tag() == "mxl_audio"@,
            InputConfig::MxlAnc(_) => input.spec_type_tag() == "mxl_anc"@,
            InputConfig::Sdi(_) => input.spec_type_tag() == "sdi"@,
        },
        match input {
            InputConfig::St2110_30(c) => input.carries_ts() <==> c.audio_encode is Some,
            InputConfig::St2110_31(c) => input.carries_ts() <==> c.audio_encode is Some,
            InputConfig::RtpAudio(c) => input.carries_ts() <==> c.audio_encode is Some,
            InputConfig::MxlAudio(c) => input.carries_ts() <==> c.audio_encode is Some,
            InputConfig::St2110_40(_) => !input.carries_ts(),
            InputConfig::MxlAnc(_) => !input.carries_ts(),
            _ => input.carries_ts(),
        },
{
}

} // verus!
