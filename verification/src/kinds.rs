//! Small questions about single settings.

use vstd::prelude::*;

use crate::models::{
    BandwidthProfile, BondEqualizationMode, ContentAnalysisConfig, EgressPacingMode, FlowConfig,
    HitlessMode, MonitorConfig, ServerConfig, SpliceMode, St2110VideoPixelFormat, SwitchLeg,
};

verus! {

/// The addresses that are listened on: the list, or the single address where
/// the list is absent or empty.
pub open spec fn listen_addrs_of(list: Option<Vec<String>>, single: String) -> Seq<String> {
    match list {
        Some(addrs) => if addrs@.len() > 0 {
            addrs@
        } else {
            seq![single]
        },
        None => seq![single],
    }
}

fn effective_addrs(list: &Option<Vec<String>>, single: &String) -> (r: Vec<String>)
    ensures
        r@ == listen_addrs_of(*list, *single),
{
    match list {
        Some(addrs) => {
            if addrs.len() > 0 {
                let r = addrs.clone();
                assert(r@ =~= addrs@);
                return r;
            }
        },
        None => {},
    }
    let mut r: Vec<String> = Vec::new();
    r.push(single.clone());
    assert(r@ =~= seq![*single]);
    r
}

impl ServerConfig {
    /// The addresses that the API server listens on.
    pub fn effective_listen_addrs(&self) -> (r: Vec<String>)
        ensures
            r@ == listen_addrs_of(self.listen_addrs, self.listen_addr),
    {
        effective_addrs(&self.listen_addrs, &self.listen_addr)
    }
}

impl MonitorConfig {
    /// The addresses that the dashboard listens on.
    pub fn effective_listen_addrs(&self) -> (r: Vec<String>)
        ensures
            r@ == listen_addrs_of(self.listen_addrs, self.listen_addr),
    {
        effective_addrs(&self.listen_addrs, &self.listen_addr)
    }
}

impl BandwidthProfile {
    /// The number of slots of the flow's channels.
    pub open spec fn slots(self) -> nat {
        match self {
            BandwidthProfile::Standard => 16_384,
            BandwidthProfile::HighBitrate => 32_768,
            BandwidthProfile::Uncompressed => 65_536,
        }
    }

    /// The number of slots of the flow's channels.
    pub fn broadcast_capacity(self) -> (r: usize)
        ensures
            r == self.slots(),
    {
        match self {
            BandwidthProfile::Standard => 16_384,
            BandwidthProfile::HighBitrate => 32_768,
            BandwidthProfile::Uncompressed => 65_536,
        }
    }
}

impl FlowConfig {
    /// The content analysis that is in force: the lite tier where nothing is
    /// configured.
    pub fn effective_content_analysis(&self) -> (r: ContentAnalysisConfig)
        ensures
            r == (match self.content_analysis {
                Some(c) => c,
                None => ContentAnalysisConfig {
                    lite: true,
                    audio_full: false,
                    video_full: false,
                    video_full_hz: None,
                },
            }),
    {
        match &self.content_analysis {
            Some(c) => ContentAnalysisConfig {
                lite: c.lite,
                audio_full: c.audio_full,
                video_full: c.video_full,
                video_full_hz: c.video_full_hz,
            },
            None => ContentAnalysisConfig::default(),
        }
    }
}

impl SpliceMode {
    /// Whether this is the mode that needs no mention.
    pub fn is_default(&self) -> (r: bool)
        ensures
            r == (*self is PmtBump),
    {
        matches!(self, SpliceMode::PmtBump)
    }
}

impl HitlessMode {
    /// Whether this is the mode that needs no mention.
    pub fn is_default(&self) -> (r: bool)
        ensures
            r == (*self is PrimaryPreference),
    {
        matches!(self, HitlessMode::PrimaryPreference)
    }
}

impl SwitchLeg {
    /// The input that the leg names.
    pub open spec fn spec_input_id(self) -> Seq<char> {
        match self {
            SwitchLeg::Pid { input_id, .. } => input_id@,
            SwitchLeg::Essence { input_id, .. } => input_id@,
        }
    }

    /// The input that the leg names.
    pub fn input_id(&self) -> (r: &str)
        ensures
            r@ == self.spec_input_id(),
    {
        match self {
            SwitchLeg::Pid { input_id, .. } => input_id.as_str(),
            SwitchLeg::Essence { input_id, .. } => input_id.as_str(),
        }
    }
}

impl EgressPacingMode {
    /// The pacing that is in force: what is configured, otherwise PCR pacing
    /// for a flow with a bonded input and plain forwarding for every other.
    pub open spec fn resolved(explicit: Option<EgressPacingMode>, flow_has_bonded_input: bool) -> EgressPacingMode {
        match explicit {
            Some(mode) => mode,
            None => if flow_has_bonded_input {
                EgressPacingMode::Pcr
            } else {
                EgressPacingMode::Forward
            },
        }
    }

    /// The pacing that is in force.
    pub fn resolve_auto(explicit: Option<Self>, flow_has_bonded_input: bool) -> (r: Self)
        ensures
            r == EgressPacingMode::resolved(explicit, flow_has_bonded_input),
    {
        match explicit {
            Some(mode) => mode,
            None => if flow_has_bonded_input {
                EgressPacingMode::Pcr
            } else {
                EgressPacingMode::Forward
            },
        }
    }

    pub open spec fn text(self) -> Seq<char> {
        match self {
            EgressPacingMode::Forward => "forward"@,
            EgressPacingMode::Pcr => "pcr"@,
            EgressPacingMode::Servo => "servo"@,
        }
    }

    /// The name of the mode.
    pub fn as_str(&self) -> (r: &'static str)
        ensures
            r@ == self.text(),
    {
        match self {
            EgressPacingMode::Forward => "forward",
            EgressPacingMode::Pcr => "pcr",
            EgressPacingMode::Servo => "servo",
        }
    }
}

impl St2110VideoPixelFormat {
    pub open spec fn text(self) -> Seq<char> {
        match self {
            St2110VideoPixelFormat::Yuv422_8bit => "yuv422_8bit"@,
            St2110VideoPixelFormat::Yuv422_10bit => "yuv422_10bit"@,
        }
    }

    /// The name of the format.
    pub fn as_str(self) -> (r: &'static str)
        ensures
            r@ == self.text(),
    {
        match self {
            St2110VideoPixelFormat::Yuv422_8bit => "yuv422_8bit",
            St2110VideoPixelFormat::Yuv422_10bit => "yuv422_10bit",
        }
    }

    /// Bits per sample.
    pub fn depth(self) -> (r: u8)
        ensures
            r == (match self {
                St2110VideoPixelFormat::Yuv422_8bit => 8u8,
                St2110VideoPixelFormat::Yuv422_10bit => 10u8,
            }),
    {
        match self {
            St2110VideoPixelFormat::Yuv422_8bit => 8,
            St2110VideoPixelFormat::Yuv422_10bit => 10,
        }
    }
}

/// An equalization setting as a configuration file may hold it: the older
/// on/off flag, or a mode.
#[derive(Debug, Clone, Copy, PartialEq, Eq)]
pub enum RawEqualization {
    Flag(bool),
    Mode(BondEqualizationMode),
}

/// The mode that an equalization setting stands for: the older flag means
/// `Auto` when it is on.
pub fn bond_equalization_mode(raw: Option<RawEqualization>) -> (r: Option<BondEqualizationMode>)
    ensures
        r == (match raw {
            None => None,
            Some(RawEqualization::Flag(true)) => Some(BondEqualizationMode::Auto),
            Some(RawEqualization::Flag(false)) => Some(BondEqualizationMode::Off),
            Some(RawEqualization::Mode(m)) => Some(m),
        }),
{
    match raw {
        None => None,
        Some(RawEqualization::Flag(true)) => Some(BondEqualizationMode::Auto),
        Some(RawEqualization::Flag(false)) => Some(BondEqualizationMode::Off),
        Some(RawEqualization::Mode(m)) => Some(m),
    }
}

// ---------------------------------------------------------------------------
// Laws
// ---------------------------------------------------------------------------

/// Each bandwidth profile has twice the slots of the one below; the standard one has
/// 16384.
pub proof fn lemma_slots_double()
    ensures
        BandwidthProfile::Standard.slots() == 16_384,
        BandwidthProfile::HighBitrate.slots() == 2 * BandwidthProfile::Standard.slots(),
        BandwidthProfile::Uncompressed.slots() == 2 * BandwidthProfile::HighBitrate.slots(),
{
}

/// A pacing mode that is chosen is kept; without one, a flow with a bonded input is paced
/// by its clock reference and any other is forwarded.
pub proof fn lemma_chosen_pacing_is_kept(mode: EgressPacingMode, bonded: bool)
    ensures
        EgressPacingMode::resolved(Some(mode), bonded) == mode,
        EgressPacingMode::resolved(None, true) == EgressPacingMode::Pcr,
        EgressPacingMode::resolved(None, false) == EgressPacingMode::Forward,
{
}

/// The names of the pacing modes and of the pixel formats.
pub proof fn lemma_names_of_modes()
    ensures
        EgressPacingMode::Forward.text() == "forward"@,
        EgressPacingMode::Pcr.text() == "pcr"@,
        EgressPacingMode::Servo.text() == "servo"@,
        St2110VideoPixelFormat::Yuv422_8bit.text() == "yuv422_8bit"@,
        St2110VideoPixelFormat::Yuv422_10bit.text() == "yuv422_10bit"@,
{
}

/// The older flag for equalization means the automatic mode where it is on and none where
/// it is off; a mode is kept, and an absent setting stays absent.
pub proof fn lemma_equalization_modes(mode: BondEqualizationMode)
    ensures
        forall|r: Option<BondEqualizationMode>| #[trigger]
            call_ensures(bond_equalization_mode, (None,), r) ==> r is None,
        forall|r: Option<BondEqualizationMode>| #[trigger]
            call_ensures(bond_equalization_mode, (Some(RawEqualization::Flag(true)),), r) ==> r
                == Some(BondEqualizationMode::Auto),
        forall|r: Option<BondEqualizationMode>| #[trigger]
            call_ensures(bond_equalization_mode, (Some(RawEqualization::Flag(false)),), r) ==> r
                == Some(BondEqualizationMode::Off),
        forall|r: Option<BondEqualizationMode>| #[trigger]
            call_ensures(bond_equalization_mode, (Some(RawEqualization::Mode(mode)),), r) ==> r
                == Some(mode),
{
}

/// Content analysis is what is configured, and else its lite tier alone.
pub proof fn lemma_analysis_in_force(flow: &FlowConfig, r: ContentAnalysisConfig)
    requires
        call_ensures(FlowConfig::effective_content_analysis, (flow,), r),
    ensures
        flow.content_analysis is Some ==> r == flow.content_analysis->0,
        flow.content_analysis is None ==> r.lite && !r.audio_full && !r.video_full
            && r.video_full_hz is None,
{
}

/// The depth of a pixel format is the one that its name says.
pub proof fn lemma_depths_of_formats(r: u8)
    ensures
        call_ensures(
            St2110VideoPixelFormat::depth,
            (St2110VideoPixelFormat::Yuv422_8bit,),
            r,
        ) ==> r == 8,
        call_ensures(
            St2110VideoPixelFormat::depth,
            (St2110VideoPixelFormat::Yuv422_10bit,),
            r,
        ) ==> r == 10,
{
}

} // verus!
