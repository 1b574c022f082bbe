//! PCM transcoding blocks of audio outputs.

use vstd::prelude::*;

verus! {

/// Sample depth of linear PCM.
#[derive(Debug, Clone, Copy, PartialEq, Eq, Structural)]
pub enum BitDepth {
    L16,
    L20,
    L24,
}

/// The format of the audio that reaches a transcoding block.
#[derive(Debug, Clone, Copy, PartialEq, Eq, Structural)]
pub struct InputFormat {
    pub sample_rate: u32,
    pub bit_depth: BitDepth,
    pub channels: u8,
}

/// What the transcoding engine has to say of a block on a given input format:
/// `fault` is its complaint about the channel map or preset, if it has one.
#[derive(Debug, Clone, PartialEq)]
pub struct TranscodeResolution {
    pub input: InputFormat,
    pub fault: Option<String>,
}

/// A transcoding block: every field that is absent keeps the input's value.
#[derive(Debug, Clone, PartialEq)]
pub struct TranscodeJson {
    /// Output sample rate in Hz.
    pub sample_rate: Option<u32>,
    /// Output sample depth in bits.
    pub bit_depth: Option<u8>,
    /// Output channel count.
    pub channels: Option<u8>,
    /// Output packet time in microseconds.
    pub packet_time_us: Option<u32>,
    /// Output RTP payload type.
    pub payload_type: Option<u8>,
    /// For each output channel, the input channels that feed it.
    pub channel_map: Option<Vec<Vec<u8>>>,
    /// A named channel map.
    pub channel_map_preset: Option<String>,
    /// The engine's verdicts on this block, one per input format that it was
    /// asked about.
    pub resolutions: Vec<TranscodeResolution>,
}

impl TranscodeJson {
    /// The engine's complaint about this block for the given input format:
    /// that of the first verdict on the format. A format that the engine was
    /// not asked about has none.
    pub open spec fn resolution_fault(self, input: InputFormat) -> Option<Seq<char>> {
        resolution_fault_in(self.resolutions@, input)
    }

    /// See [`TranscodeJson::resolution_fault`].
    pub fn resolve(&self, input: InputFormat) -> (r: Option<&str>)
        ensures
            r is Some <==> self.resolution_fault(input) is Some,
            r matches Some(text) ==> self.resolution_fault(input) == Some(text@),
    {
        let mut i: usize = 0;
        assert(self.resolutions@.skip(0) =~= self.resolutions@);
        while i < self.resolutions.len()
            invariant
                i <= self.resolutions@.len(),
                resolution_fault_in(self.resolutions@, input) == resolution_fault_in(
                    self.resolutions@.skip(i as int),
                    input,
                ),
            decreases self.resolutions.len() - i,
        {
            let ghost rest = self.resolutions@.skip(i as int);
            assert(rest[0] == self.resolutions@[i as int]);
            assert(rest.skip(1) =~= self.resolutions@.skip(i + 1));
            if self.resolutions[i].input == input {
                return match &self.resolutions[i].fault {
                    Some(text) => Some(text.as_str()),
                    None => None,
                };
            }
            i = i + 1;
        }
        None
    }
}

/// The complaint of the first verdict on `input`.
pub open spec fn resolution_fault_in(verdicts: Seq<TranscodeResolution>, input: InputFormat) -> Option<
    Seq<char>,
>
    decreases verdicts.len(),
{
    if verdicts.len() == 0 {
        None
    } else if verdicts[0].input == input {
        match verdicts[0].fault {
            Some(text) => Some(text@),
            None => None,
        }
    } else {
        resolution_fault_in(verdicts.skip(1), input)
    }
}

} // verus!
