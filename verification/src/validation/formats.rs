//! The audio formats that transcoding blocks are asked about.
//!
//! A block is checked against the audio that reaches its output, or against the
//! output's own format where that is not known. The transcoding engine gives its
//! verdict for each format that can come up.

use vstd::prelude::*;

use crate::audio_transcode::{BitDepth, InputFormat};
use crate::models::{AppConfig, InputConfig, OutputConfig};
use crate::validation;
use crate::validation::upstream_audio_shape;

verus! {

/// The format with this sample rate, sample depth and channel count, if the
/// depth is one that transcoding supports.
pub open spec fn format_of(shape: (u32, u8, u8)) -> Option<InputFormat> {
    let (sample_rate, bits, channels) = shape;
    if bits == 16 {
        Some(InputFormat { sample_rate, bit_depth: BitDepth::L16, channels })
    } else if bits == 20 {
        Some(InputFormat { sample_rate, bit_depth: BitDepth::L20, channels })
    } else if bits == 24 {
        Some(InputFormat { sample_rate, bit_depth: BitDepth::L24, channels })
    } else {
        None
    }
}

/// The format that an output declares, where its transcoding block is checked.
pub open spec fn own_shape(output: OutputConfig) -> Option<(u32, u8, u8)> {
    match output {
        OutputConfig::St2110_30(c) | OutputConfig::St2110_31(c) => Some(
            (c.sample_rate, c.bit_depth, c.channels),
        ),
        OutputConfig::RtpAudio(c) => Some((c.sample_rate, c.bit_depth, c.channels)),
        _ => None,
    }
}

/// Whether the format with the shape `shape`, where there is one, is among
/// `formats`.
pub open spec fn is_covered(shape: Option<(u32, u8, u8)>, formats: Seq<InputFormat>) -> bool {
    shape matches Some(s) ==> (format_of(s) matches Some(f) ==> formats.contains(f))
}

/// Whether the shape `shape` is there and has the format `f`.
pub open spec fn has_format(shape: Option<(u32, u8, u8)>, f: InputFormat) -> bool {
    shape is Some && format_of(shape->0) == Some(f)
}

/// Whether an input or an output of `config` has the format `f`.
pub open spec fn occurs(config: AppConfig, f: InputFormat) -> bool {
    ||| exists|i: int|
        0 <= i < config.inputs@.len() && has_format(
            validation::audio_shape((#[trigger] config.inputs@[i]).config),
            f,
        )
    ||| exists|i: int|
        0 <= i < config.outputs@.len() && has_format(own_shape(#[trigger] config.outputs@[i]), f)
}

fn cover(shape: Option<(u32, u8, u8)>, formats: &mut Vec<InputFormat>)
    ensures
        is_covered(shape, final(formats)@),
        forall|s: Option<(u32, u8, u8)>| #[trigger]
            is_covered(s, old(formats)@) ==> is_covered(s, final(formats)@),
        forall|n: int|
            0 <= n < final(formats)@.len() ==> old(formats)@.contains(
                #[trigger] final(formats)@[n],
            ) || has_format(shape, final(formats)@[n]),
{
    if let Some((sample_rate, bits, channels)) = shape {
        let bit_depth = match bits {
            16 => BitDepth::L16,
            20 => BitDepth::L20,
            24 => BitDepth::L24,
            _ => {
                return;
            },
        };
        let format = InputFormat { sample_rate, bit_depth, channels };
        formats.push(format);
        proof {
            let (before, after) = (old(formats)@, formats@);
            assert(after.last() == format);
            assert(after.contains(format));
            assert forall|f: InputFormat| before.contains(f) implies after.contains(f) by {
                let i = choose|i: int| 0 <= i < before.len() && before[i] == f;
                assert(after[i] == f);
            }
        }
    }
}

/// Every format that the check of a transcoding block of this configuration can
/// ask about: those of the inputs, and those that outputs declare.
pub fn audio_formats(config: &AppConfig) -> (r: Vec<InputFormat>)
    ensures
        forall|i: int|
            0 <= i < config.inputs@.len() ==> is_covered(
                validation::audio_shape((#[trigger] config.inputs@[i]).config),
                r@,
            ),
        forall|i: int|
            0 <= i < config.outputs@.len() ==> is_covered(
                own_shape(#[trigger] config.outputs@[i]),
                r@,
            ),
        forall|n: int| 0 <= n < r@.len() ==> occurs(*config, #[trigger] r@[n]),
{
    let mut r: Vec<InputFormat> = Vec::new();
    let mut i: usize = 0;
    while i < config.inputs.len()
        invariant
            i <= config.inputs@.len(),
            forall|j: int|
                0 <= j < i ==> is_covered(
                    validation::audio_shape((#[trigger] config.inputs@[j]).config),
                    r@,
                ),
            forall|n: int| 0 <= n < r@.len() ==> occurs(*config, #[trigger] r@[n]),
        decreases config.inputs.len() - i,
    {
        cover(upstream_audio_shape(&config.inputs[i].config), &mut r);
        i = i + 1;
    }
    let mut k: usize = 0;
    while k < config.outputs.len()
        invariant
            k <= config.outputs@.len(),
            forall|j: int|
                0 <= j < config.inputs@.len() ==> is_covered(
                    validation::audio_shape((#[trigger] config.inputs@[j]).config),
                    r@,
                ),
            forall|j: int|
                0 <= j < k ==> is_covered(own_shape(#[trigger] config.outputs@[j]), r@),
            forall|n: int| 0 <= n < r@.len() ==> occurs(*config, #[trigger] r@[n]),
        decreases config.outputs.len() - k,
    {
        let shape = match &config.outputs[k] {
            OutputConfig::St2110_30(c) | OutputConfig::St2110_31(c) => Some(
                (c.sample_rate, c.bit_depth, c.channels),
            ),
            OutputConfig::RtpAudio(c) => Some((c.sample_rate, c.bit_depth, c.channels)),
            _ => None,
        };
        cover(shape, &mut r);
        k = k + 1;
    }
    r
}

/// A shape of audio is a format exactly when its depth is 16, 20 or 24 bits; the rate and
/// the channels are kept.
pub proof fn lemma_formats_of_shapes(rate: u32, bits: u8, channels: u8)
    ensures
        format_of((rate, bits, channels)) is Some <==> bits == 16 || bits == 20 || bits == 24,
        format_of((rate, 16, channels)) == Some(
            InputFormat { sample_rate: rate, bit_depth: BitDepth::L16, channels },
        ),
        format_of((rate, 20, channels)) == Some(
            InputFormat { sample_rate: rate, bit_depth: BitDepth::L20, channels },
        ),
        format_of((rate, 24, channels)) == Some(
            InputFormat { sample_rate: rate, bit_depth: BitDepth::L24, channels },
        ),
{
}

/// The audio that an input or an output declares is that of ST 2110 and RTP audio, by its
/// rate, depth and channels; no other declares any.
pub proof fn lemma_declared_shapes(input: InputConfig, output: OutputConfig)
    ensures
        match input {
            InputConfig::St2110_30(c) => validation::audio_shape(input) == Some(
                (c.sample_rate, c.bit_depth, c.channels),
            ),
            InputConfig::St2110_31(c) => validation::audio_shape(input) == Some(
                (c.sample_rate, c.bit_depth, c.channels),
            ),
            InputConfig::RtpAudio(c) => validation::audio_shape(input) == Some(
                (c.sample_rate, c.bit_depth, c.channels),
            ),
            _ => validation::audio_shape(input) is None,
        },
        match output {
            OutputConfig::St2110_30(c) => own_shape(output) == Some(
                (c.sample_rate, c.bit_depth, c.channels),
            ),
            OutputConfig::St2110_31(c) => own_shape(output) == Some(
                (c.sample_rate, c.bit_depth, c.channels),
            ),
            OutputConfig::RtpAudio(c) => own_shape(output) == Some(
                (c.sample_rate, c.bit_depth, c.channels),
            ),
            _ => own_shape(output) is None,
        },
{
}

} // verus!
