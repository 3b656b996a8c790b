//! Audio facts that the session decides on: the canonical output format
//! and the reduction of reference audio to one channel.

use vstd::prelude::*;
use crate::config::CANONICAL_SAMPLE_RATE;

verus! {

/// How the samples of a WAV container are encoded.
#[derive(Clone, Copy, Debug, PartialEq, Eq, Structural)]
pub enum SampleFormat {
    Int,
    Float,
    ALaw,
    MuLaw,
    SubFormat,
}

/// The format fields of a WAV header.
#[derive(Clone, Copy, Debug, PartialEq, Eq, Structural)]
pub struct WavFormat {
    pub sample_format: SampleFormat,
    pub channels: u16,
    pub sample_rate: u32,
    pub bits_per_sample: u16,
}

/// Calls `wav_io::new_header` and returns the format fields of the header
/// it makes.
///
/// Trusted: the header has the given sample rate and sample width, float
/// samples where `is_float` is set and integer samples where not, one
/// channel where `is_mono` is set and two where not.
#[verifier::external_body]
fn new_header(sample_rate: u32, bits_per_sample: u16, is_float: bool, is_mono: bool) -> (format:
    WavFormat)
    ensures
        format.sample_rate == sample_rate,
        format.bits_per_sample == bits_per_sample,
        format.sample_format == (if is_float {
            SampleFormat::Float
        } else {
            SampleFormat::Int
        }),
        format.channels == (if is_mono {
            1u16
        } else {
            2u16
        }),
{
    let header = wav_io::new_header(sample_rate, bits_per_sample, is_float, is_mono);
    WavFormat {
        sample_format: match header.sample_format {
            wav_io::header::SampleFormat::Int => SampleFormat::Int,
            wav_io::header::SampleFormat::Float => SampleFormat::Float,
            wav_io::header::SampleFormat::WaveFromatALaw => SampleFormat::ALaw,
            wav_io::header::SampleFormat::WaveFormatMuLaw => SampleFormat::MuLaw,
            wav_io::header::SampleFormat::SubFormat => SampleFormat::SubFormat,
        },
        channels: header.channels,
        sample_rate: header.sample_rate,
        bits_per_sample: header.bits_per_sample,
    }
}

/// The one format in which audio leaves the session: 16-bit integer PCM,
/// one channel, at the canonical sample rate.
pub open spec fn spec_canonical_format() -> WavFormat {
    WavFormat {
        sample_format: SampleFormat::Int,
        channels: 1,
        sample_rate: CANONICAL_SAMPLE_RATE,
        bits_per_sample: 16,
    }
}

/// The one format in which audio leaves the session: 16-bit integer PCM,
/// one channel, at the canonical sample rate.
#[verifier::when_used_as_spec(spec_canonical_format)]
pub fn canonical_format() -> (format: WavFormat)
    ensures
        format == spec_canonical_format(),
{
    new_header(CANONICAL_SAMPLE_RATE, 16, false, true)
}

/// Number of frames in `len` interleaved samples of `channels` channels,
/// a last incomplete frame included.
pub open spec fn frame_count(len: nat, channels: nat) -> nat
    recommends
        channels > 0,
{
    ((len + channels - 1) / (channels as int)) as nat
}

/// The first channel of interleaved audio: one sample per frame.
pub open spec fn first_channel<T>(samples: Seq<T>, channels: nat) -> Seq<T>
    recommends
        channels > 0,
{
    Seq::new(frame_count(samples.len(), channels), |frame: int| samples[frame * channels])
}

/// Reduces decoded reference audio to one channel and passes its sample
/// rate on. Audio of several channels keeps the first sample of each
/// frame; audio of one channel is kept as it is.
pub fn load_ref_audio<T: Copy>(samples: Vec<T>, channels: u16, sample_rate: u32) -> (mono: (
    Vec<T>,
    u32,
))
    requires
        channels > 0,
    ensures
        mono.0@ == first_channel(samples@, channels as nat),
        mono.1 == sample_rate,
{
    if channels != 1 {
        let step = channels as usize;
        let mut kept: Vec<T> = Vec::new();
        let mut i: usize = 0;
        proof {
            vstd::arithmetic::div_mod::lemma_basic_div(step - 1, step as int);
        }
        while i < samples.len()
            invariant
                step == channels,
                step > 0,
                i <= samples.len(),
                kept@.len() == frame_count(i as nat, step as nat),
                forall|frame: int|
                    #![trigger kept@[frame]]
                    0 <= frame < kept@.len() ==> kept@[frame] == samples@[frame * step],
            decreases samples.len() - i,
        {
            proof {
                lemma_frame_count_step(i as int, step as int);
            }
            if i % step == 0 {
                kept.push(samples[i]);
            }
            i += 1;
        }
        assert(kept@ =~= first_channel(samples@, channels as nat));
        (kept, sample_rate)
    } else {
        assert(samples@ =~= first_channel(samples@, 1));
        (samples, sample_rate)
    }
}

/// One more sample opens a new frame where a frame starts at `i`, and
/// belongs to the frame before it elsewhere.
proof fn lemma_frame_count_step(i: int, step: int)
    requires
        0 <= i,
        0 < step,
    ensures
        i % step == 0 ==> (i + step) / step == (i + step - 1) / step + 1 && ((i + step - 1) / step)
            * step == i,
        i % step != 0 ==> (i + step) / step == (i + step - 1) / step,
{
    let q = i / step;
    let r = i % step;
    vstd::arithmetic::div_mod::lemma_fundamental_div_mod(i, step);
    assert(step * (q + 1) == step * q + step) by (nonlinear_arith);
    assert(q * step == step * q) by (nonlinear_arith);
    if r == 0 {
        vstd::arithmetic::div_mod::lemma_fundamental_div_mod_converse(i + step, step, q + 1, 0);
        vstd::arithmetic::div_mod::lemma_fundamental_div_mod_converse(
            i + step - 1,
            step,
            q,
            step - 1,
        );
    } else {
        vstd::arithmetic::div_mod::lemma_fundamental_div_mod_converse(i + step, step, q + 1, r);
        vstd::arithmetic::div_mod::lemma_fundamental_div_mod_converse(
            i + step - 1,
            step,
            q + 1,
            r - 1,
        );
    }
}

} // verus!
