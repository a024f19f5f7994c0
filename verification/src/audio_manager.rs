use vstd::prelude::*;
use std::collections::VecDeque;

verus! {

/// The default output sample rate, in samples per second.
pub const DEFAULT_RATE: u32 = 32000;

/// The sample representation a playback or serialization target asks for.
/// Samples produced by the pipeline are 32-bit IEEE-754 values, carried
/// throughout this crate as their bit patterns.
#[derive(Clone, Copy, Debug, PartialEq, Eq, Structural)]
pub enum SampleFormat {
    I8,
    I16,
    I32,
    I64,
    U8,
    U16,
    U32,
    U64,
    F32,
    F64,
}

/// The container's sample-format header field: integer or IEEE-754 samples.
#[derive(Clone, Copy, Debug, PartialEq, Eq, Structural)]
pub enum WavSampleFormat {
    Float,
    Int,
}

/// Serialization failures of the in-memory container encoder.
#[derive(Clone, Copy, Debug, PartialEq, Eq, Structural)]
pub enum WavError {
    /// A configuration the encoder cannot write: a sample width its data
    /// chunk cannot carry, or no channel at all.
    Unsupported,
    /// The sample count is not a multiple of the channel count, so the last
    /// audio frame is incomplete and the container cannot be finalized.
    UnfinishedSample,
}

/// The bit depth the container stores for each sample of format `f`.
pub open spec fn spec_bits_per_sample(f: SampleFormat) -> u16 {
    match f {
        SampleFormat::F32 | SampleFormat::I32 | SampleFormat::U32 => 32,
        SampleFormat::I16 | SampleFormat::U16 => 16,
        SampleFormat::I8 | SampleFormat::U8 => 8,
        SampleFormat::F64 | SampleFormat::I64 | SampleFormat::U64 => 64,
    }
}

/// The container sample-format field matching format `f`.
pub open spec fn spec_wav_format(f: SampleFormat) -> WavSampleFormat {
    match f {
        SampleFormat::F32 | SampleFormat::F64 => WavSampleFormat::Float,
        _ => WavSampleFormat::Int,
    }
}

/// The complete container byte stream for the given header fields and
/// 32-bit sample bit patterns: a self-describing uncompressed PCM file,
/// fully finalized (all framing and length header fields flushed).
pub uninterp spec fn wav_bytes_of(
    channels: u16,
    sample_rate: u32,
    bits_per_sample: u16,
    float_format: bool,
    samples: Seq<u32>,
) -> Seq<u8>;

/// Relies on `hound::WavWriter` (`new`, `write_sample`, `finalize`) writing
/// into an in-memory cursor. Per its source, the header comes from the spec
/// fields alone; at 32 bits per sample each written 32-bit pattern lands in
/// the data chunk little-endian unchanged, and at 8 or 16 bits an
/// integer-format writer is constructed successfully, so an empty sample run
/// still yields a finalized header-only file; writes to a `Vec`-backed
/// cursor cannot fail. The `requires` excludes every input on which the
/// writer panics or errors: a float header demands exactly 32 bits, the
/// block-align header field divides by the sample rate, the byte-rate header
/// field and the data-length accumulator are 32-bit products and sums, the
/// finalization takes a remainder by the channel count, and a sample count
/// that does not fill whole frames is an unfinished-sample error.
#[verifier::external_body]
fn wav_encode(
    channels: u16,
    sample_rate: u32,
    bits_per_sample: u16,
    float_format: bool,
    samples: &VecDeque<u32>,
) -> (r: Vec<u8>)
    requires
        channels >= 1,
        sample_rate >= 1,
        samples@.len() % (channels as nat) == 0,
        float_format ==> bits_per_sample == 32,
        bits_per_sample == 32 || (samples@.len() == 0 && (bits_per_sample == 8
            || bits_per_sample == 16)),
        (sample_rate as int) * ((bits_per_sample as int) / 8) * (channels as int) <= u32::MAX,
        samples@.len() * ((bits_per_sample as int) / 8) + 60 <= u32::MAX,
    ensures
        r@ == wav_bytes_of(channels, sample_rate, bits_per_sample, float_format, samples@),
{
    let sample_format =
        if float_format { hound::SampleFormat::Float } else { hound::SampleFormat::Int };
    let spec = hound::WavSpec { channels, sample_rate, bits_per_sample, sample_format };
    let mut buffer = vec![];
    let writer = std::io::Cursor::new(&mut buffer);
    let mut wav_writer = hound::WavWriter::new(std::io::BufWriter::new(writer), spec).unwrap();
    for sample in samples {
        wav_writer.write_sample(*sample as i32).unwrap();
    }
    wav_writer.finalize().unwrap();
    buffer
}

/// Playback and serialization configuration: target sample format, sample
/// rate and channel count. The host audio system's device handles live with
/// the surrounding runtime; this type owns the decisions.
#[derive(Clone, Copy, Debug)]
pub struct AudioManager {
    pub sample_format: SampleFormat,
    pub sample_rate: u32,
    pub channel_count: u16,
}

impl Default for AudioManager {
    /// Single-channel 32-bit IEEE-754 output at the default rate.
    fn default() -> (r: Self)
        ensures
            r.sample_format == SampleFormat::F32,
            r.sample_rate == DEFAULT_RATE,
            r.channel_count == 1,
    {
        AudioManager {
            sample_format: SampleFormat::F32,
            sample_rate: DEFAULT_RATE,
            channel_count: 1,
        }
    }
}

impl AudioManager {
    /// The container bit depth for this configuration.
    pub fn bits_per_sample(&self) -> (r: u16)
        ensures
            r == spec_bits_per_sample(self.sample_format),
    {
        match self.sample_format {
            SampleFormat::F32 | SampleFormat::I32 | SampleFormat::U32 => 32,
            SampleFormat::I16 | SampleFormat::U16 => 16,
            SampleFormat::I8 | SampleFormat::U8 => 8,
            SampleFormat::F64 | SampleFormat::I64 | SampleFormat::U64 => 64,
        }
    }

    /// The container sample-format field for this configuration.
    pub fn hound_format(&self) -> (r: WavSampleFormat)
        ensures
            r == spec_wav_format(self.sample_format),
    {
        match self.sample_format {
            SampleFormat::F32 | SampleFormat::F64 => WavSampleFormat::Float,
            _ => WavSampleFormat::Int,
        }
    }

    /// Total playback duration, in whole milliseconds, of `sample_count`
    /// samples at this configuration's rate; known before the first hardware
    /// callback fires.
    pub fn playback_duration_ms(&self, sample_count: u64) -> (r: u64)
        requires
            self.sample_rate > 0,
            sample_count <= u64::MAX / 1000,
        ensures
            r == 1000 * (sample_count as int) / (self.sample_rate as int),
    {
        (1000 * sample_count) / (self.sample_rate as u64)
    }

    /// The data chunk can carry this sample run at this configuration's bit
    /// depth: always at 32 bits, and as a header-only file (no samples) at 8
    /// or 16 bits.
    pub open spec fn wav_depth_supported(&self, samples: Seq<u32>) -> bool {
        ||| spec_bits_per_sample(self.sample_format) == 32
        ||| (samples.len() == 0 && (spec_bits_per_sample(self.sample_format) == 8
            || spec_bits_per_sample(self.sample_format) == 16))
    }

    /// The configuration and run size the encoder can write at all: at least
    /// one channel, a nonzero sample rate, a bit depth that can carry the
    /// run, and header fields that fit the container's 32-bit arithmetic
    /// (the byte-rate product, and the data length plus the largest header).
    pub open spec fn wav_config_supported(&self, samples: Seq<u32>) -> bool {
        &&& self.channel_count >= 1
        &&& self.sample_rate >= 1
        &&& self.wav_depth_supported(samples)
        &&& (self.sample_rate as int) * ((spec_bits_per_sample(self.sample_format) as int) / 8) * (
        self.channel_count as int) <= u32::MAX
        &&& samples.len() * ((spec_bits_per_sample(self.sample_format) as int) / 8) + 60
            <= u32::MAX
    }

    /// The whole encode succeeds: a supported configuration and run size,
    /// and whole audio frames (the sample count a multiple of the channel
    /// count).
    pub open spec fn wav_encodable(&self, samples: Seq<u32>) -> bool {
        &&& self.wav_config_supported(samples)
        &&& samples.len() % (self.channel_count as nat) == 0
    }

    /// Deterministic, order-preserving encode of the full sample run (32-bit
    /// IEEE-754 bit patterns) into a self-describing, finalized container
    /// byte stream carrying this configuration's channel count, rate, bit
    /// depth and sample format. Succeeds exactly when the encoder can write
    /// the whole run; every other input is rejected whole with a typed
    /// error — an unwritable configuration or a run too large for the
    /// container's 32-bit header fields as `Unsupported`, a sample count
    /// that leaves the last frame incomplete as `UnfinishedSample` — so no
    /// partial or unfinalized output ever exists.
    pub fn serialize_wav(&self, samples: VecDeque<u32>) -> (r: Result<Vec<u8>, WavError>)
        ensures
            self.wav_encodable(samples@) ==> (r matches Ok(b) && b@ == wav_bytes_of(
                self.channel_count,
                self.sample_rate,
                spec_bits_per_sample(self.sample_format),
                spec_wav_format(self.sample_format) is Float,
                samples@,
            )),
            !self.wav_config_supported(samples@) ==> r === Err(WavError::Unsupported),
            self.wav_config_supported(samples@) && samples@.len() % (self.channel_count as nat)
                != 0 ==> r === Err(WavError::UnfinishedSample),
    {
        let bits = self.bits_per_sample();
        let float_format = matches!(self.hound_format(), WavSampleFormat::Float);
        if self.channel_count == 0 || self.sample_rate == 0 {
            return Err(WavError::Unsupported);
        }
        if !(bits == 32 || (samples.len() == 0 && (bits == 8 || bits == 16))) {
            return Err(WavError::Unsupported);
        }
        let bytes_per_sample = bits / 8;
        let n = samples.len();
        proof {
            assert(bytes_per_sample <= 8);
            assert((self.sample_rate as int) * (bytes_per_sample as int) <= u64::MAX && (
            self.sample_rate as int) * (bytes_per_sample as int) * (self.channel_count as int)
                <= u64::MAX) by (nonlinear_arith)
                requires
                    self.sample_rate as int <= u32::MAX,
                    0 <= bytes_per_sample as int <= 8,
                    0 <= self.channel_count as int <= u16::MAX,
            ;
            assert((n as int) * (bytes_per_sample as int) + 60 <= u128::MAX) by (nonlinear_arith)
                requires
                    n as int <= u64::MAX,
                    0 <= bytes_per_sample as int <= 8,
            ;
        }
        if (self.sample_rate as u64) * (bytes_per_sample as u64) * (self.channel_count as u64)
            > u32::MAX as u64 {
            return Err(WavError::Unsupported);
        }
        if (n as u128) * (bytes_per_sample as u128) + 60 > u32::MAX as u128 {
            return Err(WavError::Unsupported);
        }
        if samples.len() % (self.channel_count as usize) != 0 {
            return Err(WavError::UnfinishedSample);
        }
        Ok(wav_encode(self.channel_count, self.sample_rate, bits, float_format, &samples))
    }
}

/// Fills one hardware callback's output block: the next `out_len` sample bit
/// patterns are popped from the front of the queue in order, and once the
/// queue is exhausted the rest of the block is silence (amplitude zero), so
/// playback ends with a clean tail instead of looping, stalling or erroring.
/// The callback writes the block to its output slice in the same order, so
/// channel framing does not change which sample goes where.
pub fn fill_output(samples: &mut VecDeque<u32>, out_len: usize) -> (r: Vec<u32>)
    ensures
        r@.len() == out_len,
        forall|j: int|
            0 <= j < out_len ==> r@[j] == (if j < old(samples)@.len() {
                old(samples)@[j]
            } else {
                0u32
            }),
        final(samples)@ === (if out_len <= old(samples)@.len() {
            old(samples)@.skip(out_len as int)
        } else {
            Seq::<u32>::empty()
        }),
{
    let mut r: Vec<u32> = Vec::new();
    let mut j: usize = 0;
    while j < out_len
        invariant
            j <= out_len,
            r@.len() == j,
            samples@ === (if j <= old(samples)@.len() {
                old(samples)@.skip(j as int)
            } else {
                Seq::<u32>::empty()
            }),
            forall|k: int|
                0 <= k < j ==> r@[k] == (if k < old(samples)@.len() {
                    old(samples)@[k]
                } else {
                    0u32
                }),
        decreases out_len - j,
    {
        match samples.pop_front() {
            Some(s) => r.push(s),
            None => r.push(0u32),
        }
        proof {
            if j + 1 <= old(samples)@.len() {
                assert(samples@ =~= old(samples)@.skip(j + 1));
            } else {
                assert(samples@ =~= Seq::<u32>::empty());
            }
        }
        j += 1;
    }
    r
}

} // verus!
