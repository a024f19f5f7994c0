use vstd::prelude::*;
use vstd::arithmetic::div_mod::{lemma_fundamental_div_mod, lemma_fundamental_div_mod_converse};

verus! {

/// Mismatches between a finished token sequence, the audio-codec decode
/// engine's fixed input contract, and its response. All are fatal for the
/// run: they mean the code and the model artifact do not belong together.
#[derive(Clone, Copy, Debug, PartialEq, Eq, Structural)]
pub enum AudioCodecError {
    /// The token count is not divisible by the codebook count.
    ShapeMismatch,
    /// The response held no `audio_values` entry.
    MissingOutput,
    /// The `audio_values` entry was neither single- nor half-precision.
    UnsupportedOutputType,
}

/// `out` is `tokens` re-laid-out codebook-major: with `steps = tokens.len() / n`
/// logical time steps, the entry at output position `i * steps + t` (codebook
/// `i`, step `t`) is the input entry at position `t * n + i` (step `t`,
/// codebook `i`). Flattened, this is exactly the `[1, 1, n, steps]` tensor
/// layout the decode engine consumes.
pub open spec fn is_codebook_major(tokens: Seq<i64>, n: int, out: Seq<i64>) -> bool {
    let steps = tokens.len() as int / n;
    &&& out.len() == tokens.len()
    &&& forall|j: int| 0 <= j < out.len() ==> out[j] == tokens[(j % steps) * n + j / steps]
}

/// For a codebook-major layout, the entry of codebook `i` at step `t` stands
/// at flat position `i * steps + t` and equals the step-major input entry at
/// `t * n + i`.
pub proof fn lemma_codebook_major_entry(tokens: Seq<i64>, n: int, out: Seq<i64>, i: int, t: int)
    requires
        n > 0,
        tokens.len() % (n as nat) == 0,
        is_codebook_major(tokens, n, out),
        0 <= i < n,
        0 <= t < tokens.len() as int / n,
    ensures
        out[i * (tokens.len() as int / n) + t] == tokens[t * n + i],
{
    let steps = tokens.len() as int / n;
    let j = i * steps + t;
    assert(0 <= j < n * steps) by (nonlinear_arith)
        requires 0 <= i < n, 0 <= t < steps, j == i * steps + t;
    lemma_fundamental_div_mod(tokens.len() as int, n);
    assert(n * steps == tokens.len());
    lemma_fundamental_div_mod_converse(j, steps, i, t);
}

/// Adapter from a completed, de-delayed token sequence to the decode
/// engine's input layout.
pub struct TokenToWaveform {
    /// How many parallel codebooks each logical step holds.
    pub n_codebooks: usize,
}

impl TokenToWaveform {
    pub fn new(n_codebooks: usize) -> (r: Self)
        requires
            n_codebooks > 0,
        ensures
            r.n_codebooks == n_codebooks,
    {
        TokenToWaveform { n_codebooks }
    }

    /// Re-lays a flat, step-major token sequence out codebook-major, the
    /// shape the decode engine's `[1, 1, n, steps]` input requires. A length
    /// that is not a multiple of the codebook count is a fatal shape
    /// mismatch, never silently coerced; the empty sequence is accepted and
    /// stays empty.
    pub fn decoder_input(&self, tokens: &Vec<i64>) -> (r: Result<Vec<i64>, AudioCodecError>)
        requires
            self.n_codebooks > 0,
        ensures
            match r {
                Ok(v) => {
                    &&& tokens@.len() % (self.n_codebooks as nat) == 0
                    &&& is_codebook_major(tokens@, self.n_codebooks as int, v@)
                },
                Err(e) => {
                    &&& tokens@.len() % (self.n_codebooks as nat) != 0
                    &&& e == AudioCodecError::ShapeMismatch
                },
            },
    {
        let n = self.n_codebooks;
        let len = tokens.len();
        if len % n != 0 {
            return Err(AudioCodecError::ShapeMismatch);
        }
        let steps = len / n;
        proof {
            lemma_fundamental_div_mod(len as int, n as int);
            assert(len == n * steps);
        }
        let mut out: Vec<i64> = Vec::new();
        let mut i: usize = 0;
        while i < n
            invariant
                n > 0,
                len == tokens@.len(),
                len == n * steps,
                steps == len as int / n as int,
                i <= n,
                out@.len() == i * steps,
                forall|j: int|
                    0 <= j < out@.len() ==> out@[j] == tokens@[
                        (j % (steps as int)) * n + j / (steps as int)
                    ],
            decreases n - i,
        {
            let mut t: usize = 0;
            while t < steps
                invariant
                    n > 0,
                    len == tokens@.len(),
                    len == n * steps,
                    steps == len as int / n as int,
                    i < n,
                    t <= steps,
                    out@.len() == i * steps + t,
                    forall|j: int|
                        0 <= j < out@.len() ==> out@[j] == tokens@[
                            (j % (steps as int)) * n + j / (steps as int)
                        ],
                decreases steps - t,
            {
                proof {
                    assert(t * n + i < len && i * steps + t < len) by (nonlinear_arith)
                        requires 0 <= i < n, 0 <= t < steps, len == n * steps;
                }
                out.push(tokens[t * n + i]);
                proof {
                    let j = i * steps + t;
                    lemma_fundamental_div_mod_converse(j as int, steps as int, i as int, t as int);
                    assert(out@[j as int] == tokens@[(t * n + i) as int]);
                }
                t += 1;
            }
            proof {
                assert((i + 1) * steps == i * steps + steps) by (nonlinear_arith);
            }
            i += 1;
        }
        proof {
            assert(out@.len() == n * steps);
        }
        Ok(out)
    }
}

/// The `audio_values` entry of the decode engine's response, as the
/// surrounding runtime found it. Samples of either accepted precision arrive
/// as single-precision bit patterns, one per sample (half-precision samples
/// are widened by the runtime, a pure numeric conversion this crate cannot
/// hold); an entry of any other element type, or no such entry at all, is
/// recorded as such.
pub enum RawAudioOutput {
    SampleBits(Vec<u32>),
    UnsupportedType,
    Missing,
}

/// Accepts or rejects the decode engine's `audio_values` entry. A missing
/// entry or an unsupported element type is a fatal contract violation,
/// never a silent empty result; accepted samples pass through unchanged.
pub fn extract_samples(output: RawAudioOutput) -> (r: Result<Vec<u32>, AudioCodecError>)
    ensures
        output matches RawAudioOutput::SampleBits(v) ==> r matches Ok(s) && s@ === v@,
        output is UnsupportedType ==> r === Err(AudioCodecError::UnsupportedOutputType),
        output is Missing ==> r === Err(AudioCodecError::MissingOutput),
{
    match output {
        RawAudioOutput::SampleBits(v) => Ok(v),
        RawAudioOutput::UnsupportedType => Err(AudioCodecError::UnsupportedOutputType),
        RawAudioOutput::Missing => Err(AudioCodecError::MissingOutput),
    }
}

} // verus!
