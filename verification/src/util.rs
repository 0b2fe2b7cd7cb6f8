//! Small shared helpers: pitch-to-frequency conversion, the engine error
//! type, and lock-poison translation.

use vstd::prelude::*;

use crate::consts::{FREQ_MAX, FX_ONE};

verus! {

/// Errors the engine surfaces to its callers.
#[derive(Clone, Copy, Debug, PartialEq, Eq, Structural)]
pub enum SynthError {
    /// The shared-state lock was poisoned by a panicking thread; fatal for
    /// the calling thread's loop.
    Poisoned,
    /// The fixed ugen list holds no MIDI manager to route a note event to.
    NoMidiManager,
    /// A control-plane index lies outside the configured bounds.
    BadIndex,
}

/// The fixed-point ratio `2^(sem / 12)` of one equal-tempered semitone step,
/// for `sem` within one octave.
pub open spec fn semitone_ratio(sem: int) -> int {
    if sem == 0 {
        1_000_000
    } else if sem == 1 {
        1_059_463
    } else if sem == 2 {
        1_122_462
    } else if sem == 3 {
        1_189_207
    } else if sem == 4 {
        1_259_921
    } else if sem == 5 {
        1_334_840
    } else if sem == 6 {
        1_414_214
    } else if sem == 7 {
        1_498_307
    } else if sem == 8 {
        1_587_401
    } else if sem == 9 {
        1_681_793
    } else if sem == 10 {
        1_781_797
    } else {
        1_887_749
    }
}

/// Equal-tempered frequency of a MIDI pitch: 440 Hz at pitch 69, doubling
/// every 12 semitones, in fixed point.  Octaves are exact powers of two;
/// within an octave the tabulated semitone ratios apply.  The result
/// saturates at [`FREQ_MAX`] (far above the audible range).
pub open spec fn freq_of_pitch_spec(pitch: u8) -> int {
    let rel = pitch + 51;  // semitones above pitch 69, shifted up 10 octaves
    let oct = rel / 12;
    let base = 440 * semitone_ratio(rel % 12);
    if oct >= 10 {
        if base * pow2_int(oct - 10) > FREQ_MAX {
            FREQ_MAX as int
        } else {
            base * pow2_int(oct - 10)
        }
    } else {
        base / pow2_int(10 - oct)
    }
}

/// `2^n` for small `n`.
pub open spec fn pow2_int(n: int) -> int
    decreases n,
{
    if n <= 0 {
        1
    } else {
        2 * pow2_int(n - 1)
    }
}

/// Equal-tempered frequency of a MIDI pitch, as executable code.
pub fn freq_of_pitch(pitch: u8) -> (f: i64)
    ensures
        f as int == freq_of_pitch_spec(pitch),
        0 <= f <= FREQ_MAX,
{
    let rel: u32 = pitch as u32 + 51;
    let oct: u32 = rel / 12;
    let sem: u32 = rel % 12;
    proof {
        vstd::arithmetic::div_mod::lemma_mod_bound(rel as int, 12);
        vstd::arithmetic::div_mod::lemma_div_is_ordered(rel as int, 306, 12);
    }
    let ratio: i64 = semitone_ratio_exec(sem);
    let base: i64 = 440 * ratio;
    if oct >= 10 {
        let mut shift: u32 = oct - 10;
        let mut f: i64 = base;
        proof {
            assert(pow2_int(0) == 1);
        }
        let mut done: u32 = 0;
        while done < shift
            invariant
                base == 440 * semitone_ratio(rel as int % 12),
                0 < base <= 2 * FX_ONE * 440,
                shift == oct - 10 <= 16,
                done <= shift,
                0 <= f <= FREQ_MAX,
                f as int == (if base * pow2_int(done as int) > FREQ_MAX {
                    FREQ_MAX as int
                } else {
                    base * pow2_int(done as int)
                }),
            decreases shift - done,
        {
            proof {
                assert(pow2_int(done + 1) == 2 * pow2_int(done as int));
                assert(pow2_int(done as int) >= 1) by {
                    lemma_pow2_pos(done as int);
                }
                assert(base * pow2_int(done + 1) == 2 * (base * pow2_int(done as int)))
                    by (nonlinear_arith);
                assert(base * pow2_int(done as int) > 0) by (nonlinear_arith)
                    requires
                        base > 0,
                        pow2_int(done as int) >= 1,
                ;
            }
            f = if f > FREQ_MAX / 2 {
                FREQ_MAX
            } else {
                f * 2
            };
            done += 1;
        }
        f
    } else {
        let down: u32 = 10 - oct;
        let mut f: i64 = base;
        let mut done: u32 = 0;
        while done < down
            invariant
                base == 440 * semitone_ratio(rel as int % 12),
                0 < base <= 2 * FX_ONE * 440,
                down == 10 - oct <= 10,
                done <= down,
                0 <= f <= FREQ_MAX,
                f as int == (base as int) / pow2_int(done as int),
            decreases down - done,
        {
            proof {
                lemma_pow2_pos(done as int);
                lemma_pow2_pos(done + 1);
                vstd::arithmetic::div_mod::lemma_div_denominator(
                    base as int,
                    pow2_int(done as int),
                    2,
                );
                vstd::arithmetic::div_mod::lemma_div_is_ordered(0, base as int, pow2_int(done + 1));
                vstd::arithmetic::div_mod::lemma_div_is_ordered(
                    0,
                    (base as int) / pow2_int(done as int),
                    2,
                );
            }
            f = ((f as u64) / 2) as i64;
            done += 1;
        }
        f
    }
}

/// `2^n` is positive.
pub proof fn lemma_pow2_pos(n: int)
    ensures
        pow2_int(n) >= 1,
    decreases n,
{
    if n > 0 {
        lemma_pow2_pos(n - 1);
    }
}

/// The tabulated semitone ratio, as executable code.
fn semitone_ratio_exec(sem: u32) -> (r: i64)
    ensures
        r as int == semitone_ratio(sem as int),
        FX_ONE <= r < 2 * FX_ONE,
{
    if sem == 0 {
        1_000_000
    } else if sem == 1 {
        1_059_463
    } else if sem == 2 {
        1_122_462
    } else if sem == 3 {
        1_189_207
    } else if sem == 4 {
        1_259_921
    } else if sem == 5 {
        1_334_840
    } else if sem == 6 {
        1_414_214
    } else if sem == 7 {
        1_498_307
    } else if sem == 8 {
        1_587_401
    } else if sem == 9 {
        1_681_793
    } else if sem == 10 {
        1_781_797
    } else {
        1_887_749
    }
}

/// Replace the unsendable payload of a poisoned-lock result with the
/// engine's own error: the value passes through untouched, any error becomes
/// [`SynthError::Poisoned`].
pub fn depoison<T, E>(res: Result<T, E>) -> (r: Result<T, SynthError>)
    ensures
        match res {
            Ok(v) => r == Ok::<T, SynthError>(v),
            Err(_) => r == Err::<T, SynthError>(SynthError::Poisoned),
        },
{
    match res {
        Ok(v) => Ok(v),
        Err(_) => Err(SynthError::Poisoned),
    }
}

} // verus!
