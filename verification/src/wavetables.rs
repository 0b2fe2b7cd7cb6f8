//! The immutable wavetables oscillator voices read.
//!
//! Their exact content is an opaque resource: the engine only relies on each
//! table having [`TABLE_SIZE`]` + 1` entries in `[-1, 1]` whose last entry
//! repeats the first, so linear interpolation never reads past the end.

use vstd::arithmetic::div_mod::{lemma_div_is_ordered, lemma_div_multiples_vanish};
use vstd::prelude::*;

use crate::consts::{FX_ONE, TABLE_SIZE};
use crate::rng::random_below;

verus! {

/// What every consumer may assume of a wavetable.
pub open spec fn table_wf(t: Seq<i64>) -> bool {
    &&& t.len() == TABLE_SIZE + 1
    &&& t[TABLE_SIZE as int] == t[0]
    &&& forall|i: int| 0 <= i < t.len() ==> -FX_ONE <= #[trigger] t[i] <= FX_ONE
}

/// The interpolated table value at a phase within `[0, 1]`: linear
/// interpolation between the two neighbouring entries, clamped to the last
/// entry when the interpolation index reaches the table length exactly.
pub open spec fn table_sample_spec(t: Seq<i64>, phase: int) -> int {
    let tp = phase * (TABLE_SIZE as int);
    let offset = tp / (FX_ONE as int);
    let fp = tp % (FX_ONE as int);
    if offset + 1 >= t.len() {
        t[t.len() - 1] as int
    } else {
        (fp * t[offset + 1] + (FX_ONE - fp) * t[offset]) / (FX_ONE as int)
    }
}

/// Linear interpolation into a wavetable at a fixed-point phase.
pub fn table_lookup(t: &Vec<i64>, phase: i64) -> (v: i64)
    requires
        table_wf(t@),
        0 <= phase <= FX_ONE,
    ensures
        v as int == table_sample_spec(t@, phase as int),
        -FX_ONE <= v <= FX_ONE,
{
    let tp: u64 = (phase as u64) * (TABLE_SIZE as u64);
    proof {
        lemma_div_is_ordered(tp as int, (FX_ONE as int) * (TABLE_SIZE as int), FX_ONE as int);
        lemma_div_multiples_vanish(TABLE_SIZE as int, FX_ONE as int);
        lemma_div_is_ordered(0, tp as int, FX_ONE as int);
        vstd::arithmetic::div_mod::lemma_mod_bound(tp as int, FX_ONE as int);
    }
    let offset: usize = (tp / (FX_ONE as u64)) as usize;
    let fp: i64 = (tp % (FX_ONE as u64)) as i64;
    if offset + 1 >= t.len() {
        t[t.len() - 1]
    } else {
        let a = t[offset + 1];
        let b = t[offset];
        proof {
            assert(-(FX_ONE * (FX_ONE as int)) <= fp * a + (FX_ONE - fp) * b
                && fp * a + (FX_ONE - fp) * b <= FX_ONE * (FX_ONE as int)
                && -(FX_ONE * (FX_ONE as int)) <= fp * a && fp * a <= FX_ONE * (FX_ONE as int)
                && -(FX_ONE * (FX_ONE as int)) <= (FX_ONE - fp) * b
                && (FX_ONE - fp) * b <= FX_ONE * (FX_ONE as int)) by (nonlinear_arith)
                requires
                    0 <= fp as int,
                    (fp as int) < FX_ONE as int,
                    -FX_ONE <= a as int <= FX_ONE as int,
                    -FX_ONE <= b as int <= FX_ONE as int,
            ;
        }
        let num: i64 = fp * a + (FX_ONE - fp) * b;
        proof {
            vstd::arithmetic::div_mod::lemma_hoist_over_denominator(
                num as int,
                FX_ONE as int,
                FX_ONE as nat,
            );
            lemma_div_is_ordered(
                num + FX_ONE * (FX_ONE as int),
                2 * FX_ONE * (FX_ONE as int),
                FX_ONE as int,
            );
            lemma_div_multiples_vanish(2 * FX_ONE as int, FX_ONE as int);
            lemma_div_is_ordered(0, num + FX_ONE * (FX_ONE as int), FX_ONE as int);
        }
        let shifted: u64 = (num + FX_ONE * FX_ONE) as u64;
        ((shifted / (FX_ONE as u64)) as i64) - FX_ONE
    }
}

/// One copy of each waveform the voices draw from.
#[derive(Debug)]
pub struct Wavetables {
    pub saw_wavetable: Vec<i64>,
    pub sin_wavetable: Vec<i64>,
    pub tri_wavetable: Vec<i64>,
    pub sqr_wavetable: Vec<i64>,
    pub noise_wavetable: Vec<i64>,
}

impl Wavetables {
    /// All five tables are well formed.
    pub open spec fn wf(self) -> bool {
        &&& table_wf(self.saw_wavetable@)
        &&& table_wf(self.sin_wavetable@)
        &&& table_wf(self.tri_wavetable@)
        &&& table_wf(self.sqr_wavetable@)
        &&& table_wf(self.noise_wavetable@)
    }

    pub fn new() -> (r: Wavetables)
        ensures
            r.wf(),
    {
        Wavetables {
            saw_wavetable: build_saw(),
            sin_wavetable: build_sin(),
            tri_wavetable: build_tri(),
            sqr_wavetable: build_sqr(),
            noise_wavetable: build_noise(),
        }
    }
}

/// Close a table by repeating its first entry, so interpolation at the top
/// of the phase range stays in bounds.
fn close_table(t: &mut Vec<i64>)
    requires
        old(t)@.len() == TABLE_SIZE + 1,
        forall|i: int| 0 <= i < TABLE_SIZE ==> -FX_ONE <= #[trigger] old(t)@[i] <= FX_ONE,
    ensures
        table_wf(final(t)@),
{
    let first = t[0];
    t[TABLE_SIZE] = first;
}

/// Rising ramp from -1 to just under 1.
fn build_saw() -> (t: Vec<i64>)
    ensures
        table_wf(t@),
{
    let mut t = vec![0i64; TABLE_SIZE + 1];
    let mut i: usize = 0;
    while i < TABLE_SIZE
        invariant
            t@.len() == TABLE_SIZE + 1,
            i <= TABLE_SIZE,
            forall|k: int| 0 <= k < TABLE_SIZE + 1 ==> -FX_ONE <= #[trigger] t@[k] <= FX_ONE,
        decreases TABLE_SIZE - i,
    {
        let num: u64 = 2 * (FX_ONE as u64) * (i as u64);
        proof {
            lemma_div_is_ordered(num as int, (TABLE_SIZE as int) * 2 * (FX_ONE as int), 512);
            lemma_div_multiples_vanish(2 * (FX_ONE as int), 512);
            lemma_div_is_ordered(0, num as int, 512);
        }
        let q: i64 = (num / 512) as i64;
        t[i] = q - FX_ONE;
        i += 1;
    }
    close_table(&mut t);
    t
}

/// Triangle: up across the first half, down across the second.
fn build_tri() -> (t: Vec<i64>)
    ensures
        table_wf(t@),
{
    let mut t = vec![0i64; TABLE_SIZE + 1];
    let mut i: usize = 0;
    while i < TABLE_SIZE
        invariant
            t@.len() == TABLE_SIZE + 1,
            i <= TABLE_SIZE,
            forall|k: int| 0 <= k < TABLE_SIZE + 1 ==> -FX_ONE <= #[trigger] t@[k] <= FX_ONE,
        decreases TABLE_SIZE - i,
    {
        let half: usize = TABLE_SIZE / 2;
        let pos: u64 = if i < half {
            i as u64
        } else {
            (i - half) as u64
        };
        let num: u64 = 2 * (FX_ONE as u64) * pos;
        proof {
            lemma_div_is_ordered(num as int, 256 * 2 * (FX_ONE as int), 256);
            lemma_div_multiples_vanish(2 * (FX_ONE as int), 256);
            lemma_div_is_ordered(0, num as int, 256);
        }
        let q: i64 = (num / 256) as i64;
        t[i] = if i < half {
            q - FX_ONE
        } else {
            FX_ONE - q
        };
        i += 1;
    }
    close_table(&mut t);
    t
}

/// Square: +1 across the first half, -1 across the second.
fn build_sqr() -> (t: Vec<i64>)
    ensures
        table_wf(t@),
{
    let mut t = vec![0i64; TABLE_SIZE + 1];
    let mut i: usize = 0;
    while i < TABLE_SIZE
        invariant
            t@.len() == TABLE_SIZE + 1,
            i <= TABLE_SIZE,
            forall|k: int| 0 <= k < TABLE_SIZE + 1 ==> -FX_ONE <= #[trigger] t@[k] <= FX_ONE,
        decreases TABLE_SIZE - i,
    {
        t[i] = if i < TABLE_SIZE / 2 {
            FX_ONE
        } else {
            -FX_ONE
        };
        i += 1;
    }
    close_table(&mut t);
    t
}

/// Sine-like waveform: two parabolic arcs, one positive, one negative.
fn build_sin() -> (t: Vec<i64>)
    ensures
        table_wf(t@),
{
    let mut t = vec![0i64; TABLE_SIZE + 1];
    let mut i: usize = 0;
    while i < TABLE_SIZE
        invariant
            t@.len() == TABLE_SIZE + 1,
            i <= TABLE_SIZE,
            forall|k: int| 0 <= k < TABLE_SIZE + 1 ==> -FX_ONE <= #[trigger] t@[k] <= FX_ONE,
        decreases TABLE_SIZE - i,
    {
        let half: usize = TABLE_SIZE / 2;
        let pos: u64 = if i < half {
            i as u64
        } else {
            (i - half) as u64
        };
        proof {
            assert(0 <= (pos as int) * (256 - pos as int) <= 16384) by (nonlinear_arith)
                requires
                    0 <= pos as int <= 256,
            ;
        }
        let m: u64 = pos * (256 - pos);
        let num: u64 = 4_000_000u64 * m;
        proof {
            lemma_div_is_ordered(num as int, 65536 * (FX_ONE as int), 65536);
            lemma_div_multiples_vanish(FX_ONE as int, 65536);
            lemma_div_is_ordered(0, num as int, 65536);
        }
        let q: i64 = (num / 65536) as i64;
        t[i] = if i < half {
            q
        } else {
            -q
        };
        i += 1;
    }
    close_table(&mut t);
    t
}

/// White-ish noise: every entry drawn independently from `[-1, 1]`.
fn build_noise() -> (t: Vec<i64>)
    ensures
        table_wf(t@),
{
    let mut t = vec![0i64; TABLE_SIZE + 1];
    let mut i: usize = 0;
    while i < TABLE_SIZE
        invariant
            t@.len() == TABLE_SIZE + 1,
            i <= TABLE_SIZE,
            forall|k: int| 0 <= k < TABLE_SIZE + 1 ==> -FX_ONE <= #[trigger] t@[k] <= FX_ONE,
        decreases TABLE_SIZE - i,
    {
        let draw: u32 = random_below(2_000_001);
        t[i] = (draw as i64) - FX_ONE;
        i += 1;
    }
    close_table(&mut t);
    t
}

} // verus!
