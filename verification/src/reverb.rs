//! Reverb ugen: a small Freeverb-style network — parallel feedback combs
//! into one allpass diffuser — with a hot-swappable room size and wet mix.

use vstd::prelude::*;

use crate::consts::{AUDIO_BUS_LENGTH, FX_ONE, NUM_CONTROL_BLOCKS};
use crate::delay::{tap_spec, DelayLine};
use crate::envelope::{clamp_unit, clamp_unit_exec};
use crate::fx::{
    fx_add, fx_add_spec, fx_in_range, fx_mul, fx_mul_spec, fx_sub, fx_sub_spec,
};
use crate::state::{block_len, busses_wf, AudioBusses, ControlBlock, ControlBlocks};

verus! {

/// Which history a tap reads (kept for parity with the other delay effects).
#[derive(Clone, Copy, Debug, PartialEq, Eq, Structural)]
pub enum TapType {
    Rec,
    Input,
}

/// Parameters of the reverb: room size and wet mix, both fractions of one.
#[derive(Clone, Copy, Debug, PartialEq, Eq, Structural)]
pub struct ReverbControlBlock {
    pub room_size: i64,
    pub wet: i64,
}

/// Comb delay lengths (mutually prime, in the Freeverb tradition) and the
/// diffuser length.
pub const COMB_A: usize = 1116;

pub const COMB_B: usize = 1188;

pub const COMB_C: usize = 1277;

pub const DIFFUSER: usize = 556;

/// Feedback gain of the diffuser stage.
pub const DIFFUSER_GAIN: i64 = 500_000;

/// Control-block slot every reverb reads (fixed wiring).
pub const REVERB_CONTROL_BLOCK: usize = 4;

/// The comb feedback gain a room size maps to: `0.01 + 0.98 * room`, the
/// room size first pushed into `[0, 1]`.
pub open spec fn room_feedback(room_size: int) -> int {
    10_000 + (980_000 * clamp_unit(room_size)) / (FX_ONE as int)
}

/// One feedback comb step over a history of stored values `z`:
/// the output is the value stored `delay` steps ago, and the newly stored
/// value is `x + g * out`.
pub open spec fn comb_out(z: Seq<i64>, delay: int) -> int {
    tap_spec(z, delay - 1) as int
}

/// The value a comb stores for one input `x` with feedback `g`.
pub open spec fn comb_store(z: Seq<i64>, delay: int, x: int, g: int) -> int {
    fx_add_spec(x, fx_mul_spec(g, comb_out(z, delay)))
}

/// A reverb stage: reads bus `src`, writes bus `dst`; three parallel combs
/// feed one allpass diffuser.
pub struct ReverbState {
    src: usize,
    dst: usize,
    comb_a: DelayLine,
    comb_b: DelayLine,
    comb_c: DelayLine,
    diffuser: DelayLine,
}

impl ReverbState {
    /// Source bus index.
    pub closed spec fn src(self) -> int {
        self.src as int
    }

    /// Destination bus index.
    pub closed spec fn dst(self) -> int {
        self.dst as int
    }

    /// Stored values of the first comb.
    pub closed spec fn comb_a_hist(self) -> Seq<i64> {
        self.comb_a.hist()
    }

    /// Stored values of the second comb.
    pub closed spec fn comb_b_hist(self) -> Seq<i64> {
        self.comb_b.hist()
    }

    /// Stored values of the third comb.
    pub closed spec fn comb_c_hist(self) -> Seq<i64> {
        self.comb_c.hist()
    }

    /// Stored values of the diffuser.
    pub closed spec fn diffuser_hist(self) -> Seq<i64> {
        self.diffuser.hist()
    }

    /// Indices within the fixed layout; each line sized to its delay.
    pub closed spec fn wf(self) -> bool {
        &&& self.src < AUDIO_BUS_LENGTH
        &&& self.dst < AUDIO_BUS_LENGTH
        &&& self.comb_a.wf() && self.comb_a.cap() == COMB_A
        &&& self.comb_b.wf() && self.comb_b.cap() == COMB_B
        &&& self.comb_c.wf() && self.comb_c.cap() == COMB_C
        &&& self.diffuser.wf() && self.diffuser.cap() == DIFFUSER
    }

    pub fn new(src: usize, dst: usize) -> (r: ReverbState)
        requires
            src < AUDIO_BUS_LENGTH,
            dst < AUDIO_BUS_LENGTH,
        ensures
            r.wf(),
            r.src() == src,
            r.dst() == dst,
            r.comb_a_hist() == Seq::<i64>::empty(),
            r.comb_b_hist() == Seq::<i64>::empty(),
            r.comb_c_hist() == Seq::<i64>::empty(),
            r.diffuser_hist() == Seq::<i64>::empty(),
    {
        ReverbState {
            src,
            dst,
            comb_a: DelayLine::new(COMB_A),
            comb_b: DelayLine::new(COMB_B),
            comb_c: DelayLine::new(COMB_C),
            diffuser: DelayLine::new(DIFFUSER),
        }
    }

    /// Process one sample with known parameters: each comb reads its delayed
    /// stored value and stores `x + g * out`; their saturating sum runs
    /// through the diffuser; the emitted sample mixes dry and wet as
    /// `(1 - wet) * x + wet * diffused`.
    pub fn sample(&mut self, x: i64, g: i64, wet: i64) -> (out: i64)
        requires
            old(self).wf(),
            fx_in_range(x as int),
            0 <= g <= FX_ONE,
            0 <= wet <= FX_ONE,
        ensures
            final(self).wf(),
            final(self).src() == old(self).src(),
            final(self).dst() == old(self).dst(),
            ({
                let za = old(self).comb_a_hist();
                let zb = old(self).comb_b_hist();
                let zc = old(self).comb_c_hist();
                let ca = comb_out(za, COMB_A as int);
                let cb = comb_out(zb, COMB_B as int);
                let cc = comb_out(zc, COMB_C as int);
                let summed = fx_add_spec(fx_add_spec(ca, cb), cc);
                let dtap = tap_spec(old(self).diffuser_hist(), DIFFUSER - 1) as int;
                let diffused = fx_add_spec(
                    fx_mul_spec(-DIFFUSER_GAIN, summed),
                    fx_mul_spec(
                        fx_sub_spec(
                            FX_ONE as int,
                            fx_mul_spec(DIFFUSER_GAIN as int, DIFFUSER_GAIN as int),
                        ),
                        dtap,
                    ),
                );
                &&& final(self).comb_a_hist() == za.push(
                    comb_store(za, COMB_A as int, x as int, g as int) as i64,
                )
                &&& final(self).comb_b_hist() == zb.push(
                    comb_store(zb, COMB_B as int, x as int, g as int) as i64,
                )
                &&& final(self).comb_c_hist() == zc.push(
                    comb_store(zc, COMB_C as int, x as int, g as int) as i64,
                )
                &&& final(self).diffuser_hist() == old(self).diffuser_hist().push(
                    fx_add_spec(summed, fx_mul_spec(DIFFUSER_GAIN as int, dtap)) as i64,
                )
                &&& out as int == fx_add_spec(
                    fx_mul_spec(fx_sub_spec(FX_ONE as int, wet as int), x as int),
                    fx_mul_spec(wet as int, diffused),
                )
            }),
            fx_in_range(out as int),
    {
        let ca = self.comb_a.tap(COMB_A - 1);
        let cb = self.comb_b.tap(COMB_B - 1);
        let cc = self.comb_c.tap(COMB_C - 1);
        self.comb_a.record(fx_add(x, fx_mul(g, ca)));
        self.comb_b.record(fx_add(x, fx_mul(g, cb)));
        self.comb_c.record(fx_add(x, fx_mul(g, cc)));
        let summed = fx_add(fx_add(ca, cb), cc);
        let dtap = self.diffuser.tap(DIFFUSER - 1);
        self.diffuser.record(fx_add(summed, fx_mul(DIFFUSER_GAIN, dtap)));
        let diffused = fx_add(
            fx_mul(-DIFFUSER_GAIN, summed),
            fx_mul(fx_sub(FX_ONE, fx_mul(DIFFUSER_GAIN, DIFFUSER_GAIN)), dtap),
        );
        fx_add(fx_mul(fx_sub(FX_ONE, wet), x), fx_mul(wet, diffused))
    }
}


/// Sample `j` of one reverb block is correct: each comb stored its feedback
/// value, the diffuser stored the comb sum with feedback, and the emitted
/// destination sample mixes dry input and diffused wet signal.
pub open spec fn reverb_sample_ok(
    za: Seq<i64>,
    zb: Seq<i64>,
    zc: Seq<i64>,
    zd: Seq<i64>,
    src_row: Seq<i64>,
    dst_row: Seq<i64>,
    h0a: int,
    h0b: int,
    h0c: int,
    h0d: int,
    g: int,
    wet: int,
    j: int,
) -> bool {
    let x = src_row[j] as int;
    let pa = za.take(h0a + j);
    let pb = zb.take(h0b + j);
    let pc = zc.take(h0c + j);
    let pd = zd.take(h0d + j);
    let ca = comb_out(pa, COMB_A as int);
    let cb = comb_out(pb, COMB_B as int);
    let cc = comb_out(pc, COMB_C as int);
    let summed = fx_add_spec(fx_add_spec(ca, cb), cc);
    let dtap = tap_spec(pd, DIFFUSER - 1) as int;
    let diffused = fx_add_spec(
        fx_mul_spec(-DIFFUSER_GAIN, summed),
        fx_mul_spec(
            fx_sub_spec(FX_ONE as int, fx_mul_spec(DIFFUSER_GAIN as int, DIFFUSER_GAIN as int)),
            dtap,
        ),
    );
    &&& za[h0a + j] as int == comb_store(pa, COMB_A as int, x, g)
    &&& zb[h0b + j] as int == comb_store(pb, COMB_B as int, x, g)
    &&& zc[h0c + j] as int == comb_store(pc, COMB_C as int, x, g)
    &&& zd[h0d + j] as int == fx_add_spec(summed, fx_mul_spec(DIFFUSER_GAIN as int, dtap))
    &&& dst_row[j] as int == fx_add_spec(
        fx_mul_spec(fx_sub_spec(FX_ONE as int, wet), x),
        fx_mul_spec(wet, diffused),
    )
}

/// How one block relates a reverb stage's old state to its new: the room
/// size maps to the comb feedback `0.01 + 0.98 * room`, and every sample
/// follows the comb/diffuser/mix equations.
pub open spec fn reverb_run_rel(
    pre: ReverbState,
    post: ReverbState,
    bus_pre: AudioBusses,
    bus_post: AudioBusses,
    cb: ReverbControlBlock,
    r: bool,
) -> bool {
    let n = block_len(bus_pre);
    let g = room_feedback(cb.room_size as int);
    let w = clamp_unit(cb.wet as int);
    &&& post.src() == pre.src()
    &&& post.dst() == pre.dst()
    &&& r == true
    &&& post.comb_a_hist().len() == pre.comb_a_hist().len() + n
    &&& post.comb_b_hist().len() == pre.comb_b_hist().len() + n
    &&& post.comb_c_hist().len() == pre.comb_c_hist().len() + n
    &&& post.diffuser_hist().len() == pre.diffuser_hist().len() + n
    &&& forall|i: int| 0 <= i < bus_pre@.len() && i != pre.dst() ==> bus_post@[i] == bus_pre@[i]
    &&& forall|j: int|
        0 <= j < n ==> reverb_sample_ok(
            post.comb_a_hist(),
            post.comb_b_hist(),
            post.comb_c_hist(),
            post.diffuser_hist(),
            bus_pre@[pre.src()]@,
            bus_post@[pre.dst()]@,
            pre.comb_a_hist().len() as int,
            pre.comb_b_hist().len() as int,
            pre.comb_c_hist().len() as int,
            pre.diffuser_hist().len() as int,
            g,
            w,
            j,
        )
}

impl ReverbState {
    /// One block with known parameters.
    fn ctl_run(&mut self, bus: &mut AudioBusses, ctl: &ReverbControlBlock) -> (r: bool)
        requires
            old(self).wf(),
            busses_wf(*old(bus)),
        ensures
            final(self).wf(),
            busses_wf(*final(bus)),
            final(bus)@.len() == old(bus)@.len(),
            block_len(*final(bus)) == block_len(*old(bus)),
            reverb_run_rel(*old(self), *final(self), *old(bus), *final(bus), *ctl, r),
    {
        let g = room_feedback_exec(ctl.room_size);
        let w = clamp_unit_exec(ctl.wet);
        let ghost h0a = self.comb_a_hist().len();
        let ghost h0b = self.comb_b_hist().len();
        let ghost h0c = self.comb_c_hist().len();
        let ghost h0d = self.diffuser_hist().len();
        let n = bus[self.dst].len();
        let mut j: usize = 0;
        while j < n
            invariant
                old(self).wf(),
                busses_wf(*old(bus)),
                self.wf(),
                self.src() == old(self).src(),
                self.dst() == old(self).dst(),
                busses_wf(*bus),
                bus@.len() == old(bus)@.len(),
                block_len(*bus) == block_len(*old(bus)),
                n == block_len(*bus),
                j <= n,
                0 <= g <= FX_ONE,
                g as int == room_feedback(ctl.room_size as int),
                w as int == clamp_unit(ctl.wet as int),
                0 <= w <= FX_ONE,
                h0a == old(self).comb_a_hist().len(),
                h0b == old(self).comb_b_hist().len(),
                h0c == old(self).comb_c_hist().len(),
                h0d == old(self).diffuser_hist().len(),
                self.comb_a_hist().len() == h0a + j,
                self.comb_b_hist().len() == h0b + j,
                self.comb_c_hist().len() == h0c + j,
                self.diffuser_hist().len() == h0d + j,
                forall|i: int|
                    0 <= i < bus@.len() && i != self.dst() ==> bus@[i] == old(bus)@[i],
                forall|jj: int| j <= jj < n ==> bus@[self.dst()]@[jj] == old(bus)@[self.dst()]@[jj],
                forall|jj: int|
                    0 <= jj < j ==> reverb_sample_ok(
                        self.comb_a_hist(),
                        self.comb_b_hist(),
                        self.comb_c_hist(),
                        self.diffuser_hist(),
                        old(bus)@[self.src()]@,
                        bus@[self.dst()]@,
                        h0a as int,
                        h0b as int,
                        h0c as int,
                        h0d as int,
                        g as int,
                        w as int,
                        jj,
                    ),
            decreases n - j,
        {
            let ghost pre_r = *self;
            let ghost bus_entry = *bus;
            let x = bus[self.src][j];
            let out = self.sample(x, g, w);
            bus[self.dst][j] = out;
            proof {
                assert(x == old(bus)@[self.src()]@[j as int]);
                assert(bus@[self.dst()]@[j as int] == out);
                assert(self.comb_a_hist().take(h0a + j) =~= pre_r.comb_a_hist());
                assert(self.comb_b_hist().take(h0b + j) =~= pre_r.comb_b_hist());
                assert(self.comb_c_hist().take(h0c + j) =~= pre_r.comb_c_hist());
                assert(self.diffuser_hist().take(h0d + j) =~= pre_r.diffuser_hist());
                assert forall|jj: int| 0 <= jj < j + 1 implies reverb_sample_ok(
                    self.comb_a_hist(),
                    self.comb_b_hist(),
                    self.comb_c_hist(),
                    self.diffuser_hist(),
                    old(bus)@[self.src()]@,
                    bus@[self.dst()]@,
                    h0a as int,
                    h0b as int,
                    h0c as int,
                    h0d as int,
                    g as int,
                    w as int,
                    jj,
                ) by {
                    if jj < j {
                        assert(reverb_sample_ok(
                            pre_r.comb_a_hist(),
                            pre_r.comb_b_hist(),
                            pre_r.comb_c_hist(),
                            pre_r.diffuser_hist(),
                            old(bus)@[self.src()]@,
                            bus_entry@[self.dst()]@,
                            h0a as int,
                            h0b as int,
                            h0c as int,
                            h0d as int,
                            g as int,
                            w as int,
                            jj,
                        ));
                        assert(self.comb_a_hist().take(h0a + jj) =~= pre_r.comb_a_hist().take(
                            h0a + jj,
                        ));
                        assert(self.comb_b_hist().take(h0b + jj) =~= pre_r.comb_b_hist().take(
                            h0b + jj,
                        ));
                        assert(self.comb_c_hist().take(h0c + jj) =~= pre_r.comb_c_hist().take(
                            h0c + jj,
                        ));
                        assert(self.diffuser_hist().take(h0d + jj) =~= pre_r.diffuser_hist().take(
                            h0d + jj,
                        ));
                        assert(self.comb_a_hist()[h0a + jj] == pre_r.comb_a_hist()[h0a + jj]);
                        assert(self.comb_b_hist()[h0b + jj] == pre_r.comb_b_hist()[h0b + jj]);
                        assert(self.comb_c_hist()[h0c + jj] == pre_r.comb_c_hist()[h0c + jj]);
                        assert(self.diffuser_hist()[h0d + jj] == pre_r.diffuser_hist()[h0d + jj]);
                        assert(bus@[self.dst()]@[jj] == bus_entry@[self.dst()]@[jj]);
                    }
                }
            }
            j += 1;
        }
        true
    }

    /// One render block.  A missing or wrong-variant control block is
    /// graceful degradation: nothing is rendered, nothing changes and the
    /// stage reports `true`.  Reverb stages read the fixed control-block
    /// slot [`REVERB_CONTROL_BLOCK`].
    pub fn run(&mut self, bus: &mut AudioBusses, ctl: &ControlBlocks) -> (r: bool)
        requires
            old(self).wf(),
            busses_wf(*old(bus)),
            ctl@.len() == NUM_CONTROL_BLOCKS,
        ensures
            final(self).wf(),
            busses_wf(*final(bus)),
            final(bus)@.len() == old(bus)@.len(),
            block_len(*final(bus)) == block_len(*old(bus)),
            match ctl@[REVERB_CONTROL_BLOCK as int] {
                Some(ControlBlock::Reverb(cb)) => reverb_run_rel(
                    *old(self),
                    *final(self),
                    *old(bus),
                    *final(bus),
                    cb,
                    r,
                ),
                _ => r == true && final(bus)@ == old(bus)@ && *final(self) == *old(self),
            },
    {
        match &ctl[REVERB_CONTROL_BLOCK] {
            Some(ControlBlock::Reverb(cb)) => {
                let cb = *cb;
                self.ctl_run(bus, &cb)
            },
            _ => true,
        }
    }
}

/// The comb feedback a room size maps to, as executable code.
fn room_feedback_exec(room_size: i64) -> (r: i64)
    ensures
        r as int == room_feedback(room_size as int),
        0 <= r <= FX_ONE,
{
    let cu = clamp_unit_exec(room_size);
    proof {
        vstd::arithmetic::div_mod::lemma_div_is_ordered(
            980_000 * (cu as int),
            (FX_ONE as int) * 980_000,
            FX_ONE as int,
        );
        vstd::arithmetic::div_mod::lemma_div_multiples_vanish(980_000, FX_ONE as int);
        vstd::arithmetic::div_mod::lemma_div_is_ordered(0, 980_000 * (cu as int), FX_ONE as int);
    }
    10_000 + ((980_000u64 * (cu as u64)) / (FX_ONE as u64)) as i64
}

} // verus!
