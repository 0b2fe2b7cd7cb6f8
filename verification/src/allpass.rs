//! Schroeder comb-allpass ugen.
//!
//! Per sample, with gain `g` and tap offset `delay` into its own past
//! output: `wet = dry + g * tap` is recorded into the history, and the
//! emitted sample is either the naive `wet` (debug mode) or the proper
//! allpass output `-g * dry + (1 - g*g) * tap`.
//! The current `wet` is recorded before the cursor moves, so a tap offset of
//! zero reads the value recorded a full capacity ago.

use vstd::prelude::*;

use crate::consts::{AUDIO_BUS_LENGTH, FX_ONE, NUM_CONTROL_BLOCKS};
use crate::delay::{tap_spec, DelayLine};
use crate::fx::{
    clamp_fx, fx_add, fx_add_spec, fx_clamp, fx_in_range, fx_mul, fx_mul_spec, fx_sub, fx_sub_spec,
};
use crate::state::{block_len, busses_wf, AudioBusses, ControlBlock, ControlBlocks};

verus! {

/// How far back an allpass remembers its own output.
pub const ALLPASS_HISTORY: usize = 35000;

/// Parameters of an allpass stage: feedback gain, tap offset in samples, and
/// whether to emit the naive comb sum instead of the proper allpass output.
#[derive(Clone, Copy, Debug, PartialEq, Eq, Structural)]
pub struct AllpassControlBlock {
    pub gain: i64,
    pub delay: usize,
    pub naive: bool,
}

/// An allpass stage: reads bus `src`, writes bus `dst`, parameters from
/// control-block slot `ctl`, history in a ring buffer of its past output.
pub struct AllpassState {
    src: usize,
    dst: usize,
    ctl: usize,
    line: DelayLine,
}

/// The history tap offset a configured `delay` reaches: the sample recorded
/// `delay` records ago, except that `delay == 0` (mod capacity) reaches the
/// oldest remembered sample, because the current sample is recorded before
/// the cursor moves.
pub open spec fn delay_tap_offset(delay: int, cap: int) -> int {
    let d = delay % cap;
    if d == 0 {
        cap - 1
    } else {
        d - 1
    }
}

/// The wet sample recorded at step `j`: `dry + g * tap`, where the tap reads
/// the history as it stood after `j` records this block.
pub open spec fn allpass_wet(hist: Seq<i64>, dry: i64, g: int, k: int) -> int {
    fx_add_spec(dry as int, fx_mul_spec(g, tap_spec(hist, k) as int))
}

/// The emitted sample: the naive comb sum, or the Schroeder allpass output
/// `-g * dry + (1 - g*g) * tap`.
pub open spec fn allpass_out(hist: Seq<i64>, dry: i64, g: int, k: int, naive: bool) -> int {
    let tap = tap_spec(hist, k) as int;
    if naive {
        fx_add_spec(dry as int, fx_mul_spec(g, tap))
    } else {
        fx_add_spec(
            fx_mul_spec(-g, dry as int),
            fx_mul_spec(fx_sub_spec(FX_ONE as int, fx_mul_spec(g, g)), tap),
        )
    }
}

/// Sample `j` of one block is correct: the wet value appended to the
/// history at position `h0 + j`, and the emitted destination sample, both
/// follow the allpass equations over the history as it stood then.
pub open spec fn allpass_sample_ok(
    hist: Seq<i64>,
    src_row: Seq<i64>,
    dst_row: Seq<i64>,
    h0: int,
    g: int,
    k: int,
    naive: bool,
    j: int,
) -> bool {
    let dry = src_row[j];
    let h = hist.take(h0 + j);
    &&& hist[h0 + j] as int == allpass_wet(h, dry, g, k)
    &&& dst_row[j] as int == allpass_out(h, dry, g, k, naive)
}

impl AllpassState {
    /// Source bus index.
    pub closed spec fn src(self) -> int {
        self.src as int
    }

    /// Destination bus index.
    pub closed spec fn dst(self) -> int {
        self.dst as int
    }

    /// Control-block slot read each block.
    pub closed spec fn ctl(self) -> int {
        self.ctl as int
    }

    /// Every wet sample ever recorded into the history.
    pub closed spec fn hist(self) -> Seq<i64> {
        self.line.hist()
    }

    /// Indices within the fixed layout, history of the fixed capacity.
    pub closed spec fn wf(self) -> bool {
        &&& self.src < AUDIO_BUS_LENGTH
        &&& self.dst < AUDIO_BUS_LENGTH
        &&& self.ctl < NUM_CONTROL_BLOCKS
        &&& self.line.wf()
        &&& self.line.cap() == ALLPASS_HISTORY
    }

    pub fn new(src: usize, dst: usize, ctl: usize) -> (r: AllpassState)
        requires
            src < AUDIO_BUS_LENGTH,
            dst < AUDIO_BUS_LENGTH,
            ctl < NUM_CONTROL_BLOCKS,
        ensures
            r.wf(),
            r.src() == src,
            r.dst() == dst,
            r.ctl() == ctl,
            r.hist() == Seq::<i64>::empty(),
    {
        AllpassState { src, dst, ctl, line: DelayLine::new(ALLPASS_HISTORY) }
    }

    /// One block with known parameters.  For each sample `j`, writing into a
    /// history that already held `h0` records: the recorded wet value is
    /// `dry + g * tap`, the emitted one the formula selected by `naive`,
    /// both over the tap the configured delay reaches.
    fn ctl_run(&mut self, bus: &mut AudioBusses, ctl: &AllpassControlBlock) -> (r: bool)
        requires
            old(self).wf(),
            busses_wf(*old(bus)),
        ensures
            final(self).wf(),
            final(self).src() == old(self).src(),
            final(self).dst() == old(self).dst(),
            final(self).ctl() == old(self).ctl(),
            r == true,
            busses_wf(*final(bus)),
            final(bus)@.len() == old(bus)@.len(),
            block_len(*final(bus)) == block_len(*old(bus)),
            forall|i: int|
                0 <= i < old(bus)@.len() && i != old(self).dst() ==> final(bus)@[i] == old(
                    bus,
                )@[i],
            final(self).hist().len() == old(self).hist().len() + block_len(*old(bus)),
            forall|j: int|
                0 <= j < block_len(*old(bus)) ==> allpass_sample_ok(
                    final(self).hist(),
                    old(bus)@[old(self).src()]@,
                    final(bus)@[old(self).dst()]@,
                    old(self).hist().len() as int,
                    clamp_fx(ctl.gain as int),
                    delay_tap_offset(ctl.delay as int, ALLPASS_HISTORY as int),
                    ctl.naive,
                    j,
                ),
    {
        let g = fx_clamp(ctl.gain);
        let k: usize = delay_to_tap(ctl.delay);
        let ghost h0 = self.hist().len();
        let n = bus[self.dst].len();
        let mut j: usize = 0;
        while j < n
            invariant
                self.wf(),
                self.src() == old(self).src(),
                self.dst() == old(self).dst(),
                self.ctl() == old(self).ctl(),
                busses_wf(*bus),
                bus@.len() == old(bus)@.len(),
                block_len(*bus) == block_len(*old(bus)),
                n == block_len(*bus),
                j <= n,
                g as int == clamp_fx(ctl.gain as int),
                fx_in_range(g as int),
                k as int == delay_tap_offset(ctl.delay as int, ALLPASS_HISTORY as int),
                k < ALLPASS_HISTORY,
                h0 == old(self).hist().len(),
                self.hist().len() == h0 + j,
                old(self).hist() == self.hist().take(h0 as int),
                forall|i: int|
                    0 <= i < bus@.len() && i != self.dst() ==> bus@[i] == old(bus)@[i],
                forall|jj: int| j <= jj < n ==> bus@[self.dst()]@[jj] == old(bus)@[self.dst()]@[jj],
                forall|jj: int|
                    0 <= jj < j ==> allpass_sample_ok(
                        self.hist(),
                        old(bus)@[self.src()]@,
                        bus@[self.dst()]@,
                        h0 as int,
                        g as int,
                        k as int,
                        ctl.naive,
                        jj,
                    ),
            decreases n - j,
        {
            let ghost pre = *self;
            let ghost bus_entry = *bus;
            let dry = bus[self.src][j];
            let tapv = self.line.tap(k);
            let wet = fx_add(dry, fx_mul(g, tapv));
            self.line.record(wet);
            let out = if ctl.naive {
                wet
            } else {
                let g2 = fx_mul(g, g);
                fx_add(fx_mul(-g, dry), fx_mul(fx_sub(FX_ONE, g2), tapv))
            };
            bus[self.dst][j] = out;
            proof {
                assert(self.hist() == pre.hist().push(wet));
                assert(self.hist().take(h0 + j) == pre.hist()) by {
                    assert(self.hist().take(h0 + j) =~= pre.hist());
                }
                assert(self.hist().take(h0 as int) =~= old(self).hist());
                assert(dry == old(bus)@[self.src()]@[j as int]);
                assert(bus@[self.dst()]@[j as int] == out);
                assert forall|jj: int| 0 <= jj < j + 1 implies allpass_sample_ok(
                    self.hist(),
                    old(bus)@[self.src()]@,
                    bus@[self.dst()]@,
                    h0 as int,
                    g as int,
                    k as int,
                    ctl.naive,
                    jj,
                ) by {
                    if jj < j {
                        assert(allpass_sample_ok(
                            pre.hist(),
                            old(bus)@[self.src()]@,
                            bus_entry@[self.dst()]@,
                            h0 as int,
                            g as int,
                            k as int,
                            ctl.naive,
                            jj,
                        ));
                        assert(self.hist().take(h0 + jj) =~= pre.hist().take(h0 + jj));
                        assert(self.hist()[h0 + jj] == pre.hist()[h0 + jj]);
                        assert(bus@[self.dst()]@[jj] == bus_entry@[self.dst()]@[jj]);
                    } else {
                        assert(self.hist()[h0 + j] == wet);
                        assert(self.hist().take(h0 + j) == pre.hist());
                    }
                }
            }
            j += 1;
        }
        true
    }

    /// One render block.  A missing or wrong-variant control block is
    /// graceful degradation: nothing is rendered, nothing changes and the
    /// stage reports `true`; otherwise the per-sample equations of the run
    /// with known parameters hold.
    pub fn run(&mut self, bus: &mut AudioBusses, ctl: &ControlBlocks) -> (r: bool)
        requires
            old(self).wf(),
            busses_wf(*old(bus)),
            ctl@.len() == NUM_CONTROL_BLOCKS,
        ensures
            final(self).wf(),
            final(self).src() == old(self).src(),
            final(self).dst() == old(self).dst(),
            final(self).ctl() == old(self).ctl(),
            busses_wf(*final(bus)),
            final(bus)@.len() == old(bus)@.len(),
            block_len(*final(bus)) == block_len(*old(bus)),
            match ctl@[old(self).ctl()] {
                Some(ControlBlock::All(cb)) => {
                    &&& r == true
                    &&& forall|i: int|
                        0 <= i < old(bus)@.len() && i != old(self).dst() ==> final(bus)@[i] == old(
                            bus,
                        )@[i]
                    &&& final(self).hist().len() == old(self).hist().len() + block_len(*old(bus))
                    &&& forall|j: int|
                        0 <= j < block_len(*old(bus)) ==> allpass_sample_ok(
                            final(self).hist(),
                            old(bus)@[old(self).src()]@,
                            final(bus)@[old(self).dst()]@,
                            old(self).hist().len() as int,
                            clamp_fx(cb.gain as int),
                            delay_tap_offset(cb.delay as int, ALLPASS_HISTORY as int),
                            cb.naive,
                            j,
                        )
                },
                _ => r == true && final(bus)@ == old(bus)@ && *final(self) == *old(self),
            },
    {
        match &ctl[self.ctl] {
            Some(ControlBlock::All(cb)) => {
                let cb = *cb;
                self.ctl_run(bus, &cb)
            },
            _ => true,
        }
    }
}

/// Map a configured delay to the history tap it reaches.
fn delay_to_tap(delay: usize) -> (k: usize)
    ensures
        k as int == delay_tap_offset(delay as int, ALLPASS_HISTORY as int),
        k < ALLPASS_HISTORY,
{
    let d = delay % ALLPASS_HISTORY;
    if d == 0 {
        ALLPASS_HISTORY - 1
    } else {
        d - 1
    }
}

} // verus!
