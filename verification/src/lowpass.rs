//! Lowpass / FIR-comb ugen: a weighted sum of taps into its own input and
//! output history, with a small random jitter added to every tap offset.

use vstd::prelude::*;

use crate::allpass::delay_tap_offset;
use crate::consts::{AUDIO_BUS_LENGTH, NUM_CONTROL_BLOCKS};
use crate::delay::{tap_spec, DelayLine};
use crate::fx::{clamp_fx, fx_add, fx_add_spec, fx_clamp, fx_in_range, fx_mul, fx_mul_spec};
use crate::rng::random_below;
use crate::state::{block_len, busses_wf, AudioBusses, ControlBlock, ControlBlocks};

verus! {

/// How far back the lowpass remembers input and output.
pub const LOWPASS_HISTORY: usize = 35000;

/// Upper bound (exclusive) of the random jitter added to each tap offset.
pub const LOWPASS_JITTER: u32 = 5;

/// Which history a tap reads: the effect's own past output, or its past
/// input.
#[derive(Clone, Copy, Debug, PartialEq, Eq, Structural)]
pub enum TapType {
    Rec,
    Input,
}

/// One tap: history selector, offset in samples, fixed-point weight.
#[derive(Clone, Copy, Debug, PartialEq, Eq, Structural)]
pub struct Tap {
    pub tp: TapType,
    pub pos: usize,
    pub weight: i64,
}

/// Parameters of a lowpass stage: the tap list.
#[derive(Clone, Debug)]
pub struct LowpassControlBlock {
    pub taps: Vec<Tap>,
}

/// A lowpass stage: reads bus `src`, writes bus `dst`, tap list from a fixed
/// control-block slot.
pub struct LowpassState {
    src: usize,
    dst: usize,
    line_rec: DelayLine,
    line_input: DelayLine,
}

/// Control-block slot every lowpass reads (fixed wiring).
pub const LOWPASS_CONTROL_BLOCK: usize = 1;

/// What one tap contributes: its clamped weight times the history value it
/// reaches, offsets jittered by `extra`.  Input taps read a history that
/// already holds the current input; output taps read one that does not yet
/// hold the current output.
pub open spec fn tap_value(t: Tap, input_hist: Seq<i64>, rec_hist: Seq<i64>, extra: int) -> int {
    let d = t.pos + extra;
    match t.tp {
        TapType::Input => fx_mul_spec(
            clamp_fx(t.weight as int),
            tap_spec(input_hist, d % (LOWPASS_HISTORY as int)) as int,
        ),
        TapType::Rec => fx_mul_spec(
            clamp_fx(t.weight as int),
            tap_spec(rec_hist, delay_tap_offset(d, LOWPASS_HISTORY as int)) as int,
        ),
    }
}

/// The saturating sum of the first `i` taps' contributions.
pub open spec fn taps_sum(
    taps: Seq<Tap>,
    input_hist: Seq<i64>,
    rec_hist: Seq<i64>,
    extra: int,
    i: nat,
) -> int
    decreases i,
{
    if i == 0 {
        0
    } else {
        fx_add_spec(
            taps_sum(taps, input_hist, rec_hist, extra, (i - 1) as nat),
            tap_value(taps[i - 1], input_hist, rec_hist, extra),
        )
    }
}

impl LowpassState {
    /// Source bus index.
    pub closed spec fn src(self) -> int {
        self.src as int
    }

    /// Destination bus index.
    pub closed spec fn dst(self) -> int {
        self.dst as int
    }

    /// Every input sample ever seen.
    pub closed spec fn input_hist(self) -> Seq<i64> {
        self.line_input.hist()
    }

    /// Every output sample ever produced.
    pub closed spec fn rec_hist(self) -> Seq<i64> {
        self.line_rec.hist()
    }

    /// Indices within the fixed layout, both histories of fixed capacity and
    /// in step with each other.
    pub closed spec fn wf(self) -> bool {
        &&& self.src < AUDIO_BUS_LENGTH
        &&& self.dst < AUDIO_BUS_LENGTH
        &&& self.line_rec.wf()
        &&& self.line_input.wf()
        &&& self.line_rec.cap() == LOWPASS_HISTORY
        &&& self.line_input.cap() == LOWPASS_HISTORY
        &&& self.line_rec.hist().len() == self.line_input.hist().len()
    }

    pub fn new(src: usize, dst: usize) -> (r: LowpassState)
        requires
            src < AUDIO_BUS_LENGTH,
            dst < AUDIO_BUS_LENGTH,
        ensures
            r.wf(),
            r.src() == src,
            r.dst() == dst,
            r.input_hist() == Seq::<i64>::empty(),
            r.rec_hist() == Seq::<i64>::empty(),
    {
        LowpassState {
            src,
            dst,
            line_rec: DelayLine::new(LOWPASS_HISTORY),
            line_input: DelayLine::new(LOWPASS_HISTORY),
        }
    }

    /// Process one input sample with a known jitter: record the input, sum
    /// the taps over the histories, record and return the wet sum.
    pub fn sample(&mut self, x: i64, taps: &Vec<Tap>, extra: usize) -> (wet: i64)
        requires
            old(self).wf(),
            fx_in_range(x as int),
            extra < LOWPASS_JITTER,
        ensures
            final(self).wf(),
            final(self).src() == old(self).src(),
            final(self).dst() == old(self).dst(),
            final(self).input_hist() == old(self).input_hist().push(x),
            final(self).rec_hist() == old(self).rec_hist().push(wet),
            wet as int == taps_sum(
                taps@,
                old(self).input_hist().push(x),
                old(self).rec_hist(),
                extra as int,
                taps@.len(),
            ),
            fx_in_range(wet as int),
    {
        self.line_input.record(x);
        let n = taps.len();
        let mut wet: i64 = 0;
        let mut i: usize = 0;
        while i < n
            invariant
                self.src == old(self).src,
                self.dst == old(self).dst,
                self.line_rec == old(self).line_rec,
                self.line_rec.wf(),
                self.line_input.wf(),
                self.line_rec.cap() == LOWPASS_HISTORY,
                self.line_input.cap() == LOWPASS_HISTORY,
                self.input_hist() == old(self).input_hist().push(x),
                self.input_hist().len() == self.rec_hist().len() + 1,
                n == taps@.len(),
                i <= n,
                extra < LOWPASS_JITTER,
                fx_in_range(wet as int),
                wet as int == taps_sum(
                    taps@,
                    self.input_hist(),
                    self.rec_hist(),
                    extra as int,
                    i as nat,
                ),
            decreases n - i,
        {
            let t = taps[i];
            let w = fx_clamp(t.weight);
            let d = (t.pos % LOWPASS_HISTORY) + extra;
            let v = match t.tp {
                TapType::Input => {
                    let k = d % LOWPASS_HISTORY;
                    self.line_input.tap(k)
                },
                TapType::Rec => {
                    let k = rec_offset(d);
                    self.line_rec.tap(k)
                },
            };
            proof {
                lemma_jitter_mod(t.pos as int, extra as int);
            }
            wet = fx_add(wet, fx_mul(w, v));
            i += 1;
        }
        self.line_rec.record(wet);
        wet
    }
}

/// `(pos % cap + extra) % cap == (pos + extra) % cap` and the same under
/// [`delay_tap_offset`]: reducing a tap offset before adding the jitter does
/// not change which sample it reaches.
proof fn lemma_jitter_mod(pos: int, extra: int)
    requires
        pos >= 0,
        0 <= extra < LOWPASS_JITTER,
    ensures
        (pos % (LOWPASS_HISTORY as int) + extra) % (LOWPASS_HISTORY as int) == (pos + extra) % (
        LOWPASS_HISTORY as int),
        delay_tap_offset(pos % (LOWPASS_HISTORY as int) + extra, LOWPASS_HISTORY as int)
            == delay_tap_offset(pos + extra, LOWPASS_HISTORY as int),
{
    let c = LOWPASS_HISTORY as int;
    vstd::arithmetic::div_mod::lemma_add_mod_noop(pos, extra, c);
    vstd::arithmetic::div_mod::lemma_add_mod_noop(pos % c, extra, c);
    vstd::arithmetic::div_mod::lemma_mod_self_0(c);
    vstd::arithmetic::div_mod::lemma_small_mod(extra as nat, c as nat);
    vstd::arithmetic::div_mod::lemma_mod_twice(pos, c);
}

/// The history tap a jittered output offset reaches, as executable code.
fn rec_offset(d: usize) -> (k: usize)
    ensures
        k as int == delay_tap_offset(d as int, LOWPASS_HISTORY as int),
        k < LOWPASS_HISTORY,
{
    let m = d % LOWPASS_HISTORY;
    if m == 0 {
        LOWPASS_HISTORY - 1
    } else {
        m - 1
    }
}


/// Sample `j` of one lowpass block is correct: the wet value recorded at
/// `h0 + j` is the jittered tap sum over the input history up to and
/// including input `j` and the output history before output `j`.
pub open spec fn lowpass_sample_ok(
    taps: Seq<Tap>,
    input_hist: Seq<i64>,
    rec_hist: Seq<i64>,
    dst_row: Seq<i64>,
    h0: int,
    extra: int,
    j: int,
) -> bool {
    &&& 0 <= extra < LOWPASS_JITTER
    &&& rec_hist[h0 + j] as int == taps_sum(
        taps,
        input_hist.take(h0 + j + 1),
        rec_hist.take(h0 + j),
        extra,
        taps.len(),
    )
    &&& dst_row[j] == rec_hist[h0 + j]
}

/// How one block relates a lowpass stage's old state to its new: the whole
/// source row is recorded as input, one jittered tap sum per sample is
/// recorded as output and written to the destination row.
pub open spec fn lowpass_run_rel(
    pre: LowpassState,
    post: LowpassState,
    bus_pre: AudioBusses,
    bus_post: AudioBusses,
    taps: Seq<Tap>,
    r: bool,
) -> bool {
    let n = block_len(bus_pre);
    &&& post.src() == pre.src()
    &&& post.dst() == pre.dst()
    &&& r == true
    &&& post.input_hist() == pre.input_hist() + bus_pre@[pre.src()]@
    &&& post.rec_hist().len() == pre.rec_hist().len() + n
    &&& forall|i: int| 0 <= i < bus_pre@.len() && i != pre.dst() ==> bus_post@[i] == bus_pre@[i]
    &&& exists|offs: Seq<int>|
        offs.len() == n && forall|j: int|
            0 <= j < n ==> lowpass_sample_ok(
                taps,
                post.input_hist(),
                post.rec_hist(),
                bus_post@[pre.dst()]@,
                pre.rec_hist().len() as int,
                #[trigger] offs[j],
                j,
            )
}

impl LowpassState {
    /// One block with known parameters: record the source row, emit one
    /// jittered tap sum per sample.  Which jitter each sample drew is known
    /// only to exist, never which value it took.
    fn ctl_run(&mut self, bus: &mut AudioBusses, ctl: &LowpassControlBlock) -> (r: bool)
        requires
            old(self).wf(),
            busses_wf(*old(bus)),
        ensures
            final(self).wf(),
            busses_wf(*final(bus)),
            final(bus)@.len() == old(bus)@.len(),
            block_len(*final(bus)) == block_len(*old(bus)),
            lowpass_run_rel(*old(self), *final(self), *old(bus), *final(bus), ctl.taps@, r),
    {
        let ghost h0 = self.rec_hist().len();
        let ghost hi0 = self.input_hist().len();
        let ghost mut offs: Seq<int> = Seq::empty();
        let n = bus[self.dst].len();
        let mut j: usize = 0;
        while j < n
            invariant
                old(self).wf(),
                busses_wf(*old(bus)),
                self.wf(),
                self.src() == old(self).src(),
                self.dst() == old(self).dst(),
                busses_wf(*bus),
                bus@.len() == old(bus)@.len(),
                block_len(*bus) == block_len(*old(bus)),
                n == block_len(*bus),
                j <= n,
                h0 == old(self).rec_hist().len(),
                hi0 == old(self).input_hist().len(),
                self.input_hist() == old(self).input_hist() + old(bus)@[self.src()]@.take(j as int),
                self.rec_hist().len() == h0 + j,
                old(self).rec_hist() == self.rec_hist().take(h0 as int),
                offs.len() == j,
                forall|i: int|
                    0 <= i < bus@.len() && i != self.dst() ==> bus@[i] == old(bus)@[i],
                forall|jj: int| j <= jj < n ==> bus@[self.dst()]@[jj] == old(bus)@[self.dst()]@[jj],
                forall|jj: int|
                    0 <= jj < j ==> lowpass_sample_ok(
                        ctl.taps@,
                        self.input_hist(),
                        self.rec_hist(),
                        bus@[self.dst()]@,
                        h0 as int,
                        #[trigger] offs[jj],
                        jj,
                    ),
            decreases n - j,
        {
            let ghost pre_l = *self;
            let ghost bus_entry = *bus;
            let extra = random_below(LOWPASS_JITTER) as usize;
            let x = bus[self.src][j];
            let wet = self.sample(x, &ctl.taps, extra);
            bus[self.dst][j] = wet;
            proof {
                offs = offs.push(extra as int);
                assert(x == old(bus)@[self.src()]@[j as int]);
                assert(self.input_hist() =~= old(self).input_hist() + old(bus)@[
                    self.src()]@.take(j + 1));
                assert(self.rec_hist().take(h0 as int) =~= old(self).rec_hist());
                assert(bus@[self.dst()]@[j as int] == wet);
                assert forall|jj: int| 0 <= jj < j + 1 implies lowpass_sample_ok(
                    ctl.taps@,
                    self.input_hist(),
                    self.rec_hist(),
                    bus@[self.dst()]@,
                    h0 as int,
                    #[trigger] offs[jj],
                    jj,
                ) by {
                    if jj < j {
                        assert(lowpass_sample_ok(
                            ctl.taps@,
                            pre_l.input_hist(),
                            pre_l.rec_hist(),
                            bus_entry@[self.dst()]@,
                            h0 as int,
                            offs[jj],
                            jj,
                        ));
                        assert(self.input_hist().take(hi0 + jj + 1) =~= pre_l.input_hist().take(
                            hi0 + jj + 1,
                        ));
                        assert(self.rec_hist().take(h0 + jj) =~= pre_l.rec_hist().take(h0 + jj));
                        assert(self.rec_hist()[h0 + jj] == pre_l.rec_hist()[h0 + jj]);
                        assert(bus@[self.dst()]@[jj] == bus_entry@[self.dst()]@[jj]);
                    } else {
                        assert(self.input_hist().take(hi0 + j + 1) =~= pre_l.input_hist().push(x));
                        assert(self.rec_hist().take(h0 + j) =~= pre_l.rec_hist());
                    }
                }
            }
            j += 1;
        }
        proof {
            assert(self.input_hist() =~= old(self).input_hist() + old(bus)@[self.src()]@.take(
                n as int,
            ));
            assert(old(bus)@[self.src()]@.take(n as int) =~= old(bus)@[old(self).src()]@);
        }
        true
    }

    /// One render block.  A missing or wrong-variant control block is
    /// graceful degradation: nothing is rendered, nothing changes and the
    /// stage reports `true`.  Lowpass stages read the fixed control-block
    /// slot [`LOWPASS_CONTROL_BLOCK`].
    pub fn run(&mut self, bus: &mut AudioBusses, ctl: &ControlBlocks) -> (r: bool)
        requires
            old(self).wf(),
            busses_wf(*old(bus)),
            ctl@.len() == NUM_CONTROL_BLOCKS,
        ensures
            final(self).wf(),
            busses_wf(*final(bus)),
            final(bus)@.len() == old(bus)@.len(),
            block_len(*final(bus)) == block_len(*old(bus)),
            match ctl@[LOWPASS_CONTROL_BLOCK as int] {
                Some(ControlBlock::Low(cb)) => lowpass_run_rel(
                    *old(self),
                    *final(self),
                    *old(bus),
                    *final(bus),
                    cb.taps@,
                    r,
                ),
                _ => r == true && final(bus)@ == old(bus)@ && *final(self) == *old(self),
            },
    {
        match &ctl[LOWPASS_CONTROL_BLOCK] {
            Some(ControlBlock::Low(cb)) => self.ctl_run(bus, cb),
            _ => true,
        }
    }
}

} // verus!
