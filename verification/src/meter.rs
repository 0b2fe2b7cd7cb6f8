//! Metering ugen: tracks a smoothed mean square and the sample peak of one
//! bus, and periodically pushes a level report toward the control plane.

use vstd::prelude::*;

use crate::consts::{AUDIO_BUS_LENGTH, FX_MAX, FX_ONE};
use crate::delay::{tap_spec, DelayLine};
use crate::fx::{abs_int, fx_abs, fx_add, fx_add_spec, fx_max, fx_mul, fx_mul_spec, isqrt_u64};
use crate::state::{block_len, busses_wf, AudioBusses, SynthMessage};

verus! {

/// How many samples one metering window spans (a third of a second).
pub const METER_WINDOW: usize = 14700;

/// Smoothing: the weight of the previous mean square.
pub const METER_SMOOTH: i64 = 990_000;

/// Smoothing: the weight of the current squared sample.
pub const METER_FEED: i64 = 10_000;

/// `r` is the integer square root of `x`.
pub open spec fn is_isqrt(r: int, x: int) -> bool {
    &&& 0 <= r
    &&& r * r <= x
    &&& x < (r + 1) * (r + 1)
}

/// The smoothed mean square after one sample: a small share of the squared
/// sample plus a large share of the previous mean square.
pub open spec fn meter_ms_spec(hist: Seq<i64>, sig: int) -> int {
    fx_add_spec(
        fx_mul_spec(METER_FEED as int, fx_mul_spec(sig, sig)),
        fx_mul_spec(METER_SMOOTH as int, tap_spec(hist, 0) as int),
    )
}


/// How one metered sample relates old state to new, for `rms` the integer
/// square root of the new mean square: within a window the maxima rise and
/// the counter advances; at a window's end one level report is pushed and
/// the next window starts from zero.
pub open spec fn meter_sample_rel(
    pre: MeterState,
    post: MeterState,
    outbox_pre: Seq<SynthMessage>,
    outbox_post: Seq<SynthMessage>,
    sig: i64,
    rms: int,
) -> bool {
    let ms = meter_ms_spec(pre.hist(), sig as int);
    let msc = if ms < 0 {
        0
    } else {
        ms
    };
    let new_peak = if pre.peak() >= abs_int(sig as int) {
        pre.peak()
    } else {
        abs_int(sig as int)
    };
    let new_rms = if pre.max_rms() >= rms {
        pre.max_rms()
    } else {
        rms
    };
    &&& is_isqrt(rms, msc * FX_ONE)
    &&& if pre.count() + 1 < METER_WINDOW {
        &&& post.count() == pre.count() + 1
        &&& post.peak() == new_peak
        &&& post.max_rms() == new_rms
        &&& outbox_post == outbox_pre
    } else {
        &&& post.count() == 0
        &&& post.peak() == 0
        &&& post.max_rms() == 0
        &&& outbox_post == outbox_pre.push(
            SynthMessage::Meter { level: new_rms as i64, peak: new_peak as i64 },
        )
    }
}

/// One metered block as a chain: state `i` consumed source sample `i`, with
/// [`meter_sample_rel`] tying each state, telemetry queue and recorded mean
/// square to its successor.
pub open spec fn meter_chain_ok(
    states: Seq<MeterState>,
    och: Seq<Seq<SynthMessage>>,
    rmss: Seq<int>,
    src_row: Seq<i64>,
) -> bool {
    &&& states.len() == src_row.len() + 1
    &&& och.len() == src_row.len() + 1
    &&& rmss.len() == src_row.len()
    &&& forall|i: int, j: int|
        #![trigger states[i], states[j]]
        0 <= i < src_row.len() && j == i + 1 ==> {
            &&& meter_sample_rel(states[i], states[j], och[i], och[j], src_row[i], rmss[i])
            &&& states[j].hist() == states[i].hist().push(
                meter_ms_spec(states[i].hist(), src_row[i] as int) as i64,
            )
            &&& states[j].src() == states[i].src()
        }
}

/// A meter on bus `src`: the history of smoothed mean squares, the running
/// window maxima, and how far into the current window it is.
pub struct MeterState {
    src: usize,
    line: DelayLine,
    peak: i64,
    max_rms: i64,
    count: usize,
}

impl MeterState {
    /// Metered bus index.
    pub closed spec fn src(self) -> int {
        self.src as int
    }

    /// Every smoothed mean square ever computed.
    pub closed spec fn hist(self) -> Seq<i64> {
        self.line.hist()
    }

    /// Largest sample magnitude seen this window.
    pub closed spec fn peak(self) -> int {
        self.peak as int
    }

    /// Largest root mean square seen this window.
    pub closed spec fn max_rms(self) -> int {
        self.max_rms as int
    }

    /// Samples consumed in the current window.
    pub closed spec fn count(self) -> int {
        self.count as int
    }

    /// Index, window position and maxima within their ranges.
    pub closed spec fn wf(self) -> bool {
        &&& self.src < AUDIO_BUS_LENGTH
        &&& self.line.wf()
        &&& self.line.cap() == METER_WINDOW
        &&& self.count < METER_WINDOW
        &&& 0 <= self.peak <= FX_MAX
        &&& 0 <= self.max_rms <= FX_MAX
    }

    /// A fresh meter on bus `src`.
    pub fn new(src: usize) -> (r: MeterState)
        requires
            src < AUDIO_BUS_LENGTH,
        ensures
            r.wf(),
            r.src() == src,
            r.hist() == Seq::<i64>::empty(),
            r.peak() == 0,
            r.max_rms() == 0,
            r.count() == 0,
    {
        MeterState { src, line: DelayLine::new(METER_WINDOW), peak: 0, max_rms: 0, count: 0 }
    }

    /// Consume one sample: record the smoothed mean square, raise the window
    /// maxima, and at the end of each window push one level report and start
    /// the next window from zero.
    pub fn sample(&mut self, sig: i64, outbox: &mut Vec<SynthMessage>) -> (rms: i64)
        requires
            old(self).wf(),
            crate::fx::fx_in_range(sig as int),
        ensures
            final(self).wf(),
            final(self).src() == old(self).src(),
            final(self).hist() == old(self).hist().push(
                meter_ms_spec(old(self).hist(), sig as int) as i64,
            ),
            meter_sample_rel(
                *old(self),
                *final(self),
                old(outbox)@,
                final(outbox)@,
                sig,
                rms as int,
            ),
    {
        let prev = self.line.tap(0);
        let ms = fx_add(fx_mul(METER_FEED, fx_mul(sig, sig)), fx_mul(METER_SMOOTH, prev));
        self.line.record(ms);
        let msc: i64 = if ms < 0 {
            0
        } else {
            ms
        };
        let r64 = isqrt_u64((msc as u64) * (FX_ONE as u64));
        let rms = r64 as i64;
        proof {
            let ms_s = meter_ms_spec(old(self).hist(), sig as int);
            let msc_s: int = if ms_s < 0 {
                0
            } else {
                ms_s
            };
            assert(ms as int == ms_s);
            assert(msc as int == msc_s);
            assert(is_isqrt(rms as int, msc_s * (FX_ONE as int)));
            assert(is_isqrt(rms as int, (msc as int) * (FX_ONE as int)));
            assert((rms as int) * (rms as int) <= FX_MAX as int * (FX_ONE as int));
            assert(rms <= FX_MAX) by (nonlinear_arith)
                requires
                    0 <= rms as int,
                    (rms as int) * (rms as int) <= 1_000_000_000_000_000_000int,
            ;
        }
        self.max_rms = fx_max(self.max_rms, rms);
        self.peak = fx_max(self.peak, fx_abs(sig));
        if self.count + 1 < METER_WINDOW {
            self.count = self.count + 1;
        } else {
            outbox.push(SynthMessage::Meter { level: self.max_rms, peak: self.peak });
            self.count = 0;
            self.max_rms = 0;
            self.peak = 0;
        }
        rms
    }

    /// One render block: meter every sample of the source bus, the buses
    /// only read.  The whole block is a chain of [`meter_sample_rel`] steps:
    /// the window maxima and counter advance sample by sample, and exactly
    /// one level report with the window's maxima is queued for each window
    /// that ends within the block.
    pub fn run(&mut self, bus: &AudioBusses, outbox: &mut Vec<SynthMessage>) -> (r: bool)
        requires
            old(self).wf(),
            busses_wf(*bus),
        ensures
            r == true,
            final(self).wf(),
            final(self).src() == old(self).src(),
            final(self).hist().len() == old(self).hist().len() + block_len(*bus),
            old(outbox)@.is_prefix_of(final(outbox)@),
            forall|m: int|
                old(outbox)@.len() <= m < final(outbox)@.len()
                    ==> (#[trigger] final(outbox)@[m]) is Meter,
            exists|states: Seq<MeterState>, och: Seq<Seq<SynthMessage>>, rmss: Seq<int>|
                {
                    &&& #[trigger] meter_chain_ok(states, och, rmss, bus@[old(self).src()]@)
                    &&& states[0] == *old(self)
                    &&& states[states.len() - 1] == *final(self)
                    &&& och[0] == old(outbox)@
                    &&& och[och.len() - 1] == final(outbox)@
                },
    {
        let n = bus[self.src].len();
        let ghost mut states: Seq<MeterState> = seq![*self];
        let ghost mut och: Seq<Seq<SynthMessage>> = seq![outbox@];
        let ghost mut rmss: Seq<int> = Seq::empty();
        let mut j: usize = 0;
        while j < n
            invariant
                busses_wf(*bus),
                self.wf(),
                self.src() == old(self).src(),
                n == block_len(*bus),
                j <= n,
                self.hist().len() == old(self).hist().len() + j,
                old(outbox)@.is_prefix_of(outbox@),
                forall|m: int|
                    old(outbox)@.len() <= m < outbox@.len() ==> (#[trigger] outbox@[m]) is Meter,
                states.len() == j + 1,
                och.len() == j + 1,
                rmss.len() == j,
                states[0] == *old(self),
                states[states.len() - 1] == *self,
                och[0] == old(outbox)@,
                och[och.len() - 1] == outbox@,
                forall|i: int, jj: int|
                    #![trigger states[i], states[jj]]
                    0 <= i < j && jj == i + 1 ==> {
                        &&& meter_sample_rel(
                            states[i],
                            states[jj],
                            och[i],
                            och[jj],
                            bus@[old(self).src()]@[i],
                            rmss[i],
                        )
                        &&& states[jj].hist() == states[i].hist().push(
                            meter_ms_spec(states[i].hist(), bus@[old(self).src()]@[i] as int) as i64,
                        )
                        &&& states[jj].src() == states[i].src()
                    },
            decreases n - j,
        {
            let sig = bus[self.src][j];
            let rms = self.sample(sig, outbox);
            proof {
                states = states.push(*self);
                och = och.push(outbox@);
                rmss = rmss.push(rms as int);
                assert(states[j + 1] == *self);
            }
            j += 1;
        }
        proof {
            assert(meter_chain_ok(states, och, rmss, bus@[old(self).src()]@));
        }
        true
    }
}

} // verus!
