//! Fixed-capacity ring buffer of sample history, the backbone of every
//! delay-line effect.
//!
//! A `DelayLine` remembers the last `cap` samples recorded into it.  Its
//! abstract state is the full sequence of samples ever recorded (a ghost
//! history); reading tap offset `k` returns the sample recorded exactly `k`
//! records ago, or the initial zero fill when fewer than `k + 1` samples have
//! been recorded.

use vstd::prelude::*;

use crate::fx::fx_in_range;

verus! {

/// The value a tap at offset `k` must see, given the recorded history:
/// the sample recorded `k` records ago (offset 0 is the most recent), and
/// the initial zero fill beyond the start of the history.
pub open spec fn tap_spec(hist: Seq<i64>, k: int) -> i64 {
    if 0 <= k < hist.len() {
        hist[hist.len() - 1 - k]
    } else {
        0
    }
}

/// Buffer slot holding the sample recorded `j` records before cursor `ix`.
pub open spec fn slot_of(ix: int, cap: int, j: int) -> int {
    if ix >= j + 1 {
        ix - 1 - j
    } else {
        ix + cap - 1 - j
    }
}

/// Ring buffer of the last `cap` recorded samples.
pub struct DelayLine {
    buf: Vec<i64>,
    ix: usize,
    hist: Ghost<Seq<i64>>,
}

impl DelayLine {
    /// Capacity: how far back a tap can reach.
    pub closed spec fn cap(self) -> int {
        self.buf.len() as int
    }

    /// Every sample ever recorded, oldest first.
    pub closed spec fn hist(self) -> Seq<i64> {
        self.hist@
    }

    /// The buffer holds the last `cap` history entries (zero where the
    /// history is still shorter), all within the fixed-point range.
    pub closed spec fn wf(self) -> bool {
        &&& 1 <= self.buf.len()
        &&& self.ix < self.buf.len()
        &&& forall|i: int| 0 <= i < self.buf.len() ==> fx_in_range(#[trigger] self.buf[i] as int)
        &&& forall|j: int|
            0 <= j < self.buf.len() ==> self.buf[slot_of(
                self.ix as int,
                self.buf.len() as int,
                j,
            )] == tap_spec(self.hist@, j)
    }

    /// A silent delay line of capacity `cap`.
    pub fn new(cap: usize) -> (r: DelayLine)
        requires
            1 <= cap,
        ensures
            r.wf(),
            r.cap() == cap,
            r.hist() == Seq::<i64>::empty(),
    {
        let r = DelayLine { buf: vec![0i64; cap], ix: 0, hist: Ghost(Seq::empty()) };
        proof {
            assert forall|j: int| 0 <= j < r.buf.len() implies r.buf[slot_of(
                0,
                r.buf.len() as int,
                j,
            )] == tap_spec(r.hist@, j) by {
                assert(0 <= slot_of(0, r.buf.len() as int, j) < r.buf.len());
            }
        }
        r
    }

    /// Capacity, as executable code.
    pub fn capacity(&self) -> (r: usize)
        ensures
            r == self.cap(),
    {
        self.buf.len()
    }

    /// Record one sample: it becomes tap offset 0, every earlier sample
    /// moves one offset further back.
    pub fn record(&mut self, x: i64)
        requires
            old(self).wf(),
            fx_in_range(x as int),
        ensures
            final(self).wf(),
            final(self).hist() == old(self).hist().push(x),
            final(self).cap() == old(self).cap(),
    {
        let ghost pre = *self;
        let c = self.buf.len();
        self.buf[self.ix] = x;
        self.ix = if self.ix + 1 == c {
            0
        } else {
            self.ix + 1
        };
        proof {
            self.hist = Ghost(pre.hist@.push(x));
            let cap = c as int;
            let nix = self.ix as int;
            assert forall|j: int| 0 <= j < cap implies self.buf[slot_of(nix, cap, j)] == tap_spec(
                self.hist@,
                j,
            ) by {
                if j == 0 {
                    assert(slot_of(nix, cap, 0) == pre.ix as int);
                } else {
                    assert(slot_of(nix, cap, j) == slot_of(pre.ix as int, cap, j - 1));
                    assert(pre.buf[slot_of(pre.ix as int, cap, j - 1)] == tap_spec(
                        pre.hist@,
                        j - 1,
                    ));
                    assert(slot_of(nix, cap, j) != pre.ix as int);
                    assert(tap_spec(self.hist@, j) == tap_spec(pre.hist@, j - 1));
                }
            }
        }
    }

    /// Read tap offset `k`: the sample recorded exactly `k` records earlier
    /// (`k == 0` is the sample recorded last), zero if nothing was recorded
    /// that far back yet.
    pub fn tap(&self, k: usize) -> (r: i64)
        requires
            self.wf(),
            k < self.cap(),
        ensures
            r == tap_spec(self.hist(), k as int),
            fx_in_range(r as int),
    {
        let s: usize = if self.ix >= k + 1 {
            self.ix - 1 - k
        } else {
            self.buf.len() - 1 - (k - self.ix)
        };
        assert(s as int == slot_of(self.ix as int, self.cap(), k as int));
        self.buf[s]
    }
}

} // verus!
