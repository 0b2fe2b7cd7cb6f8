//! A slot-reusing pool of transient, anonymous voices — drum hits spawned by
//! the sequencer or the control plane.  Unlike the keyboard manager there is
//! no per-key indexing: voices are added first-fit and freed as soon as
//! their envelope runs out.

use vstd::prelude::*;

use crate::consts::{AUDIO_BUS_LENGTH, BUS_DRY, NUM_CONTROL_BLOCKS, TICK_MAX};
use crate::drum::{drum_fold, is_fresh_drum, DrumSynthState};
use crate::envelope::adsr_clamp_spec;
use crate::reduce::{add_gen, first_none, lemma_first_none_props};
use crate::state::{block_len, busses_wf, AudioBusses, ControlBlock, ControlBlocks};

verus! {

/// How one render block relates a pooled drum to what its slot holds
/// afterwards.  With its control block missing or of the wrong variant the
/// drum idles untouched (graceful degradation).  With the block present,
/// phase and envelope advance by the block fold and the slot is freed
/// exactly when the envelope ran out.
pub open spec fn drum_pool_rel(
    pre: DrumSynthState,
    post: Option<DrumSynthState>,
    ctl: Seq<Option<ControlBlock>>,
    tick: int,
    n: int,
) -> bool {
    match ctl[pre.ci()] {
        Some(ControlBlock::Drum(cb)) => {
            let adsr = adsr_clamp_spec(cb.adsr);
            let fold = drum_fold(pre.phase(), pre.env(), adsr, cb, tick, n as nat);
            if fold.2 {
                &&& post matches Some(p)
                &&& p.wf()
                &&& p.dst() == pre.dst()
                &&& p.table() == pre.table()
                &&& p.ci() == pre.ci()
                &&& p.phase() == fold.0
                &&& p.env() == fold.1
            } else {
                post is None
            }
        },
        _ => post == Some(pre),
    }
}

/// How spawning one (possible) drum relates a pool to its successor: with
/// the flag off nothing changes; with it on, a fresh drum on `table` reading
/// slot `ci` lands in the first free slot (growing the pool only when none
/// is free) and every other slot is untouched.
pub open spec fn drum_spawn_rel(
    pre: Seq<Option<DrumSynthState>>,
    post: Seq<Option<DrumSynthState>>,
    on: bool,
    table: Seq<i64>,
    ci: int,
) -> bool {
    if !on {
        post == pre
    } else {
        let ix = first_none(pre);
        &&& post.len() == (if ix < pre.len() {
            pre.len() as int
        } else {
            pre.len() + 1int
        })
        &&& forall|j: int| 0 <= j < pre.len() && j != ix ==> post[j] == pre[j]
        &&& post[ix] matches Some(d) && is_fresh_drum(d, table, ci)
        &&& (ix < pre.len() ==> pre[ix] is None)
    }
}

/// The pool of transient voices; every pooled drum writes the dry bus.
pub struct UgenGroupState {
    dst: usize,
    ugen_state: Vec<Option<DrumSynthState>>,
}

impl UgenGroupState {
    /// The bus newly spawned voices are aimed at.
    pub closed spec fn dst(self) -> int {
        self.dst as int
    }

    /// The pool slots.
    pub closed spec fn pool(self) -> Seq<Option<DrumSynthState>> {
        self.ugen_state@
    }

    /// Every pooled voice is well formed and writes the dry bus.
    pub closed spec fn wf(self) -> bool {
        &&& self.dst < AUDIO_BUS_LENGTH
        &&& forall|ix: int|
            0 <= ix < self.ugen_state@.len() ==> match #[trigger] self.ugen_state@[ix] {
                Some(d) => d.wf() && d.dst() == BUS_DRY,
                None => true,
            }
    }

    /// Number of pool slots (occupied or free), as executable code.
    pub fn pool_len(&self) -> (n: usize)
        ensures
            n == self.pool().len(),
    {
        self.ugen_state.len()
    }

    /// Whether pool slot `ix` holds a live voice, as executable code.
    pub fn slot_live(&self, ix: usize) -> (b: bool)
        requires
            ix < self.pool().len(),
        ensures
            b == (self.pool()[ix as int] is Some),
    {
        self.ugen_state[ix].is_some()
    }

    /// An empty pool aimed at bus `dst`.
    pub fn new(dst: usize) -> (r: UgenGroupState)
        requires
            dst < AUDIO_BUS_LENGTH,
        ensures
            r.wf(),
            r.dst() == dst,
            r.pool().len() == 0,
    {
        UgenGroupState { dst, ugen_state: Vec::new() }
    }

    /// Add a transient voice into the first free slot, growing the pool only
    /// when every slot is taken.
    pub fn add(&mut self, ugen: DrumSynthState)
        requires
            old(self).wf(),
            ugen.wf(),
            ugen.dst() == BUS_DRY,
        ensures
            final(self).wf(),
            final(self).dst() == old(self).dst(),
            ({
                let ix = first_none(old(self).pool());
                &&& final(self).pool().len() == (if ix < old(self).pool().len() {
                    old(self).pool().len() as int
                } else {
                    old(self).pool().len() + 1int
                })
                &&& forall|j: int|
                    0 <= j < old(self).pool().len() && j != ix ==> final(self).pool()[j] == old(
                        self,
                    ).pool()[j]
                &&& final(self).pool()[ix] == Some(ugen)
                &&& (ix < old(self).pool().len() ==> old(self).pool()[ix] is None)
            }),
    {
        proof {
            lemma_first_none_props(self.ugen_state@);
        }
        let _ = add_gen(&mut self.ugen_state, ugen);
    }

    /// One render block: run every live voice, free the slot of each voice
    /// whose envelope ran out.
    pub fn run(&mut self, bus: &mut AudioBusses, tick_ns: i64, ctl: &ControlBlocks) -> (r: bool)
        requires
            old(self).wf(),
            busses_wf(*old(bus)),
            0 < tick_ns <= TICK_MAX,
            ctl@.len() == NUM_CONTROL_BLOCKS,
        ensures
            r == true,
            final(self).wf(),
            final(self).dst() == old(self).dst(),
            final(self).pool().len() == old(self).pool().len(),
            busses_wf(*final(bus)),
            final(bus)@.len() == old(bus)@.len(),
            block_len(*final(bus)) == block_len(*old(bus)),
            forall|i: int|
                0 <= i < old(bus)@.len() && i != BUS_DRY ==> final(bus)@[i] == old(bus)@[i],
            forall|ix: int|
                0 <= ix < old(self).pool().len() ==> match old(self).pool()[ix] {
                    None => final(self).pool()[ix] is None,
                    Some(d) => drum_pool_rel(
                        d,
                        #[trigger] final(self).pool()[ix],
                        ctl@,
                        tick_ns as int,
                        block_len(*old(bus)),
                    ),
                },
    {
        let n = self.ugen_state.len();
        let mut ix: usize = 0;
        while ix < n
            invariant
                self.dst == old(self).dst,
                self.ugen_state@.len() == n == old(self).pool().len(),
                self.wf(),
                busses_wf(*bus),
                bus@.len() == old(bus)@.len(),
                block_len(*bus) == block_len(*old(bus)),
                0 < tick_ns <= TICK_MAX,
                ctl@.len() == NUM_CONTROL_BLOCKS,
                ix <= n,
                forall|i: int|
                    0 <= i < bus@.len() && i != BUS_DRY ==> bus@[i] == old(bus)@[i],
                forall|jx: int| ix <= jx < n ==> self.ugen_state@[jx] == old(self).pool()[jx],
                forall|jx: int|
                    0 <= jx < ix ==> match old(self).pool()[jx] {
                        None => self.ugen_state@[jx] is None,
                        Some(d) => drum_pool_rel(
                            d,
                            #[trigger] self.ugen_state@[jx],
                            ctl@,
                            tick_ns as int,
                            block_len(*old(bus)),
                        ),
                    },
            decreases n - ix,
        {
            let mut slot: Option<DrumSynthState> = None;
            core::mem::swap(&mut slot, &mut self.ugen_state[ix]);
            match slot {
                Some(mut d) => {
                    let keep = d.run(bus, tick_ns, ctl);
                    if keep {
                        self.ugen_state[ix] = Some(d);
                    }
                },
                None => (),
            }
            ix += 1;
        }
        true
    }
}

} // verus!
