//! The step sequencer: a steps-by-instruments boolean grid, edited by the
//! control plane and read on a fixed wall-clock cadence to spawn transient
//! drum voices.  The timer loop itself lives outside the engine; each tick it
//! calls [`sequencer_tick`] under the state lock.

use vstd::prelude::*;

use crate::consts::{DEFAULT_DRUM_CONTROL_BLOCK, NUM_CONTROL_BLOCKS, SEQ_NUM_INSTRS, SEQ_PATTERN_LEN};
use crate::drum::DrumSynthState;
use crate::ugen_group::drum_spawn_rel;
use crate::state::State;
use crate::ugen::{first_group, ugen_wf, UgenState};
use crate::util::SynthError;
use crate::wavetables::Wavetables;

verus! {

/// The pattern grid: one row per step, one flag per instrument.
pub struct Sequencer {
    tab: Vec<Vec<bool>>,
}

impl Sequencer {
    /// The flag at step `pat` for instrument `inst`.
    pub closed spec fn cell(self, inst: int, pat: int) -> bool {
        self.tab@[pat]@[inst]
    }

    /// The grid has its fixed dimensions.
    pub closed spec fn wf(self) -> bool {
        &&& self.tab@.len() == SEQ_PATTERN_LEN
        &&& forall|p: int| 0 <= p < SEQ_PATTERN_LEN ==> (#[trigger] self.tab@[p])@.len()
            == SEQ_NUM_INSTRS
    }

    /// An empty pattern: every cell off.
    pub fn new() -> (r: Sequencer)
        ensures
            r.wf(),
            forall|i: int, p: int|
                0 <= i < SEQ_NUM_INSTRS && 0 <= p < SEQ_PATTERN_LEN ==> !r.cell(i, p),
    {
        let mut tab: Vec<Vec<bool>> = Vec::new();
        while tab.len() < SEQ_PATTERN_LEN
            invariant
                tab@.len() <= SEQ_PATTERN_LEN,
                forall|p: int| 0 <= p < tab@.len() ==> (#[trigger] tab@[p])@.len() == SEQ_NUM_INSTRS,
                forall|p: int, i: int|
                    0 <= p < tab@.len() && 0 <= i < SEQ_NUM_INSTRS ==> !tab@[p]@[i],
            decreases SEQ_PATTERN_LEN - tab.len(),
        {
            tab.push(vec![false; SEQ_NUM_INSTRS]);
        }
        Sequencer { tab }
    }

    /// Toggle one cell of the grid.  The caller answers for the indices; the
    /// checked variant below surfaces bad ones as input errors.
    pub fn set(&mut self, inst: usize, pat: usize, on: bool)
        requires
            old(self).wf(),
            inst < SEQ_NUM_INSTRS,
            pat < SEQ_PATTERN_LEN,
        ensures
            final(self).wf(),
            final(self).cell(inst as int, pat as int) == on,
            forall|i: int, p: int|
                0 <= i < SEQ_NUM_INSTRS && 0 <= p < SEQ_PATTERN_LEN && !(i == inst && p == pat)
                    ==> final(self).cell(i, p) == old(self).cell(i, p),
    {
        self.tab[pat][inst] = on;
    }

    /// Toggle one cell, rejecting out-of-range indices as an input error.
    pub fn try_set(&mut self, inst: usize, pat: usize, on: bool) -> (r: Result<(), SynthError>)
        requires
            old(self).wf(),
        ensures
            final(self).wf(),
            if inst < SEQ_NUM_INSTRS && pat < SEQ_PATTERN_LEN {
                &&& r == Ok::<(), SynthError>(())
                &&& final(self).cell(inst as int, pat as int) == on
                &&& forall|i: int, p: int|
                    0 <= i < SEQ_NUM_INSTRS && 0 <= p < SEQ_PATTERN_LEN && !(i == inst && p == pat)
                        ==> final(self).cell(i, p) == old(self).cell(i, p)
            } else {
                r == Err::<(), SynthError>(SynthError::BadIndex) && *final(self) == *old(self)
            },
    {
        if inst < SEQ_NUM_INSTRS && pat < SEQ_PATTERN_LEN {
            self.set(inst, pat, on);
            Ok(())
        } else {
            Err(SynthError::BadIndex)
        }
    }
}

/// A transient drum voice on the noise table, as a graph node.
pub fn new_drum(wavetables: &Wavetables, ctl: usize) -> (r: UgenState)
    requires
        wavetables.wf(),
        ctl < NUM_CONTROL_BLOCKS,
    ensures
        ugen_wf(r),
        r matches UgenState::DrumSynth(d) && crate::drum::is_fresh_drum(
            d,
            wavetables.noise_wavetable@,
            ctl as int,
        ),
{
    UgenState::DrumSynth(new_drum_state(wavetables, ctl))
}

/// A transient drum voice on the noise table.
pub fn new_drum_state(wavetables: &Wavetables, ctl: usize) -> (r: DrumSynthState)
    requires
        wavetables.wf(),
        ctl < NUM_CONTROL_BLOCKS,
    ensures
        crate::drum::is_fresh_drum(r, wavetables.noise_wavetable@, ctl as int),
{
    let table = wavetables.noise_wavetable.clone();
    proof {
        assert(table@ =~= wavetables.noise_wavetable@);
    }
    DrumSynthState::new(table, ctl)
}

/// One sequencer step as a chain of three spawns: instrument `i`'s flag at
/// `pos` decides whether one fresh drum reading slot
/// `DEFAULT_DRUM_CONTROL_BLOCK + i` lands first-fit in the pool, lower
/// instruments first; an unflagged instrument changes nothing.
pub open spec fn drum_spawns_ok(
    pre: Seq<Option<DrumSynthState>>,
    p1: Seq<Option<DrumSynthState>>,
    p2: Seq<Option<DrumSynthState>>,
    post: Seq<Option<DrumSynthState>>,
    c0: bool,
    c1: bool,
    c2: bool,
    table: Seq<i64>,
) -> bool {
    &&& drum_spawn_rel(pre, p1, c0, table, DEFAULT_DRUM_CONTROL_BLOCK as int)
    &&& drum_spawn_rel(p1, p2, c1, table, DEFAULT_DRUM_CONTROL_BLOCK + 1)
    &&& drum_spawn_rel(p2, post, c2, table, DEFAULT_DRUM_CONTROL_BLOCK + 2)
}

/// One sequencer step: spawn a drum into the group for every instrument
/// flagged at `pos`, each reading its own conventional control-block slot,
/// with lower instruments spawned first and everything else untouched.
pub fn sequencer_tick_inner(
    seq: &Sequencer,
    pos: usize,
    wavetables: &Wavetables,
    group: &mut crate::ugen_group::UgenGroupState,
)
    requires
        seq.wf(),
        pos < SEQ_PATTERN_LEN,
        wavetables.wf(),
        old(group).wf(),
    ensures
        final(group).wf(),
        final(group).dst() == old(group).dst(),
        exists|p1: Seq<Option<DrumSynthState>>, p2: Seq<Option<DrumSynthState>>|
            #[trigger] drum_spawns_ok(
                old(group).pool(),
                p1,
                p2,
                final(group).pool(),
                seq.cell(0, pos as int),
                seq.cell(1, pos as int),
                seq.cell(2, pos as int),
                wavetables.noise_wavetable@,
            ),
{
    if seq_cell(seq, 0, pos) {
        group.add(new_drum_state(wavetables, DEFAULT_DRUM_CONTROL_BLOCK));
    }
    let ghost p1 = group.pool();
    if seq_cell(seq, 1, pos) {
        group.add(new_drum_state(wavetables, DEFAULT_DRUM_CONTROL_BLOCK + 1));
    }
    let ghost p2 = group.pool();
    if seq_cell(seq, 2, pos) {
        group.add(new_drum_state(wavetables, DEFAULT_DRUM_CONTROL_BLOCK + 2));
    }
    proof {
        assert(drum_spawns_ok(
            old(group).pool(),
            p1,
            p2,
            group.pool(),
            seq.cell(0, pos as int),
            seq.cell(1, pos as int),
            seq.cell(2, pos as int),
            wavetables.noise_wavetable@,
        ));
    }
}

/// Read one grid cell, as executable code.
pub fn seq_cell(seq: &Sequencer, inst: usize, pat: usize) -> (r: bool)
    requires
        seq.wf(),
        inst < SEQ_NUM_INSTRS,
        pat < SEQ_PATTERN_LEN,
    ensures
        r == seq.cell(inst as int, pat as int),
{
    seq.tab[pat][inst]
}

/// How one sequencer tick relates the fixed ugen list to its successor: the
/// first ugen group received this step's spawns (see [`drum_spawns_ok`]) and
/// kept its destination, every other ugen is untouched; a list without a
/// group is unchanged.
pub open spec fn group_ticked_ok(
    pre_ugens: Seq<UgenState>,
    post_ugens: Seq<UgenState>,
    seq: Sequencer,
    pos: int,
    noise: Seq<i64>,
) -> bool {
    let fg = first_group(pre_ugens);
    if fg < pre_ugens.len() {
        &&& post_ugens.len() == pre_ugens.len()
        &&& forall|i: int| 0 <= i < pre_ugens.len() && i != fg ==> post_ugens[i] == pre_ugens[i]
        &&& match (pre_ugens[fg], post_ugens[fg]) {
            (UgenState::UgenGroup(g0), UgenState::UgenGroup(g1)) => {
                &&& g1.dst() == g0.dst()
                &&& exists|p1: Seq<Option<DrumSynthState>>, p2: Seq<Option<DrumSynthState>>|
                    #[trigger] drum_spawns_ok(
                        g0.pool(),
                        p1,
                        p2,
                        g1.pool(),
                        seq.cell(0, pos),
                        seq.cell(1, pos),
                        seq.cell(2, pos),
                        noise,
                    )
            },
            _ => false,
        }
    } else {
        post_ugens == pre_ugens
    }
}

/// One tick of the sequencer timer: spawn this step's drums into the first
/// ugen group of the fixed list — per [`drum_spawns_ok`] — leave every other
/// ugen untouched, and step the cursor, wrapping at the pattern length.  A
/// graph wired without a group changes nothing (it has no drum pool to play
/// into).
pub fn sequencer_tick(s: &mut State, pos: usize) -> (next: usize)
    requires
        old(s).wf(),
        pos < SEQ_PATTERN_LEN,
    ensures
        final(s).wf(),
        next == (pos + 1) % (SEQ_PATTERN_LEN as int),
        final(s).going == old(s).going,
        final(s).sequencer == old(s).sequencer,
        final(s).control_blocks == old(s).control_blocks,
        final(s).outbox == old(s).outbox,
        final(s).audio_bus == old(s).audio_bus,
        final(s).fixed_ugens@.len() == old(s).fixed_ugens@.len(),
        group_ticked_ok(
            old(s).fixed_ugens@,
            final(s).fixed_ugens@,
            old(s).sequencer,
            pos as int,
            old(s).wavetables.noise_wavetable@,
        ),
{
    let nu = s.fixed_ugens.len();
    let mut i: usize = 0;
    while i < nu
        invariant
            old(s).wf(),
            pos < SEQ_PATTERN_LEN,
            *s == *old(s),
            nu == s.fixed_ugens@.len(),
            i <= nu,
            forall|k: int| 0 <= k < i ==> !((#[trigger] s.fixed_ugens@[k]) is UgenGroup),
        decreases nu - i,
    {
        let is_group = match &s.fixed_ugens[i] {
            UgenState::UgenGroup(_) => true,
            _ => false,
        };
        if is_group {
            proof {
                crate::ugen::lemma_first_group_at(s.fixed_ugens@, i as int);
            }
            let mut slot = UgenState::Gain(crate::gain::GainState::new(0, 0, 0));
            core::mem::swap(&mut slot, &mut s.fixed_ugens[i]);
            match slot {
                UgenState::UgenGroup(mut group) => {
                    let ghost g0 = group;
                    sequencer_tick_inner(&s.sequencer, pos, &s.wavetables, &mut group);
                    let ghost g1 = group;
                    s.fixed_ugens[i] = UgenState::UgenGroup(group);
                    proof {
                        assert(old(s).fixed_ugens@[i as int] == UgenState::UgenGroup(g0));
                        assert(s.fixed_ugens@ =~= old(s).fixed_ugens@.update(
                            i as int,
                            UgenState::UgenGroup(g1),
                        ));
                        let (p1, p2) = choose|p1: Seq<Option<DrumSynthState>>, p2: Seq<
                            Option<DrumSynthState>,
                        >|
                            drum_spawns_ok(
                                g0.pool(),
                                p1,
                                p2,
                                g1.pool(),
                                s.sequencer.cell(0, pos as int),
                                s.sequencer.cell(1, pos as int),
                                s.sequencer.cell(2, pos as int),
                                s.wavetables.noise_wavetable@,
                            );
                        assert(drum_spawns_ok(
                            g0.pool(),
                            p1,
                            p2,
                            g1.pool(),
                            old(s).sequencer.cell(0, pos as int),
                            old(s).sequencer.cell(1, pos as int),
                            old(s).sequencer.cell(2, pos as int),
                            old(s).wavetables.noise_wavetable@,
                        ));
                        assert(group_ticked_ok(
                            old(s).fixed_ugens@,
                            s.fixed_ugens@,
                            old(s).sequencer,
                            pos as int,
                            old(s).wavetables.noise_wavetable@,
                        ));
                    }
                    return (pos + 1) % SEQ_PATTERN_LEN;
                },
                _ => {
                    proof {
                        assert(false);
                    }
                },
            }
        }
        i += 1;
    }
    proof {
        crate::ugen::lemma_first_group_at(s.fixed_ugens@, nu as int);
    }
    (pos + 1) % SEQ_PATTERN_LEN
}

} // verus!
