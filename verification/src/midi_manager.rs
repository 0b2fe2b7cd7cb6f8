//! The per-key voice manager: one state entry per physical key and a
//! slot-reusing pool of keyboard voices, all writing the same destination
//! bus.

use vstd::prelude::*;

use crate::consts::{AUDIO_BUS_LENGTH, NUM_CONTROL_BLOCKS, NUM_KEYS, TICK_MAX};
use crate::notegen::{notegen_pool_rel, NotegenState};
use crate::state::{block_len, busses_wf, AudioBusses, ControlBlocks, KeyState};

verus! {

/// A key either points nowhere or at a slot within the pool.
pub open spec fn key_ref_ok(k: KeyState, pool_len: int) -> bool {
    match k {
        KeyState::Off => true,
        KeyState::On { ugen_ix } => ugen_ix < pool_len,
        KeyState::Held { ugen_ix } => ugen_ix < pool_len,
    }
}

/// Per-physical-key state plus the voice pool; new voices are wired to bus
/// `dst` and control-block slot `ci`.
pub struct MidiManagerState {
    pub dst: usize,
    /// Is the sustain pedal down?
    pub pedal: bool,
    /// One entry per physical key.
    pub key_state: Vec<KeyState>,
    /// The voice pool; freed slots are reused first-fit.
    pub notegen_state: Vec<Option<NotegenState>>,
    /// Control-block slot for newly struck voices.
    pub ci: usize,
}

impl MidiManagerState {
    /// One key state per physical key, every key reference within the pool,
    /// every pooled voice well formed and wired to this manager's bus.
    pub open spec fn wf(self) -> bool {
        &&& self.dst < AUDIO_BUS_LENGTH
        &&& self.ci < NUM_CONTROL_BLOCKS
        &&& self.key_state@.len() == NUM_KEYS
        &&& forall|k: int|
            0 <= k < NUM_KEYS ==> key_ref_ok(
                #[trigger] self.key_state@[k],
                self.notegen_state@.len() as int,
            )
        &&& forall|ix: int|
            0 <= ix < self.notegen_state@.len() ==> match #[trigger] self.notegen_state@[ix] {
                Some(ng) => ng.wf() && ng.voice().dst() == self.dst,
                None => true,
            }
    }

    /// The key at index `k` points at a live pool slot (or nowhere).
    pub open spec fn key_live(self, k: int) -> bool {
        match self.key_state@[k] {
            KeyState::Off => true,
            KeyState::On { ugen_ix } => self.notegen_state@[ugen_ix as int] is Some,
            KeyState::Held { ugen_ix } => self.notegen_state@[ugen_ix as int] is Some,
        }
    }

    /// A fresh manager: every key off, pedal up, no voices.
    pub fn new(dst: usize, ci: usize) -> (r: MidiManagerState)
        requires
            dst < AUDIO_BUS_LENGTH,
            ci < NUM_CONTROL_BLOCKS,
        ensures
            r.wf(),
            r.dst == dst,
            r.ci == ci,
            r.pedal == false,
            r.key_state@.len() == NUM_KEYS,
            forall|k: int| 0 <= k < NUM_KEYS ==> r.key_state@[k] == KeyState::Off,
            r.notegen_state@.len() == 0,
    {
        MidiManagerState {
            dst,
            pedal: false,
            key_state: vec![KeyState::Off; NUM_KEYS],
            notegen_state: Vec::new(),
            ci,
        }
    }

    /// One render block: run every live voice, free the slot of each voice
    /// whose envelope has run out.  A voice whose control block is missing
    /// idles untouched rather than being freed, so hot reconfiguration
    /// cannot orphan a sounding key: a slot empties only after its release
    /// completes, by which time the note-event reducer has already turned
    /// the key off.
    pub fn run(&mut self, bus: &mut AudioBusses, tick_ns: i64, ctl: &ControlBlocks) -> (r: bool)
        requires
            old(self).wf(),
            busses_wf(*old(bus)),
            0 < tick_ns <= TICK_MAX,
            ctl@.len() == NUM_CONTROL_BLOCKS,
        ensures
            r == true,
            final(self).wf(),
            final(self).dst == old(self).dst,
            final(self).ci == old(self).ci,
            final(self).pedal == old(self).pedal,
            final(self).key_state == old(self).key_state,
            final(self).notegen_state@.len() == old(self).notegen_state@.len(),
            busses_wf(*final(bus)),
            final(bus)@.len() == old(bus)@.len(),
            block_len(*final(bus)) == block_len(*old(bus)),
            forall|i: int|
                0 <= i < old(bus)@.len() && i != old(self).dst ==> final(bus)@[i] == old(bus)@[i],
            forall|ix: int|
                0 <= ix < old(self).notegen_state@.len() ==> match old(self).notegen_state@[ix] {
                    None => final(self).notegen_state@[ix] is None,
                    Some(ng) => notegen_pool_rel(
                        ng,
                        #[trigger] final(self).notegen_state@[ix],
                        ctl@,
                        tick_ns as int,
                        block_len(*old(bus)),
                    ),
                },
    {
        let n = self.notegen_state.len();
        let mut ix: usize = 0;
        while ix < n
            invariant
                self.dst == old(self).dst,
                self.ci == old(self).ci,
                self.pedal == old(self).pedal,
                self.key_state == old(self).key_state,
                self.notegen_state@.len() == n == old(self).notegen_state@.len(),
                self.wf(),
                busses_wf(*bus),
                bus@.len() == old(bus)@.len(),
                block_len(*bus) == block_len(*old(bus)),
                0 < tick_ns <= TICK_MAX,
                ctl@.len() == NUM_CONTROL_BLOCKS,
                ix <= n,
                forall|i: int|
                    0 <= i < bus@.len() && i != self.dst ==> bus@[i] == old(bus)@[i],
                forall|jx: int| ix <= jx < n ==> self.notegen_state@[jx] == old(self).notegen_state@[jx],
                forall|jx: int|
                    0 <= jx < ix ==> match old(self).notegen_state@[jx] {
                        None => self.notegen_state@[jx] is None,
                        Some(ng) => notegen_pool_rel(
                            ng,
                            #[trigger] self.notegen_state@[jx],
                            ctl@,
                            tick_ns as int,
                            block_len(*old(bus)),
                        ),
                    },
            decreases n - ix,
        {
            let mut slot: Option<NotegenState> = None;
            core::mem::swap(&mut slot, &mut self.notegen_state[ix]);
            match slot {
                Some(mut ng) => {
                    let keep = ng.run(bus, tick_ns, ctl);
                    if keep {
                        self.notegen_state[ix] = Some(ng);
                    }
                },
                None => (),
            }
            ix += 1;
        }
        true
    }
}

} // verus!
