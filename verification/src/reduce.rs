//! The note-event reducer: how each MIDI message transforms the voice
//! manager.
//!
//! Striking a silent key allocates a voice first-fit in the pool; striking a
//! sounding key restrikes the voice it already has.  Releasing a key while
//! the pedal is down parks it as `Held`; releasing the pedal turns every
//! `Held` key off and releases its voice, key states first, voices second.

use vstd::prelude::*;

use crate::consts::{BOTTOM_NOTE, FX_ONE, NUM_KEYS};
use crate::midi::Message;
use crate::midi_manager::MidiManagerState;
use crate::notegen::{NoteMode, NotegenState};
use crate::state::{new_reasonable_of_tables, KeyState};
use crate::util::{freq_of_pitch, freq_of_pitch_spec, SynthError};
use crate::wavetables::Wavetables;

verus! {

/// The first free slot of a pool: the least index holding `None`, or the
/// pool length when every slot is taken.
pub open spec fn first_none<T>(s: Seq<Option<T>>) -> int
    decreases s.len(),
{
    if s.len() == 0 {
        0
    } else if s[0] is None {
        0
    } else {
        1 + first_none(s.drop_first())
    }
}

/// The first free slot is exactly the least `None`: everything before it is
/// taken, and it is free unless the pool is full.
pub proof fn lemma_first_none_at<T>(s: Seq<Option<T>>, i: int)
    requires
        0 <= i <= s.len(),
        forall|j: int| 0 <= j < i ==> s[j] is Some,
        i == s.len() || s[i] is None,
    ensures
        first_none(s) == i,
    decreases i,
{
    if i == 0 {
    } else {
        lemma_first_none_at(s.drop_first(), i - 1);
    }
}

/// The first free slot lies within the pool bounds and is indeed free.
pub proof fn lemma_first_none_props<T>(s: Seq<Option<T>>)
    ensures
        0 <= first_none(s) <= s.len(),
        first_none(s) < s.len() ==> s[first_none(s)] is None,
    decreases s.len(),
{
    if s.len() > 0 && !(s[0] is None) {
        lemma_first_none_props(s.drop_first());
    }
}

/// Store a value in the first free slot of a pool, growing it only when no
/// slot is free; returns the slot used.  Freed slots are thus reused and an
/// index stays valid for as long as its occupant lives.
pub fn add_gen<T>(ns: &mut Vec<Option<T>>, new: T) -> (ix: usize)
    ensures
        ix as int == first_none(old(ns)@),
        ix <= old(ns)@.len(),
        final(ns)@.len() == (if (ix as int) < old(ns)@.len() {
            old(ns)@.len() as int
        } else {
            old(ns)@.len() + 1int
        }),
        final(ns)@ == (if (ix as int) < old(ns)@.len() {
            old(ns)@.update(ix as int, Some(new))
        } else {
            old(ns)@.push(Some(new))
        }),
        final(ns)@[ix as int] == Some(new),
        forall|j: int| 0 <= j < old(ns)@.len() && j != ix ==> final(ns)@[j] == old(ns)@[j],
{
    let n = ns.len();
    let mut i: usize = 0;
    while i < n
        invariant
            n == ns@.len(),
            *ns == *old(ns),
            i <= n,
            forall|j: int| 0 <= j < i ==> ns@[j] is Some,
        decreases n - i,
    {
        if ns[i].is_none() {
            proof {
                lemma_first_none_at(ns@, i as int);
            }
            ns[i] = Some(new);
            return i;
        }
        i += 1;
    }
    proof {
        lemma_first_none_at(ns@, n as int);
    }
    ns.push(Some(new));
    n
}

/// The pool slot a key state references, if any.
pub open spec fn ugen_ix_of(ks: KeyState) -> Option<usize> {
    match ks {
        KeyState::On { ugen_ix } => Some(ugen_ix),
        KeyState::Held { ugen_ix } => Some(ugen_ix),
        KeyState::Off => None,
    }
}

/// The pool slot a key state references, as executable code.
pub fn ugen_ix_of_key_state(key_state: &KeyState) -> (r: Option<usize>)
    ensures
        r == ugen_ix_of(*key_state),
{
    match *key_state {
        KeyState::On { ugen_ix } => Some(ugen_ix),
        KeyState::Held { ugen_ix } => Some(ugen_ix),
        KeyState::Off => None,
    }
}

/// How releasing an optional voice relates old slot to new: an empty slot
/// stays empty; an occupied one keeps its voice with a pending release.
pub open spec fn released_rel(o: Option<NotegenState>, n: Option<NotegenState>) -> bool {
    match o {
        None => n is None,
        Some(og) => {
            &&& n matches Some(ng)
            &&& ng.mode() == NoteMode::Release
            &&& ng.voice() == og.voice()
            &&& ng.wf()
        },
    }
}

/// Ask an optional voice to release; an empty slot is left alone.
fn release_maybe_notegen(onotegen: &mut Option<NotegenState>)
    requires
        match *old(onotegen) {
            Some(ng) => ng.wf(),
            None => true,
        },
    ensures
        released_rel(*old(onotegen), *final(onotegen)),
{
    match onotegen {
        None => (),
        Some(notegen) => notegen.release(),
    }
}

/// The key-table index of a MIDI pitch.
pub open spec fn key_ix_of(pitch: u8) -> int {
    pitch - BOTTOM_NOTE
}

/// A note event's pitch lies on the physical keyboard.
pub open spec fn pitch_on_keyboard(msg: Message) -> bool {
    match msg {
        Message::NoteOn { pitch, .. } => BOTTOM_NOTE <= pitch < BOTTOM_NOTE + NUM_KEYS,
        Message::NoteOff { pitch, .. } => BOTTOM_NOTE <= pitch < BOTTOM_NOTE + NUM_KEYS,
        _ => true,
    }
}

/// A note-on strikes a key whose referenced pool slot is live.  Striking a
/// key whose voice was freed behind its back is a programming error: callers
/// must rule it out (the engine's unverified edges check it and fail loudly
/// rather than invent a voice).
pub open spec fn note_on_target_live(m: MidiManagerState, msg: Message) -> bool {
    match msg {
        Message::NoteOn { pitch, .. } => m.key_live(key_ix_of(pitch)),
        _ => true,
    }
}

/// The fixed-point velocity of a raw MIDI velocity byte.
pub open spec fn vel_of(velocity: u8) -> int {
    (velocity * FX_ONE) / 1280
}

/// A voice just struck for `pitch` at `velocity`: no pending command, phase
/// zero, a held envelope rising from silence, reading the given wavetable.
pub open spec fn is_fresh_voice(
    ng: NotegenState,
    dst: int,
    pitch: u8,
    velocity: u8,
    wt: Seq<i64>,
    ci: int,
) -> bool {
    &&& ng.wf()
    &&& ng.mode() == NoteMode::Run
    &&& ng.voice().dst() == dst
    &&& ng.voice().freq() == freq_of_pitch_spec(pitch)
    &&& ng.voice().phase() == 0
    &&& ng.voice().env() == (crate::envelope::EnvState::On {
        t_ns: 0,
        amp: 0,
        vel: vel_of(velocity) as i64,
        hold: true,
    })
    &&& ng.voice().table() == wt
    &&& ng.voice().ci_ix() == ci
}

/// How a note-on transforms the manager.  A silent key gets a fresh voice in
/// the first free pool slot; a sounding (or held) key keeps its voice and
/// slot — the voice is restruck at the new velocity — and returns to `On`.
pub open spec fn note_on_rel(
    pre: MidiManagerState,
    post: MidiManagerState,
    pitch: u8,
    velocity: u8,
    wt: Seq<i64>,
) -> bool {
    let kix = key_ix_of(pitch);
    &&& post.dst == pre.dst
    &&& post.ci == pre.ci
    &&& post.pedal == pre.pedal
    &&& match ugen_ix_of(pre.key_state@[kix]) {
        None => {
            let ix = first_none(pre.notegen_state@);
            &&& post.key_state@ == pre.key_state@.update(
                kix,
                KeyState::On { ugen_ix: ix as usize },
            )
            &&& post.notegen_state@.len() == (if ix < pre.notegen_state@.len() {
                pre.notegen_state@.len() as int
            } else {
                pre.notegen_state@.len() + 1int
            })
            &&& forall|j: int|
                0 <= j < pre.notegen_state@.len() && j != ix ==> post.notegen_state@[j]
                    == pre.notegen_state@[j]
            &&& post.notegen_state@[ix] matches Some(ng) && is_fresh_voice(
                ng,
                pre.dst as int,
                pitch,
                velocity,
                wt,
                pre.ci as int,
            )
        },
        Some(ix) => {
            &&& post.key_state@ == pre.key_state@.update(
                kix,
                KeyState::On { ugen_ix: ix },
            )
            &&& post.notegen_state@.len() == pre.notegen_state@.len()
            &&& forall|j: int|
                0 <= j < pre.notegen_state@.len() && j != ix ==> post.notegen_state@[j]
                    == pre.notegen_state@[j]
            &&& pre.notegen_state@[ix as int] matches Some(og) && {
                &&& post.notegen_state@[ix as int] matches Some(ng)
                &&& ng.mode() == (NoteMode::Restrike { vel: vel_of(velocity) as i64 })
                &&& ng.voice() == og.voice()
            }
        },
    }
}

/// How a note-off transforms the manager.  A silent key is left alone; with
/// the pedal down the key is parked `Held` and its voice keeps sounding;
/// with the pedal up the key turns off and its voice is asked to release.
pub open spec fn note_off_rel(pre: MidiManagerState, post: MidiManagerState, pitch: u8) -> bool {
    let kix = key_ix_of(pitch);
    &&& post.dst == pre.dst
    &&& post.ci == pre.ci
    &&& post.pedal == pre.pedal
    &&& match ugen_ix_of(pre.key_state@[kix]) {
        None => post == pre,
        Some(ix) => {
            if pre.pedal {
                &&& post.key_state@ == pre.key_state@.update(
                    kix,
                    KeyState::Held { ugen_ix: ix },
                )
                &&& post.notegen_state == pre.notegen_state
            } else {
                &&& post.key_state@ == pre.key_state@.update(kix, KeyState::Off)
                &&& post.notegen_state@.len() == pre.notegen_state@.len()
                &&& released_rel(pre.notegen_state@[ix as int], post.notegen_state@[ix as int])
                &&& forall|j: int|
                    0 <= j < pre.notegen_state@.len() && j != ix ==> post.notegen_state@[j]
                        == pre.notegen_state@[j]
            }
        },
    }
}

/// Pressing the pedal only records that it is down.
pub open spec fn pedal_on_rel(pre: MidiManagerState, post: MidiManagerState) -> bool {
    &&& post.dst == pre.dst
    &&& post.ci == pre.ci
    &&& post.pedal == true
    &&& post.key_state == pre.key_state
    &&& post.notegen_state == pre.notegen_state
}

/// A key state holds `ix` only because the pedal does.
pub open spec fn keyheld_at(ks: KeyState, ix: int) -> bool {
    match ks {
        KeyState::Held { ugen_ix } => ugen_ix == ix,
        _ => false,
    }
}

/// Some key among the first `k` is held through pool slot `ix`.
pub open spec fn held_ix_upto(keys: Seq<KeyState>, ix: int, k: int) -> bool {
    exists|kk: int| 0 <= kk < k && keyheld_at(#[trigger] keys[kk], ix)
}

/// How a pedal-off transforms the manager: every `Held` key turns off, and
/// exactly the voices those keys referenced are asked to release.
pub open spec fn pedal_off_rel(pre: MidiManagerState, post: MidiManagerState) -> bool {
    &&& post.dst == pre.dst
    &&& post.ci == pre.ci
    &&& post.pedal == false
    &&& post.key_state@.len() == pre.key_state@.len()
    &&& forall|k: int|
        0 <= k < pre.key_state@.len() ==> post.key_state@[k] == (
        if pre.key_state@[k] is Held {
            KeyState::Off
        } else {
            pre.key_state@[k]
        })
    &&& post.notegen_state@.len() == pre.notegen_state@.len()
    &&& forall|ix: int|
        0 <= ix < pre.notegen_state@.len() ==> (
        if held_ix_upto(pre.key_state@, ix, pre.key_state@.len() as int) {
            released_rel(pre.notegen_state@[ix], #[trigger] post.notegen_state@[ix])
        } else {
            post.notegen_state@[ix] == pre.notegen_state@[ix]
        })
}

/// Apply one MIDI message to the voice manager; the keyboard voices read the
/// sine wavetable.
pub fn midi_reducer_inner(
    msg: &Message,
    wavetables: &Wavetables,
    midi_manager: &mut MidiManagerState,
) -> (r: Result<(), SynthError>)
    requires
        old(midi_manager).wf(),
        wavetables.wf(),
        pitch_on_keyboard(*msg),
        note_on_target_live(*old(midi_manager), *msg),
    ensures
        r == Ok::<(), SynthError>(()),
        final(midi_manager).wf(),
        match *msg {
            Message::NoteOn { pitch, velocity, .. } => note_on_rel(
                *old(midi_manager),
                *final(midi_manager),
                pitch,
                velocity,
                wavetables.sin_wavetable@,
            ),
            Message::NoteOff { pitch, .. } => note_off_rel(
                *old(midi_manager),
                *final(midi_manager),
                pitch,
            ),
            Message::PedalOn => pedal_on_rel(*old(midi_manager), *final(midi_manager)),
            Message::PedalOff => pedal_off_rel(*old(midi_manager), *final(midi_manager)),
        },
{
    match *msg {
        Message::NoteOn { pitch, channel: _, velocity } => {
            let freq = freq_of_pitch(pitch);
            let kix = pitch as usize - BOTTOM_NOTE as usize;
            let pre = ugen_ix_of_key_state(&midi_manager.key_state[kix]);
            let vel = vel_of_velocity(velocity);
            let ugen_ix: usize = match pre {
                None => {
                    let ugen = new_reasonable_of_tables(
                        midi_manager.dst,
                        wavetables,
                        freq,
                        vel,
                        midi_manager.ci,
                    );
                    add_gen(&mut midi_manager.notegen_state, ugen)
                },
                Some(ugen_ix) => {
                    match &mut midi_manager.notegen_state[ugen_ix] {
                        None => {
                            proof {
                                assert(false);
                            }
                        },
                        Some(ugen) => {
                            ugen.restrike(vel);
                        },
                    }
                    ugen_ix
                },
            };
            midi_manager.key_state[kix] = KeyState::On { ugen_ix };
            Ok(())
        },
        Message::NoteOff { pitch, channel: _ } => {
            let kix = pitch as usize - BOTTOM_NOTE as usize;
            let pre = ugen_ix_of_key_state(&midi_manager.key_state[kix]);
            match pre {
                None => (),
                Some(ugen_ix) => {
                    if midi_manager.pedal {
                        midi_manager.key_state[kix] = KeyState::Held { ugen_ix };
                    } else {
                        release_maybe_notegen(&mut midi_manager.notegen_state[ugen_ix]);
                        midi_manager.key_state[kix] = KeyState::Off;
                    }
                },
            }
            Ok(())
        },
        Message::PedalOff => {
            midi_manager.pedal = false;
            let ghost pre = *midi_manager;
            let nkeys = midi_manager.key_state.len();
            let npool = midi_manager.notegen_state.len();
            let mut ugen_ixs: Vec<usize> = Vec::new();
            let mut k: usize = 0;
            while k < nkeys
                invariant
                    old(midi_manager).wf(),
                    pre.key_state == old(midi_manager).key_state,
                    pre.notegen_state == old(midi_manager).notegen_state,
                    midi_manager.dst == pre.dst,
                    midi_manager.ci == pre.ci,
                    midi_manager.pedal == false,
                    midi_manager.notegen_state == pre.notegen_state,
                    nkeys == pre.key_state@.len() == midi_manager.key_state@.len() == NUM_KEYS,
                    npool == pre.notegen_state@.len(),
                    k <= nkeys,
                    forall|kk: int|
                        0 <= kk < k ==> midi_manager.key_state@[kk] == (
                        if pre.key_state@[kk] is Held {
                            KeyState::Off
                        } else {
                            pre.key_state@[kk]
                        }),
                    forall|kk: int| k <= kk < nkeys ==> midi_manager.key_state@[kk] == pre.key_state@[kk],
                    forall|t: int| 0 <= t < ugen_ixs@.len() ==> (#[trigger] ugen_ixs@[t]) < npool,
                    forall|ix: int|
                        0 <= ix < npool ==> (ugen_ixs@.contains(ix as usize) <==> held_ix_upto(
                            pre.key_state@,
                            ix,
                            k as int,
                        )),
                decreases nkeys - k,
            {
                let ghost ixs0 = ugen_ixs@;
                match midi_manager.key_state[k] {
                    KeyState::Held { ugen_ix } => {
                        ugen_ixs.push(ugen_ix);
                        midi_manager.key_state[k] = KeyState::Off;
                        proof {
                            assert(pre.key_state@[k as int] == KeyState::Held { ugen_ix });
                            assert(crate::midi_manager::key_ref_ok(
                                old(midi_manager).key_state@[k as int],
                                npool as int,
                            ));
                            assert(ugen_ix < npool);
                            assert forall|ix: int|
                                #![trigger ugen_ixs@.contains(ix as usize)]
                                0 <= ix < npool implies (
                                ugen_ixs@.contains(ix as usize) <==> held_ix_upto(
                                    pre.key_state@,
                                    ix,
                                    k + 1,
                                )) by {
                                lemma_push_contains(ixs0, ugen_ix, ix as usize);
                                if held_ix_upto(pre.key_state@, ix, k + 1) {
                                    let kk = choose|kk: int|
                                        0 <= kk < k + 1 && keyheld_at(
                                            #[trigger] pre.key_state@[kk],
                                            ix,
                                        );
                                    if kk < k {
                                        assert(held_ix_upto(pre.key_state@, ix, k as int));
                                    } else {
                                        assert(keyheld_at(pre.key_state@[k as int], ix));
                                    }
                                    assert(ugen_ixs@.contains(ix as usize));
                                }
                                if ugen_ixs@.contains(ix as usize) {
                                    if ixs0.contains(ix as usize) {
                                        assert(held_ix_upto(pre.key_state@, ix, k as int));
                                        let kk = choose|kk: int|
                                            0 <= kk < k && keyheld_at(
                                                #[trigger] pre.key_state@[kk],
                                                ix,
                                            );
                                        assert(keyheld_at(pre.key_state@[kk], ix));
                                        assert(held_ix_upto(pre.key_state@, ix, k + 1));
                                    } else {
                                        assert(ix == ugen_ix as int);
                                        assert(keyheld_at(pre.key_state@[k as int], ix));
                                        assert(held_ix_upto(pre.key_state@, ix, k + 1));
                                    }
                                }
                            }
                        }
                    },
                    _ => {
                        proof {
                            assert(!(pre.key_state@[k as int] is Held));
                            assert forall|ix: int|
                                #![trigger ugen_ixs@.contains(ix as usize)]
                                0 <= ix < npool implies (
                                ugen_ixs@.contains(ix as usize) <==> held_ix_upto(
                                    pre.key_state@,
                                    ix,
                                    k + 1,
                                )) by {
                                if held_ix_upto(pre.key_state@, ix, k + 1) {
                                    let kk = choose|kk: int|
                                        0 <= kk < k + 1 && keyheld_at(
                                            #[trigger] pre.key_state@[kk],
                                            ix,
                                        );
                                    assert(kk < k);
                                    assert(held_ix_upto(pre.key_state@, ix, k as int));
                                }
                                if held_ix_upto(pre.key_state@, ix, k as int) {
                                    let kk = choose|kk: int|
                                        0 <= kk < k && keyheld_at(
                                            #[trigger] pre.key_state@[kk],
                                            ix,
                                        );
                                    assert(keyheld_at(pre.key_state@[kk], ix));
                                    assert(held_ix_upto(pre.key_state@, ix, k + 1));
                                }
                            }
                        }
                    },
                }
                k += 1;
            }
            let nixs = ugen_ixs.len();
            let mut i: usize = 0;
            while i < nixs
                invariant
                    old(midi_manager).wf(),
                    pre.key_state == old(midi_manager).key_state,
                    pre.notegen_state == old(midi_manager).notegen_state,
                    midi_manager.dst == pre.dst,
                    midi_manager.ci == pre.ci,
                    midi_manager.pedal == false,
                    midi_manager.key_state@.len() == NUM_KEYS,
                    forall|kk: int|
                        0 <= kk < NUM_KEYS ==> midi_manager.key_state@[kk] == (
                        if pre.key_state@[kk] is Held {
                            KeyState::Off
                        } else {
                            pre.key_state@[kk]
                        }),
                    nixs == ugen_ixs@.len(),
                    npool == pre.notegen_state@.len() == midi_manager.notegen_state@.len(),
                    forall|t: int| 0 <= t < ugen_ixs@.len() ==> (#[trigger] ugen_ixs@[t]) < npool,
                    forall|ix: int|
                        0 <= ix < npool ==> (ugen_ixs@.contains(ix as usize) <==> held_ix_upto(
                            pre.key_state@,
                            ix,
                            NUM_KEYS as int,
                        )),
                    forall|ix: int|
                        0 <= ix < npool ==> match #[trigger] pre.notegen_state@[ix] {
                            Some(ng) => ng.wf(),
                            None => true,
                        },
                    i <= nixs,
                    forall|ix: int|
                        0 <= ix < npool ==> (
                        if ugen_ixs@.take(i as int).contains(ix as usize) {
                            released_rel(
                                pre.notegen_state@[ix],
                                #[trigger] midi_manager.notegen_state@[ix],
                            )
                        } else {
                            midi_manager.notegen_state@[ix] == pre.notegen_state@[ix]
                        }),
                decreases nixs - i,
            {
                let jx = ugen_ixs[i];
                let ghost pool0 = midi_manager.notegen_state@;
                release_maybe_notegen(&mut midi_manager.notegen_state[jx]);
                proof {
                    assert(ugen_ixs@.take(i + 1) =~= ugen_ixs@.take(i as int).push(jx));
                    assert forall|ix: int|
                        #![trigger midi_manager.notegen_state@[ix]]
                        0 <= ix < npool implies (
                        if ugen_ixs@.take(i + 1).contains(ix as usize) {
                            released_rel(
                                pre.notegen_state@[ix],
                                midi_manager.notegen_state@[ix],
                            )
                        } else {
                            midi_manager.notegen_state@[ix] == pre.notegen_state@[ix]
                        }) by {
                        lemma_push_contains(ugen_ixs@.take(i as int), jx, ix as usize);
                    }
                }
                i += 1;
            }
            proof {
                assert(ugen_ixs@.take(nixs as int) =~= ugen_ixs@);
            }
            Ok(())
        },
        Message::PedalOn => {
            midi_manager.pedal = true;
            Ok(())
        },
    }
}

/// A pushed sequence contains exactly the old elements and the pushed one.
proof fn lemma_push_contains<T>(s: Seq<T>, x: T, y: T)
    ensures
        s.push(x).contains(y) <==> (s.contains(y) || x == y),
{
    if s.push(x).contains(y) {
        let i = choose|i: int| 0 <= i < s.push(x).len() && s.push(x)[i] == y;
        if i < s.len() {
            assert(s[i] == y);
        }
    }
    if s.contains(y) {
        let i = choose|i: int| 0 <= i < s.len() && s[i] == y;
        assert(s.push(x)[i] == y);
    }
    if x == y {
        assert(s.push(x)[s.len() as int] == y);
    }
}

/// The fixed-point velocity of a raw MIDI velocity byte, as executable
/// code.
fn vel_of_velocity(velocity: u8) -> (r: i64)
    ensures
        r as int == vel_of(velocity),
        0 <= r <= FX_ONE,
{
    proof {
        vstd::arithmetic::div_mod::lemma_div_is_ordered(
            velocity * (FX_ONE as int),
            1280 * (FX_ONE as int),
            1280,
        );
        vstd::arithmetic::div_mod::lemma_div_multiples_vanish(FX_ONE as int, 1280);
        vstd::arithmetic::div_mod::lemma_div_is_ordered(0, velocity * (FX_ONE as int), 1280);
    }
    (((velocity as u64) * (FX_ONE as u64)) / 1280) as i64
}

/// Striking the same key twice without an intervening note-off reuses the
/// same voice-pool slot both times: the second strike allocates nothing —
/// neither a new slot nor a longer pool — it restrikes the voice in place.
pub proof fn lemma_note_on_reuses_voice(
    m0: MidiManagerState,
    m1: MidiManagerState,
    m2: MidiManagerState,
    pitch: u8,
    v1: u8,
    v2: u8,
    wt1: Seq<i64>,
    wt2: Seq<i64>,
)
    requires
        BOTTOM_NOTE <= pitch < BOTTOM_NOTE + NUM_KEYS,
        m0.wf(),
        note_on_rel(m0, m1, pitch, v1, wt1),
        note_on_rel(m1, m2, pitch, v2, wt2),
    ensures
        m1.key_state@[key_ix_of(pitch)] is On,
        m2.key_state@[key_ix_of(pitch)] == m1.key_state@[key_ix_of(pitch)],
        m2.notegen_state@.len() == m1.notegen_state@.len(),
{
    let kix = key_ix_of(pitch);
    assert(m1.key_state@[kix] is On);
}

/// A note-off while the pedal is down parks the key as `Held` on the same
/// voice slot and leaves the whole voice pool untouched: the voice keeps
/// sounding (see `lemma_fold_keeps_hold` for why a held envelope stays `On`
/// through any amount of rendering).
pub proof fn lemma_note_off_pedal_holds(
    m0: MidiManagerState,
    m1: MidiManagerState,
    pitch: u8,
)
    requires
        BOTTOM_NOTE <= pitch < BOTTOM_NOTE + NUM_KEYS,
        m0.wf(),
        m0.pedal,
        ugen_ix_of(m0.key_state@[key_ix_of(pitch)]) is Some,
        note_off_rel(m0, m1, pitch),
    ensures
        m1.key_state@[key_ix_of(pitch)] == (KeyState::Held {
            ugen_ix: ugen_ix_of(m0.key_state@[key_ix_of(pitch)])->0,
        }),
        m1.notegen_state == m0.notegen_state,
{
}

/// Releasing the pedal turns every `Held` key off and moves every voice
/// such a key referenced to a pending release; every other key and voice is
/// untouched.
pub proof fn lemma_pedal_off_releases_all(m0: MidiManagerState, m1: MidiManagerState)
    requires
        m0.wf(),
        pedal_off_rel(m0, m1),
    ensures
        !m1.pedal,
        forall|k: int|
            0 <= k < m0.key_state@.len() && m0.key_state@[k] is Held
                ==> m1.key_state@[k] == KeyState::Off,
        forall|k: int|
            0 <= k < m0.key_state@.len() && !(m0.key_state@[k] is Held)
                ==> m1.key_state@[k] == m0.key_state@[k],
        forall|k: int|
            0 <= k < m0.key_state@.len() ==> match #[trigger] m0.key_state@[k] {
                KeyState::Held { ugen_ix } => released_rel(
                    m0.notegen_state@[ugen_ix as int],
                    m1.notegen_state@[ugen_ix as int],
                ),
                _ => true,
            },
{
    assert forall|k: int|
        0 <= k < m0.key_state@.len() implies match #[trigger] m0.key_state@[k] {
        KeyState::Held { ugen_ix } => released_rel(
            m0.notegen_state@[ugen_ix as int],
            m1.notegen_state@[ugen_ix as int],
        ),
        _ => true,
    } by {
        match m0.key_state@[k] {
            KeyState::Held { ugen_ix } => {
                assert(keyheld_at(m0.key_state@[k], ugen_ix as int));
                assert(held_ix_upto(m0.key_state@, ugen_ix as int, m0.key_state@.len() as int));
            },
            _ => {},
        }
    }
}

} // verus!
