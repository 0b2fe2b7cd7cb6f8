//! Shared data model: per-key states, the hot-swappable control-block store,
//! the audio buses, and the telemetry messages the engine emits.

use vstd::prelude::*;

use crate::allpass::AllpassControlBlock;
use crate::consts::{
    AUDIO_BUS_LENGTH, BOTTOM_NOTE, DEFAULT_DRUM_CONTROL_BLOCK, FREQ_MAX, FX_ONE,
    NUM_CONTROL_BLOCKS, NUM_KEYS,
};
use crate::drum::{is_fresh_drum, DrumControlBlock, DrumSynthState};
use crate::envelope::EnvState;
use crate::fx::fx_in_range;
use crate::gain::GainControlBlock;
use crate::lowpass::LowpassControlBlock;
use crate::midi::Message;
use crate::notegen::{NoteMode, NotegenState};
use crate::reasonable_synth::ReasonableControlBlock;
use crate::reduce::first_none;
use crate::reverb::ReverbControlBlock;
use crate::sequencer::Sequencer;
use crate::ugen::{
    check_ugen_spec, first_group, lemma_first_group_at, ugen_built_ok, ugen_spec_wf, ugen_wf,
    UgenSpec, UgenState, UgensState,
};
use crate::ugen_group::drum_spawn_rel;
use crate::util::SynthError;
use crate::wavetables::Wavetables;

verus! {

/// What the voice manager knows of one physical key: silent, sounding
/// through the voice-pool slot `ugen_ix`, or kept sounding only because the
/// sustain pedal is down.
#[derive(Clone, Copy, Debug, PartialEq, Eq, Structural)]
pub enum KeyState {
    Off,
    On { ugen_ix: usize },
    Held { ugen_ix: usize },
}

/// One hot-swappable parameter record; a ugen holds an index into the store,
/// never the record itself, so a control thread can replace parameters
/// without touching the ugen graph.
#[derive(Debug)]
pub enum ControlBlock {
    Reasonable(ReasonableControlBlock),
    Drum(DrumControlBlock),
    Low(LowpassControlBlock),
    All(AllpassControlBlock),
    Gain(GainControlBlock),
    Reverb(ReverbControlBlock),
}

/// The indexed store of control blocks; empty slots render their readers
/// silent rather than failing.
pub type ControlBlocks = Vec<Option<ControlBlock>>;

/// Ordered list of mono sample buffers, one per logical signal path; all of
/// equal length (the render block size).
pub type AudioBusses = Vec<Vec<i64>>;

/// Telemetry pushed toward the control plane: metering levels and an echo of
/// each consumed MIDI message.
#[derive(Clone, Copy, Debug, PartialEq, Eq, Structural)]
pub enum SynthMessage {
    Midi { msg: Message },
    Meter { level: i64, peak: i64 },
}

/// The bus set has its fixed bus count, every bus the same length, every
/// sample within the fixed-point range.
pub open spec fn busses_wf(b: AudioBusses) -> bool {
    &&& b@.len() == AUDIO_BUS_LENGTH
    &&& forall|i: int| 0 <= i < b@.len() ==> (#[trigger] b@[i])@.len() == b@[0]@.len()
    &&& forall|i: int, j: int|
        0 <= i < b@.len() && 0 <= j < b@[i]@.len() ==> fx_in_range(#[trigger] b@[i]@[j] as int)
}

/// Samples per render block of a bus set.
pub open spec fn block_len(b: AudioBusses) -> int {
    b@[0]@.len() as int
}

/// A fresh bus set: every bus silent, `block` samples long.
pub fn new_busses(block: usize) -> (r: AudioBusses)
    ensures
        busses_wf(r),
        block_len(r) == block,
        forall|i: int, j: int| 0 <= i < r@.len() && 0 <= j < block ==> r@[i]@[j] == 0i64,
{
    let mut r: AudioBusses = Vec::new();
    while r.len() < AUDIO_BUS_LENGTH
        invariant
            r@.len() <= AUDIO_BUS_LENGTH,
            forall|i: int| 0 <= i < r@.len() ==> (#[trigger] r@[i])@.len() == block,
            forall|i: int, j: int|
                0 <= i < r@.len() && 0 <= j < block ==> r@[i]@[j] == 0i64,
        decreases AUDIO_BUS_LENGTH - r.len(),
    {
        r.push(vec![0i64; block]);
    }
    r
}

/// Silence every bus, keeping the shape of the set.
pub fn zero_busses(bus: &mut AudioBusses)
    requires
        busses_wf(*old(bus)),
    ensures
        busses_wf(*final(bus)),
        block_len(*final(bus)) == block_len(*old(bus)),
        forall|i: int, j: int|
            0 <= i < final(bus)@.len() && 0 <= j < block_len(*final(bus))
                ==> final(bus)@[i]@[j] == 0i64,
{
    let ghost block = block_len(*bus);
    let n = bus.len();
    let mut i: usize = 0;
    while i < n
        invariant
            n == bus@.len() == AUDIO_BUS_LENGTH,
            i <= n,
            busses_wf(*bus),
            block_len(*bus) == block,
            forall|a: int, j: int| 0 <= a < i && 0 <= j < block ==> bus@[a]@[j] == 0i64,
        decreases n - i,
    {
        let m = bus[i].len();
        let mut j: usize = 0;
        while j < m
            invariant
                i < bus@.len() == AUDIO_BUS_LENGTH,
                m == bus@[i as int]@.len() == block,
                j <= m,
                busses_wf(*bus),
                block_len(*bus) == block,
                forall|a: int, jj: int| 0 <= a < i && 0 <= jj < block ==> bus@[a]@[jj] == 0i64,
                forall|jj: int| 0 <= jj < j ==> bus@[i as int]@[jj] == 0i64,
            decreases m - j,
        {
            bus[i][j] = 0;
            j += 1;
        }
        i += 1;
    }
}

/// A fresh keyboard voice reading the sine wavetable, ready for the pool.
pub fn new_reasonable_of_tables(
    dst: usize,
    wavetables: &Wavetables,
    freq_hz: i64,
    vel: i64,
    ci: usize,
) -> (r: NotegenState)
    requires
        dst < AUDIO_BUS_LENGTH,
        0 <= freq_hz <= FREQ_MAX,
        0 <= vel <= FX_ONE,
        wavetables.wf(),
        ci < NUM_CONTROL_BLOCKS,
    ensures
        r.wf(),
        r.mode() == NoteMode::Run,
        r.voice().dst() == dst,
        r.voice().freq() == freq_hz,
        r.voice().phase() == 0,
        r.voice().env() == (EnvState::On { t_ns: 0, amp: 0, vel, hold: true }),
        r.voice().table() == wavetables.sin_wavetable@,
        r.voice().ci_ix() == ci,
{
    let table = wavetables.sin_wavetable.clone();
    proof {
        assert(table@ =~= wavetables.sin_wavetable@);
    }
    NotegenState::new(dst, freq_hz, vel, table, ci)
}

/// The slot of `key_state` that tracks MIDI pitch `pitch`.
///
/// The caller must hand a pitch within the physical key range; anything else
/// is a programming error upstream, not a recoverable condition.
pub fn get_key_state_mut(key_state: &mut Vec<KeyState>, pitch: usize) -> (r: &mut KeyState)
    requires
        old(key_state)@.len() == NUM_KEYS,
        BOTTOM_NOTE <= pitch < BOTTOM_NOTE as usize + NUM_KEYS,
    ensures
        *r == old(key_state)@[pitch - BOTTOM_NOTE as usize],
        final(key_state)@ == old(key_state)@.update(
            pitch - BOTTOM_NOTE as usize,
            *final(r),
        ),
{
    &mut key_state[pitch - (BOTTOM_NOTE as usize)]
}


/// A request from the control plane.
#[derive(Debug)]
pub enum WebMessage {
    Quit,
    Drum,
    SetControlBlock { index: usize, ctl: ControlBlock },
    SetSequencer { inst: usize, pat: usize, on: bool },
    Reconfigure { specs: Vec<UgenSpec> },
}

/// The process-wide engine state: buses, the fixed ugen list, the
/// control-block store, the sequencer grid, the outgoing telemetry queue and
/// the shutdown flag.  One exclusive lock around a value of this type
/// serializes every thread's access.
pub struct State {
    /// Cooperative-shutdown flag, checked once per loop by every thread.
    pub going: bool,
    pub audio_bus: AudioBusses,
    /// Telemetry queued for the control plane; the owner of the transport
    /// drains it after each block and must never block the render thread.
    pub outbox: Vec<SynthMessage>,
    /// Whether a telemetry subscriber is attached; MIDI echoes are queued
    /// only then.
    pub subscribed: bool,
    pub fixed_ugens: UgensState,
    pub write_to_file: bool,
    pub control_blocks: ControlBlocks,
    pub wavetables: Wavetables,
    pub sequencer: Sequencer,
}

impl State {
    /// Buses, ugens, control blocks, tables and grid all well formed.
    pub open spec fn wf(self) -> bool {
        &&& busses_wf(self.audio_bus)
        &&& self.control_blocks@.len() == NUM_CONTROL_BLOCKS
        &&& forall|i: int|
            0 <= i < self.fixed_ugens@.len() ==> ugen_wf(#[trigger] self.fixed_ugens@[i])
        &&& self.wavetables.wf()
        &&& self.sequencer.wf()
    }

    /// A fresh engine state: silent buses of `buf_size` samples, an empty
    /// ugen list, all control-block slots empty, an empty pattern.
    pub fn new(buf_size: usize) -> (r: State)
        ensures
            r.wf(),
            r.going == true,
            r.fixed_ugens@.len() == 0,
            block_len(r.audio_bus) == buf_size,
            r.outbox@.len() == 0,
            r.subscribed == false,
            forall|i: int| 0 <= i < NUM_CONTROL_BLOCKS ==> r.control_blocks@[i] is None,
    {
        let mut control_blocks: ControlBlocks = Vec::new();
        while control_blocks.len() < NUM_CONTROL_BLOCKS
            invariant
                control_blocks@.len() <= NUM_CONTROL_BLOCKS,
                forall|i: int| 0 <= i < control_blocks@.len() ==> control_blocks@[i] is None,
            decreases NUM_CONTROL_BLOCKS - control_blocks.len(),
        {
            control_blocks.push(None);
        }
        State {
            going: true,
            sequencer: Sequencer::new(),
            fixed_ugens: Vec::new(),
            control_blocks,
            write_to_file: true,
            wavetables: Wavetables::new(),
            audio_bus: new_busses(buf_size),
            outbox: Vec::new(),
            subscribed: false,
        }
    }

    /// A transient drum on this state's noise table, as a graph node.
    pub fn new_drum(&self, ctl: usize) -> (r: UgenState)
        requires
            self.wf(),
            ctl < NUM_CONTROL_BLOCKS,
        ensures
            ugen_wf(r),
            r matches UgenState::DrumSynth(d) && is_fresh_drum(
                d,
                self.wavetables.noise_wavetable@,
                ctl as int,
            ),
    {
        crate::sequencer::new_drum(&self.wavetables, ctl)
    }
}

/// How adding one transient drum relates the fixed ugen list to its
/// successor: the drum landed first-fit in the first group's pool, every
/// other ugen is untouched; a list without a group is unchanged (the graph
/// has nowhere to play the drum).
pub open spec fn drum_added_ok(
    pre_ugens: Seq<UgenState>,
    post_ugens: Seq<UgenState>,
    drum: DrumSynthState,
) -> bool {
    let fg = first_group(pre_ugens);
    if fg < pre_ugens.len() {
        &&& post_ugens.len() == pre_ugens.len()
        &&& forall|i: int| 0 <= i < pre_ugens.len() && i != fg ==> post_ugens[i] == pre_ugens[i]
        &&& match (pre_ugens[fg], post_ugens[fg]) {
            (UgenState::UgenGroup(g0), UgenState::UgenGroup(g1)) => {
                let ix = first_none(g0.pool());
                &&& g1.dst() == g0.dst()
                &&& g1.pool().len() == (if ix < g0.pool().len() {
                    g0.pool().len() as int
                } else {
                    g0.pool().len() + 1int
                })
                &&& forall|j: int|
                    0 <= j < g0.pool().len() && j != ix ==> g1.pool()[j] == g0.pool()[j]
                &&& g1.pool()[ix] == Some(drum)
                &&& (ix < g0.pool().len() ==> g0.pool()[ix] is None)
            },
            _ => false,
        }
    } else {
        post_ugens == pre_ugens
    }
}

/// How a drum request relates the fixed ugen list to its successor: one
/// fresh drum on the noise table, reading the conventional drum slot, landed
/// first-fit in the first group's pool; without a group nothing changes.
pub open spec fn drum_requested_ok(
    pre_ugens: Seq<UgenState>,
    post_ugens: Seq<UgenState>,
    noise: Seq<i64>,
) -> bool {
    let fg = first_group(pre_ugens);
    if fg < pre_ugens.len() {
        &&& post_ugens.len() == pre_ugens.len()
        &&& forall|i: int| 0 <= i < pre_ugens.len() && i != fg ==> post_ugens[i] == pre_ugens[i]
        &&& match (pre_ugens[fg], post_ugens[fg]) {
            (UgenState::UgenGroup(g0), UgenState::UgenGroup(g1)) => {
                &&& g1.dst() == g0.dst()
                &&& drum_spawn_rel(
                    g0.pool(),
                    g1.pool(),
                    true,
                    noise,
                    DEFAULT_DRUM_CONTROL_BLOCK as int,
                )
            },
            _ => false,
        }
    } else {
        post_ugens == pre_ugens
    }
}

/// Add a transient drum first-fit into the first ugen group of the fixed
/// list; with no group wired, nothing changes (the graph has nowhere to play
/// the drum).
pub fn add_drum_to_group(ugens: &mut Vec<UgenState>, drum: DrumSynthState)
    requires
        forall|i: int| 0 <= i < old(ugens)@.len() ==> ugen_wf(#[trigger] old(ugens)@[i]),
        drum.wf(),
        drum.dst() == crate::consts::BUS_DRY,
    ensures
        final(ugens)@.len() == old(ugens)@.len(),
        forall|i: int| 0 <= i < final(ugens)@.len() ==> ugen_wf(#[trigger] final(ugens)@[i]),
        drum_added_ok(old(ugens)@, final(ugens)@, drum),
{
    let nu = ugens.len();
    let mut i: usize = 0;
    while i < nu
        invariant
            forall|k: int| 0 <= k < old(ugens)@.len() ==> ugen_wf(#[trigger] old(ugens)@[k]),
            drum.wf(),
            drum.dst() == crate::consts::BUS_DRY,
            nu == ugens@.len(),
            *ugens == *old(ugens),
            i <= nu,
            forall|k: int| 0 <= k < i ==> !((#[trigger] ugens@[k]) is UgenGroup),
        decreases nu - i,
    {
        let is_group = match &ugens[i] {
            UgenState::UgenGroup(_) => true,
            _ => false,
        };
        if is_group {
            proof {
                lemma_first_group_at(ugens@, i as int);
            }
            let mut slot = UgenState::Gain(crate::gain::GainState::new(0, 0, 0));
            core::mem::swap(&mut slot, &mut ugens[i]);
            match slot {
                UgenState::UgenGroup(mut group) => {
                    let ghost g0 = group;
                    group.add(drum);
                    let ghost g1 = group;
                    ugens[i] = UgenState::UgenGroup(group);
                    proof {
                        assert(old(ugens)@[i as int] == UgenState::UgenGroup(g0));
                        assert(ugens@ =~= old(ugens)@.update(
                            i as int,
                            UgenState::UgenGroup(g1),
                        ));
                        assert(drum_added_ok(old(ugens)@, ugens@, drum));
                    }
                    return ;
                },
                _ => {
                    proof {
                        assert(false);
                    }
                },
            }
        }
        i += 1;
    }
    proof {
        lemma_first_group_at(ugens@, nu as int);
    }
}

/// Apply one control-plane request to the engine state.  Out-of-range
/// indices — a control-block slot beyond the store, a sequencer cell off the
/// grid, a reconfiguration wiring a bus or slot that does not exist — are
/// input errors and leave the state untouched.
pub fn reduce_web_message(m: WebMessage, s: &mut State) -> (r: Result<(), SynthError>)
    requires
        old(s).wf(),
    ensures
        final(s).wf(),
        match m {
            WebMessage::Quit => {
                &&& r == Ok::<(), SynthError>(())
                &&& final(s).going == false
                &&& final(s).control_blocks == old(s).control_blocks
                &&& final(s).sequencer == old(s).sequencer
                &&& final(s).fixed_ugens@.len() == old(s).fixed_ugens@.len()
            },
            WebMessage::Drum => {
                &&& r == Ok::<(), SynthError>(())
                &&& final(s).going == old(s).going
                &&& final(s).control_blocks == old(s).control_blocks
                &&& final(s).sequencer == old(s).sequencer
                &&& final(s).fixed_ugens@.len() == old(s).fixed_ugens@.len()
                &&& drum_requested_ok(
                    old(s).fixed_ugens@,
                    final(s).fixed_ugens@,
                    old(s).wavetables.noise_wavetable@,
                )
            },
            WebMessage::SetControlBlock { index, ctl } => {
                if index < NUM_CONTROL_BLOCKS {
                    &&& r == Ok::<(), SynthError>(())
                    &&& final(s).control_blocks@ == old(s).control_blocks@.update(
                        index as int,
                        Some(ctl),
                    )
                    &&& final(s).going == old(s).going
                    &&& final(s).sequencer == old(s).sequencer
                    &&& final(s).fixed_ugens == old(s).fixed_ugens
                } else {
                    &&& r == Err::<(), SynthError>(SynthError::BadIndex)
                    &&& *final(s) == *old(s)
                }
            },
            WebMessage::SetSequencer { inst, pat, on } => {
                if inst < crate::consts::SEQ_NUM_INSTRS && pat < crate::consts::SEQ_PATTERN_LEN {
                    &&& r == Ok::<(), SynthError>(())
                    &&& final(s).sequencer.cell(inst as int, pat as int) == on
                    &&& final(s).going == old(s).going
                    &&& final(s).control_blocks == old(s).control_blocks
                    &&& final(s).fixed_ugens@.len() == old(s).fixed_ugens@.len()
                } else {
                    r == Err::<(), SynthError>(SynthError::BadIndex) && final(s).sequencer == old(
                        s,
                    ).sequencer
                }
            },
            WebMessage::Reconfigure { specs } => {
                &&& final(s).going == old(s).going
                &&& final(s).control_blocks == old(s).control_blocks
                &&& final(s).sequencer == old(s).sequencer
                &&& (r is Ok <==> (forall|k: int|
                    0 <= k < specs@.len() ==> ugen_spec_wf(#[trigger] specs@[k])))
                &&& if r is Ok {
                    &&& final(s).fixed_ugens@.len() == specs@.len()
                    &&& forall|k: int|
                        0 <= k < specs@.len() ==> ugen_built_ok(
                            specs@[k],
                            #[trigger] final(s).fixed_ugens@[k],
                        )
                } else {
                    final(s).fixed_ugens == old(s).fixed_ugens
                }
            },
        },
{
    match m {
        WebMessage::Quit => {
            s.going = false;
            Ok(())
        },
        WebMessage::Drum => {
            let drum = crate::sequencer::new_drum_state(
                &s.wavetables,
                DEFAULT_DRUM_CONTROL_BLOCK,
            );
            add_drum_to_group(&mut s.fixed_ugens, drum);
            proof {
                assert(drum_requested_ok(
                    old(s).fixed_ugens@,
                    s.fixed_ugens@,
                    old(s).wavetables.noise_wavetable@,
                ));
            }
            Ok(())
        },
        WebMessage::SetControlBlock { index, ctl } => {
            if index < s.control_blocks.len() {
                s.control_blocks[index] = Some(ctl);
                Ok(())
            } else {
                Err(SynthError::BadIndex)
            }
        },
        WebMessage::SetSequencer { inst, pat, on } => s.sequencer.try_set(inst, pat, on),
        WebMessage::Reconfigure { specs } => {
            let ns = specs.len();
            let mut i: usize = 0;
            while i < ns
                invariant
                    m matches WebMessage::Reconfigure { specs: msp } && msp == specs,
                    old(s).wf(),
                    *s == *old(s),
                    ns == specs@.len(),
                    i <= ns,
                    forall|k: int| 0 <= k < i ==> ugen_spec_wf(#[trigger] specs@[k]),
                decreases ns - i,
            {
                if !check_ugen_spec(&specs[i]) {
                    proof {
                        assert(!ugen_spec_wf(specs@[i as int]));
                    }
                    return Err(SynthError::BadIndex);
                }
                i += 1;
            }
            let mut new_ugens: UgensState = Vec::new();
            let mut k: usize = 0;
            while k < ns
                invariant
                    m matches WebMessage::Reconfigure { specs: msp } && msp == specs,
                    old(s).wf(),
                    *s == *old(s),
                    ns == specs@.len(),
                    k <= ns,
                    new_ugens@.len() == k,
                    forall|t: int| 0 <= t < ns ==> ugen_spec_wf(#[trigger] specs@[t]),
                    forall|t: int| 0 <= t < new_ugens@.len() ==> ugen_wf(#[trigger] new_ugens@[t]),
                    forall|t: int|
                        0 <= t < new_ugens@.len() ==> ugen_built_ok(
                            specs@[t],
                            #[trigger] new_ugens@[t],
                        ),
                decreases ns - k,
            {
                new_ugens.push(UgenState::new(specs[k]));
                k += 1;
            }
            s.fixed_ugens = new_ugens;
            Ok(())
        },
    }
}

/// The least index of a MIDI manager in the fixed ugen list, or its length
/// when there is none.
pub open spec fn first_manager(ugens: Seq<UgenState>) -> int
    decreases ugens.len(),
{
    if ugens.len() == 0 {
        0
    } else if ugens[0] is MidiManager {
        0
    } else {
        1 + first_manager(ugens.drop_first())
    }
}

/// Route one MIDI message: queue its echo for a subscribed control plane,
/// then apply it to the first MIDI manager of the fixed list.  A graph wired
/// without a manager cannot accept note events.
pub fn midi_reducer(msg: &Message, s: &mut State) -> (r: Result<(), SynthError>)
    requires
        old(s).wf(),
        crate::reduce::pitch_on_keyboard(*msg),
        ({
            let fm = first_manager(old(s).fixed_ugens@);
            fm < old(s).fixed_ugens@.len() ==> match old(s).fixed_ugens@[fm] {
                UgenState::MidiManager(m) => crate::reduce::note_on_target_live(m, *msg),
                _ => true,
            }
        }),
    ensures
        final(s).wf(),
        final(s).going == old(s).going,
        final(s).sequencer == old(s).sequencer,
        final(s).control_blocks == old(s).control_blocks,
        final(s).fixed_ugens@.len() == old(s).fixed_ugens@.len(),
        final(s).outbox@ == (if old(s).subscribed {
            old(s).outbox@.push(SynthMessage::Midi { msg: *msg })
        } else {
            old(s).outbox@
        }),
        ({
            let fm = first_manager(old(s).fixed_ugens@);
            if fm < old(s).fixed_ugens@.len() {
                &&& r == Ok::<(), SynthError>(())
                &&& forall|i: int|
                    0 <= i < old(s).fixed_ugens@.len() && i != fm ==> final(s).fixed_ugens@[i]
                        == old(s).fixed_ugens@[i]
                &&& match (old(s).fixed_ugens@[fm], final(s).fixed_ugens@[fm]) {
                    (UgenState::MidiManager(m0), UgenState::MidiManager(m1)) => match *msg {
                        Message::NoteOn { pitch, velocity, .. } => crate::reduce::note_on_rel(
                            m0,
                            m1,
                            pitch,
                            velocity,
                            old(s).wavetables.sin_wavetable@,
                        ),
                        Message::NoteOff { pitch, .. } => crate::reduce::note_off_rel(
                            m0,
                            m1,
                            pitch,
                        ),
                        Message::PedalOn => crate::reduce::pedal_on_rel(m0, m1),
                        Message::PedalOff => crate::reduce::pedal_off_rel(m0, m1),
                    },
                    _ => false,
                }
            } else {
                r == Err::<(), SynthError>(SynthError::NoMidiManager) && final(s).fixed_ugens
                    == old(s).fixed_ugens
            }
        }),
{
    if s.subscribed {
        s.outbox.push(SynthMessage::Midi { msg: *msg });
    }
    let nu = s.fixed_ugens.len();
    let mut i: usize = 0;
    while i < nu
        invariant
            old(s).wf(),
            crate::reduce::pitch_on_keyboard(*msg),
            ({
                let fm = first_manager(old(s).fixed_ugens@);
                fm < old(s).fixed_ugens@.len() ==> match old(s).fixed_ugens@[fm] {
                    UgenState::MidiManager(m) => crate::reduce::note_on_target_live(m, *msg),
                    _ => true,
                }
            }),
            s.wf(),
            s.going == old(s).going,
            s.sequencer == old(s).sequencer,
            s.control_blocks == old(s).control_blocks,
            s.wavetables == old(s).wavetables,
            s.fixed_ugens == old(s).fixed_ugens,
            s.outbox@ == (if old(s).subscribed {
                old(s).outbox@.push(SynthMessage::Midi { msg: *msg })
            } else {
                old(s).outbox@
            }),
            nu == s.fixed_ugens@.len(),
            i <= nu,
            forall|k: int| 0 <= k < i ==> !((#[trigger] s.fixed_ugens@[k]) is MidiManager),
        decreases nu - i,
    {
        let is_manager = match &s.fixed_ugens[i] {
            UgenState::MidiManager(_) => true,
            _ => false,
        };
        if is_manager {
            proof {
                lemma_first_manager_at(s.fixed_ugens@, i as int);
            }
            let mut slot = UgenState::Gain(crate::gain::GainState::new(0, 0, 0));
            core::mem::swap(&mut slot, &mut s.fixed_ugens[i]);
            match slot {
                UgenState::MidiManager(mut m) => {
                    let res = crate::reduce::midi_reducer_inner(msg, &s.wavetables, &mut m);
                    s.fixed_ugens[i] = UgenState::MidiManager(m);
                    proof {
                        assert(s.fixed_ugens@ =~= old(s).fixed_ugens@.update(
                            i as int,
                            s.fixed_ugens@[i as int],
                        ));
                    }
                    return res;
                },
                _ => {
                    proof {
                        assert(false);
                    }
                },
            }
        }
        i += 1;
    }
    proof {
        lemma_first_manager_at(s.fixed_ugens@, nu as int);
    }
    Err(SynthError::NoMidiManager)
}

/// The first manager is exactly the least `MidiManager` entry.
pub proof fn lemma_first_manager_at(ugens: Seq<UgenState>, i: int)
    requires
        0 <= i <= ugens.len(),
        forall|k: int| 0 <= k < i ==> !((#[trigger] ugens[k]) is MidiManager),
        i == ugens.len() || ugens[i] is MidiManager,
    ensures
        first_manager(ugens) == i,
    decreases i,
{
    if i == 0 {
    } else {
        lemma_first_manager_at(ugens.drop_first(), i - 1);
    }
}

} // verus!
