//! The closed set of unit generators and their block dispatch.
//!
//! The render loop owns a fixed, ordered list of these; dispatch is a plain
//! `match` over the variants, so the real-time path needs no allocation and
//! no virtual calls.

use vstd::prelude::*;

use crate::allpass::{allpass_sample_ok, delay_tap_offset, AllpassState, ALLPASS_HISTORY};
use crate::consts::{AUDIO_BUS_LENGTH, BUS_DRY, NUM_CONTROL_BLOCKS, TICK_MAX};
use crate::drum::{drum_run_rel, DrumSynthState};
use crate::fx::{clamp_fx, fx_mul_spec};
use crate::gain::GainState;
use crate::lowpass::{lowpass_run_rel, LowpassState, LOWPASS_CONTROL_BLOCK};
use crate::meter::MeterState;
use crate::midi_manager::MidiManagerState;
use crate::notegen::notegen_pool_rel;
use crate::reasonable_synth::{reasonable_run_rel, ReasonableSynthState};
use crate::reverb::{reverb_run_rel, ReverbState, REVERB_CONTROL_BLOCK};
use crate::state::{block_len, busses_wf, AudioBusses, ControlBlock, ControlBlocks, SynthMessage};
use crate::ugen_group::{drum_pool_rel, UgenGroupState};

verus! {

/// The wiring of one ugen in a graph reconfiguration: which buses it reads
/// and writes and which control-block slot it follows.
#[derive(Clone, Copy, Debug, PartialEq, Eq, Structural)]
pub enum UgenSpec {
    LowPass { src: usize, dst: usize, ci: usize },
    AllPass { src: usize, dst: usize, ci: usize },
    MidiManager { dst: usize, ci: usize },
    UgenGroup { dst: usize },
    Meter { src: usize },
    Gain { src: usize, dst: usize, ci: usize },
    Reverb { src: usize, dst: usize, ci: usize },
}

/// Every index of a wiring spec lies within the fixed layout.
pub open spec fn ugen_spec_wf(spec: UgenSpec) -> bool {
    match spec {
        UgenSpec::LowPass { src, dst, ci } => src < AUDIO_BUS_LENGTH && dst < AUDIO_BUS_LENGTH
            && ci < NUM_CONTROL_BLOCKS,
        UgenSpec::AllPass { src, dst, ci } => src < AUDIO_BUS_LENGTH && dst < AUDIO_BUS_LENGTH
            && ci < NUM_CONTROL_BLOCKS,
        UgenSpec::MidiManager { dst, ci } => dst < AUDIO_BUS_LENGTH && ci < NUM_CONTROL_BLOCKS,
        UgenSpec::UgenGroup { dst } => dst < AUDIO_BUS_LENGTH,
        UgenSpec::Meter { src } => src < AUDIO_BUS_LENGTH,
        UgenSpec::Gain { src, dst, ci } => src < AUDIO_BUS_LENGTH && dst < AUDIO_BUS_LENGTH && ci
            < NUM_CONTROL_BLOCKS,
        UgenSpec::Reverb { src, dst, ci } => src < AUDIO_BUS_LENGTH && dst < AUDIO_BUS_LENGTH && ci
            < NUM_CONTROL_BLOCKS,
    }
}

/// Check a wiring spec's indices, as executable code.
pub fn check_ugen_spec(spec: &UgenSpec) -> (ok: bool)
    ensures
        ok == ugen_spec_wf(*spec),
{
    match *spec {
        UgenSpec::LowPass { src, dst, ci } => src < AUDIO_BUS_LENGTH && dst < AUDIO_BUS_LENGTH
            && ci < NUM_CONTROL_BLOCKS,
        UgenSpec::AllPass { src, dst, ci } => src < AUDIO_BUS_LENGTH && dst < AUDIO_BUS_LENGTH
            && ci < NUM_CONTROL_BLOCKS,
        UgenSpec::MidiManager { dst, ci } => dst < AUDIO_BUS_LENGTH && ci < NUM_CONTROL_BLOCKS,
        UgenSpec::UgenGroup { dst } => dst < AUDIO_BUS_LENGTH,
        UgenSpec::Meter { src } => src < AUDIO_BUS_LENGTH,
        UgenSpec::Gain { src, dst, ci } => src < AUDIO_BUS_LENGTH && dst < AUDIO_BUS_LENGTH && ci
            < NUM_CONTROL_BLOCKS,
        UgenSpec::Reverb { src, dst, ci } => src < AUDIO_BUS_LENGTH && dst < AUDIO_BUS_LENGTH && ci
            < NUM_CONTROL_BLOCKS,
    }
}

/// One node of the synthesis graph.
pub enum UgenState {
    DrumSynth(DrumSynthState),
    Lowpass(LowpassState),
    Allpass(AllpassState),
    MidiManager(MidiManagerState),
    UgenGroup(UgenGroupState),
    Meter(MeterState),
    Gain(GainState),
    ReasonableSynth(ReasonableSynthState),
    Reverb(ReverbState),
}

/// A ugen is well formed when its concrete state is.
pub open spec fn ugen_wf(u: UgenState) -> bool {
    match u {
        UgenState::DrumSynth(s) => s.wf(),
        UgenState::Lowpass(s) => s.wf(),
        UgenState::Allpass(s) => s.wf(),
        UgenState::MidiManager(s) => s.wf(),
        UgenState::UgenGroup(s) => s.wf(),
        UgenState::Meter(s) => s.wf(),
        UgenState::Gain(s) => s.wf(),
        UgenState::ReasonableSynth(s) => s.wf(),
        UgenState::Reverb(s) => s.wf(),
    }
}

/// How one render block relates a ugen to its successor: the variant is
/// preserved and the variant's own block relation holds of the payloads.
pub open spec fn ugen_run_rel(
    pre: UgenState,
    post: UgenState,
    bus_pre: AudioBusses,
    bus_post: AudioBusses,
    outbox_pre: Seq<SynthMessage>,
    outbox_post: Seq<SynthMessage>,
    tick: int,
    ctl: Seq<Option<ControlBlock>>,
    r: bool,
) -> bool {
    match pre {
        UgenState::DrumSynth(s0) => {
            &&& post matches UgenState::DrumSynth(s1)
            &&& outbox_post == outbox_pre
            &&& match ctl[s0.ci()] {
                Some(ControlBlock::Drum(cb)) => drum_run_rel(s0, s1, bus_pre, bus_post, tick, cb, r),
                _ => r && bus_post@ == bus_pre@ && s1 == s0,
            }
        },
        UgenState::Lowpass(s0) => {
            &&& post matches UgenState::Lowpass(s1)
            &&& outbox_post == outbox_pre
            &&& match ctl[LOWPASS_CONTROL_BLOCK as int] {
                Some(ControlBlock::Low(cb)) => lowpass_run_rel(
                    s0,
                    s1,
                    bus_pre,
                    bus_post,
                    cb.taps@,
                    r,
                ),
                _ => r && bus_post@ == bus_pre@ && s1 == s0,
            }
        },
        UgenState::Allpass(s0) => {
            &&& post matches UgenState::Allpass(s1)
            &&& outbox_post == outbox_pre
            &&& match ctl[s0.ctl()] {
                Some(ControlBlock::All(cb)) => {
                    &&& r == true
                    &&& s1.src() == s0.src() && s1.dst() == s0.dst() && s1.ctl() == s0.ctl()
                    &&& forall|i: int|
                        0 <= i < bus_pre@.len() && i != s0.dst() ==> bus_post@[i] == bus_pre@[i]
                    &&& s1.hist().len() == s0.hist().len() + block_len(bus_pre)
                    &&& forall|j: int|
                        0 <= j < block_len(bus_pre) ==> allpass_sample_ok(
                            s1.hist(),
                            bus_pre@[s0.src()]@,
                            bus_post@[s0.dst()]@,
                            s0.hist().len() as int,
                            clamp_fx(cb.gain as int),
                            delay_tap_offset(cb.delay as int, ALLPASS_HISTORY as int),
                            cb.naive,
                            j,
                        )
                },
                _ => r && bus_post@ == bus_pre@ && s1 == s0,
            }
        },
        UgenState::MidiManager(s0) => {
            &&& post matches UgenState::MidiManager(s1)
            &&& outbox_post == outbox_pre
            &&& r == true
            &&& s1.dst == s0.dst && s1.ci == s0.ci && s1.pedal == s0.pedal && s1.key_state
                == s0.key_state
            &&& s1.notegen_state@.len() == s0.notegen_state@.len()
            &&& forall|i: int|
                0 <= i < bus_pre@.len() && i != s0.dst ==> bus_post@[i] == bus_pre@[i]
            &&& forall|ix: int|
                0 <= ix < s0.notegen_state@.len() ==> match s0.notegen_state@[ix] {
                    None => s1.notegen_state@[ix] is None,
                    Some(ng) => notegen_pool_rel(
                        ng,
                        #[trigger] s1.notegen_state@[ix],
                        ctl,
                        tick,
                        block_len(bus_pre),
                    ),
                }
        },
        UgenState::UgenGroup(s0) => {
            &&& post matches UgenState::UgenGroup(s1)
            &&& outbox_post == outbox_pre
            &&& r == true
            &&& s1.dst() == s0.dst()
            &&& s1.pool().len() == s0.pool().len()
            &&& forall|i: int|
                0 <= i < bus_pre@.len() && i != BUS_DRY ==> bus_post@[i] == bus_pre@[i]
            &&& forall|ix: int|
                0 <= ix < s0.pool().len() ==> match s0.pool()[ix] {
                    None => s1.pool()[ix] is None,
                    Some(d) => drum_pool_rel(
                        d,
                        #[trigger] s1.pool()[ix],
                        ctl,
                        tick,
                        block_len(bus_pre),
                    ),
                }
        },
        UgenState::Meter(s0) => {
            &&& post matches UgenState::Meter(s1)
            &&& r == true
            &&& bus_post == bus_pre
            &&& s1.src() == s0.src()
            &&& s1.hist().len() == s0.hist().len() + block_len(bus_pre)
            &&& outbox_pre.is_prefix_of(outbox_post)
            &&& forall|m: int|
                outbox_pre.len() <= m < outbox_post.len() ==> (#[trigger] outbox_post[m]) is Meter
        },
        UgenState::Gain(s0) => {
            &&& post matches UgenState::Gain(s1)
            &&& outbox_post == outbox_pre
            &&& s1 == s0
            &&& match ctl[s0.ci()] {
                Some(ControlBlock::Gain(g)) => {
                    &&& r == true
                    &&& forall|i: int|
                        0 <= i < bus_pre@.len() && i != s0.dst() ==> bus_post@[i] == bus_pre@[i]
                    &&& forall|j: int|
                        0 <= j < block_len(bus_pre) ==> bus_post@[s0.dst()]@[j] as int
                            == fx_mul_spec(bus_pre@[s0.src()]@[j] as int, clamp_fx(g.scale as int))
                },
                _ => r && bus_post@ == bus_pre@,
            }
        },
        UgenState::ReasonableSynth(s0) => {
            &&& post matches UgenState::ReasonableSynth(s1)
            &&& outbox_post == outbox_pre
            &&& match ctl[s0.ci_ix()] {
                Some(ControlBlock::Reasonable(cb)) => reasonable_run_rel(
                    s0,
                    s1,
                    bus_pre,
                    bus_post,
                    tick,
                    cb.adsr,
                    r,
                ),
                _ => r && bus_post@ == bus_pre@ && s1 == s0,
            }
        },
        UgenState::Reverb(s0) => {
            &&& post matches UgenState::Reverb(s1)
            &&& outbox_post == outbox_pre
            &&& match ctl[REVERB_CONTROL_BLOCK as int] {
                Some(ControlBlock::Reverb(cb)) => reverb_run_rel(s0, s1, bus_pre, bus_post, cb, r),
                _ => r && bus_post@ == bus_pre@ && s1 == s0,
            }
        },
    }
}

/// The ugen a wiring spec builds: the variant matching the spec's kind,
/// wired with exactly the spec's indices, its per-instance state fresh
/// (cursor at zero, histories empty, no voices).  Lowpass and reverb stages
/// follow their fixed control-block slots, so those specs' `ci` is not part
/// of the built state.
pub open spec fn ugen_built_ok(spec: UgenSpec, u: UgenState) -> bool {
    match spec {
        UgenSpec::LowPass { src, dst, ci: _ } => {
            &&& u matches UgenState::Lowpass(s)
            &&& s.src() == src
            &&& s.dst() == dst
            &&& s.input_hist() == Seq::<i64>::empty()
            &&& s.rec_hist() == Seq::<i64>::empty()
        },
        UgenSpec::AllPass { src, dst, ci } => {
            &&& u matches UgenState::Allpass(s)
            &&& s.src() == src
            &&& s.dst() == dst
            &&& s.ctl() == ci
            &&& s.hist() == Seq::<i64>::empty()
        },
        UgenSpec::MidiManager { dst, ci } => {
            &&& u matches UgenState::MidiManager(m)
            &&& m.dst == dst
            &&& m.ci == ci
            &&& m.pedal == false
            &&& m.key_state@.len() == crate::consts::NUM_KEYS
            &&& forall|k: int|
                0 <= k < crate::consts::NUM_KEYS ==> m.key_state@[k]
                    == crate::state::KeyState::Off
            &&& m.notegen_state@.len() == 0
        },
        UgenSpec::UgenGroup { dst } => {
            &&& u matches UgenState::UgenGroup(g)
            &&& g.dst() == dst
            &&& g.pool().len() == 0
        },
        UgenSpec::Meter { src } => {
            &&& u matches UgenState::Meter(s)
            &&& s.src() == src
            &&& s.hist() == Seq::<i64>::empty()
            &&& s.peak() == 0
            &&& s.max_rms() == 0
            &&& s.count() == 0
        },
        UgenSpec::Gain { src, dst, ci } => {
            &&& u matches UgenState::Gain(s)
            &&& s.src() == src
            &&& s.dst() == dst
            &&& s.ci() == ci
        },
        UgenSpec::Reverb { src, dst, ci: _ } => {
            &&& u matches UgenState::Reverb(s)
            &&& s.src() == src
            &&& s.dst() == dst
            &&& s.comb_a_hist() == Seq::<i64>::empty()
            &&& s.comb_b_hist() == Seq::<i64>::empty()
            &&& s.comb_c_hist() == Seq::<i64>::empty()
            &&& s.diffuser_hist() == Seq::<i64>::empty()
        },
    }
}

impl UgenState {
    /// Build a ugen from its wiring spec: the matching variant, wired with
    /// the spec's indices, its per-instance state fresh.
    pub fn new(spec: UgenSpec) -> (r: UgenState)
        requires
            ugen_spec_wf(spec),
        ensures
            ugen_wf(r),
            ugen_built_ok(spec, r),
    {
        match spec {
            UgenSpec::LowPass { src, dst, ci: _ } => UgenState::Lowpass(LowpassState::new(src, dst)),
            UgenSpec::AllPass { src, dst, ci } => UgenState::Allpass(AllpassState::new(src, dst, ci)),
            UgenSpec::MidiManager { dst, ci } => UgenState::MidiManager(
                MidiManagerState::new(dst, ci),
            ),
            UgenSpec::UgenGroup { dst } => UgenState::UgenGroup(UgenGroupState::new(dst)),
            UgenSpec::Meter { src } => UgenState::Meter(MeterState::new(src)),
            UgenSpec::Gain { src, dst, ci } => UgenState::Gain(GainState::new(src, dst, ci)),
            UgenSpec::Reverb { src, dst, ci: _ } => UgenState::Reverb(ReverbState::new(src, dst)),
        }
    }

    /// One render block: dispatch to the concrete ugen.  The return value
    /// asks the owner of a transient ugen to free its slot; for fixed ugens
    /// it is ignored.
    pub fn run(
        &mut self,
        bus: &mut AudioBusses,
        outbox: &mut Vec<SynthMessage>,
        tick_ns: i64,
        ctl: &ControlBlocks,
    ) -> (r: bool)
        requires
            ugen_wf(*old(self)),
            busses_wf(*old(bus)),
            0 < tick_ns <= TICK_MAX,
            ctl@.len() == NUM_CONTROL_BLOCKS,
        ensures
            ugen_wf(*final(self)),
            busses_wf(*final(bus)),
            final(bus)@.len() == old(bus)@.len(),
            block_len(*final(bus)) == block_len(*old(bus)),
            ugen_run_rel(
                *old(self),
                *final(self),
                *old(bus),
                *final(bus),
                old(outbox)@,
                final(outbox)@,
                tick_ns as int,
                ctl@,
                r,
            ),
    {
        match self {
            UgenState::DrumSynth(s) => s.run(bus, tick_ns, ctl),
            UgenState::Lowpass(s) => s.run(bus, ctl),
            UgenState::Allpass(s) => s.run(bus, ctl),
            UgenState::MidiManager(s) => s.run(bus, tick_ns, ctl),
            UgenState::UgenGroup(s) => s.run(bus, tick_ns, ctl),
            UgenState::Meter(s) => s.run(bus, outbox),
            UgenState::Gain(s) => s.run(bus, ctl),
            UgenState::ReasonableSynth(s) => s.run(bus, tick_ns, ctl),
            UgenState::Reverb(s) => s.run(bus, ctl),
        }
    }
}

/// The least index of a ugen group in the fixed list, or its length when
/// there is none.
pub open spec fn first_group(ugens: Seq<UgenState>) -> int
    decreases ugens.len(),
{
    if ugens.len() == 0 {
        0
    } else if ugens[0] is UgenGroup {
        0
    } else {
        1 + first_group(ugens.drop_first())
    }
}

/// The first group is exactly the least `UgenGroup` entry.
pub proof fn lemma_first_group_at(ugens: Seq<UgenState>, i: int)
    requires
        0 <= i <= ugens.len(),
        forall|k: int| 0 <= k < i ==> !((#[trigger] ugens[k]) is UgenGroup),
        i == ugens.len() || ugens[i] is UgenGroup,
    ensures
        first_group(ugens) == i,
    decreases i,
{
    if i > 0 {
        lemma_first_group_at(ugens.drop_first(), i - 1);
    }
}

/// The ordered list of fixed ugens the render loop walks each block.
pub type UgensState = Vec<UgenState>;

} // verus!
