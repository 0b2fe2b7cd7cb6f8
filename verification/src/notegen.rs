//! The deferred-command wrapper around one keyboard voice.
//!
//! `release` and `restrike` may be called from any thread holding the state
//! lock: they only set a mode flag.  The envelope transition itself happens
//! on the next `run`, on the thread that owns the render loop, capturing the
//! voice's current amplitude as the new ramp start for continuity.

use vstd::prelude::*;

use crate::consts::{FX_ONE, NUM_CONTROL_BLOCKS, TICK_MAX};
use crate::envelope::{adsr_clamp, adsr_clamp_spec, env_amp_spec, Adsr, EnvState};
use crate::reasonable_synth::{
    osc_fold, reasonable_run_rel_env, ReasonableControlBlock, ReasonableSynthState,
};
use crate::state::{block_len, busses_wf, AudioBusses, ControlBlock, ControlBlocks};

verus! {

/// The deferred command a voice will apply on its next run.
#[derive(Clone, Copy, Debug, PartialEq, Eq, Structural)]
pub enum NoteMode {
    Run,
    Release,
    Restrike { vel: i64 },
}

/// One voice and its pending command.
pub struct NotegenState {
    mode: NoteMode,
    ugen: ReasonableSynthState,
}

/// The envelope a pending command turns the current one into, capturing the
/// current amplitude as the new ramp start: `Release` begins a fall from it,
/// `Restrike` a fresh held attack toward the new velocity, `Run` changes
/// nothing.
pub open spec fn note_mode_apply(adsr: Adsr, env: EnvState, mode: NoteMode) -> EnvState {
    match mode {
        NoteMode::Run => env,
        NoteMode::Release => EnvState::Release {
            t_ns: 0,
            amp: env_amp_spec(adsr, env) as i64,
        },
        NoteMode::Restrike { vel } => EnvState::On {
            t_ns: 0,
            amp: env_amp_spec(adsr, env) as i64,
            vel,
            hold: true,
        },
    }
}

/// How one render block relates a pooled voice to what its pool slot holds
/// afterwards.  With its control block missing or of the wrong variant the
/// voice idles untouched (graceful degradation: the pending command stays
/// pending).  With the block present, the pending command is applied, phase
/// and envelope advance by the block fold, and the slot is freed exactly
/// when the envelope ran out.
pub open spec fn notegen_pool_rel(
    pre: NotegenState,
    post: Option<NotegenState>,
    ctl: Seq<Option<ControlBlock>>,
    tick: int,
    n: int,
) -> bool {
    match ctl[pre.voice().ci_ix()] {
        Some(ControlBlock::Reasonable(cb)) => {
            let adsr = adsr_clamp_spec(cb.adsr);
            let applied = note_mode_apply(adsr, pre.voice().env(), pre.mode());
            let fold = osc_fold(
                pre.voice().phase(),
                applied,
                pre.voice().freq(),
                adsr,
                tick,
                n as nat,
            );
            if fold.2 {
                &&& post matches Some(p)
                &&& p.wf()
                &&& p.mode() == NoteMode::Run
                &&& p.voice().dst() == pre.voice().dst()
                &&& p.voice().freq() == pre.voice().freq()
                &&& p.voice().table() == pre.voice().table()
                &&& p.voice().ci_ix() == pre.voice().ci_ix()
                &&& p.voice().phase() == fold.0
                &&& p.voice().env() == fold.1
            } else {
                post is None
            }
        },
        _ => post == Some(pre),
    }
}

/// A held envelope survives any number of samples of rendering with the
/// shape it has: the block fold keeps it `On`, held, and alive.
pub proof fn lemma_fold_keeps_hold(
    phase: int,
    env: EnvState,
    freq: int,
    adsr: Adsr,
    tick: int,
    n: nat,
)
    requires
        env is On,
        env->hold,
    ensures
        osc_fold(phase, env, freq, adsr, tick, n).1 is On,
        osc_fold(phase, env, freq, adsr, tick, n).1->hold,
        osc_fold(phase, env, freq, adsr, tick, n).2,
    decreases n,
{
    if n > 0 {
        lemma_fold_keeps_hold(phase, env, freq, adsr, tick, (n - 1) as nat);
    }
}

/// A released envelope stays in its release: the block fold never moves a
/// voice from `Release` back to `On`.
pub proof fn lemma_fold_keeps_release(
    phase: int,
    env: EnvState,
    freq: int,
    adsr: Adsr,
    tick: int,
    n: nat,
)
    requires
        env is Release,
    ensures
        osc_fold(phase, env, freq, adsr, tick, n).1 is Release,
    decreases n,
{
    if n > 0 {
        lemma_fold_keeps_release(phase, env, freq, adsr, tick, (n - 1) as nat);
    }
}

/// A voice with a pending release starts falling on its next block with its
/// control block present: if that block keeps it alive at all, its envelope
/// is in `Release` afterwards.  With the block missing the voice idles
/// untouched and the pending release is not lost.
pub proof fn lemma_released_voice_enters_release(
    pre: NotegenState,
    post: Option<NotegenState>,
    ctl: Seq<Option<ControlBlock>>,
    tick: int,
    n: int,
)
    requires
        notegen_pool_rel(pre, post, ctl, tick, n),
        pre.mode() == NoteMode::Release,
    ensures
        match ctl[pre.voice().ci_ix()] {
            Some(ControlBlock::Reasonable(_)) => post matches Some(p) ==> p.voice().env()
                is Release,
            _ => post == Some(pre),
        },
{
    match ctl[pre.voice().ci_ix()] {
        Some(ControlBlock::Reasonable(cb)) => {
            let adsr = adsr_clamp_spec(cb.adsr);
            let applied = note_mode_apply(adsr, pre.voice().env(), pre.mode());
            lemma_fold_keeps_release(
                pre.voice().phase(),
                applied,
                pre.voice().freq(),
                adsr,
                tick,
                n as nat,
            );
        },
        _ => {},
    }
}

/// A voice whose key is parked `Held` keeps sounding through every render
/// block: with no pending command and a held `On` envelope, a block leaves
/// the voice in its slot with the envelope still held `On` — whether its
/// control block is present or not, only an explicit release (the pedal
/// going up) can change that.
pub proof fn lemma_held_voice_survives_block(
    pre: NotegenState,
    post: Option<NotegenState>,
    ctl: Seq<Option<ControlBlock>>,
    tick: int,
    n: int,
)
    requires
        notegen_pool_rel(pre, post, ctl, tick, n),
        pre.mode() == NoteMode::Run,
        pre.voice().env() is On,
        pre.voice().env()->hold,
    ensures
        post matches Some(p) && p.voice().env() is On && p.voice().env()->hold,
{
    match ctl[pre.voice().ci_ix()] {
        Some(ControlBlock::Reasonable(cb)) => {
            let adsr = adsr_clamp_spec(cb.adsr);
            lemma_fold_keeps_hold(
                pre.voice().phase(),
                pre.voice().env(),
                pre.voice().freq(),
                adsr,
                tick,
                n as nat,
            );
        },
        _ => {},
    }
}

impl NotegenState {
    /// The pending command.
    pub closed spec fn mode(self) -> NoteMode {
        self.mode
    }

    /// The wrapped voice.
    pub closed spec fn voice(self) -> ReasonableSynthState {
        self.ugen
    }

    /// The voice is well formed and a pending restrike velocity is a valid
    /// amplitude.
    pub open spec fn wf(self) -> bool {
        &&& self.voice().wf()
        &&& match self.mode() {
            NoteMode::Restrike { vel } => 0 <= vel <= FX_ONE,
            _ => true,
        }
    }

    /// The pending command, as executable code.
    pub fn get_mode(&self) -> (m: NoteMode)
        ensures
            m == self.mode(),
    {
        self.mode
    }

    /// The wrapped voice's envelope position, as executable code.
    pub fn voice_env(&self) -> (e: EnvState)
        ensures
            e == self.voice().env(),
    {
        self.ugen.get_env()
    }

    /// A fresh voice with no pending command.
    pub fn new(dst: usize, freq_hz: i64, vel: i64, wavetable: Vec<i64>, ci: usize) -> (r:
        NotegenState)
        requires
            dst < crate::consts::AUDIO_BUS_LENGTH,
            0 <= freq_hz <= crate::consts::FREQ_MAX,
            0 <= vel <= FX_ONE,
            crate::wavetables::table_wf(wavetable@),
            ci < NUM_CONTROL_BLOCKS,
        ensures
            r.wf(),
            r.mode() == NoteMode::Run,
            r.voice().dst() == dst,
            r.voice().freq() == freq_hz,
            r.voice().phase() == 0,
            r.voice().env() == (EnvState::On { t_ns: 0, amp: 0, vel, hold: true }),
            r.voice().table() == wavetable@,
            r.voice().ci_ix() == ci,
    {
        NotegenState {
            ugen: ReasonableSynthState::new(dst, freq_hz, vel, wavetable, ci),
            mode: NoteMode::Run,
        }
    }

    /// Ask the voice to begin its release on its next run.  Only the mode
    /// flag changes; the voice itself is untouched until then.
    pub fn release(&mut self)
        requires
            old(self).wf(),
        ensures
            final(self).wf(),
            final(self).mode() == NoteMode::Release,
            final(self).voice() == old(self).voice(),
    {
        self.mode = NoteMode::Release;
    }

    /// Ask the voice to restrike at a new velocity on its next run.  Only
    /// the mode flag changes; the voice itself is untouched until then.
    pub fn restrike(&mut self, vel: i64)
        requires
            old(self).wf(),
            0 <= vel <= FX_ONE,
        ensures
            final(self).wf(),
            final(self).mode() == (NoteMode::Restrike { vel }),
            final(self).voice() == old(self).voice(),
    {
        self.mode = NoteMode::Restrike { vel };
    }

    /// One block with known parameters: apply the pending command to the
    /// envelope (capturing the current amplitude), clear it, then render.
    fn ctl_run(&mut self, bus: &mut AudioBusses, tick_ns: i64, ctl: &ReasonableControlBlock) -> (r:
        bool)
        requires
            old(self).wf(),
            busses_wf(*old(bus)),
            0 < tick_ns <= TICK_MAX,
        ensures
            final(self).wf(),
            final(self).mode() == NoteMode::Run,
            busses_wf(*final(bus)),
            final(bus)@.len() == old(bus)@.len(),
            block_len(*final(bus)) == block_len(*old(bus)),
            reasonable_run_rel_env(
                old(self).voice(),
                note_mode_apply(adsr_clamp_spec(ctl.adsr), old(self).voice().env(), old(self).mode()),
                final(self).voice(),
                *old(bus),
                *final(bus),
                tick_ns as int,
                ctl.adsr,
                r,
            ),
    {
        let adsr = adsr_clamp(&ctl.adsr);
        proof {
            self.ugen.lemma_wf();
        }
        match self.mode {
            NoteMode::Release => {
                let a = self.ugen.get_env().amp(&adsr);
                self.ugen.set_env(EnvState::Release { t_ns: 0, amp: a });
            },
            NoteMode::Restrike { vel } => {
                let a = self.ugen.get_env().amp(&adsr);
                self.ugen.set_env(EnvState::On { t_ns: 0, amp: a, vel, hold: true });
            },
            NoteMode::Run => (),
        }
        self.mode = NoteMode::Run;
        self.ugen.ctl_run(bus, tick_ns, ctl)
    }

    /// One render block.  A missing or wrong-variant control block is
    /// graceful degradation during hot reconfiguration: the voice renders
    /// nothing, changes nothing (the pending command stays pending) and
    /// reports `true`, so it survives until its block returns or it is
    /// released.  Otherwise the pending command is applied and the voice
    /// rendered.
    pub fn run(&mut self, bus: &mut AudioBusses, tick_ns: i64, ctl: &ControlBlocks) -> (r: bool)
        requires
            old(self).wf(),
            busses_wf(*old(bus)),
            0 < tick_ns <= TICK_MAX,
            ctl@.len() == NUM_CONTROL_BLOCKS,
        ensures
            final(self).wf(),
            busses_wf(*final(bus)),
            final(bus)@.len() == old(bus)@.len(),
            block_len(*final(bus)) == block_len(*old(bus)),
            match ctl@[old(self).voice().ci_ix()] {
                Some(ControlBlock::Reasonable(cb)) => {
                    &&& final(self).mode() == NoteMode::Run
                    &&& reasonable_run_rel_env(
                        old(self).voice(),
                        note_mode_apply(
                            adsr_clamp_spec(cb.adsr),
                            old(self).voice().env(),
                            old(self).mode(),
                        ),
                        final(self).voice(),
                        *old(bus),
                        *final(bus),
                        tick_ns as int,
                        cb.adsr,
                        r,
                    )
                },
                _ => r == true && final(bus)@ == old(bus)@ && *final(self) == *old(self),
            },
    {
        proof {
            self.ugen.lemma_wf();
        }
        let ci = self.ugen.ci_val();
        match &ctl[ci] {
            Some(ControlBlock::Reasonable(cb)) => {
                let cb = *cb;
                self.ctl_run(bus, tick_ns, &cb)
            },
            _ => true,
        }
    }
}

} // verus!
