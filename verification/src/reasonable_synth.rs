//! The keyboard voice: one wavetable oscillator shaped by an ADSR envelope.

use vstd::prelude::*;

use crate::consts::{AUDIO_BUS_LENGTH, FREQ_MAX, FX_ONE, NUM_CONTROL_BLOCKS, SAMPLE_RATE_HZ, TICK_MAX};
use crate::envelope::{
    adsr_clamp, adsr_clamp_spec, env_advance_keeps, env_after_advance, env_amp_spec, Adsr, EnvState,
};
use crate::fx::{fx_add, fx_add_spec, fx_mul, fx_mul_spec};
use crate::state::{block_len, busses_wf, AudioBusses, ControlBlock, ControlBlocks};
use crate::wavetables::{table_lookup, table_sample_spec, table_wf};

verus! {

/// Parameters of a keyboard voice: its envelope.
#[derive(Clone, Copy, Debug, PartialEq, Eq, Structural)]
pub struct ReasonableControlBlock {
    pub adsr: Adsr,
}

/// One oscillator voice: adds its enveloped wavetable signal into bus `dst`;
/// envelope parameters come from control-block slot `ci`.
pub struct ReasonableSynthState {
    dst: usize,
    freq_hz: i64,
    phase: i64,
    env_state: EnvState,
    wavetable: Vec<i64>,
    ci: usize,
}

/// The phase increment per sample for a fixed-point frequency.
pub open spec fn phase_inc_spec(freq_hz: int) -> int {
    freq_hz / (SAMPLE_RATE_HZ as int)
}

/// The oscillator phase after one sample, wrapped back into one cycle.
pub open spec fn phase_step(phase: int, freq_hz: int) -> int {
    let np = phase + phase_inc_spec(freq_hz);
    if np > FX_ONE {
        np - FX_ONE
    } else {
        np
    }
}

/// Oscillator state (phase, envelope, liveness) after `n` samples of one
/// block; once the envelope dies the state freezes for the rest of the
/// block.
pub open spec fn osc_fold(
    phase: int,
    env: EnvState,
    freq_hz: int,
    adsr: Adsr,
    tick: int,
    n: nat,
) -> (int, EnvState, bool)
    decreases n,
{
    if n == 0 {
        (phase, env, true)
    } else {
        let (p, e, alive) = osc_fold(phase, env, freq_hz, adsr, tick, (n - 1) as nat);
        if !alive {
            (p, e, false)
        } else {
            (phase_step(p, freq_hz), env_after_advance(adsr, e, tick), env_advance_keeps(
                adsr,
                e,
                tick,
            ))
        }
    }
}

/// What the voice adds to destination sample `j`: its envelope amplitude
/// times the interpolated wavetable value, both read before the advance of
/// that sample — nothing once the envelope has died.
pub open spec fn osc_contribution(
    table: Seq<i64>,
    phase: int,
    env: EnvState,
    freq_hz: int,
    adsr: Adsr,
    tick: int,
    prev: i64,
    j: int,
) -> int {
    let (p, e, alive) = osc_fold(phase, env, freq_hz, adsr, tick, j as nat);
    if alive {
        fx_add_spec(
            prev as int,
            fx_mul_spec(env_amp_spec(adsr, e), table_sample_spec(table, p)),
        )
    } else {
        prev as int
    }
}

impl ReasonableSynthState {
    /// Destination bus index.
    pub closed spec fn dst(self) -> int {
        self.dst as int
    }

    /// Fixed-point oscillator frequency in Hz.
    pub closed spec fn freq(self) -> int {
        self.freq_hz as int
    }

    /// Current phase within one cycle.
    pub closed spec fn phase(self) -> int {
        self.phase as int
    }

    /// The wavetable the voice reads.
    pub closed spec fn table(self) -> Seq<i64> {
        self.wavetable@
    }

    /// Current envelope position.
    pub closed spec fn env(self) -> EnvState {
        self.env_state
    }

    /// Control-block slot read each block.
    pub closed spec fn ci_ix(self) -> int {
        self.ci as int
    }

    /// Indices, frequency, phase and envelope within their ranges; a well
    /// formed wavetable.
    pub closed spec fn wf(self) -> bool {
        &&& self.dst < AUDIO_BUS_LENGTH
        &&& 0 <= self.freq_hz <= FREQ_MAX
        &&& 0 <= self.phase <= FX_ONE
        &&& self.env_state.wf()
        &&& table_wf(self.wavetable@)
        &&& self.ci < NUM_CONTROL_BLOCKS
    }

    /// What well-formedness guarantees, for callers that cannot see the
    /// private fields: every component sits in its range.
    pub proof fn lemma_wf(self)
        requires
            self.wf(),
        ensures
            0 <= self.dst() < AUDIO_BUS_LENGTH,
            0 <= self.freq() <= FREQ_MAX,
            0 <= self.phase() <= FX_ONE,
            self.env().wf(),
            table_wf(self.table()),
            0 <= self.ci_ix() < NUM_CONTROL_BLOCKS,
    {
    }

    /// Current envelope position, as executable code.
    pub fn get_env(&self) -> (e: EnvState)
        ensures
            e == self.env(),
    {
        self.env_state
    }

    /// Replace the envelope position (the deferred-command wrapper applies
    /// release and restrike transitions through this).
    pub fn set_env(&mut self, e: EnvState)
        requires
            old(self).wf(),
            e.wf(),
        ensures
            final(self).wf(),
            final(self).env() == e,
            final(self).dst() == old(self).dst(),
            final(self).freq() == old(self).freq(),
            final(self).phase() == old(self).phase(),
            final(self).table() == old(self).table(),
            final(self).ci_ix() == old(self).ci_ix(),
    {
        self.env_state = e;
    }

    /// The control-block slot this voice reads, as executable code.
    pub fn ci_val(&self) -> (r: usize)
        ensures
            r as int == self.ci_ix(),
    {
        self.ci
    }

    /// A fresh voice: phase zero, envelope `On` at time zero rising from
    /// silence toward `vel`, held (the pedal logic decides when to let go).
    pub fn new(dst: usize, freq_hz: i64, vel: i64, wavetable: Vec<i64>, ci: usize) -> (r:
        ReasonableSynthState)
        requires
            dst < AUDIO_BUS_LENGTH,
            0 <= freq_hz <= FREQ_MAX,
            0 <= vel <= FX_ONE,
            table_wf(wavetable@),
            ci < NUM_CONTROL_BLOCKS,
        ensures
            r.wf(),
            r.dst() == dst,
            r.freq() == freq_hz,
            r.phase() == 0,
            r.env() == (EnvState::On { t_ns: 0, amp: 0, vel, hold: true }),
            r.table() == wavetable@,
            r.ci_ix() == ci,
    {
        ReasonableSynthState {
            dst,
            phase: 0,
            freq_hz,
            env_state: EnvState::On { t_ns: 0, amp: 0, vel, hold: true },
            wavetable,
            ci,
        }
    }

    /// One block with known parameters.  Every destination sample `j`
    /// receives the voice's contribution for the oscillator state after `j`
    /// samples; phase and envelope end at the fold of the whole block, and
    /// the result says whether the voice survived it.
    pub fn ctl_run(&mut self, bus: &mut AudioBusses, tick_ns: i64, ctl: &ReasonableControlBlock)
        -> (r: bool)
        requires
            old(self).wf(),
            busses_wf(*old(bus)),
            0 < tick_ns <= TICK_MAX,
        ensures
            final(self).wf(),
            final(self).dst() == old(self).dst(),
            final(self).freq() == old(self).freq(),
            final(self).table() == old(self).table(),
            final(self).ci_ix() == old(self).ci_ix(),
            busses_wf(*final(bus)),
            final(bus)@.len() == old(bus)@.len(),
            block_len(*final(bus)) == block_len(*old(bus)),
            forall|i: int|
                0 <= i < old(bus)@.len() && i != old(self).dst() ==> final(bus)@[i] == old(
                    bus,
                )@[i],
            ({
                let adsr = adsr_clamp_spec(ctl.adsr);
                let n = block_len(*old(bus));
                let fold = osc_fold(
                    old(self).phase(),
                    old(self).env(),
                    old(self).freq(),
                    adsr,
                    tick_ns as int,
                    n as nat,
                );
                &&& final(self).phase() == fold.0
                &&& final(self).env() == fold.1
                &&& r == fold.2
                &&& forall|j: int|
                    0 <= j < n ==> final(bus)@[old(self).dst()]@[j] as int == osc_contribution(
                        old(self).table(),
                        old(self).phase(),
                        old(self).env(),
                        old(self).freq(),
                        adsr,
                        tick_ns as int,
                        old(bus)@[old(self).dst()]@[j],
                        j,
                    )
            }),
    {
        let adsr = adsr_clamp(&ctl.adsr);
        let n = bus[self.dst].len();
        let mut j: usize = 0;
        let mut alive: bool = true;
        while j < n
            invariant
                self.wf(),
                self.dst == old(self).dst,
                self.freq_hz == old(self).freq_hz,
                self.wavetable@ == old(self).wavetable@,
                self.ci == old(self).ci,
                busses_wf(*bus),
                bus@.len() == old(bus)@.len(),
                block_len(*bus) == block_len(*old(bus)),
                n == block_len(*bus),
                j <= n,
                0 < tick_ns <= TICK_MAX,
                adsr == adsr_clamp_spec(ctl.adsr),
                adsr.wf(),
                ({
                    let fold = osc_fold(
                        old(self).phase(),
                        old(self).env_state,
                        old(self).freq(),
                        adsr,
                        tick_ns as int,
                        j as nat,
                    );
                    &&& self.phase() == fold.0
                    &&& self.env_state == fold.1
                    &&& alive == fold.2
                }),
                alive,
                forall|i: int|
                    0 <= i < bus@.len() && i != self.dst() ==> bus@[i] == old(bus)@[i],
                forall|jj: int| j <= jj < n ==> bus@[self.dst()]@[jj] == old(bus)@[self.dst()]@[jj],
                forall|jj: int|
                    0 <= jj < j ==> bus@[self.dst()]@[jj] as int == osc_contribution(
                        old(self).table(),
                        old(self).phase(),
                        old(self).env_state,
                        old(self).freq(),
                        adsr,
                        tick_ns as int,
                        old(bus)@[self.dst()]@[jj],
                        jj,
                    ),
            decreases n - j,
        {
            let ghost pre_phase = self.phase();
            let ghost pre_env = self.env_state;
            let v = table_lookup(&self.wavetable, self.phase);
            let scale = self.env_state.amp(&adsr);
            let prev = bus[self.dst][j];
            bus[self.dst][j] = fx_add(prev, fx_mul(scale, v));
            self.phase = phase_advance(self.phase, self.freq_hz);
            let keep = self.env_state.advance(tick_ns, &adsr);
            proof {
                let p0 = old(self).phase();
                let e0 = old(self).env();
                let f0 = old(self).freq();
                let t = tick_ns as int;
                assert(((j + 1) as nat - 1) as nat == j as nat);
                assert(osc_fold(p0, e0, f0, adsr, t, j as nat) == (pre_phase, pre_env, true));
                assert(osc_fold(p0, e0, f0, adsr, t, (j + 1) as nat) == (
                    self.phase(),
                    self.env_state,
                    keep,
                ));
                assert(bus@[self.dst()]@[j as int] as int == osc_contribution(
                    old(self).table(),
                    p0,
                    e0,
                    f0,
                    adsr,
                    t,
                    old(bus)@[self.dst()]@[j as int],
                    j as int,
                ));
            }
            if !keep {
                proof {
                    let p0 = old(self).phase();
                    let e0 = old(self).env();
                    let f0 = old(self).freq();
                    let t = tick_ns as int;
                    lemma_osc_fold_frozen(p0, e0, f0, adsr, t, (j + 1) as nat, n as nat);
                    assert forall|jj: int| 0 <= jj < n implies bus@[self.dst()]@[jj] as int
                        == osc_contribution(
                        old(self).table(),
                        p0,
                        e0,
                        f0,
                        adsr,
                        t,
                        old(bus)@[self.dst()]@[jj],
                        jj,
                    ) by {
                        if jj > j {
                            lemma_osc_fold_frozen(p0, e0, f0, adsr, t, (j + 1) as nat, jj as nat);
                        }
                    }
                }
                return false;
            }
            j += 1;
        }
        true
    }

    /// One render block: look the envelope up in the control-block store.  A
    /// missing or wrong-variant slot is graceful degradation during hot
    /// reconfiguration: the oscillator renders nothing, changes nothing and
    /// reports `true`.  Otherwise run with those parameters.
    pub fn run(&mut self, bus: &mut AudioBusses, tick_ns: i64, ctl: &ControlBlocks) -> (r: bool)
        requires
            old(self).wf(),
            busses_wf(*old(bus)),
            0 < tick_ns <= TICK_MAX,
            ctl@.len() == NUM_CONTROL_BLOCKS,
        ensures
            final(self).wf(),
            busses_wf(*final(bus)),
            final(bus)@.len() == old(bus)@.len(),
            block_len(*final(bus)) == block_len(*old(bus)),
            match ctl@[old(self).ci_ix()] {
                Some(ControlBlock::Reasonable(cb)) => reasonable_run_rel(
                    *old(self),
                    *final(self),
                    *old(bus),
                    *final(bus),
                    tick_ns as int,
                    cb.adsr,
                    r,
                ),
                _ => r == true && final(bus)@ == old(bus)@ && *final(self) == *old(self),
            },
    {
        match &ctl[self.ci] {
            Some(ControlBlock::Reasonable(cb)) => {
                let cb = *cb;
                self.ctl_run(bus, tick_ns, &cb)
            },
            _ => true,
        }
    }
}

/// How one block of [`ReasonableSynthState::ctl_run`] relates the old state
/// to the new: the block fold of phase and envelope, and the per-sample
/// contributions into the destination bus.
pub open spec fn reasonable_run_rel(
    pre: ReasonableSynthState,
    post: ReasonableSynthState,
    bus_pre: AudioBusses,
    bus_post: AudioBusses,
    tick: int,
    raw_adsr: Adsr,
    r: bool,
) -> bool {
    reasonable_run_rel_env(pre, pre.env(), post, bus_pre, bus_post, tick, raw_adsr, r)
}

/// The same relation with the starting envelope given separately, for
/// callers that apply a deferred transition before rendering.
pub open spec fn reasonable_run_rel_env(
    pre: ReasonableSynthState,
    pre_env: EnvState,
    post: ReasonableSynthState,
    bus_pre: AudioBusses,
    bus_post: AudioBusses,
    tick: int,
    raw_adsr: Adsr,
    r: bool,
) -> bool {
    let adsr = adsr_clamp_spec(raw_adsr);
    let n = block_len(bus_pre);
    let fold = osc_fold(pre.phase(), pre_env, pre.freq(), adsr, tick, n as nat);
    &&& post.dst() == pre.dst()
    &&& post.freq() == pre.freq()
    &&& post.table() == pre.table()
    &&& post.ci_ix() == pre.ci_ix()
    &&& post.phase() == fold.0
    &&& post.env() == fold.1
    &&& r == fold.2
    &&& forall|i: int| 0 <= i < bus_pre@.len() && i != pre.dst() ==> bus_post@[i] == bus_pre@[i]
    &&& forall|j: int|
        0 <= j < n ==> bus_post@[pre.dst()]@[j] as int == osc_contribution(
            pre.table(),
            pre.phase(),
            pre_env,
            pre.freq(),
            adsr,
            tick,
            bus_pre@[pre.dst()]@[j],
            j,
        )
}

/// Once dead, the fold stays frozen.
proof fn lemma_osc_fold_frozen(
    phase: int,
    env: EnvState,
    freq_hz: int,
    adsr: Adsr,
    tick: int,
    m: nat,
    n: nat,
)
    requires
        m <= n,
        !osc_fold(phase, env, freq_hz, adsr, tick, m).2,
    ensures
        osc_fold(phase, env, freq_hz, adsr, tick, n) == osc_fold(phase, env, freq_hz, adsr, tick, m),
    decreases n,
{
    if n > m {
        lemma_osc_fold_frozen(phase, env, freq_hz, adsr, tick, m, (n - 1) as nat);
    }
}

/// Advance the oscillator phase by one sample, wrapping at a full cycle.
fn phase_advance(phase: i64, freq_hz: i64) -> (r: i64)
    requires
        0 <= phase <= FX_ONE,
        0 <= freq_hz <= FREQ_MAX,
    ensures
        r as int == phase_step(phase as int, freq_hz as int),
        0 <= r <= FX_ONE,
{
    proof {
        vstd::arithmetic::div_mod::lemma_div_is_ordered(
            freq_hz as int,
            FREQ_MAX as int,
            SAMPLE_RATE_HZ as int,
        );
        vstd::arithmetic::div_mod::lemma_div_is_ordered(0, freq_hz as int, SAMPLE_RATE_HZ as int);
        vstd::arithmetic::div_mod::lemma_div_multiples_vanish(
            FX_ONE as int,
            SAMPLE_RATE_HZ as int,
        );
    }
    let inc: i64 = ((freq_hz as u64) / (SAMPLE_RATE_HZ as u64)) as i64;
    let np = phase + inc;
    if np > FX_ONE {
        np - FX_ONE
    } else {
        np
    }
}

} // verus!
