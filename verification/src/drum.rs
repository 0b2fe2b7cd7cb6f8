//! Transient drum voice: a noise-table oscillator whose pitch glides from
//! `freq_hz` to `freq2_hz` across the attack-and-decay window of its
//! envelope.

use vstd::prelude::*;

use crate::consts::{
    AUDIO_BUS_LENGTH, BUS_DRY, FREQ_MAX, FX_ONE, NUM_CONTROL_BLOCKS, SAMPLE_RATE_HZ, TABLE_SIZE,
    TICK_MAX, TIME_MAX,
};
use crate::envelope::{
    adsr_clamp, adsr_clamp_spec, env_advance_keeps, env_after_advance, env_amp_spec, Adsr, EnvState,
};
use crate::fx::{clamp_fx, fx_add, fx_add_spec, fx_clamp, fx_mul, fx_mul_spec};
use crate::state::{block_len, busses_wf, AudioBusses, ControlBlock, ControlBlocks};
use crate::wavetables::{table_lookup, table_sample_spec, table_wf};

verus! {

/// Fixed gain every drum hit is scaled by.
pub const DRUM_LEVEL: i64 = 150_000;

/// Parameters of a drum hit: output level, start and end pitch of the glide,
/// and the envelope.
#[derive(Clone, Copy, Debug, PartialEq, Eq, Structural)]
pub struct DrumControlBlock {
    pub vol: i64,
    pub freq_hz: i64,
    pub freq2_hz: i64,
    pub adsr: Adsr,
}

/// The stock drum envelope: a 10 ms attack, 50 ms decay and 200 ms release,
/// each stretched by `dur_scale`, with a 0.2 sustain.
pub open spec fn drum_adsr_spec(dur_scale: int) -> Adsr {
    Adsr {
        attack_ns: ((10_000_000 * dur_scale) / (FX_ONE as int)) as i64,
        decay_ns: ((50_000_000 * dur_scale) / (FX_ONE as int)) as i64,
        sustain: 200_000,
        release_ns: ((200_000_000 * dur_scale) / (FX_ONE as int)) as i64,
    }
}

/// Build the stock drum envelope for a duration scale (a fixed-point factor,
/// at most 100).
pub fn drum_adsr(dur_scale: i64) -> (r: Adsr)
    requires
        0 <= dur_scale <= 100 * FX_ONE,
    ensures
        r == drum_adsr_spec(dur_scale as int),
        r.wf(),
{
    proof {
        lemma_scaled_ms_bounded(10_000_000, dur_scale as int);
        lemma_scaled_ms_bounded(50_000_000, dur_scale as int);
        lemma_scaled_ms_bounded(200_000_000, dur_scale as int);
    }
    Adsr {
        attack_ns: (((10_000_000u64) * (dur_scale as u64)) / (FX_ONE as u64)) as i64,
        decay_ns: (((50_000_000u64) * (dur_scale as u64)) / (FX_ONE as u64)) as i64,
        sustain: 200_000,
        release_ns: (((200_000_000u64) * (dur_scale as u64)) / (FX_ONE as u64)) as i64,
    }
}

/// A phase length scaled by at most 100 stays within the accepted range.
proof fn lemma_scaled_ms_bounded(base: int, dur_scale: int)
    requires
        0 <= base <= 200_000_000,
        0 <= dur_scale <= 100 * FX_ONE,
    ensures
        0 <= (base * dur_scale) / (FX_ONE as int) <= TIME_MAX,
        base * dur_scale <= 200_000_000 * 100 * FX_ONE,
{
    assert(base * dur_scale <= 200_000_000 * (100 * (FX_ONE as int))) by (nonlinear_arith)
        requires
            0 <= base <= 200_000_000,
            0 <= dur_scale <= 100 * (FX_ONE as int),
    ;
    vstd::arithmetic::div_mod::lemma_div_is_ordered(
        base * dur_scale,
        (FX_ONE as int) * 20_000_000_000,
        FX_ONE as int,
    );
    vstd::arithmetic::div_mod::lemma_div_multiples_vanish(20_000_000_000, FX_ONE as int);
    vstd::arithmetic::div_mod::lemma_div_is_ordered(0, base * dur_scale, FX_ONE as int);
}

/// A frequency pushed into `[0, FREQ_MAX]`.
pub open spec fn clamp_freq(x: int) -> int {
    if x < 0 {
        0
    } else if x > FREQ_MAX {
        FREQ_MAX as int
    } else {
        x
    }
}

/// The glide position within the attack-and-decay window: elapsed envelope
/// time over the window length, saturating at one (and one for an empty
/// window).
pub open spec fn glide_pos(adsr: Adsr, env: EnvState) -> int {
    let alen = adsr.attack_ns + adsr.decay_ns;
    let t = match env {
        EnvState::On { t_ns, .. } => t_ns as int,
        EnvState::Release { .. } => alen,
    };
    if alen == 0 || t >= alen {
        FX_ONE as int
    } else {
        (t * FX_ONE) / alen
    }
}

/// The glided oscillator frequency: `a * freq2 + (1 - a) * freq` for glide
/// position `a`, over the clamped control-block frequencies.
pub open spec fn drum_freq(adsr: Adsr, env: EnvState, cb: DrumControlBlock) -> int {
    let a = glide_pos(adsr, env);
    (a * clamp_freq(cb.freq2_hz as int) + (FX_ONE - a) * clamp_freq(cb.freq_hz as int)) / (
    FX_ONE as int)
}

/// The drum phase increment per sample: the glided frequency divided by the
/// table length, per sample.
pub open spec fn drum_phase_inc(adsr: Adsr, env: EnvState, cb: DrumControlBlock) -> int {
    (drum_freq(adsr, env, cb) / (TABLE_SIZE as int)) / (SAMPLE_RATE_HZ as int)
}

/// The drum phase after one sample, wrapped back into one cycle.
pub open spec fn drum_phase_step(phase: int, adsr: Adsr, env: EnvState, cb: DrumControlBlock)
    -> int {
    let np = phase + drum_phase_inc(adsr, env, cb);
    if np > FX_ONE {
        np - FX_ONE
    } else {
        np
    }
}

/// Drum state (phase, envelope, liveness) after `n` samples of one block;
/// frozen once the envelope dies.
pub open spec fn drum_fold(
    phase: int,
    env: EnvState,
    adsr: Adsr,
    cb: DrumControlBlock,
    tick: int,
    n: nat,
) -> (int, EnvState, bool)
    decreases n,
{
    if n == 0 {
        (phase, env, true)
    } else {
        let (p, e, alive) = drum_fold(phase, env, adsr, cb, tick, (n - 1) as nat);
        if !alive {
            (p, e, false)
        } else {
            (drum_phase_step(p, adsr, e, cb), env_after_advance(adsr, e, tick), env_advance_keeps(
                adsr,
                e,
                tick,
            ))
        }
    }
}

/// What the drum adds to destination sample `j`: the fixed drum level times
/// the table value, envelope amplitude and volume — nothing once dead.
pub open spec fn drum_contribution(
    table: Seq<i64>,
    phase: int,
    env: EnvState,
    adsr: Adsr,
    cb: DrumControlBlock,
    tick: int,
    prev: i64,
    j: int,
) -> int {
    let (p, e, alive) = drum_fold(phase, env, adsr, cb, tick, j as nat);
    if alive {
        fx_add_spec(
            prev as int,
            fx_mul_spec(
                fx_mul_spec(
                    fx_mul_spec(DRUM_LEVEL as int, table_sample_spec(table, p)),
                    env_amp_spec(adsr, e),
                ),
                clamp_fx(cb.vol as int),
            ),
        )
    } else {
        prev as int
    }
}

/// A drum hit just spawned: aimed at the dry bus, reading `table` and
/// control-block slot `ci`, phase zero, envelope `On` at full velocity and
/// not held, so it releases by itself.
pub open spec fn is_fresh_drum(d: DrumSynthState, table: Seq<i64>, ci: int) -> bool {
    &&& d.wf()
    &&& d.dst() == BUS_DRY
    &&& d.phase() == 0
    &&& d.env() == (EnvState::On { t_ns: 0, amp: 0, vel: FX_ONE, hold: false })
    &&& d.table() == table
    &&& d.ci() == ci
}

/// One drum hit: adds its signal into the dry bus until its envelope dies;
/// parameters from control-block slot `ci`.
pub struct DrumSynthState {
    dst: usize,
    phase: i64,
    env_state: EnvState,
    wavetable: Vec<i64>,
    ci: usize,
}

impl DrumSynthState {
    /// Destination bus index.
    pub closed spec fn dst(self) -> int {
        self.dst as int
    }

    /// Current phase within one cycle.
    pub closed spec fn phase(self) -> int {
        self.phase as int
    }

    /// Current envelope position.
    pub closed spec fn env(self) -> EnvState {
        self.env_state
    }

    /// The noise table the drum reads.
    pub closed spec fn table(self) -> Seq<i64> {
        self.wavetable@
    }

    /// Control-block slot read each block.
    pub closed spec fn ci(self) -> int {
        self.ci as int
    }

    /// Indices, phase and envelope within their ranges; a well formed table.
    pub closed spec fn wf(self) -> bool {
        &&& self.dst < AUDIO_BUS_LENGTH
        &&& 0 <= self.phase <= FX_ONE
        &&& self.env_state.wf()
        &&& table_wf(self.wavetable@)
        &&& self.ci < NUM_CONTROL_BLOCKS
    }

    /// A fresh drum hit into the dry bus: phase zero, envelope `On` at full
    /// velocity and not held, so it releases by itself.
    pub fn new(wavetable: Vec<i64>, ci: usize) -> (r: DrumSynthState)
        requires
            table_wf(wavetable@),
            ci < NUM_CONTROL_BLOCKS,
        ensures
            r.wf(),
            r.dst() == BUS_DRY,
            r.phase() == 0,
            r.env() == (EnvState::On { t_ns: 0, amp: 0, vel: FX_ONE, hold: false }),
            r.table() == wavetable@,
            r.ci() == ci,
    {
        DrumSynthState {
            dst: BUS_DRY,
            phase: 0,
            env_state: EnvState::On { t_ns: 0, amp: 0, vel: FX_ONE, hold: false },
            wavetable,
            ci,
        }
    }

    /// One block with known parameters: per-sample contributions into the
    /// destination bus, phase and envelope ending at the block fold, the
    /// result reporting whether the drum survived.
    fn ctl_run(&mut self, bus: &mut AudioBusses, tick_ns: i64, ctl: &DrumControlBlock) -> (r: bool)
        requires
            old(self).wf(),
            busses_wf(*old(bus)),
            0 < tick_ns <= TICK_MAX,
        ensures
            final(self).wf(),
            final(self).dst() == old(self).dst(),
            final(self).table() == old(self).table(),
            final(self).ci() == old(self).ci(),
            busses_wf(*final(bus)),
            final(bus)@.len() == old(bus)@.len(),
            block_len(*final(bus)) == block_len(*old(bus)),
            forall|i: int|
                0 <= i < old(bus)@.len() && i != old(self).dst() ==> final(bus)@[i] == old(
                    bus,
                )@[i],
            ({
                let adsr = adsr_clamp_spec(ctl.adsr);
                let n = block_len(*old(bus));
                let fold = drum_fold(
                    old(self).phase(),
                    old(self).env(),
                    adsr,
                    *ctl,
                    tick_ns as int,
                    n as nat,
                );
                &&& final(self).phase() == fold.0
                &&& final(self).env() == fold.1
                &&& r == fold.2
                &&& forall|j: int|
                    0 <= j < n ==> final(bus)@[old(self).dst()]@[j] as int == drum_contribution(
                        old(self).table(),
                        old(self).phase(),
                        old(self).env(),
                        adsr,
                        *ctl,
                        tick_ns as int,
                        old(bus)@[old(self).dst()]@[j],
                        j,
                    )
            }),
    {
        let adsr = adsr_clamp(&ctl.adsr);
        let n = bus[self.dst].len();
        let mut j: usize = 0;
        while j < n
            invariant
                self.wf(),
                self.dst == old(self).dst,
                self.wavetable@ == old(self).wavetable@,
                self.ci == old(self).ci,
                busses_wf(*bus),
                bus@.len() == old(bus)@.len(),
                block_len(*bus) == block_len(*old(bus)),
                n == block_len(*bus),
                j <= n,
                0 < tick_ns <= TICK_MAX,
                adsr == adsr_clamp_spec(ctl.adsr),
                adsr.wf(),
                ({
                    let fold = drum_fold(
                        old(self).phase(),
                        old(self).env(),
                        adsr,
                        *ctl,
                        tick_ns as int,
                        j as nat,
                    );
                    &&& self.phase() == fold.0
                    &&& self.env() == fold.1
                    &&& fold.2
                }),
                forall|i: int|
                    0 <= i < bus@.len() && i != self.dst() ==> bus@[i] == old(bus)@[i],
                forall|jj: int| j <= jj < n ==> bus@[self.dst()]@[jj] == old(bus)@[self.dst()]@[jj],
                forall|jj: int|
                    0 <= jj < j ==> bus@[self.dst()]@[jj] as int == drum_contribution(
                        old(self).table(),
                        old(self).phase(),
                        old(self).env(),
                        adsr,
                        *ctl,
                        tick_ns as int,
                        old(bus)@[self.dst()]@[jj],
                        jj,
                    ),
            decreases n - j,
        {
            let ghost pre_phase = self.phase();
            let ghost pre_env = self.env_state;
            let v = table_lookup(&self.wavetable, self.phase);
            let scale = self.env_state.amp(&adsr);
            let vol = fx_clamp(ctl.vol);
            let prev = bus[self.dst][j];
            bus[self.dst][j] = fx_add(prev, fx_mul(fx_mul(fx_mul(DRUM_LEVEL, v), scale), vol));
            self.phase = drum_phase_advance(self.phase, &adsr, &self.env_state, ctl);
            let keep = self.env_state.advance(tick_ns, &adsr);
            proof {
                let p0 = old(self).phase();
                let e0 = old(self).env();
                let t = tick_ns as int;
                assert(((j + 1) as nat - 1) as nat == j as nat);
                assert(drum_fold(p0, e0, adsr, *ctl, t, j as nat) == (pre_phase, pre_env, true));
                assert(drum_fold(p0, e0, adsr, *ctl, t, (j + 1) as nat) == (
                    self.phase(),
                    self.env_state,
                    keep,
                ));
                assert(bus@[self.dst()]@[j as int] as int == drum_contribution(
                    old(self).table(),
                    p0,
                    e0,
                    adsr,
                    *ctl,
                    t,
                    old(bus)@[self.dst()]@[j as int],
                    j as int,
                ));
            }
            if !keep {
                proof {
                    let p0 = old(self).phase();
                    let e0 = old(self).env();
                    let t = tick_ns as int;
                    lemma_drum_fold_frozen(p0, e0, adsr, *ctl, t, (j + 1) as nat, n as nat);
                    assert forall|jj: int| 0 <= jj < n implies bus@[self.dst()]@[jj] as int
                        == drum_contribution(
                        old(self).table(),
                        p0,
                        e0,
                        adsr,
                        *ctl,
                        t,
                        old(bus)@[self.dst()]@[jj],
                        jj,
                    ) by {
                        if jj > j {
                            lemma_drum_fold_frozen(p0, e0, adsr, *ctl, t, (j + 1) as nat, jj as nat);
                        }
                    }
                }
                return false;
            }
            j += 1;
        }
        true
    }

    /// One render block: look the parameters up in the control-block store.
    /// A missing or wrong-variant slot is graceful degradation during hot
    /// reconfiguration: the drum renders nothing, changes nothing and
    /// reports `true`, so it survives until its block returns.  Otherwise
    /// run with those parameters.
    pub fn run(&mut self, bus: &mut AudioBusses, tick_ns: i64, ctl: &ControlBlocks) -> (r: bool)
        requires
            old(self).wf(),
            busses_wf(*old(bus)),
            0 < tick_ns <= TICK_MAX,
            ctl@.len() == NUM_CONTROL_BLOCKS,
        ensures
            final(self).wf(),
            busses_wf(*final(bus)),
            final(bus)@.len() == old(bus)@.len(),
            block_len(*final(bus)) == block_len(*old(bus)),
            match ctl@[old(self).ci()] {
                Some(ControlBlock::Drum(cb)) => drum_run_rel(
                    *old(self),
                    *final(self),
                    *old(bus),
                    *final(bus),
                    tick_ns as int,
                    cb,
                    r,
                ),
                _ => r == true && final(bus)@ == old(bus)@ && *final(self) == *old(self),
            },
    {
        match &ctl[self.ci] {
            Some(ControlBlock::Drum(cb)) => {
                let cb = *cb;
                self.ctl_run(bus, tick_ns, &cb)
            },
            _ => true,
        }
    }
}

/// How one block of [`DrumSynthState::ctl_run`] relates the old state to the
/// new.
pub open spec fn drum_run_rel(
    pre: DrumSynthState,
    post: DrumSynthState,
    bus_pre: AudioBusses,
    bus_post: AudioBusses,
    tick: int,
    cb: DrumControlBlock,
    r: bool,
) -> bool {
    let adsr = adsr_clamp_spec(cb.adsr);
    let n = block_len(bus_pre);
    let fold = drum_fold(pre.phase(), pre.env(), adsr, cb, tick, n as nat);
    &&& post.dst() == pre.dst()
    &&& post.table() == pre.table()
    &&& post.ci() == pre.ci()
    &&& post.phase() == fold.0
    &&& post.env() == fold.1
    &&& r == fold.2
    &&& forall|i: int| 0 <= i < bus_pre@.len() && i != pre.dst() ==> bus_post@[i] == bus_pre@[i]
    &&& forall|j: int|
        0 <= j < n ==> bus_post@[pre.dst()]@[j] as int == drum_contribution(
            pre.table(),
            pre.phase(),
            pre.env(),
            adsr,
            cb,
            tick,
            bus_pre@[pre.dst()]@[j],
            j,
        )
}

/// Once dead, the fold stays frozen.
proof fn lemma_drum_fold_frozen(
    phase: int,
    env: EnvState,
    adsr: Adsr,
    cb: DrumControlBlock,
    tick: int,
    m: nat,
    n: nat,
)
    requires
        m <= n,
        !drum_fold(phase, env, adsr, cb, tick, m).2,
    ensures
        drum_fold(phase, env, adsr, cb, tick, n) == drum_fold(phase, env, adsr, cb, tick, m),
    decreases n,
{
    if n > m {
        lemma_drum_fold_frozen(phase, env, adsr, cb, tick, m, (n - 1) as nat);
    }
}

/// The glided frequency stays within the accepted range.
proof fn lemma_drum_freq_bounded(adsr: Adsr, env: EnvState, cb: DrumControlBlock)
    requires
        adsr.wf(),
        env.wf(),
    ensures
        0 <= glide_pos(adsr, env) <= FX_ONE,
        0 <= drum_freq(adsr, env, cb) <= FREQ_MAX,
{
    let alen = adsr.attack_ns + adsr.decay_ns;
    let a = glide_pos(adsr, env);
    if a != FX_ONE {
        let t = match env {
            EnvState::On { t_ns, .. } => t_ns as int,
            EnvState::Release { .. } => alen,
        };
        assert(0 <= t * FX_ONE <= alen * (FX_ONE as int)) by (nonlinear_arith)
            requires
                0 <= t <= alen,
        ;
        vstd::arithmetic::div_mod::lemma_div_is_ordered(t * FX_ONE, alen * (FX_ONE as int), alen);
        vstd::arithmetic::mul::lemma_mul_is_commutative(alen, FX_ONE as int);
        vstd::arithmetic::div_mod::lemma_div_multiples_vanish(FX_ONE as int, alen);
        vstd::arithmetic::div_mod::lemma_div_is_ordered(0, t * FX_ONE, alen);
    }
    let f1 = clamp_freq(cb.freq_hz as int);
    let f2 = clamp_freq(cb.freq2_hz as int);
    assert(0 <= a * f2 + (FX_ONE - a) * f1 <= FX_ONE * (FREQ_MAX as int)) by (nonlinear_arith)
        requires
            0 <= a <= FX_ONE as int,
            0 <= f1 <= FREQ_MAX as int,
            0 <= f2 <= FREQ_MAX as int,
    ;
    vstd::arithmetic::div_mod::lemma_div_is_ordered(
        a * f2 + (FX_ONE - a) * f1,
        (FX_ONE as int) * (FREQ_MAX as int),
        FX_ONE as int,
    );
    vstd::arithmetic::div_mod::lemma_div_multiples_vanish(FREQ_MAX as int, FX_ONE as int);
    vstd::arithmetic::div_mod::lemma_div_is_ordered(0, a * f2 + (FX_ONE - a) * f1, FX_ONE as int);
}

/// Advance the drum phase by one sample at the glided frequency.
fn drum_phase_advance(phase: i64, adsr: &Adsr, env: &EnvState, cb: &DrumControlBlock) -> (r: i64)
    requires
        0 <= phase <= FX_ONE,
        adsr.wf(),
        env.wf(),
    ensures
        r as int == drum_phase_step(phase as int, *adsr, *env, *cb),
        0 <= r <= FX_ONE,
{
    proof {
        lemma_drum_freq_bounded(*adsr, *env, *cb);
    }
    let alen: i64 = adsr.attack_ns + adsr.decay_ns;
    let t: i64 = match *env {
        EnvState::On { t_ns, .. } => t_ns,
        EnvState::Release { .. } => alen,
    };
    let a: i64 = if alen == 0 || t >= alen {
        FX_ONE
    } else {
        (((t as u64) * (FX_ONE as u64)) / (alen as u64)) as i64
    };
    let f1 = clamp_freq_exec(cb.freq_hz);
    let f2 = clamp_freq_exec(cb.freq2_hz);
    let eff: i64 = (((a as u128) * (f2 as u128) + ((FX_ONE - a) as u128) * (f1 as u128)) / (
    FX_ONE as u128)) as i64;
    let inc: i64 = (((eff as u64) / (TABLE_SIZE as u64)) / (SAMPLE_RATE_HZ as u64)) as i64;
    proof {
        vstd::arithmetic::div_mod::lemma_div_is_ordered(
            drum_freq(*adsr, *env, *cb) / (TABLE_SIZE as int),
            drum_freq(*adsr, *env, *cb),
            SAMPLE_RATE_HZ as int,
        );
        vstd::arithmetic::div_mod::lemma_div_is_ordered_by_denominator(
            drum_freq(*adsr, *env, *cb),
            1,
            TABLE_SIZE as int,
        );
        vstd::arithmetic::div_mod::lemma_div_is_ordered(
            drum_freq(*adsr, *env, *cb),
            FREQ_MAX as int,
            SAMPLE_RATE_HZ as int,
        );
        vstd::arithmetic::div_mod::lemma_div_multiples_vanish(FX_ONE as int, SAMPLE_RATE_HZ as int);
        vstd::arithmetic::div_mod::lemma_div_is_ordered(
            0,
            drum_freq(*adsr, *env, *cb) / (TABLE_SIZE as int),
            SAMPLE_RATE_HZ as int,
        );
    }
    let np = phase + inc;
    if np > FX_ONE {
        np - FX_ONE
    } else {
        np
    }
}

/// Push a frequency into `[0, FREQ_MAX]`.
fn clamp_freq_exec(x: i64) -> (r: i64)
    ensures
        r as int == clamp_freq(x as int),
        0 <= r <= FREQ_MAX,
{
    if x < 0 {
        0
    } else if x > FREQ_MAX {
        FREQ_MAX
    } else {
        x
    }
}

} // verus!
