//! ADSR envelope state machine.
//!
//! An envelope is a pure function of elapsed time: a linear attack ramp from
//! the amplitude the voice already had toward its strike velocity, a linear
//! decay toward the sustain plateau, and — once released — a linear fall to
//! silence.  Times are nanoseconds, amplitudes fixed-point (see [`crate::fx`]).

use vstd::arithmetic::div_mod::{lemma_div_is_ordered, lemma_div_multiples_vanish};
use vstd::prelude::*;

use crate::consts::{FX_ONE, TICK_MAX, TIME_CAP, TIME_MAX};
use crate::fx::{fx_ramp, lemma_ramp_at_end, lemma_ramp_at_start, ramp_spec};

verus! {

/// Immutable attack/decay/sustain/release parameters: phase lengths in
/// nanoseconds, sustain as a fixed-point fraction of the strike velocity.
#[derive(Clone, Copy, Debug, PartialEq, Eq, Structural)]
pub struct Adsr {
    pub attack_ns: i64,
    pub decay_ns: i64,
    pub sustain: i64,
    pub release_ns: i64,
}

impl Adsr {
    /// Phase lengths are bounded and the sustain fraction is in `[0, 1]`.
    pub open spec fn wf(self) -> bool {
        &&& 0 <= self.attack_ns <= TIME_MAX
        &&& 0 <= self.decay_ns <= TIME_MAX
        &&& 0 <= self.release_ns <= TIME_MAX
        &&& 0 <= self.sustain <= FX_ONE
    }

    /// Combined length of the attack and decay phases.
    pub fn attack_len_ns(&self) -> (r: i64)
        requires
            self.wf(),
        ensures
            r == self.attack_ns + self.decay_ns,
    {
        self.attack_ns + self.decay_ns
    }
}

/// Where a note stands in its envelope.
///
/// `On`: sounding since `t_ns` ago; the amplitude it already had at onset is
/// `amp`, the attack peak is `vel`.  While `hold` is set the envelope never
/// leaves `On` by itself (sustain pedal).  `Release`: falling from `amp`
/// toward silence for `t_ns` so far.
#[derive(Clone, Copy, Debug, PartialEq, Eq, Structural)]
pub enum EnvState {
    On { t_ns: i64, amp: i64, vel: i64, hold: bool },
    Release { t_ns: i64, amp: i64 },
}

/// The sustain plateau: `sustain * vel`, rescaled.
pub open spec fn sustain_level(adsr: Adsr, vel: int) -> int {
    (adsr.sustain * vel) / (FX_ONE as int)
}

/// Current amplitude as a function of the envelope position alone.
pub open spec fn env_amp_spec(adsr: Adsr, env: EnvState) -> int {
    match env {
        EnvState::On { t_ns, amp, vel, .. } => if t_ns < adsr.attack_ns {
            ramp_spec(amp as int, vel as int, t_ns as int, adsr.attack_ns as int)
        } else if t_ns < adsr.attack_ns + adsr.decay_ns {
            ramp_spec(
                vel as int,
                sustain_level(adsr, vel as int),
                t_ns - adsr.attack_ns,
                adsr.decay_ns as int,
            )
        } else {
            sustain_level(adsr, vel as int)
        },
        EnvState::Release { t_ns, amp } => if adsr.release_ns <= t_ns {
            0
        } else {
            ramp_spec(amp as int, 0, t_ns as int, adsr.release_ns as int)
        },
    }
}

/// The envelope clock after one tick; it saturates at [`TIME_CAP`], far past
/// every phase boundary, so a held note cannot overflow it.
pub open spec fn advanced_clock(t: int, tick: int) -> int {
    if t + tick > TIME_CAP {
        TIME_CAP as int
    } else {
        t + tick
    }
}

/// The envelope state after one tick of `advance`.
pub open spec fn env_after_advance(adsr: Adsr, env: EnvState, tick: int) -> EnvState {
    match env {
        EnvState::On { t_ns, amp, vel, hold } => {
            let nt = advanced_clock(t_ns as int, tick);
            if !hold && nt > adsr.attack_ns + adsr.decay_ns {
                EnvState::Release { t_ns: 0, amp: sustain_level(adsr, vel as int) as i64 }
            } else {
                EnvState::On { t_ns: nt as i64, amp, vel, hold }
            }
        },
        EnvState::Release { t_ns, amp } => EnvState::Release {
            t_ns: advanced_clock(t_ns as int, tick) as i64,
            amp,
        },
    }
}

/// Whether the voice is still alive after one tick of `advance`.
pub open spec fn env_advance_keeps(adsr: Adsr, env: EnvState, tick: int) -> bool {
    match env {
        EnvState::On { t_ns, amp, vel, hold } => {
            let nt = advanced_clock(t_ns as int, tick);
            if !hold && nt > adsr.attack_ns + adsr.decay_ns {
                adsr.release_ns > 0
            } else {
                true
            }
        },
        EnvState::Release { t_ns, amp } => advanced_clock(t_ns as int, tick) <= adsr.release_ns,
    }
}

impl EnvState {
    /// Clock within bounds, amplitudes within `[0, 1]`.
    pub open spec fn wf(self) -> bool {
        match self {
            EnvState::On { t_ns, amp, vel, .. } => {
                &&& 0 <= t_ns <= TIME_CAP
                &&& 0 <= amp <= FX_ONE
                &&& 0 <= vel <= FX_ONE
            },
            EnvState::Release { t_ns, amp } => {
                &&& 0 <= t_ns <= TIME_CAP
                &&& 0 <= amp <= FX_ONE
            },
        }
    }

    /// Current amplitude of the envelope.
    pub fn amp(&self, adsr: &Adsr) -> (r: i64)
        requires
            adsr.wf(),
            self.wf(),
        ensures
            r as int == env_amp_spec(*adsr, *self),
            0 <= r <= FX_ONE,
    {
        match *self {
            EnvState::On { t_ns, amp, vel, hold: _ } => {
                if t_ns < adsr.attack_ns {
                    fx_ramp(amp, vel, t_ns, adsr.attack_ns)
                } else if t_ns < adsr.attack_ns + adsr.decay_ns {
                    let sl = sustain_amp(adsr, vel);
                    fx_ramp(vel, sl, t_ns - adsr.attack_ns, adsr.decay_ns)
                } else {
                    sustain_amp(adsr, vel)
                }
            },
            EnvState::Release { t_ns, amp } => {
                if adsr.release_ns <= t_ns {
                    0
                } else {
                    fx_ramp(amp, 0, t_ns, adsr.release_ns)
                }
            },
        }
    }

    /// Elapsed envelope time used for pitch bends of transient voices: the
    /// clock while `On`, the full attack length once released.
    pub fn time_ns(&self, adsr: &Adsr) -> (r: i64)
        requires
            adsr.wf(),
        ensures
            r as int == match *self {
                EnvState::On { t_ns, .. } => t_ns as int,
                EnvState::Release { .. } => adsr.attack_ns + adsr.decay_ns,
            },
    {
        match *self {
            EnvState::On { t_ns, .. } => t_ns,
            EnvState::Release { .. } => adsr.attack_ns + adsr.decay_ns,
        }
    }

    /// Move the envelope forward by one tick.  Returns `false` exactly when
    /// the voice should be freed: an auto-release with no release phase, or a
    /// release ramp that has run out.  A held `On` envelope never
    /// auto-releases.
    pub fn advance(&mut self, tick_ns: i64, adsr: &Adsr) -> (keep: bool)
        requires
            old(self).wf(),
            adsr.wf(),
            0 < tick_ns <= TICK_MAX,
        ensures
            *final(self) == env_after_advance(*adsr, *old(self), tick_ns as int),
            keep == env_advance_keeps(*adsr, *old(self), tick_ns as int),
            final(self).wf(),
    {
        match *self {
            EnvState::On { t_ns, amp, vel, hold } => {
                let nt = advance_clock(t_ns, tick_ns);
                if !hold && nt > adsr.attack_ns + adsr.decay_ns {
                    let sl = sustain_amp(adsr, vel);
                    *self = EnvState::Release { t_ns: 0, amp: sl };
                    adsr.release_ns > 0
                } else {
                    *self = EnvState::On { t_ns: nt, amp, vel, hold };
                    true
                }
            },
            EnvState::Release { t_ns, amp } => {
                let nt = advance_clock(t_ns, tick_ns);
                *self = EnvState::Release { t_ns: nt, amp };
                nt <= adsr.release_ns
            },
        }
    }
}

/// A time pushed into the accepted phase-length range.
pub open spec fn clamp_time(x: int) -> int {
    if x < 0 {
        0
    } else if x > TIME_MAX {
        TIME_MAX as int
    } else {
        x
    }
}

/// A fraction pushed into `[0, 1]`.
pub open spec fn clamp_unit(x: int) -> int {
    if x < 0 {
        0
    } else if x > FX_ONE {
        FX_ONE as int
    } else {
        x
    }
}

/// The parameters a ugen actually runs with: each field of a hot-swapped
/// control block pushed into its accepted range.
pub open spec fn adsr_clamp_spec(a: Adsr) -> Adsr {
    Adsr {
        attack_ns: clamp_time(a.attack_ns as int) as i64,
        decay_ns: clamp_time(a.decay_ns as int) as i64,
        sustain: clamp_unit(a.sustain as int) as i64,
        release_ns: clamp_time(a.release_ns as int) as i64,
    }
}

/// Push hot-swapped envelope parameters into their accepted ranges.
pub fn adsr_clamp(a: &Adsr) -> (r: Adsr)
    ensures
        r == adsr_clamp_spec(*a),
        r.wf(),
{
    Adsr {
        attack_ns: clamp_time_exec(a.attack_ns),
        decay_ns: clamp_time_exec(a.decay_ns),
        sustain: clamp_unit_exec(a.sustain),
        release_ns: clamp_time_exec(a.release_ns),
    }
}

/// Push a time into the accepted phase-length range.
fn clamp_time_exec(x: i64) -> (r: i64)
    ensures
        r as int == clamp_time(x as int),
{
    if x < 0 {
        0
    } else if x > TIME_MAX {
        TIME_MAX
    } else {
        x
    }
}

/// Push a fraction into `[0, 1]`.
pub fn clamp_unit_exec(x: i64) -> (r: i64)
    ensures
        r as int == clamp_unit(x as int),
{
    if x < 0 {
        0
    } else if x > FX_ONE {
        FX_ONE
    } else {
        x
    }
}

/// The sustain plateau `sustain * vel / FX_ONE`, as executable code.
fn sustain_amp(adsr: &Adsr, vel: i64) -> (r: i64)
    requires
        adsr.wf(),
        0 <= vel <= FX_ONE,
    ensures
        r as int == sustain_level(*adsr, vel as int),
        0 <= r <= FX_ONE,
{
    proof {
        lemma_sustain_level_bounded(*adsr, vel as int);
    }
    ((adsr.sustain as u128) * (vel as u128) / (FX_ONE as u128)) as i64
}

/// The sustain plateau never leaves `[0, 1]`.
pub proof fn lemma_sustain_level_bounded(adsr: Adsr, vel: int)
    requires
        adsr.wf(),
        0 <= vel <= FX_ONE,
    ensures
        0 <= sustain_level(adsr, vel) <= FX_ONE,
{
    assert(0 <= adsr.sustain * vel && adsr.sustain * vel <= FX_ONE * (FX_ONE as int))
        by (nonlinear_arith)
        requires
            0 <= adsr.sustain <= FX_ONE,
            0 <= vel <= FX_ONE,
    ;
    lemma_div_is_ordered(0, adsr.sustain * vel, FX_ONE as int);
    lemma_div_is_ordered(adsr.sustain * vel, FX_ONE * (FX_ONE as int), FX_ONE as int);
    lemma_div_multiples_vanish(FX_ONE as int, FX_ONE as int);
}

/// Advance the envelope clock, saturating at [`TIME_CAP`].
fn advance_clock(t: i64, tick: i64) -> (r: i64)
    requires
        0 <= t <= TIME_CAP,
        0 < tick <= TICK_MAX,
    ensures
        r as int == advanced_clock(t as int, tick as int),
        0 <= r <= TIME_CAP,
{
    if t + tick > TIME_CAP {
        TIME_CAP
    } else {
        t + tick
    }
}

/// The envelope amplitude is continuous at the attack → decay boundary: at
/// `t == attack_ns` the attack ramp has reached exactly `vel`, and that is
/// also the value the decay branch takes there — for every onset amplitude,
/// velocity and parameter set (with both phases of nonzero length).
pub proof fn lemma_amp_continuous_attack_decay(adsr: Adsr, amp0: i64, vel: i64, hold: bool)
    requires
        adsr.wf(),
        1 <= adsr.attack_ns,
        1 <= adsr.decay_ns,
        0 <= amp0 <= FX_ONE,
        0 <= vel <= FX_ONE,
    ensures
        ramp_spec(amp0 as int, vel as int, adsr.attack_ns as int, adsr.attack_ns as int)
            == vel as int,
        env_amp_spec(adsr, EnvState::On { t_ns: adsr.attack_ns, amp: amp0, vel, hold })
            == vel as int,
{
    lemma_ramp_at_end(amp0 as int, vel as int, adsr.attack_ns as int);
    lemma_ramp_at_start(
        vel as int,
        sustain_level(adsr, vel as int),
        adsr.decay_ns as int,
    );
}

/// The envelope amplitude is continuous at the decay → sustain boundary: at
/// `t == attack_ns + decay_ns` the decay ramp has fallen exactly to the
/// sustain plateau, the value the envelope keeps from then on.
pub proof fn lemma_amp_continuous_decay_sustain(adsr: Adsr, amp0: i64, vel: i64, hold: bool)
    requires
        adsr.wf(),
        1 <= adsr.attack_ns,
        1 <= adsr.decay_ns,
        0 <= amp0 <= FX_ONE,
        0 <= vel <= FX_ONE,
    ensures
        ramp_spec(
            vel as int,
            sustain_level(adsr, vel as int),
            adsr.decay_ns as int,
            adsr.decay_ns as int,
        ) == sustain_level(adsr, vel as int),
        env_amp_spec(
            adsr,
            EnvState::On { t_ns: (adsr.attack_ns + adsr.decay_ns) as i64, amp: amp0, vel, hold },
        ) == sustain_level(adsr, vel as int),
{
    lemma_ramp_at_end(vel as int, sustain_level(adsr, vel as int), adsr.decay_ns as int);
}

/// A held envelope never leaves `On` by itself: `advance` keeps both the
/// state's shape and the voice alive, whatever the parameters.
pub proof fn lemma_hold_never_releases(adsr: Adsr, env: EnvState, tick: int)
    requires
        adsr.wf(),
        env is On,
        env->hold,
    ensures
        env_after_advance(adsr, env, tick) is On,
        env_advance_keeps(adsr, env, tick),
{
}

} // verus!
