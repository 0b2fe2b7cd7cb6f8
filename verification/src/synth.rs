//! The per-block render loop: silence every bus, then walk the fixed ugen
//! list in registration order, each ugen reading buses its predecessors
//! wrote this same block.  Also the conversion of the out bus into the
//! interleaved integer samples the hardware consumes.

use vstd::prelude::*;

use crate::consts::{FX_ONE, TICK_NS};
use crate::fx::abs_int;
use crate::state::{block_len, busses_wf, AudioBusses, ControlBlock, State, SynthMessage};
use crate::ugen::{ugen_run_rel, UgenState};

verus! {

/// A silent bus set of the right shape.
pub open spec fn busses_zeroed(b: AudioBusses, block: int) -> bool {
    &&& busses_wf(b)
    &&& block_len(b) == block
    &&& forall|i: int, j: int| 0 <= i < b@.len() && 0 <= j < block ==> b@[i]@[j] == 0i64
}

/// One render block as a chain: starting from silence, every fixed ugen ran
/// once in registration order, each relating the bus set and telemetry queue
/// it was given to the ones it left behind, by its own block relation.
pub open spec fn ugen_chain_ok(
    pre_ugens: Seq<UgenState>,
    post_ugens: Seq<UgenState>,
    chain: Seq<AudioBusses>,
    och: Seq<Seq<SynthMessage>>,
    rs: Seq<bool>,
    tick: int,
    ctl: Seq<Option<ControlBlock>>,
) -> bool {
    &&& post_ugens.len() == pre_ugens.len()
    &&& chain.len() == pre_ugens.len() + 1
    &&& och.len() == pre_ugens.len() + 1
    &&& rs.len() == pre_ugens.len()
    &&& forall|i: int, j: int|
        #![trigger chain[i], chain[j]]
        0 <= i < pre_ugens.len() && j == i + 1 ==> ugen_run_rel(
            pre_ugens[i],
            post_ugens[i],
            chain[i],
            chain[j],
            och[i],
            och[j],
            tick,
            ctl,
            rs[i],
        )
}

/// Output scaling: the gain applied to the out bus before conversion.
pub const OUT_GAIN: i64 = 14;

/// Largest magnitude of a hardware sample.
pub const I16_MAX: i64 = 32_767;

/// The render loop; it owns no state of its own, only the right to walk the
/// shared state one block at a time.
pub struct Synth;

impl Synth {
    pub fn new() -> (r: Synth)
    {
        Synth
    }

    /// Render one block: silence every bus, then run each fixed ugen once in
    /// registration order, at the nominal tick length.  The whole block is a
    /// chain: the first ugen reads silent buses, every later one reads the
    /// buses its predecessor left behind — so a downstream effect sees what
    /// an upstream ugen wrote this same block — and the final bus set and
    /// telemetry queue are the chain's last links.
    pub fn synth_buf(&mut self, s: &mut State)
        requires
            old(s).wf(),
        ensures
            final(s).wf(),
            final(s).going == old(s).going,
            final(s).sequencer == old(s).sequencer,
            final(s).control_blocks == old(s).control_blocks,
            final(s).wavetables == old(s).wavetables,
            final(s).fixed_ugens@.len() == old(s).fixed_ugens@.len(),
            block_len(final(s).audio_bus) == block_len(old(s).audio_bus),
            old(s).outbox@.is_prefix_of(final(s).outbox@),
            exists|chain: Seq<AudioBusses>, och: Seq<Seq<SynthMessage>>, rs: Seq<bool>|
                {
                    &&& #[trigger] ugen_chain_ok(
                        old(s).fixed_ugens@,
                        final(s).fixed_ugens@,
                        chain,
                        och,
                        rs,
                        TICK_NS as int,
                        old(s).control_blocks@,
                    )
                    &&& busses_zeroed(chain[0], block_len(old(s).audio_bus))
                    &&& chain[chain.len() - 1] == final(s).audio_bus
                    &&& och[0] == old(s).outbox@
                    &&& och[och.len() - 1] == final(s).outbox@
                },
    {
        crate::state::zero_busses(&mut s.audio_bus);
        let nu = s.fixed_ugens.len();
        let ghost ctl0 = s.control_blocks@;
        let ghost mut chain: Seq<AudioBusses> = seq![s.audio_bus];
        let ghost mut och: Seq<Seq<SynthMessage>> = seq![s.outbox@];
        let ghost mut rs: Seq<bool> = Seq::empty();
        let mut i: usize = 0;
        while i < nu
            invariant
                s.wf(),
                s.going == old(s).going,
                s.sequencer == old(s).sequencer,
                s.control_blocks == old(s).control_blocks,
                ctl0 == old(s).control_blocks@,
                s.wavetables == old(s).wavetables,
                nu == s.fixed_ugens@.len() == old(s).fixed_ugens@.len(),
                block_len(s.audio_bus) == block_len(old(s).audio_bus),
                old(s).outbox@.is_prefix_of(s.outbox@),
                i <= nu,
                chain.len() == i + 1,
                och.len() == i + 1,
                rs.len() == i,
                busses_zeroed(chain[0], block_len(old(s).audio_bus)),
                chain[chain.len() - 1] == s.audio_bus,
                och[0] == old(s).outbox@,
                och[och.len() - 1] == s.outbox@,
                forall|k: int| i <= k < nu ==> s.fixed_ugens@[k] == old(s).fixed_ugens@[k],
                forall|k: int, j: int|
                    #![trigger chain[k], chain[j]]
                    0 <= k < i && j == k + 1 ==> ugen_run_rel(
                        old(s).fixed_ugens@[k],
                        s.fixed_ugens@[k],
                        chain[k],
                        chain[j],
                        och[k],
                        och[j],
                        TICK_NS as int,
                        ctl0,
                        rs[k],
                    ),
            decreases nu - i,
        {
            let mut slot = crate::ugen::UgenState::Gain(crate::gain::GainState::new(0, 0, 0));
            core::mem::swap(&mut slot, &mut s.fixed_ugens[i]);
            let keep = slot.run(&mut s.audio_bus, &mut s.outbox, TICK_NS, &s.control_blocks);
            s.fixed_ugens[i] = slot;
            proof {
                chain = chain.push(s.audio_bus);
                och = och.push(s.outbox@);
                rs = rs.push(keep);
                assert(chain[i + 1] == s.audio_bus);
                assert(ugen_run_rel(
                    old(s).fixed_ugens@[i as int],
                    s.fixed_ugens@[i as int],
                    chain[i as int],
                    chain[i + 1],
                    och[i as int],
                    och[i + 1],
                    TICK_NS as int,
                    ctl0,
                    rs[i as int],
                ));
            }
            i += 1;
        }
        proof {
            assert(ugen_chain_ok(
                old(s).fixed_ugens@,
                s.fixed_ugens@,
                chain,
                och,
                rs,
                TICK_NS as int,
                ctl0,
            ));
        }
    }
}

/// The hardware sample a fixed-point bus sample maps to: scaled by
/// [`OUT_GAIN`] and the 16-bit full scale, then clamped into the 16-bit
/// range; the quotient is taken on magnitudes, so it rounds toward zero.
pub open spec fn out_sample_spec(x: int) -> int {
    let m = (abs_int(x) * (OUT_GAIN * I16_MAX)) / (FX_ONE as int);
    let c = if m > I16_MAX {
        I16_MAX as int
    } else {
        m
    };
    if x < 0 {
        -c
    } else {
        c
    }
}

/// Convert one rendered bus into interleaved stereo hardware samples: each
/// mono sample appears once per channel, scaled and clamped.
pub fn interleave_stereo(bus_row: &Vec<i64>) -> (out: Vec<i16>)
    requires
        forall|j: int| 0 <= j < bus_row@.len() ==> crate::fx::fx_in_range(#[trigger] bus_row@[j] as int),
        bus_row@.len() < 1_000_000_000,
    ensures
        out@.len() == 2 * bus_row@.len(),
        forall|j: int|
            0 <= j < bus_row@.len() ==> out@[2 * j] as int == out_sample_spec(
                #[trigger] bus_row@[j] as int,
            ) && out@[2 * j + 1] as int == out_sample_spec(bus_row@[j] as int),
{
    let n = bus_row.len();
    let mut out: Vec<i16> = Vec::new();
    let mut j: usize = 0;
    while j < n
        invariant
            n == bus_row@.len(),
            n < 1_000_000_000,
            forall|t: int| 0 <= t < n ==> crate::fx::fx_in_range(#[trigger] bus_row@[t] as int),
            j <= n,
            out@.len() == 2 * j,
            forall|t: int|
                0 <= t < j ==> out@[2 * t] as int == out_sample_spec(#[trigger] bus_row@[t] as int)
                    && out@[2 * t + 1] as int == out_sample_spec(bus_row@[t] as int),
        decreases n - j,
    {
        let v = out_sample(bus_row[j]);
        out.push(v);
        out.push(v);
        j += 1;
    }
    out
}

/// Convert one fixed-point sample into a hardware sample.
pub fn out_sample(x: i64) -> (r: i16)
    requires
        crate::fx::fx_in_range(x as int),
    ensures
        r as int == out_sample_spec(x as int),
{
    let neg = x < 0;
    let m: u64 = if x < 0 {
        (-x) as u64
    } else {
        x as u64
    };
    proof {
        assert((m as int) * ((OUT_GAIN * I16_MAX) as int) <= 1_000_000_000_000int * 458_738int)
            by (nonlinear_arith)
            requires
                0 <= m as int <= 1_000_000_000_000int,
        ;
        vstd::arithmetic::div_mod::lemma_div_is_ordered(
            0,
            (m as int) * (OUT_GAIN * I16_MAX) as int,
            FX_ONE as int,
        );
    }
    let scaled: u64 = (m * ((OUT_GAIN * I16_MAX) as u64)) / (FX_ONE as u64);
    let c: i16 = if scaled > (I16_MAX as u64) {
        I16_MAX as i16
    } else {
        scaled as i16
    };
    if neg {
        -c
    } else {
        c
    }
}

/// The render loop adds one telemetry kind of its own: none — everything in
/// the outbox after a block beyond what was there before came from the
/// metering ugens of the list.
pub fn drain_outbox(s: &mut State) -> (msgs: Vec<SynthMessage>)
    requires
        old(s).wf(),
    ensures
        final(s).wf(),
        msgs@ == old(s).outbox@,
        final(s).outbox@.len() == 0,
        final(s).going == old(s).going,
        final(s).fixed_ugens == old(s).fixed_ugens,
        final(s).audio_bus == old(s).audio_bus,
        final(s).sequencer == old(s).sequencer,
        final(s).control_blocks == old(s).control_blocks,
    {
    let mut msgs: Vec<SynthMessage> = Vec::new();
    core::mem::swap(&mut msgs, &mut s.outbox);
    msgs
}

} // verus!
