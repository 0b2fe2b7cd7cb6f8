use synth_core::allpass::{AllpassControlBlock, AllpassState};
use synth_core::consts::{FX_ONE, NUM_CONTROL_BLOCKS, TICK_NS};
use synth_core::drum::{drum_adsr, DrumControlBlock};
use synth_core::fx::{fx_add, fx_clamp, fx_mul, fx_sub, isqrt_u64};
use synth_core::gain::{GainControlBlock, GainState};
use synth_core::lowpass::{LowpassState, Tap, TapType};
use synth_core::reverb::ReverbState;
use synth_core::sequencer::new_drum_state;
use synth_core::state::{new_busses, ControlBlock, ControlBlocks};
use synth_core::ugen_group::UgenGroupState;
use synth_core::wavetables::{table_lookup, Wavetables};

fn empty_ctl() -> ControlBlocks {
    let mut ctl: ControlBlocks = Vec::new();
    for _ in 0..NUM_CONTROL_BLOCKS {
        ctl.push(None);
    }
    ctl
}

#[test]
fn allpass_implements_the_schroeder_identity() {
    // With gain 0.7, input 1.0 and a tapped history of 0.5, the proper
    // allpass output is -g * dry + (1 - g * g) * tap
    //                 = -0.7 * 1.0 + (1 - 0.49) * 0.5 = -0.445.
    let mut ctl = empty_ctl();
    ctl[3] = Some(ControlBlock::All(AllpassControlBlock {
        gain: 700_000,
        delay: 1,
        naive: false,
    }));
    let mut ap = AllpassState::new(1, 2, 3);
    let mut bus = new_busses(1);

    // first block: dry 0.5 lands in the history (empty history taps zero)
    bus[1][0] = 500_000;
    assert!(ap.run(&mut bus, &ctl));

    // second block: dry 1.0 taps the 0.5 recorded one sample earlier
    bus[1][0] = 1_000_000;
    assert!(ap.run(&mut bus, &ctl));
    assert_eq!(bus[2][0], -445_000);
}

#[test]
fn allpass_naive_mode_emits_the_comb_sum() {
    let mut ctl = empty_ctl();
    ctl[3] = Some(ControlBlock::All(AllpassControlBlock {
        gain: 700_000,
        delay: 1,
        naive: true,
    }));
    let mut ap = AllpassState::new(1, 2, 3);
    let mut bus = new_busses(1);
    bus[1][0] = 500_000;
    assert!(ap.run(&mut bus, &ctl));
    bus[1][0] = 1_000_000;
    assert!(ap.run(&mut bus, &ctl));
    // naive output: dry + g * tap = 1.0 + 0.7 * 0.5 = 1.35
    assert_eq!(bus[2][0], 1_350_000);
}

#[test]
fn allpass_without_control_block_is_silent_and_kept() {
    let ctl = empty_ctl();
    let mut ap = AllpassState::new(1, 2, 3);
    let mut bus = new_busses(4);
    bus[1][0] = 500_000;
    assert!(ap.run(&mut bus, &ctl));
    assert_eq!(bus[2][0], 0);
}

#[test]
fn gain_scales_its_source_bus() {
    let mut ctl = empty_ctl();
    ctl[5] = Some(ControlBlock::Gain(GainControlBlock { scale: 2_000_000 }));
    let mut g = GainState::new(1, 2, 5);
    let mut bus = new_busses(3);
    bus[1][0] = 100_000;
    bus[1][1] = -250_000;
    bus[1][2] = 0;
    assert!(g.run(&mut bus, &ctl));
    assert_eq!(bus[2][0], 200_000);
    assert_eq!(bus[2][1], -500_000);
    assert_eq!(bus[2][2], 0);
}

#[test]
fn gain_with_wrong_variant_is_silent_and_kept() {
    let mut ctl = empty_ctl();
    ctl[5] = Some(ControlBlock::All(AllpassControlBlock { gain: 0, delay: 0, naive: true }));
    let mut g = GainState::new(1, 2, 5);
    let mut bus = new_busses(2);
    bus[1][0] = 100_000;
    assert!(g.run(&mut bus, &ctl));
    assert_eq!(bus[2][0], 0);
}

#[test]
fn lowpass_identity_tap_passes_the_input_through() {
    // one input tap at offset zero with weight one and no jitter
    let mut lp = LowpassState::new(1, 2);
    let taps = vec![Tap { tp: TapType::Input, pos: 0, weight: FX_ONE }];
    let wet = lp.sample(123_456, &taps, 0);
    assert_eq!(wet, 123_456);
}

#[test]
fn lowpass_rec_tap_reads_its_own_past_output() {
    let mut lp = LowpassState::new(1, 2);
    let taps = vec![
        Tap { tp: TapType::Input, pos: 0, weight: FX_ONE },
        Tap { tp: TapType::Rec, pos: 1, weight: 500_000 },
    ];
    let w0 = lp.sample(1_000_000, &taps, 0);
    assert_eq!(w0, 1_000_000);
    // second sample: input 0 plus half of the previous output
    let w1 = lp.sample(0, &taps, 0);
    assert_eq!(w1, 500_000);
}

#[test]
fn reverb_fully_dry_mix_passes_the_input_through() {
    let mut rv = ReverbState::new(1, 2);
    let out = rv.sample(321_000, 500_000, 0);
    assert_eq!(out, 321_000);
}

#[test]
fn reverb_fully_wet_mix_is_initially_silent() {
    // an empty history diffuses nothing on the first sample
    let mut rv = ReverbState::new(1, 2);
    let out = rv.sample(321_000, 500_000, FX_ONE);
    assert_eq!(out, 0);
}

#[test]
fn fixed_point_operations_saturate_and_scale() {
    assert_eq!(fx_mul(500_000, 500_000), 250_000);
    assert_eq!(fx_mul(-700_000, 1_000_000), -700_000);
    assert_eq!(fx_add(1_000_000_000_000, 1_000_000_000_000), 1_000_000_000_000);
    assert_eq!(fx_sub(-1_000_000_000_000, 1_000_000_000_000), -1_000_000_000_000);
    assert_eq!(fx_clamp(2_000_000_000_000), 1_000_000_000_000);
}

#[test]
fn integer_square_root_brackets_its_argument() {
    assert_eq!(isqrt_u64(0), 0);
    assert_eq!(isqrt_u64(1), 1);
    assert_eq!(isqrt_u64(999_999), 999);
    assert_eq!(isqrt_u64(1_000_000), 1_000);
    assert_eq!(isqrt_u64(u64::MAX), 4_294_967_295);
}

#[test]
fn wavetables_are_closed_and_bounded() {
    let wt = Wavetables::new();
    for t in [
        &wt.saw_wavetable,
        &wt.sin_wavetable,
        &wt.tri_wavetable,
        &wt.sqr_wavetable,
        &wt.noise_wavetable,
    ] {
        assert_eq!(t.len(), 513);
        assert_eq!(t[512], t[0]);
        for &v in t.iter() {
            assert!(-FX_ONE <= v && v <= FX_ONE);
        }
    }
}

#[test]
fn table_lookup_interpolates_and_clamps_at_the_end() {
    let wt = Wavetables::new();
    // phase 0 reads the first entry; phase 1 clamps to the (equal) last entry
    assert_eq!(table_lookup(&wt.sqr_wavetable, 0), wt.sqr_wavetable[0]);
    assert_eq!(table_lookup(&wt.sqr_wavetable, FX_ONE), wt.sqr_wavetable[512]);
}

#[test]
fn pooled_drum_survives_a_missing_control_block() {
    let wt = Wavetables::new();
    let mut group = UgenGroupState::new(0);
    group.add(new_drum_state(&wt, 10));
    let ctl = empty_ctl();
    let mut bus = new_busses(8);
    for _ in 0..20 {
        assert!(group.run(&mut bus, TICK_NS, &ctl));
    }
    assert_eq!(group.pool_len(), 1);
    assert!(group.slot_live(0));
}

#[test]
fn pooled_drum_is_freed_once_its_envelope_runs_out() {
    let wt = Wavetables::new();
    let mut group = UgenGroupState::new(0);
    group.add(new_drum_state(&wt, 10));
    let mut ctl = empty_ctl();
    ctl[10] = Some(ControlBlock::Drum(DrumControlBlock {
        vol: FX_ONE,
        freq_hz: 100_000_000,
        freq2_hz: 50_000_000,
        adsr: drum_adsr(10_000),  // one percent of the stock durations
    }));
    let mut bus = new_busses(64);
    let mut freed = false;
    for _ in 0..300 {
        group.run(&mut bus, TICK_NS, &ctl);
        if !group.slot_live(0) {
            freed = true;
            break;
        }
    }
    assert!(freed);
}
