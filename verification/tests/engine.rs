use synth_core::consts::{
    AUDIO_BUS_LENGTH, BUS_DRY, FX_ONE, NUM_CONTROL_BLOCKS, SEQ_PATTERN_LEN,
};
use synth_core::drum::drum_adsr;
use synth_core::envelope::Adsr;
use synth_core::gain::GainControlBlock;
use synth_core::midi::Message;
use synth_core::reasonable_synth::ReasonableControlBlock;
use synth_core::rng::random_below;
use synth_core::sequencer::{sequencer_tick, Sequencer};
use synth_core::state::{
    midi_reducer, reduce_web_message, ControlBlock, State, SynthMessage, WebMessage,
};
use synth_core::synth::{interleave_stereo, out_sample, Synth};
use synth_core::ugen::{UgenSpec, UgenState};
use synth_core::util::{depoison, freq_of_pitch, SynthError};

fn keyboard_state() -> State {
    let mut s = State::new(8);
    let specs = vec![
        UgenSpec::MidiManager { dst: BUS_DRY, ci: 0 },
        UgenSpec::Gain { src: BUS_DRY, dst: 0, ci: 5 },
    ];
    reduce_web_message(WebMessage::Reconfigure { specs }, &mut s).unwrap();
    reduce_web_message(
        WebMessage::SetControlBlock {
            index: 0,
            ctl: ControlBlock::Reasonable(ReasonableControlBlock {
                adsr: Adsr {
                    attack_ns: 10_000_000,
                    decay_ns: 20_000_000,
                    sustain: 500_000,
                    release_ns: 100_000_000,
                },
            }),
        },
        &mut s,
    )
    .unwrap();
    reduce_web_message(
        WebMessage::SetControlBlock {
            index: 5,
            ctl: ControlBlock::Gain(GainControlBlock { scale: FX_ONE }),
        },
        &mut s,
    )
    .unwrap();
    s
}

#[test]
fn fresh_state_renders_silence() {
    let mut s = State::new(16);
    let mut synth = Synth::new();
    synth.synth_buf(&mut s);
    for bus in s.audio_bus.iter() {
        for &v in bus.iter() {
            assert_eq!(v, 0);
        }
    }
}

#[test]
fn struck_key_makes_sound_on_the_out_bus() {
    let mut s = keyboard_state();
    midi_reducer(
        &Message::NoteOn { pitch: 69, channel: 0, velocity: 100 },
        &mut s,
    )
    .unwrap();
    let mut synth = Synth::new();
    // render a few blocks so the attack ramp has risen off zero
    for _ in 0..200 {
        synth.synth_buf(&mut s);
    }
    let mut heard = false;
    for &v in s.audio_bus[0].iter() {
        if v != 0 {
            heard = true;
        }
    }
    assert!(heard);
}

#[test]
fn midi_reducer_without_manager_reports_the_missing_manager() {
    let mut s = State::new(8);
    let r = midi_reducer(&Message::PedalOn, &mut s);
    assert_eq!(r, Err(SynthError::NoMidiManager));
}

#[test]
fn midi_echo_is_queued_only_for_subscribers() {
    let mut s = keyboard_state();
    midi_reducer(&Message::PedalOn, &mut s).unwrap();
    assert!(s.outbox.is_empty());
    s.subscribed = true;
    midi_reducer(&Message::PedalOff, &mut s).unwrap();
    assert_eq!(s.outbox.len(), 1);
    assert!(matches!(
        s.outbox[0],
        SynthMessage::Midi { msg: Message::PedalOff }
    ));
}

#[test]
fn quit_message_lowers_the_going_flag() {
    let mut s = State::new(8);
    assert!(s.going);
    reduce_web_message(WebMessage::Quit, &mut s).unwrap();
    assert!(!s.going);
}

#[test]
fn out_of_range_control_block_index_is_an_input_error() {
    let mut s = State::new(8);
    let r = reduce_web_message(
        WebMessage::SetControlBlock {
            index: NUM_CONTROL_BLOCKS,
            ctl: ControlBlock::Gain(GainControlBlock { scale: 0 }),
        },
        &mut s,
    );
    assert_eq!(r, Err(SynthError::BadIndex));
}

#[test]
fn out_of_range_sequencer_cell_is_an_input_error() {
    let mut s = State::new(8);
    let r = reduce_web_message(
        WebMessage::SetSequencer { inst: 99, pat: 0, on: true },
        &mut s,
    );
    assert_eq!(r, Err(SynthError::BadIndex));
    let mut seq = Sequencer::new();
    assert_eq!(seq.try_set(0, SEQ_PATTERN_LEN, true), Err(SynthError::BadIndex));
    assert_eq!(seq.try_set(2, 15, true), Ok(()));
}

#[test]
fn reconfigure_rejects_bad_wiring() {
    let mut s = State::new(8);
    let specs = vec![UgenSpec::Gain { src: AUDIO_BUS_LENGTH, dst: 0, ci: 0 }];
    let r = reduce_web_message(WebMessage::Reconfigure { specs }, &mut s);
    assert_eq!(r, Err(SynthError::BadIndex));
    assert_eq!(s.fixed_ugens.len(), 0);
}

#[test]
fn reconfigure_replaces_the_ugen_list_wholesale() {
    let mut s = State::new(8);
    let specs = vec![
        UgenSpec::MidiManager { dst: BUS_DRY, ci: 0 },
        UgenSpec::LowPass { src: BUS_DRY, dst: 0, ci: 1 },
        UgenSpec::Meter { src: 0 },
    ];
    reduce_web_message(WebMessage::Reconfigure { specs }, &mut s).unwrap();
    assert_eq!(s.fixed_ugens.len(), 3);
    assert!(matches!(s.fixed_ugens[0], UgenState::MidiManager(_)));
    assert!(matches!(s.fixed_ugens[1], UgenState::Lowpass(_)));
    assert!(matches!(s.fixed_ugens[2], UgenState::Meter(_)));
}

#[test]
fn sequencer_tick_spawns_drums_and_wraps_the_cursor() {
    let mut s = State::new(8);
    let specs = vec![UgenSpec::UgenGroup { dst: 0 }];
    reduce_web_message(WebMessage::Reconfigure { specs }, &mut s).unwrap();
    reduce_web_message(
        WebMessage::SetSequencer { inst: 0, pat: 0, on: true },
        &mut s,
    )
    .unwrap();
    let next = sequencer_tick(&mut s, 0);
    assert_eq!(next, 1);
    assert_eq!(sequencer_tick(&mut s, SEQ_PATTERN_LEN - 1), 0);
}

#[test]
fn drum_adsr_scales_with_duration() {
    let a = drum_adsr(FX_ONE);
    assert_eq!(a.attack_ns, 10_000_000);
    assert_eq!(a.decay_ns, 50_000_000);
    assert_eq!(a.sustain, 200_000);
    assert_eq!(a.release_ns, 200_000_000);
    let half = drum_adsr(FX_ONE / 2);
    assert_eq!(half.attack_ns, 5_000_000);
    assert_eq!(half.release_ns, 100_000_000);
}

#[test]
fn pitch_frequencies_follow_equal_temperament() {
    assert_eq!(freq_of_pitch(69), 440_000_000);
    assert_eq!(freq_of_pitch(81), 880_000_000);
    assert_eq!(freq_of_pitch(57), 220_000_000);
    // one semitone above concert pitch
    assert_eq!(freq_of_pitch(70), 440 * 1_059_463);
}

#[test]
fn depoison_translates_lock_errors() {
    let ok: Result<u32, &str> = Ok(5);
    assert_eq!(depoison(ok), Ok(5));
    let err: Result<u32, &str> = Err("poisoned");
    assert_eq!(depoison(err), Err(SynthError::Poisoned));
}

#[test]
fn random_draws_stay_below_their_bound() {
    for _ in 0..200 {
        assert!(random_below(5) < 5);
    }
}

#[test]
fn output_conversion_scales_and_clamps() {
    // 14 * 32767 / FX_ONE of a full-scale sample overflows 16 bits and clamps
    assert_eq!(out_sample(FX_ONE), 32_767);
    assert_eq!(out_sample(-FX_ONE), -32_767);
    assert_eq!(out_sample(0), 0);
    // a small sample scales linearly: 0.001 * 14 * 32767 = 458
    assert_eq!(out_sample(1_000), 458);
    let out = interleave_stereo(&vec![0, 1_000]);
    assert_eq!(out, vec![0, 0, 458, 458]);
}

#[test]
fn drum_request_lands_in_the_first_group() {
    let mut s = State::new(8);
    let specs = vec![
        UgenSpec::Gain { src: BUS_DRY, dst: 0, ci: 5 },
        UgenSpec::UgenGroup { dst: BUS_DRY },
    ];
    reduce_web_message(WebMessage::Reconfigure { specs }, &mut s).unwrap();
    reduce_web_message(WebMessage::Drum, &mut s).unwrap();
    reduce_web_message(WebMessage::Drum, &mut s).unwrap();
    match &s.fixed_ugens[1] {
        UgenState::UgenGroup(g) => {
            assert_eq!(g.pool_len(), 2);
            assert!(g.slot_live(0));
            assert!(g.slot_live(1));
        },
        _ => panic!("expected the group where it was wired"),
    }
    // the other ugen is untouched
    assert!(matches!(s.fixed_ugens[0], UgenState::Gain(_)));
}

#[test]
fn drum_request_without_a_group_changes_nothing() {
    let mut s = State::new(8);
    let specs = vec![UgenSpec::Gain { src: BUS_DRY, dst: 0, ci: 5 }];
    reduce_web_message(WebMessage::Reconfigure { specs }, &mut s).unwrap();
    reduce_web_message(WebMessage::Drum, &mut s).unwrap();
    assert_eq!(s.fixed_ugens.len(), 1);
    assert!(matches!(s.fixed_ugens[0], UgenState::Gain(_)));
}

#[test]
fn flagged_sequencer_cells_spawn_their_drums() {
    let mut s = State::new(8);
    let specs = vec![UgenSpec::UgenGroup { dst: BUS_DRY }];
    reduce_web_message(WebMessage::Reconfigure { specs }, &mut s).unwrap();
    reduce_web_message(WebMessage::SetSequencer { inst: 0, pat: 3, on: true }, &mut s).unwrap();
    reduce_web_message(WebMessage::SetSequencer { inst: 2, pat: 3, on: true }, &mut s).unwrap();
    // a step with no flags spawns nothing
    sequencer_tick(&mut s, 2);
    match &s.fixed_ugens[0] {
        UgenState::UgenGroup(g) => assert_eq!(g.pool_len(), 0),
        _ => panic!("expected the group"),
    }
    // the flagged step spawns one drum per flagged instrument
    sequencer_tick(&mut s, 3);
    match &s.fixed_ugens[0] {
        UgenState::UgenGroup(g) => {
            assert_eq!(g.pool_len(), 2);
            assert!(g.slot_live(0));
            assert!(g.slot_live(1));
        },
        _ => panic!("expected the group"),
    }
}

#[test]
fn set_control_block_stores_the_given_block() {
    let mut s = State::new(8);
    reduce_web_message(
        WebMessage::SetControlBlock {
            index: 7,
            ctl: ControlBlock::Gain(GainControlBlock { scale: 123 }),
        },
        &mut s,
    )
    .unwrap();
    match &s.control_blocks[7] {
        Some(ControlBlock::Gain(g)) => assert_eq!(g.scale, 123),
        _ => panic!("expected the stored gain block"),
    }
    assert!(s.control_blocks[6].is_none());
}
