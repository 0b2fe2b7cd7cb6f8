use synth_core::envelope::EnvState;
use synth_core::midi::{message_of_vec, Message};
use synth_core::midi_manager::MidiManagerState;
use synth_core::notegen::NoteMode;
use synth_core::reduce::{add_gen, midi_reducer_inner, ugen_ix_of_key_state};
use synth_core::state::KeyState;
use synth_core::wavetables::Wavetables;

fn note_on(pitch: u8, velocity: u8) -> Message {
    Message::NoteOn { pitch, channel: 0, velocity }
}

fn note_off(pitch: u8) -> Message {
    Message::NoteOff { pitch, channel: 0 }
}

#[test]
fn note_on_allocates_a_fresh_held_voice() {
    let wt = Wavetables::new();
    let mut mm = MidiManagerState::new(1, 0);
    midi_reducer_inner(&note_on(69, 100), &wt, &mut mm).unwrap();
    // pitch 69 sits at key 48; its voice landed in slot 0
    assert!(matches!(mm.key_state[48], KeyState::On { ugen_ix: 0 }));
    assert_eq!(mm.notegen_state.len(), 1);
    let ng = mm.notegen_state[0].as_ref().unwrap();
    assert!(matches!(ng.get_mode(), NoteMode::Run));
    // velocity 100 scales to 100 / 1280 of full amplitude
    assert_eq!(
        ng.voice_env(),
        EnvState::On { t_ns: 0, amp: 0, vel: 78_125, hold: true },
    );
}

#[test]
fn second_note_on_reuses_the_same_voice_slot() {
    // Striking a sounding key twice allocates nothing new.
    let wt = Wavetables::new();
    let mut mm = MidiManagerState::new(1, 0);
    midi_reducer_inner(&note_on(60, 100), &wt, &mut mm).unwrap();
    let first_len = mm.notegen_state.len();
    midi_reducer_inner(&note_on(60, 64), &wt, &mut mm).unwrap();
    assert!(matches!(mm.key_state[39], KeyState::On { ugen_ix: 0 }));
    assert_eq!(mm.notegen_state.len(), first_len);
    // the voice in place was restruck at the new velocity
    let ng = mm.notegen_state[0].as_ref().unwrap();
    assert!(matches!(ng.get_mode(), NoteMode::Restrike { vel: 50_000 }));
}

#[test]
fn voice_slots_are_reused_first_fit() {
    let wt = Wavetables::new();
    let mut mm = MidiManagerState::new(1, 0);
    midi_reducer_inner(&note_on(60, 100), &wt, &mut mm).unwrap();
    midi_reducer_inner(&note_on(62, 100), &wt, &mut mm).unwrap();
    assert_eq!(mm.notegen_state.len(), 2);
    // free slot 0 by hand (as the render loop does once a voice dies)
    mm.notegen_state[0] = None;
    mm.key_state[39] = KeyState::Off;
    midi_reducer_inner(&note_on(64, 100), &wt, &mut mm).unwrap();
    assert_eq!(mm.notegen_state.len(), 2);
    assert!(matches!(mm.key_state[43], KeyState::On { ugen_ix: 0 }));
}

#[test]
fn note_off_with_pedal_down_parks_the_key_held() {
    let wt = Wavetables::new();
    let mut mm = MidiManagerState::new(1, 0);
    midi_reducer_inner(&note_on(69, 100), &wt, &mut mm).unwrap();
    midi_reducer_inner(&Message::PedalOn, &wt, &mut mm).unwrap();
    midi_reducer_inner(&note_off(69), &wt, &mut mm).unwrap();
    assert!(matches!(mm.key_state[48], KeyState::Held { ugen_ix: 0 }));
    // the voice is untouched: still running, its envelope still held On
    let ng = mm.notegen_state[0].as_ref().unwrap();
    assert!(matches!(ng.get_mode(), NoteMode::Run));
    assert!(matches!(ng.voice_env(), EnvState::On { hold: true, .. }));
}

#[test]
fn pedal_off_turns_every_held_key_off_and_releases_its_voice() {
    let wt = Wavetables::new();
    let mut mm = MidiManagerState::new(1, 0);
    midi_reducer_inner(&note_on(60, 100), &wt, &mut mm).unwrap();
    midi_reducer_inner(&note_on(64, 100), &wt, &mut mm).unwrap();
    midi_reducer_inner(&note_on(67, 100), &wt, &mut mm).unwrap();
    midi_reducer_inner(&Message::PedalOn, &wt, &mut mm).unwrap();
    midi_reducer_inner(&note_off(60), &wt, &mut mm).unwrap();
    midi_reducer_inner(&note_off(64), &wt, &mut mm).unwrap();
    assert!(matches!(mm.key_state[39], KeyState::Held { .. }));
    assert!(matches!(mm.key_state[43], KeyState::Held { .. }));
    midi_reducer_inner(&Message::PedalOff, &wt, &mut mm).unwrap();
    assert!(!mm.pedal);
    assert!(matches!(mm.key_state[39], KeyState::Off));
    assert!(matches!(mm.key_state[43], KeyState::Off));
    // the key still down stays down and its voice keeps running
    assert!(matches!(mm.key_state[46], KeyState::On { ugen_ix: 2 }));
    assert!(matches!(
        mm.notegen_state[0].as_ref().unwrap().get_mode(),
        NoteMode::Release
    ));
    assert!(matches!(
        mm.notegen_state[1].as_ref().unwrap().get_mode(),
        NoteMode::Release
    ));
    assert!(matches!(
        mm.notegen_state[2].as_ref().unwrap().get_mode(),
        NoteMode::Run
    ));
}

#[test]
fn note_off_with_pedal_up_releases_immediately() {
    let wt = Wavetables::new();
    let mut mm = MidiManagerState::new(1, 0);
    midi_reducer_inner(&note_on(69, 100), &wt, &mut mm).unwrap();
    midi_reducer_inner(&note_off(69), &wt, &mut mm).unwrap();
    assert!(matches!(mm.key_state[48], KeyState::Off));
    assert!(matches!(
        mm.notegen_state[0].as_ref().unwrap().get_mode(),
        NoteMode::Release
    ));
}

#[test]
fn note_off_on_a_silent_key_is_a_no_op() {
    let wt = Wavetables::new();
    let mut mm = MidiManagerState::new(1, 0);
    midi_reducer_inner(&note_off(69), &wt, &mut mm).unwrap();
    assert!(matches!(mm.key_state[48], KeyState::Off));
    assert_eq!(mm.notegen_state.len(), 0);
}

#[test]
fn add_gen_fills_first_free_slot_before_growing() {
    let mut pool: Vec<Option<u32>> = vec![Some(1), None, Some(3)];
    assert_eq!(add_gen(&mut pool, 2), 1);
    assert_eq!(pool, vec![Some(1), Some(2), Some(3)]);
    assert_eq!(add_gen(&mut pool, 4), 3);
    assert_eq!(pool.len(), 4);
}

#[test]
fn ugen_ix_of_key_state_reads_the_reference() {
    assert_eq!(ugen_ix_of_key_state(&KeyState::Off), None);
    assert_eq!(ugen_ix_of_key_state(&KeyState::On { ugen_ix: 7 }), Some(7));
    assert_eq!(ugen_ix_of_key_state(&KeyState::Held { ugen_ix: 2 }), Some(2));
}

#[test]
fn midi_bytes_decode_to_note_events() {
    assert_eq!(
        message_of_vec(&[0x90, 60, 100]),
        Some(Message::NoteOn { pitch: 60, channel: 0, velocity: 100 })
    );
    assert_eq!(
        message_of_vec(&[0x93, 61, 1]),
        Some(Message::NoteOn { pitch: 61, channel: 3, velocity: 1 })
    );
    assert_eq!(
        message_of_vec(&[0x80, 60, 0]),
        Some(Message::NoteOff { pitch: 60, channel: 0 })
    );
    // a note-on at velocity zero is a note-off on channel zero
    assert_eq!(
        message_of_vec(&[0x95, 62, 0]),
        Some(Message::NoteOff { pitch: 62, channel: 0 })
    );
}

#[test]
fn midi_bytes_decode_to_pedal_events() {
    assert_eq!(message_of_vec(&[0xb0, 0x40, 0x00]), Some(Message::PedalOff));
    assert_eq!(message_of_vec(&[0xb0, 0x40, 0x7f]), Some(Message::PedalOn));
    assert_eq!(message_of_vec(&[0xb0, 0x41, 0x7f]), None);
}

#[test]
fn unknown_midi_bytes_decode_to_nothing() {
    assert_eq!(message_of_vec(&[0xf8, 0, 0]), None);
    assert_eq!(message_of_vec(&[0x90, 60]), None);
    assert_eq!(message_of_vec(&[]), None);
}

fn empty_ctl() -> Vec<Option<synth_core::state::ControlBlock>> {
    let mut ctl = Vec::new();
    for _ in 0..synth_core::consts::NUM_CONTROL_BLOCKS {
        ctl.push(None);
    }
    ctl
}

#[test]
fn voice_survives_a_missing_control_block() {
    // graceful degradation: a hot-reconfiguration race empties the slot the
    // voice reads; it renders silence and stays alive, command intact
    let wt = Wavetables::new();
    let mut mm = MidiManagerState::new(1, 0);
    midi_reducer_inner(&note_on(69, 100), &wt, &mut mm).unwrap();
    let ctl = empty_ctl();
    let mut bus = synth_core::state::new_busses(8);
    for _ in 0..50 {
        assert!(mm.run(&mut bus, synth_core::consts::TICK_NS, &ctl));
    }
    let ng = mm.notegen_state[0].as_ref().unwrap();
    assert!(matches!(ng.get_mode(), NoteMode::Run));
    assert_eq!(
        ng.voice_env(),
        EnvState::On { t_ns: 0, amp: 0, vel: 78_125, hold: true },
    );
    // and the busses stayed silent
    for &v in bus[1].iter() {
        assert_eq!(v, 0);
    }
}

#[test]
fn voice_survives_a_wrong_variant_control_block() {
    let wt = Wavetables::new();
    let mut mm = MidiManagerState::new(1, 0);
    midi_reducer_inner(&note_on(60, 100), &wt, &mut mm).unwrap();
    let mut ctl = empty_ctl();
    ctl[0] = Some(synth_core::state::ControlBlock::Gain(
        synth_core::gain::GainControlBlock { scale: 0 },
    ));
    let mut bus = synth_core::state::new_busses(8);
    assert!(mm.run(&mut bus, synth_core::consts::TICK_NS, &ctl));
    assert!(mm.notegen_state[0].is_some());
}

#[test]
fn released_voice_is_freed_once_its_envelope_runs_out() {
    let wt = Wavetables::new();
    let mut mm = MidiManagerState::new(1, 0);
    midi_reducer_inner(&note_on(69, 100), &wt, &mut mm).unwrap();
    midi_reducer_inner(&note_off(69), &wt, &mut mm).unwrap();
    let mut ctl = empty_ctl();
    ctl[0] = Some(synth_core::state::ControlBlock::Reasonable(
        synth_core::reasonable_synth::ReasonableControlBlock {
            adsr: synth_core::envelope::Adsr {
                attack_ns: 1_000_000,
                decay_ns: 1_000_000,
                sustain: 500_000,
                release_ns: 100_000,
            },
        },
    ));
    let mut bus = synth_core::state::new_busses(8);
    // 8 samples per block at ~22.7 us each: the 0.1 ms release is over
    // within the first block
    assert!(mm.run(&mut bus, synth_core::consts::TICK_NS, &ctl));
    assert!(mm.notegen_state[0].is_none());
    // the key was already off, so nothing dangles
    assert!(matches!(mm.key_state[48], KeyState::Off));
}
