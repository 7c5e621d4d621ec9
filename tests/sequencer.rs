use midi_sequencer::scale::Scale;
use midi_sequencer::sequencer::{MidiEvent, SeqMsg, Sequencer, StepRate};

const DIMINISHED: [u8; 8] = [2, 1, 2, 1, 2, 1, 2, 1];

fn four_steps_per_second() -> StepRate {
    StepRate { steps: 4, seconds: 1 }
}

fn set(seq: &mut Sequencer, msg: SeqMsg, now: u64) -> Vec<MidiEvent> {
    let (go_on, events) = seq.handle_message(msg, now);
    assert!(go_on);
    events
}

#[test]
fn end_to_end_four_step_rotation() {
    let mut seq = Sequencer::new(4, four_steps_per_second(), Scale::new(&DIMINISHED), 48, 0);
    // step 0 is the current step: setting it sounds degree 1 at once
    assert_eq!(set(&mut seq, SeqMsg::SetNoteInScale { step: 0, value: 1 }, 0), vec![MidiEvent::NoteOn(50)]);
    assert!(set(&mut seq, SeqMsg::SetNoteInScale { step: 1, value: 2 }, 0).is_empty());
    assert!(set(&mut seq, SeqMsg::SetNoteInScale { step: 2, value: 2 }, 0).is_empty());
    assert!(set(&mut seq, SeqMsg::SetNoteInScale { step: 3, value: 5 }, 0).is_empty());
    // start moves on to step 1 at once
    assert_eq!(
        set(&mut seq, SeqMsg::Start, 1_000),
        vec![MidiEvent::NoteOff(50), MidiEvent::NoteOn(51)]
    );
    assert_eq!(seq.current_step(), 1);
    // step 2 holds the same pitch: nothing is sent
    assert!(seq.poll(251_000).is_empty());
    assert_eq!(seq.current_step(), 2);
    assert_eq!(seq.current_note(), Some(51));
    assert_eq!(seq.poll(501_000), vec![MidiEvent::NoteOff(51), MidiEvent::NoteOn(56)]);
    assert_eq!(seq.current_step(), 3);
    assert_eq!(seq.poll(751_000), vec![MidiEvent::NoteOff(56), MidiEvent::NoteOn(50)]);
    assert_eq!(seq.current_step(), 0);
    assert_eq!(seq.poll(1_001_000), vec![MidiEvent::NoteOff(50), MidiEvent::NoteOn(51)]);
    assert_eq!(seq.current_step(), 1);
}

#[test]
fn steps_advance_only_after_a_full_period() {
    let mut seq = Sequencer::new(4, four_steps_per_second(), Scale::new(&DIMINISHED), 48, 0);
    assert!(seq.poll(1_000_000).is_empty());
    assert_eq!(seq.current_step(), 0);
    set(&mut seq, SeqMsg::Start, 0);
    assert_eq!(seq.current_step(), 1);
    assert!(seq.poll(249_999).is_empty());
    assert_eq!(seq.current_step(), 1);
    seq.poll(250_000);
    assert_eq!(seq.current_step(), 2);
    seq.poll(500_000);
    assert_eq!(seq.current_step(), 3);
    seq.poll(749_000);
    assert_eq!(seq.current_step(), 3);
    seq.poll(750_000);
    assert_eq!(seq.current_step(), 0);
    seq.poll(1_000_000);
    assert_eq!(seq.current_step(), 1);
}

#[test]
fn rate_change_applies_at_next_poll() {
    let mut seq = Sequencer::new(2, four_steps_per_second(), Scale::new(&DIMINISHED), 48, 0);
    set(&mut seq, SeqMsg::Start, 0);
    assert!(set(&mut seq, SeqMsg::SetFreq(StepRate { steps: 1, seconds: 1 }), 0).is_empty());
    assert_eq!(seq.current_step(), 1);
    seq.poll(500_000);
    assert_eq!(seq.current_step(), 1);
    seq.poll(1_000_000);
    assert_eq!(seq.current_step(), 0);
    // (16 + 32)^2 steps in 2304 seconds: one step a second
    set(&mut seq, SeqMsg::SetFreq(StepRate { steps: 48 * 48, seconds: 2304 }), 1_000_000);
    seq.poll(1_999_999);
    assert_eq!(seq.current_step(), 0);
    seq.poll(2_000_000);
    assert_eq!(seq.current_step(), 1);
}

#[test]
fn zero_rate_never_advances() {
    let mut seq = Sequencer::new(3, StepRate { steps: 0, seconds: 1 }, Scale::new(&DIMINISHED), 48, 0);
    set(&mut seq, SeqMsg::Start, 0);
    assert_eq!(seq.current_step(), 1);
    assert!(seq.poll(u64::MAX).is_empty());
    assert_eq!(seq.current_step(), 1);
}

#[test]
fn stop_sends_note_off_and_keeps_step() {
    let mut seq = Sequencer::new(4, four_steps_per_second(), Scale::new(&DIMINISHED), 48, 0);
    assert!(set(&mut seq, SeqMsg::Stop, 0).is_empty());
    set(&mut seq, SeqMsg::Start, 0);
    assert_eq!(seq.current_note(), Some(48));
    assert!(seq.is_running());
    assert_eq!(set(&mut seq, SeqMsg::Stop, 10), vec![MidiEvent::NoteOff(48)]);
    assert!(!seq.is_running());
    assert_eq!(seq.current_step(), 1);
    assert!(seq.poll(10_000_000).is_empty());
    assert_eq!(seq.current_step(), 1);
}

#[test]
fn base_note_and_scale_resound_only_on_change() {
    let mut seq = Sequencer::new(4, four_steps_per_second(), Scale::new(&DIMINISHED), 48, 0);
    set(&mut seq, SeqMsg::SetNoteInScale { step: 0, value: 3 }, 0);
    assert_eq!(seq.current_note(), Some(53));
    assert!(set(&mut seq, SeqMsg::SetBaseNote(48), 0).is_empty());
    assert_eq!(
        set(&mut seq, SeqMsg::SetBaseNote(36), 0),
        vec![MidiEvent::NoteOff(53), MidiEvent::NoteOn(41)]
    );
    // hirajoshi degree 3 is 7 semitones up
    assert_eq!(
        set(&mut seq, SeqMsg::SetScale(Scale::new(&[2, 1, 4, 1, 4])), 0),
        vec![MidiEvent::NoteOff(41), MidiEvent::NoteOn(43)]
    );
    // iwato degree 3 is 6 semitones up, egyptian 7
    set(&mut seq, SeqMsg::SetScale(Scale::new(&[1, 4, 1, 4, 2])), 0);
    assert_eq!(seq.current_note(), Some(42));
    assert_eq!(
        set(&mut seq, SeqMsg::SetScale(Scale::new(&[2, 3, 2, 3, 2])), 0),
        vec![MidiEvent::NoteOff(42), MidiEvent::NoteOn(43)]
    );
    assert!(set(&mut seq, SeqMsg::SetNoteInScale { step: 0, value: 3 }, 0).is_empty());
}

#[test]
fn cutoff_sends_control_change() {
    let mut seq = Sequencer::new(4, four_steps_per_second(), Scale::new(&DIMINISHED), 48, 0);
    let events = set(&mut seq, SeqMsg::SetCutoff(64), 0);
    assert_eq!(events, vec![MidiEvent::ControlChange(0x4A, 64)]);
    assert_eq!(events[0].to_bytes(), [0xB0, 0x4A, 64]);
    assert_eq!(seq.current_note(), None);
}

#[test]
fn kill_ends_the_loop() {
    let mut seq = Sequencer::new(4, four_steps_per_second(), Scale::new(&DIMINISHED), 48, 0);
    set(&mut seq, SeqMsg::Start, 0);
    let (go_on, events) = seq.handle_message(SeqMsg::Kill, 5);
    assert!(!go_on);
    assert!(events.is_empty());
    assert_eq!(seq.current_step(), 1);
}

#[test]
fn midi_bytes() {
    assert_eq!(MidiEvent::NoteOn(60).to_bytes(), [0x90, 60, 0x64]);
    assert_eq!(MidiEvent::NoteOff(61).to_bytes(), [0x80, 61, 0x64]);
    assert_eq!(MidiEvent::ControlChange(0x4A, 3).to_bytes(), [0xB0, 0x4A, 3]);
}

#[test]
fn new_sequencer_is_stopped_and_silent() {
    let seq = Sequencer::new(8, four_steps_per_second(), Scale::new(&DIMINISHED), 36, 100);
    assert_eq!(seq.step_count(), 8);
    assert_eq!(seq.current_step(), 0);
    assert_eq!(seq.current_note(), None);
    assert!(!seq.is_running());
}
