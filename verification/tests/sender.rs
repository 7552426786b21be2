use mks7_clap_controller::midi::{MidiBackend, MidiOutput};
use mks7_clap_controller::model::{DirtyKind, Part, State, MIDI_OUTPUT_PARAMETER_ID};
use mks7_clap_controller::sender::{
    sender_complete, sender_poll, IDLE_DELAY_MS, RETRY_DELAY_MS, SENT_DELAY_MS,
};
use mks7_clap_controller::text::same_text;

#[test]
fn output_table_starts_with_none() {
    let outputs = MidiBackend::new(vec![
        MidiOutput { unique_id: 96, name: "MKS-7 CLAP Controller Test Destination".to_owned() },
        MidiOutput { unique_id: -4, name: "Second".to_owned() },
    ]);
    assert_eq!(outputs.count(), 3);
    assert_eq!(outputs.name(0), "None");
    assert_eq!(outputs.name(1), "MKS-7 CLAP Controller Test Destination");
    assert_eq!(outputs.name(2), "Second");
    assert_eq!(outputs.name(3), "None");
    assert_eq!(outputs.unique_ids(), vec![0, 96, -4]);
    assert_eq!(outputs.unique_id(1), 96);
    assert_eq!(outputs.unique_id(2), -4);
    assert_eq!(outputs.unique_id(7), 0);
}

#[test]
fn empty_output_table_still_offers_none() {
    let outputs = MidiBackend::new(Vec::new());
    assert_eq!(outputs.count(), 1);
    assert_eq!(outputs.name(0), "None");
    assert_eq!(outputs.unique_ids(), vec![0]);
}

#[test]
fn texts_compare_by_their_characters() {
    assert!(same_text("Manual", "Manual"));
    assert!(!same_text("Manual", "manual"));
    assert!(!same_text("On", "Off"));
    assert!(same_text("", ""));
    assert!(!same_text("8'", "8"));
}

#[test]
fn sender_waits_while_no_output_is_selected() {
    let mut state = State::new(Part::Melody);
    state.apply_value(3, 64, 2);
    let mut next = 0;
    assert!(sender_poll(&mut state, &mut next, 2).is_none());
    assert!(state.has_dirty());
    assert_eq!(next, 0);
}

#[test]
fn sender_sends_to_the_selected_output_and_retries_failures() {
    let mut state = State::new(Part::Bass);
    state.apply_value(MIDI_OUTPUT_PARAMETER_ID, 1, 2);
    let mut next = 0;
    let (output, first) = sender_poll(&mut state, &mut next, 2).unwrap();
    assert_eq!(output, 1);
    assert_eq!(first.bytes, [0xf0, 0x41, 0x32, 1, 3, 0, 0xf7]);
    assert_eq!(first.kind, DirtyKind::Parameter(0));
    assert_eq!(sender_complete(&mut state, first.kind, false), RETRY_DELAY_MS);
    let mut delivered = Vec::new();
    while let Some((output, message)) = sender_poll(&mut state, &mut next, 2) {
        assert_eq!(output, 1);
        assert_eq!(sender_complete(&mut state, message.kind, true), SENT_DELAY_MS);
        delivered.push(message.kind);
    }
    assert_eq!(delivered.len(), 10);
    assert_eq!(delivered[0], DirtyKind::Parameter(1));
    assert_eq!(delivered[9], DirtyKind::Parameter(0));
    assert!(!state.has_dirty());
}

#[test]
fn sender_ignores_an_output_that_is_gone() {
    let mut state = State::new(Part::Chord);
    state.apply_value(MIDI_OUTPUT_PARAMETER_ID, 2, 3);
    let mut next = 0;
    assert!(sender_poll(&mut state, &mut next, 2).is_none());
    assert!(sender_poll(&mut state, &mut next, 3).is_some());
}

#[test]
fn sender_delays_are_fixed() {
    assert_eq!(SENT_DELAY_MS, 25);
    assert_eq!(RETRY_DELAY_MS, 5);
    assert_eq!(IDLE_DELAY_MS, 5);
}

#[test]
fn round_robin_position_may_be_any_index() {
    let mut state = State::new(Part::Bass);
    state.apply_value(4, 9, 1);
    let mut next = usize::MAX;
    let message = state.take_next_message(&mut next).unwrap();
    assert_eq!(message.kind, DirtyKind::Parameter(4));
    assert_eq!(next, 5);
    let mut next = usize::MAX;
    assert!(state.take_next_message(&mut next).is_none());
    assert_eq!(next, usize::MAX);
}

#[test]
fn pending_changes_are_exactly_what_the_sender_takes() {
    let mut state = State::new(Part::Melody);
    let mut next = 3;
    assert!(!state.has_dirty());
    assert!(state.take_next_message(&mut next).is_none());
    state.apply_value(104, 0, 1);
    state.apply_value(9, 40, 1);
    state.apply_value(100, 5, 1);
    state.mark_all_dirty();
    let mut taken = 0;
    while state.has_dirty() {
        let message = state.take_next_message(&mut next).unwrap();
        if taken == 2 {
            state.retry(message.kind);
        }
        taken += 1;
    }
    assert!(state.take_next_message(&mut next).is_none());
    assert_eq!(taken, 17);
}
