use mks7_clap_controller::model::{
    DirtyKind, ModulationAmount, Part, State, StateError, CHANNEL_PARAMETER_ID,
    ENV_POLARITY_PARAMETER_ID, HPF_PARAMETER_ID, MIDI_OUTPUT_PARAMETER_ID, NOISE_PARAMETER_ID,
    PULSE_PARAMETER_ID, PWM_SOURCE_PARAMETER_ID, RANGE_PARAMETER_ID, SAW_PARAMETER_ID,
    VCA_DYNAMICS_PARAMETER_ID, VCF_DYNAMICS_PARAMETER_ID, WHOLE_MODE_PARAMETER_ID,
    BASS_WAVEFORM_PARAMETER_ID,
};

/// A host value as the model takes it: rounded to a whole number.
fn step(value: f64) -> i64 {
    value.round() as i64
}

/// A host modulation amount as the model takes it.
fn modulation(amount: f64) -> ModulationAmount {
    ModulationAmount {
        key: amount.to_bits(),
        offset: (amount + 0.5).floor() as i64,
    }
}

fn value(state: &State, id: u32) -> Option<f64> {
    state.get_value(id).map(|v| v as f64)
}

#[test]
fn sender_uses_priority_coalescing_modulation_and_round_robin() {
    let mut state = State::new(Part::Chord);
    state.apply_value(4, step(96.0), 1);
    state.apply_modulation(4, modulation(2.4));
    state.apply_value(RANGE_PARAMETER_ID, step(2.0), 1);
    state.apply_value(VCF_DYNAMICS_PARAMETER_ID, step(1.0), 1);
    state.apply_value(PWM_SOURCE_PARAMETER_ID, step(1.0), 1);
    state.apply_value(WHOLE_MODE_PARAMETER_ID, step(1.0), 1);
    let mut next = 0;
    assert_eq!(
        state.take_next_message(&mut next).unwrap().bytes,
        [0xb2, 121, 127]
    );
    assert_eq!(state.take_next_message(&mut next).unwrap().bytes[4], 16);
    assert_eq!(state.take_next_message(&mut next).unwrap().bytes[4], 4);
    assert_eq!(state.take_next_message(&mut next).unwrap().bytes[4], 17);
    assert_eq!(
        state.take_next_message(&mut next).unwrap().bytes,
        [0xf0, 0x41, 0x32, 2, 5, 98, 0xf7]
    );
    assert!(state.take_next_message(&mut next).is_none());
}

#[test]
fn presence_and_authoritative_semantics_match_legacy_behavior() {
    let mut state = State::new(Part::Melody);
    state.apply_value(0, step(0.0), 1);
    assert!(!state.has_authoritative_state());
    state.apply_value(SAW_PARAMETER_ID, step(0.0), 1);
    assert!(state.has_authoritative_state());
    assert!(state.has_dirty());
    let saved = state.save(0);
    assert_eq!(saved[25], 1);
    assert_eq!(saved[28], 0);
}

#[test]
fn state_v1_through_v5_load_and_v5_round_trip() {
    let mut state = State::new(Part::Melody);
    for version in 1..=5 {
        let mut bytes = match version {
            1 => vec![0; 21],
            2 => vec![0; 25],
            3 => continue,
            4 => vec![0; 30],
            _ => vec![0; 39],
        };
        bytes[..5].copy_from_slice(&[b'M', b'K', b'S', b'7', version]);
        bytes[5] = 7;
        bytes[10] = 24;
        if version >= 4 {
            bytes[26] = 1;
            bytes[27] = 1;
        }
        state.load(&bytes, &[0]).unwrap();
        assert_eq!(value(&state, CHANNEL_PARAMETER_ID), Some(7.0));
        assert_eq!(value(&state, 4), Some(24.0));
    }
    let saved = state.save(-1234);
    let mut restored = State::new(Part::Melody);
    restored.load(&saved, &[0, -1234]).unwrap();
    assert_eq!(restored.output_index(), 1);
    assert_eq!(restored.save(-1234), saved);
}

#[test]
fn validates_part_specific_legacy_versions() {
    let mut melody = State::new(Part::Melody);
    let mut v3 = vec![0; 26];
    v3[..6].copy_from_slice(b"MKS7\x03\x01");
    assert_eq!(melody.load(&v3, &[0]), Err(StateError));
    let mut bass = State::new(Part::Bass);
    let mut v4 = vec![0; 25];
    v4[..6].copy_from_slice(b"MKS7\x04\x02");
    assert_eq!(bass.load(&v4, &[0]), Err(StateError));
    let mut chord = State::new(Part::Chord);
    let mut chord_v3 = vec![0; 26];
    chord_v3[..6].copy_from_slice(b"MKS7\x03\x03");
    chord_v3[25] = 1;
    chord.load(&chord_v3, &[0]).unwrap();
    assert_eq!(value(&chord, WHOLE_MODE_PARAMETER_ID), Some(1.0));
}

#[test]
fn parts_describe_their_parameters() {
    assert_eq!(Part::Melody.parameter_count(), 28);
    assert_eq!(Part::Chord.parameter_count(), 28);
    assert_eq!(Part::Bass.parameter_count(), 13);
    assert_eq!(Part::Melody.switch_control_count(), 11);
    assert_eq!(Part::Chord.switch_control_count(), 10);
    assert_eq!(Part::Bass.switch_control_count(), 1);
    assert_eq!(Part::Melody.default_channel(), 1);
    assert_eq!(Part::Chord.default_channel(), 3);
    assert_eq!(Part::Bass.default_channel(), 2);
    assert_eq!(Part::Melody.name(), "Melody");
    assert_eq!(Part::Chord.name(), "Chord");
    assert_eq!(Part::Bass.name(), "Bass");
    assert_eq!(Part::Melody.parameters().len(), 15);
    assert_eq!(Part::Bass.parameters().len(), 10);
    assert_eq!(Part::Bass.parameters()[4].protocol_number, 9);
    assert!(Part::Chord.supports_whole_mode());
    assert!(!Part::Melody.supports_whole_mode());
    assert!(!Part::Bass.supports_oscillator_switches());
    assert!(Part::Melody.is_melody());
    assert!(Part::Bass.is_bass());
}

#[test]
fn new_state_reads_factory_defaults() {
    let state = State::new(Part::Bass);
    assert_eq!(state.get_value(CHANNEL_PARAMETER_ID), Some(2));
    assert_eq!(state.get_value(MIDI_OUTPUT_PARAMETER_ID), Some(0));
    assert_eq!(state.get_value(9), Some(0));
    assert_eq!(state.get_value(10), None);
    assert_eq!(state.get_value(BASS_WAVEFORM_PARAMETER_ID), Some(0));
    assert_eq!(state.get_value(RANGE_PARAMETER_ID), None);
    assert_eq!(state.get_value(WHOLE_MODE_PARAMETER_ID), None);
    assert!(!state.has_dirty());
    assert!(!state.has_authoritative_state());
    let melody = State::new(Part::Melody);
    assert_eq!(melody.get_value(RANGE_PARAMETER_ID), Some(1));
    assert_eq!(melody.get_value(PULSE_PARAMETER_ID), Some(1));
    assert_eq!(melody.get_value(NOISE_PARAMETER_ID), Some(0));
    assert_eq!(melody.get_value(BASS_WAVEFORM_PARAMETER_ID), None);
    assert_eq!(State::new(Part::Chord).get_value(NOISE_PARAMETER_ID), None);
}

#[test]
fn written_values_are_limited_and_read_back() {
    let mut state = State::new(Part::Melody);
    state.apply_value(3, 300, 4);
    assert_eq!(state.get_value(3), Some(127));
    state.apply_value(3, -20, 4);
    assert_eq!(state.get_value(3), Some(0));
    state.apply_value(CHANNEL_PARAMETER_ID, 0, 4);
    assert_eq!(state.get_value(CHANNEL_PARAMETER_ID), Some(1));
    state.apply_value(CHANNEL_PARAMETER_ID, 40, 4);
    assert_eq!(state.get_value(CHANNEL_PARAMETER_ID), Some(16));
    state.apply_value(MIDI_OUTPUT_PARAMETER_ID, 9, 4);
    assert_eq!(state.output_index(), 3);
    state.apply_value(MIDI_OUTPUT_PARAMETER_ID, -9, 4);
    assert_eq!(state.output_index(), 0);
    state.apply_value(RANGE_PARAMETER_ID, 7, 4);
    assert_eq!(state.get_value(RANGE_PARAMETER_ID), Some(2));
    state.apply_value(HPF_PARAMETER_ID, 1, 4);
    assert_eq!(state.get_value(HPF_PARAMETER_ID), Some(1));
    state.apply_value(HPF_PARAMETER_ID, 0, 4);
    assert_eq!(state.get_value(HPF_PARAMETER_ID), Some(0));
    state.apply_value(ENV_POLARITY_PARAMETER_ID, 5, 4);
    assert_eq!(state.get_value(ENV_POLARITY_PARAMETER_ID), Some(1));
}

#[test]
fn output_change_resends_without_becoming_authoritative() {
    let mut state = State::new(Part::Melody);
    state.apply_value(MIDI_OUTPUT_PARAMETER_ID, 1, 2);
    assert!(!state.has_authoritative_state());
    assert!(state.has_dirty());
    let mut next = 0;
    let mut count = 0;
    while state.take_next_message(&mut next).is_some() {
        count += 1;
    }
    assert_eq!(count, 15);
    assert!(!state.has_dirty());
}

#[test]
fn modulation_changes_the_sent_value_only() {
    let mut state = State::new(Part::Melody);
    state.apply_value(2, 126, 1);
    let mut next = 0;
    state.take_next_message(&mut next).unwrap();
    state.apply_modulation(2, modulation(7.0));
    assert_eq!(state.get_value(2), Some(126));
    let message = state.take_next_message(&mut next).unwrap();
    assert_eq!(message.bytes, [0xf0, 0x41, 0x32, 0, 2, 127, 0xf7]);
    assert_eq!(message.kind, DirtyKind::Parameter(2));
    state.apply_modulation(2, modulation(-200.0));
    assert_eq!(
        state.take_next_message(&mut next).unwrap().bytes,
        [0xf0, 0x41, 0x32, 0, 2, 0, 0xf7]
    );
    state.apply_modulation(2, modulation(-200.0));
    assert!(state.take_next_message(&mut next).is_none());
    state.apply_modulation(40, modulation(3.0));
    assert!(!state.has_dirty());
}

#[test]
fn continuous_parameters_go_round_robin() {
    let mut state = State::new(Part::Bass);
    state.apply_value(1, 10, 1);
    state.apply_value(8, 20, 1);
    let mut next = 5;
    let first = state.take_next_message(&mut next).unwrap();
    assert_eq!(first.bytes, [0xf0, 0x41, 0x32, 1, 13, 20, 0xf7]);
    assert_eq!(next, 9);
    let second = state.take_next_message(&mut next).unwrap();
    assert_eq!(second.bytes, [0xf0, 0x41, 0x32, 1, 5, 10, 0xf7]);
    assert_eq!(next, 2);
}

#[test]
fn failed_message_is_retried() {
    let mut state = State::new(Part::Bass);
    state.apply_value(BASS_WAVEFORM_PARAMETER_ID, 1, 1);
    let mut next = 0;
    let message = state.take_next_message(&mut next).unwrap();
    assert_eq!(message.bytes, [0xf0, 0x41, 0x32, 1, 16, 0x10, 0xf7]);
    assert_eq!(message.kind, DirtyKind::BassWaveform);
    assert!(!state.has_dirty());
    state.retry(message.kind);
    assert!(state.has_dirty());
    assert_eq!(state.take_next_message(&mut next).unwrap(), message);
}

#[test]
fn whole_mode_off_and_chord_mode_switches() {
    let mut state = State::new(Part::Chord);
    state.apply_value(WHOLE_MODE_PARAMETER_ID, 1, 1);
    state.apply_value(WHOLE_MODE_PARAMETER_ID, 0, 1);
    let mut next = 0;
    assert_eq!(state.take_next_message(&mut next).unwrap().bytes, [0xb2, 121, 0]);
    state.apply_value(NOISE_PARAMETER_ID, 1, 1);
    assert!(!state.has_dirty());
    state.apply_value(HPF_PARAMETER_ID, 1, 1);
    state.apply_value(VCA_DYNAMICS_PARAMETER_ID, 1, 1);
    let dynamics = state.take_next_message(&mut next).unwrap();
    assert_eq!(dynamics.bytes, [0xf0, 0x41, 0x32, 2, 4, 0x20, 0xf7]);
    let modes = state.take_next_message(&mut next).unwrap();
    assert_eq!(modes.bytes, [0xf0, 0x41, 0x32, 2, 17, 0x00, 0xf7]);
}

#[test]
fn mark_all_dirty_resends_present_groups_only() {
    let mut state = State::new(Part::Melody);
    let mut next = 0;
    // A write that changes a switch sends the group but does not make it present.
    state.apply_value(PULSE_PARAMETER_ID, 0, 1);
    assert_eq!(state.take_next_message(&mut next).unwrap().kind, DirtyKind::Oscillator);
    state.mark_all_dirty();
    let mut kinds = Vec::new();
    while let Some(message) = state.take_next_message(&mut next) {
        kinds.push(message.kind);
    }
    assert_eq!(kinds.len(), 15);
    assert!(!kinds.contains(&DirtyKind::Oscillator));
    // Writing the same value again makes the group present, and sends it once more.
    state.apply_value(PULSE_PARAMETER_ID, 0, 1);
    assert_eq!(state.take_next_message(&mut next).unwrap().kind, DirtyKind::Oscillator);
    assert!(state.take_next_message(&mut next).is_none());
    state.mark_all_dirty();
    let mut kinds = Vec::new();
    while let Some(message) = state.take_next_message(&mut next) {
        kinds.push(message.kind);
    }
    assert_eq!(kinds.len(), 16);
    assert_eq!(kinds[0], DirtyKind::Oscillator);
}

#[test]
fn load_refuses_malformed_states_and_keeps_the_old_one() {
    let mut state = State::new(Part::Bass);
    state.apply_value(0, 50, 1);
    let good = state.save(0);
    assert_eq!(good.len(), 22);
    let mut bad_header = good.clone();
    bad_header[0] = b'X';
    assert_eq!(state.load(&bad_header, &[0]), Err(StateError));
    let mut bad_channel = good.clone();
    bad_channel[5] = 0;
    assert_eq!(state.load(&bad_channel, &[0]), Err(StateError));
    let mut bad_value = good.clone();
    bad_value[6] = 128;
    assert_eq!(state.load(&bad_value, &[0]), Err(StateError));
    let mut bad_switch = good.clone();
    bad_switch[21] = 2;
    assert_eq!(state.load(&bad_switch, &[0]), Err(StateError));
    assert_eq!(state.load(&good[..21], &[0]), Err(StateError));
    let mut bad_version = good.clone();
    bad_version[4] = 6;
    assert_eq!(state.load(&bad_version, &[0]), Err(StateError));
    assert_eq!(state.load(b"MKS", &[0]), Err(StateError));
    assert_eq!(state.get_value(0), Some(50));
    assert_eq!(state.save(0), good);
}

#[test]
fn melody_load_checks_range_and_switch_bytes() {
    let mut state = State::new(Part::Melody);
    let good = state.save(5);
    assert_eq!(good.len(), 39);
    let mut bad_range = good.clone();
    bad_range[26] = 3;
    assert_eq!(state.load(&bad_range, &[0]), Err(StateError));
    let mut bad_mode = good.clone();
    bad_mode[38] = 2;
    assert_eq!(state.load(&bad_mode, &[0]), Err(StateError));
    state.load(&good, &[0, 7, 5, 5]).unwrap();
    assert_eq!(state.output_index(), 2);
    assert!(state.has_authoritative_state());
    state.load(&good, &[5]).unwrap();
    assert_eq!(state.output_index(), 0);
}

#[test]
fn serialized_sizes_follow_the_part() {
    let melody = State::new(Part::Melody);
    let chord = State::new(Part::Chord);
    let bass = State::new(Part::Bass);
    assert_eq!(melody.serialized_size(1), Some(21));
    assert_eq!(melody.serialized_size(2), Some(25));
    assert_eq!(melody.serialized_size(3), None);
    assert_eq!(melody.serialized_size(4), Some(30));
    assert_eq!(melody.serialized_size(5), Some(39));
    assert_eq!(chord.serialized_size(3), Some(26));
    assert_eq!(chord.serialized_size(4), Some(31));
    assert_eq!(chord.serialized_size(5), Some(40));
    assert_eq!(bass.serialized_size(1), Some(16));
    assert_eq!(bass.serialized_size(4), None);
    assert_eq!(bass.serialized_size(5), Some(22));
    assert_eq!(bass.serialized_size(0), None);
    assert_eq!(bass.serialized_size(6), None);
}

#[test]
fn saved_layout_of_each_part() {
    let mut chord = State::new(Part::Chord);
    chord.apply_value(WHOLE_MODE_PARAMETER_ID, 1, 1);
    chord.apply_value(VCF_DYNAMICS_PARAMETER_ID, 1, 1);
    let saved = chord.save(0x01020304);
    assert_eq!(&saved[..6], b"MKS7\x05\x03");
    assert_eq!(&saved[21..25], &[4, 3, 2, 1]);
    assert_eq!(saved[25], 1);
    assert_eq!(&saved[26..31], &[0, 1, 1, 0, 0]);
    assert_eq!(&saved[31..34], &[0, 1, 0]);
    assert_eq!(saved.len(), 40);
    let mut bass = State::new(Part::Bass);
    bass.apply_value(BASS_WAVEFORM_PARAMETER_ID, 1, 1);
    let saved = bass.save(-1);
    assert_eq!(&saved[16..22], &[0xff, 0xff, 0xff, 0xff, 0, 1]);
    bass.apply_value(BASS_WAVEFORM_PARAMETER_ID, 1, 1);
    let saved = bass.save(-1);
    assert_eq!(&saved[20..22], &[1, 1]);
}

#[test]
fn changing_switch_write_keeps_the_group_absent() {
    let mut state = State::new(Part::Melody);
    let mut next = 0;
    state.apply_value(SAW_PARAMETER_ID, 1, 1);
    assert_eq!(state.take_next_message(&mut next).unwrap().kind, DirtyKind::Oscillator);
    assert_eq!(state.save(0)[25], 0);
    state.apply_value(SAW_PARAMETER_ID, 1, 1);
    assert_eq!(state.take_next_message(&mut next).unwrap().kind, DirtyKind::Oscillator);
    assert_eq!(state.save(0)[25], 1);
    state.apply_value(SAW_PARAMETER_ID, 1, 1);
    assert!(state.take_next_message(&mut next).is_none());
    state.apply_value(SAW_PARAMETER_ID, 0, 1);
    assert_eq!(state.take_next_message(&mut next).unwrap().kind, DirtyKind::Oscillator);
    assert_eq!(state.save(0)[25], 1);

    let mut bass = State::new(Part::Bass);
    bass.apply_value(BASS_WAVEFORM_PARAMETER_ID, 1, 1);
    assert_eq!(bass.save(0)[20], 0);
    bass.apply_value(BASS_WAVEFORM_PARAMETER_ID, 1, 1);
    assert_eq!(bass.save(0)[20], 1);
}

#[test]
fn part_is_readable() {
    assert_eq!(State::new(Part::Chord).part(), Part::Chord);
}
