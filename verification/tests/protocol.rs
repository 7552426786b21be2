use mks7_clap_controller::protocol::{
    basic_channel_from_user_channel, bass_parameters, bass_switches_1, chord_parameters,
    control_change, melody_chord_dynamics, melody_chord_switches_1, melody_chord_switches_2,
    melody_parameters, parameter_change, ProtocolError,
};

#[test]
fn encodes_verified_messages_and_switches() {
    assert_eq!(basic_channel_from_user_channel(1), Ok(0));
    assert_eq!(basic_channel_from_user_channel(16), Ok(15));
    assert_eq!(
        parameter_change(1, 5, 96),
        Ok([0xf0, 0x41, 0x32, 0, 5, 0x60, 0xf7])
    );
    assert_eq!(control_change(3, 121, 127), Ok([0xb2, 0x79, 0x7f]));
    assert_eq!(melody_chord_switches_1(0, false, false, false), Ok(0x21));
    assert_eq!(melody_chord_switches_1(1, true, false, false), Ok(0x2a));
    assert_eq!(melody_chord_switches_1(1, false, true, false), Ok(0x32));
    assert_eq!(melody_chord_switches_1(1, true, true, false), Ok(0x3a));
    assert_eq!(melody_chord_switches_1(2, true, true, true), Ok(0x1c));
    assert_eq!(melody_chord_dynamics(true, true), 0x60);
    assert_eq!(
        melody_chord_switches_2(false, false, false, false, false),
        0x10
    );
    assert_eq!(melody_chord_switches_2(true, true, true, true, false), 0x07);
    assert_eq!(melody_chord_switches_2(true, true, true, false, true), 0x37);
    assert_eq!(bass_switches_1(false), 0);
    assert_eq!(bass_switches_1(true), 0x10);
}

#[test]
fn rejects_out_of_range_fields_and_preserves_definitions() {
    assert_eq!(parameter_change(1, 5, 128), Err(ProtocolError::Value));
    assert_eq!(
        melody_chord_switches_1(3, true, false, false),
        Err(ProtocolError::Range)
    );
    assert_eq!(
        melody_parameters().map(|p| p.protocol_number),
        [0, 1, 2, 3, 5, 6, 7, 8, 9, 10, 11, 12, 13, 14, 15]
    );
    assert_eq!(
        bass_parameters().map(|p| p.protocol_number),
        [3, 5, 6, 7, 9, 10, 11, 12, 13, 14]
    );
}

#[test]
fn channel_outside_one_to_sixteen_is_refused() {
    assert_eq!(basic_channel_from_user_channel(0), Err(ProtocolError::Channel));
    assert_eq!(basic_channel_from_user_channel(17), Err(ProtocolError::Channel));
    assert_eq!(basic_channel_from_user_channel(-3), Err(ProtocolError::Channel));
    assert_eq!(basic_channel_from_user_channel(7), Ok(6));
}

#[test]
fn parameter_change_checks_parameter_then_value_then_channel() {
    assert_eq!(parameter_change(0, 18, 200), Err(ProtocolError::Parameter));
    assert_eq!(parameter_change(0, -1, 5), Err(ProtocolError::Parameter));
    assert_eq!(parameter_change(0, 17, -1), Err(ProtocolError::Value));
    assert_eq!(parameter_change(0, 17, 127), Err(ProtocolError::Channel));
    assert_eq!(parameter_change(17, 0, 0), Err(ProtocolError::Channel));
    assert_eq!(
        parameter_change(16, 17, 127),
        Ok([0xf0, 0x41, 0x32, 0x0f, 0x11, 0x7f, 0xf7])
    );
}

#[test]
fn control_change_checks_controller_then_value_then_channel() {
    assert_eq!(control_change(1, 128, 0), Err(ProtocolError::Controller));
    assert_eq!(control_change(1, -1, 0), Err(ProtocolError::Controller));
    assert_eq!(control_change(0, 121, 128), Err(ProtocolError::Value));
    assert_eq!(control_change(0, 121, 0), Err(ProtocolError::Channel));
    assert_eq!(control_change(16, 0, 0), Ok([0xbf, 0, 0]));
}

#[test]
fn packed_switch_bytes_compose_every_bit() {
    assert_eq!(melody_chord_switches_1(-1, false, false, true), Err(ProtocolError::Range));
    assert_eq!(melody_chord_switches_1(0, false, false, true), Ok(0x01));
    assert_eq!(melody_chord_switches_1(2, false, false, false), Ok(0x24));
    assert_eq!(melody_chord_dynamics(false, false), 0x00);
    assert_eq!(melody_chord_dynamics(false, true), 0x20);
    assert_eq!(melody_chord_dynamics(true, false), 0x40);
    assert_eq!(melody_chord_switches_2(true, false, false, true, false), 0x01);
    assert_eq!(melody_chord_switches_2(false, true, false, true, false), 0x02);
    assert_eq!(melody_chord_switches_2(false, false, true, true, false), 0x04);
    assert_eq!(melody_chord_switches_2(false, false, false, true, true), 0x20);
}

#[test]
fn parameter_tables_keep_names_and_ids() {
    let melody = melody_parameters();
    assert_eq!(chord_parameters(), melody);
    assert_eq!(melody[4].name, "VCF Cutoff");
    assert_eq!(melody[4].module, "VCF");
    assert_eq!(melody[14].name, "Sub Level");
    for (index, definition) in melody.iter().enumerate() {
        assert_eq!(definition.id, index as u32);
    }
    let bass = bass_parameters();
    assert_eq!(bass[0].name, "DCO PWM");
    assert_eq!(bass[9].name, "Release");
    assert_eq!(bass[9].module, "Envelope");
    for (index, definition) in bass.iter().enumerate() {
        assert_eq!(definition.id, index as u32);
    }
}
