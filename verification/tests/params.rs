use mks7_clap_controller::midi::{MidiBackend, MidiOutput};
use mks7_clap_controller::model::{Part, State};
use mks7_clap_controller::params::{
    label_value, param_info, plugin_id, plugin_name, plugin_part, plugin_vendor, plugin_version,
    remote_page,
    remote_page_count, value_bounds, value_text, ParamFlags, ValueText, PLUGIN_COUNT,
};

const CONTINUOUS: ParamFlags = ParamFlags {
    stepped: true,
    is_enum: false,
    automatable: true,
    modulatable: true,
    requires_process: true,
};

const SWITCH: ParamFlags = ParamFlags {
    stepped: true,
    is_enum: true,
    automatable: true,
    modulatable: false,
    requires_process: true,
};

fn no_outputs() -> MidiBackend {
    MidiBackend::new(Vec::new())
}

fn expected_page_ids(values: &[u32]) -> [Option<u32>; 8] {
    let mut ids = [None; 8];
    for (slot, value) in ids.iter_mut().zip(values) {
        *slot = Some(*value);
    }
    ids
}

#[test]
fn bundle_lists_three_controllers() {
    assert_eq!(PLUGIN_COUNT, 3);
    let expected = [
        (
            Part::Melody,
            "com.marcellkovacs.mks7-clap-controller-melody",
            "MKS-7 Melody Controller",
            28,
            1,
            6,
        ),
        (
            Part::Chord,
            "com.marcellkovacs.mks7-clap-controller-chord",
            "MKS-7 Chord Controller",
            28,
            3,
            6,
        ),
        (
            Part::Bass,
            "com.marcellkovacs.mks7-clap-controller-bass",
            "MKS-7 Bass Controller",
            13,
            2,
            3,
        ),
    ];
    for (index, (part, id, name, count, channel, pages)) in expected.into_iter().enumerate() {
        assert_eq!(plugin_part(index as u32), Some(part));
        assert_eq!(plugin_id(part), id);
        assert_eq!(plugin_name(part), name);
        assert_eq!(part.parameter_count(), count);
        assert_eq!(State::new(part).get_value(100), Some(channel));
        assert_eq!(remote_page_count(part), pages);
        assert!(param_info(part, count as u32 - 1, 1).is_some());
        assert!(param_info(part, count as u32, 1).is_none());
    }
    assert_eq!(plugin_part(3), None);
}

#[test]
fn continuous_parameters_are_described_in_host_order() {
    let melody = [
        "LFO Rate",
        "LFO Delay",
        "DCO LFO",
        "DCO PWM",
        "VCF Cutoff",
        "VCF Resonance",
        "VCF ENV",
        "VCF LFO",
        "VCF KYBD",
        "VCA Level",
        "Attack",
        "Decay",
        "Sustain",
        "Release",
        "Sub Level",
    ];
    let bass = [
        "DCO PWM",
        "VCF Cutoff",
        "VCF Resonance",
        "VCF ENV",
        "VCF KYBD",
        "VCA Level",
        "Attack",
        "Decay",
        "Sustain",
        "Release",
    ];
    for (part, names) in [
        (Part::Melody, &melody[..]),
        (Part::Chord, &melody[..]),
        (Part::Bass, &bass[..]),
    ] {
        for (index, name) in names.iter().enumerate() {
            let info = param_info(part, index as u32, 1).unwrap();
            assert_eq!(info.id, index as u32);
            assert_eq!(info.name, *name);
            assert_eq!((info.min_value, info.max_value, info.default_value), (0, 127, 0));
            assert_eq!(info.flags, CONTINUOUS);
        }
    }
}

#[test]
fn switches_follow_the_continuous_parameters() {
    let chord: [(&str, u32, u64); 10] = [
        ("Range", 103, 1),
        ("Pulse", 104, 1),
        ("Saw", 105, 0),
        ("Chorus", 106, 0),
        ("VCF Dynamics", 107, 0),
        ("VCA Dynamics", 108, 0),
        ("PWM Source", 109, 0),
        ("VCA Mode", 110, 0),
        ("VCF ENV Polarity", 111, 0),
        ("HPF", 112, 0),
    ];
    let mut melody = chord.to_vec();
    melody.push(("Noise", 113, 0));
    let bass = vec![("Waveform", 114, 0)];
    for (part, base, switches) in [
        (Part::Melody, 15, melody),
        (Part::Chord, 15, chord.to_vec()),
        (Part::Bass, 10, bass),
    ] {
        for (offset, (name, id, default)) in switches.iter().enumerate() {
            let info = param_info(part, (base + offset) as u32, 1).unwrap();
            assert_eq!((info.name, info.id, info.default_value), (*name, *id, *default));
            assert_eq!(info.flags, SWITCH);
            assert_eq!(info.min_value, 0);
            assert_eq!(info.max_value, if *id == 103 { 2 } else { 1 });
        }
    }
}

#[test]
fn channel_output_and_whole_mode_close_the_list() {
    let channel = param_info(Part::Bass, 11, 4).unwrap();
    assert_eq!(channel.id, 100);
    assert_eq!(channel.name, "Bass Channel");
    assert_eq!((channel.min_value, channel.max_value, channel.default_value), (1, 16, 2));
    assert!(!channel.flags.automatable);
    assert!(channel.flags.requires_process);

    let output = param_info(Part::Bass, 12, 4).unwrap();
    assert_eq!(output.id, 101);
    assert_eq!(output.name, "MIDI Output");
    assert_eq!((output.min_value, output.max_value, output.default_value), (0, 3, 0));
    assert!(!output.flags.requires_process);
    assert_eq!(param_info(Part::Bass, 12, 0).unwrap().max_value, 0);

    let whole = param_info(Part::Chord, 27, 1).unwrap();
    assert_eq!(whole.id, 102);
    assert_eq!(whole.name, "Whole Mode");
    assert_eq!(whole.flags, SWITCH);
    assert_eq!(param_info(Part::Melody, 26, 1).unwrap().name, "Melody Channel");
    assert_eq!(param_info(Part::Chord, 25, 1).unwrap().name, "Chord Channel");
}

#[test]
fn labels_of_switches_and_modes() {
    assert_eq!(
        value_text(Part::Melody, 1, 103, 2),
        Some(ValueText::Label("4'"))
    );
    assert_eq!(
        value_text(Part::Melody, 1, 103, 9),
        Some(ValueText::Label("4'"))
    );
    assert_eq!(
        value_text(Part::Melody, 1, 103, -3),
        Some(ValueText::Label("16'"))
    );
    assert_eq!(
        value_text(Part::Melody, 1, 109, 1),
        Some(ValueText::Label("Manual"))
    );
    assert_eq!(
        value_text(Part::Chord, 1, 102, 1),
        Some(ValueText::Label("6 Voices"))
    );
    assert_eq!(
        value_text(Part::Chord, 1, 102, 0),
        Some(ValueText::Label("4 Voices"))
    );
    assert_eq!(
        value_text(Part::Bass, 1, 114, 0),
        Some(ValueText::Label("Pulse"))
    );
    assert_eq!(value_text(Part::Melody, 1, 113, 1), Some(ValueText::Label("On")));
    assert_eq!(value_text(Part::Chord, 1, 113, 1), None);
    assert_eq!(value_text(Part::Melody, 1, 102, 1), None);
    assert_eq!(value_text(Part::Bass, 1, 104, 1), None);
    assert_eq!(value_text(Part::Bass, 1, 9, 64), Some(ValueText::Number(64)));
    assert_eq!(value_text(Part::Bass, 1, 10, 64), None);
    assert_eq!(value_text(Part::Melody, 1, 100, 7), Some(ValueText::Number(7)));
    assert_eq!(value_text(Part::Melody, 3, 101, 7), Some(ValueText::Output(2)));
    assert_eq!(value_text(Part::Melody, 3, 101, -1), Some(ValueText::Output(0)));

    let outputs = no_outputs();
    assert_eq!(label_value(Part::Melody, &outputs, 109, "Manual"), Some(1));
    assert_eq!(label_value(Part::Chord, &outputs, 102, "6 Voices"), Some(1));
    assert_eq!(label_value(Part::Bass, &outputs, 114, "Pulse"), Some(0));
    assert_eq!(label_value(Part::Melody, &outputs, 101, "None"), Some(0));
    assert_eq!(label_value(Part::Chord, &outputs, 101, "None"), Some(0));
    assert_eq!(label_value(Part::Bass, &outputs, 101, "None"), Some(0));
    assert_eq!(label_value(Part::Melody, &outputs, 103, "8'"), Some(1));
    assert_eq!(label_value(Part::Melody, &outputs, 111, "Negative"), Some(1));
    assert_eq!(label_value(Part::Melody, &outputs, 110, "Gate"), Some(1));
    assert_eq!(label_value(Part::Melody, &outputs, 109, "manual"), None);
    assert_eq!(label_value(Part::Melody, &outputs, 114, "Pulse"), None);
    assert_eq!(label_value(Part::Melody, &outputs, 5, "64"), None);
}

#[test]
fn every_label_reads_back_as_its_step() {
    let outputs = no_outputs();
    for part in [Part::Melody, Part::Chord, Part::Bass] {
        for id in 0..=114u32 {
            let (min, max) = value_bounds(id, 1);
            for value in min..=max.min(2) {
                if let Some(ValueText::Label(text)) = value_text(part, 1, id, value as i64) {
                    assert_eq!(label_value(part, &outputs, id, text), Some(value));
                }
            }
        }
    }
}

#[test]
fn output_names_read_back_as_their_index() {
    let outputs = MidiBackend::new(vec![
        MidiOutput { unique_id: 96, name: "Port A".to_owned() },
        MidiOutput { unique_id: 97, name: "Port B".to_owned() },
    ]);
    assert_eq!(label_value(Part::Melody, &outputs, 101, "None"), Some(0));
    assert_eq!(label_value(Part::Melody, &outputs, 101, "Port A"), Some(1));
    assert_eq!(label_value(Part::Melody, &outputs, 101, "Port B"), Some(2));
    assert_eq!(label_value(Part::Melody, &outputs, 101, "Port C"), None);
    let twins = MidiBackend::new(vec![
        MidiOutput { unique_id: 5, name: "Twin".to_owned() },
        MidiOutput { unique_id: 6, name: "Twin".to_owned() },
    ]);
    assert_eq!(label_value(Part::Bass, &twins, 101, "Twin"), Some(1));
}

#[test]
fn typed_values_are_bounded_per_parameter() {
    assert_eq!(value_bounds(100, 3), (1, 16));
    assert_eq!(value_bounds(101, 3), (0, 2));
    assert_eq!(value_bounds(101, 0), (0, 0));
    assert_eq!(value_bounds(103, 3), (0, 2));
    assert_eq!(value_bounds(102, 3), (0, 1));
    assert_eq!(value_bounds(114, 3), (0, 1));
    assert_eq!(value_bounds(7, 3), (0, 127));
}

#[test]
fn remote_pages_group_the_parameters() {
    let melody_pages: [(&str, Vec<u32>); 6] = [
        ("LFO and DCO", vec![0, 1, 2, 3, 14]),
        ("VCF", vec![4, 5, 6, 7, 8]),
        ("VCA and ENV", vec![9, 10, 11, 12, 13]),
        ("DCO Switches", vec![103, 104, 105, 106, 109, 113]),
        ("Modes and Dynamics", vec![107, 108, 110, 111, 112]),
        ("MIDI", vec![101, 100]),
    ];
    let chord_pages: [(&str, Vec<u32>); 6] = [
        ("LFO and DCO", vec![0, 1, 2, 3, 14]),
        ("VCF", vec![4, 5, 6, 7, 8]),
        ("VCA and ENV", vec![9, 10, 11, 12, 13]),
        ("DCO Switches", vec![103, 104, 105, 106, 109]),
        ("Modes and Dynamics", vec![107, 108, 110, 111, 112]),
        ("MIDI", vec![101, 100, 102]),
    ];
    let bass_pages: [(&str, Vec<u32>); 3] = [
        ("DCO and VCF", vec![0, 114, 1, 2, 3, 4]),
        ("VCA and ENV", vec![5, 6, 7, 8, 9]),
        ("MIDI", vec![101, 100]),
    ];
    for (part, section, pages) in [
        (Part::Melody, "Melody", &melody_pages[..]),
        (Part::Chord, "Chord", &chord_pages[..]),
        (Part::Bass, "Bass", &bass_pages[..]),
    ] {
        for (index, (name, values)) in pages.iter().enumerate() {
            let page = remote_page(part, index as u32).unwrap();
            assert_eq!(page.page_id, 200 + index as u32);
            assert_eq!(page.section_name, section);
            assert_eq!(page.page_name, *name);
            assert_eq!(page.param_ids, expected_page_ids(values));
            assert!(!page.is_for_preset);
            let state = State::new(part);
            for id in page.param_ids.iter().flatten() {
                assert!(state.get_value(*id).is_some());
            }
        }
        assert!(remote_page(part, pages.len() as u32).is_none());
    }
}

#[test]
fn saved_state_has_the_current_header_and_part_size() {
    for (part, size) in [(Part::Melody, 39), (Part::Chord, 40), (Part::Bass, 22)] {
        let saved = State::new(part).save(0);
        assert_eq!(&saved[..5], b"MKS7\x05");
        assert_eq!(saved.len(), size);
    }
}

#[test]
fn every_declared_parameter_reads_its_default() {
    for part in [Part::Melody, Part::Chord, Part::Bass] {
        let state = State::new(part);
        for index in 0..part.parameter_count() as u32 {
            let info = param_info(part, index, 1).unwrap();
            assert_eq!(state.get_value(info.id), Some(info.default_value));
        }
    }
}

#[test]
fn descriptors_parameters_ports_and_remote_pages_are_stable() {
    assert_eq!(PLUGIN_COUNT, 3);
    let expected = [
        ("com.marcellkovacs.mks7-clap-controller-melody", "MKS-7 Melody Controller", 28, 1, 6),
        ("com.marcellkovacs.mks7-clap-controller-chord", "MKS-7 Chord Controller", 28, 3, 6),
        ("com.marcellkovacs.mks7-clap-controller-bass", "MKS-7 Bass Controller", 13, 2, 3),
    ];
    for (index, (id, name, parameter_count, channel, page_count)) in
        expected.into_iter().enumerate()
    {
        let part = plugin_part(index as u32).unwrap();
        assert_eq!(plugin_vendor(), "Marcell Kovacs");
        assert_eq!(plugin_version(), "0.6.1");
        assert_eq!(plugin_id(part), id);
        assert_eq!(plugin_name(part), name);
        assert_eq!(part.parameter_count(), parameter_count);
        let state = State::new(part);
        assert_eq!(state.get_value(100), Some(channel));

        let base_names: &[&str] = if index == 2 {
            &[
                "DCO PWM", "VCF Cutoff", "VCF Resonance", "VCF ENV", "VCF KYBD", "VCA Level",
                "Attack", "Decay", "Sustain", "Release",
            ]
        } else {
            &[
                "LFO Rate", "LFO Delay", "DCO LFO", "DCO PWM", "VCF Cutoff", "VCF Resonance",
                "VCF ENV", "VCF LFO", "VCF KYBD", "VCA Level", "Attack", "Decay", "Sustain",
                "Release", "Sub Level",
            ]
        };
        for (parameter_index, expected_name) in base_names.iter().enumerate() {
            let parameter = param_info(part, parameter_index as u32, 1).unwrap();
            assert_eq!(parameter.id, parameter_index as u32);
            assert_eq!(parameter.name, *expected_name);
            assert_eq!(
                (parameter.min_value, parameter.max_value, parameter.default_value),
                (0, 127, 0)
            );
            assert_eq!(parameter.flags, CONTINUOUS);
        }

        let switch_names: &[(&str, u32, u64)] = if index == 2 {
            &[("Waveform", 114, 0)]
        } else if index == 0 {
            &[
                ("Range", 103, 1),
                ("Pulse", 104, 1),
                ("Saw", 105, 0),
                ("Chorus", 106, 0),
                ("VCF Dynamics", 107, 0),
                ("VCA Dynamics", 108, 0),
                ("PWM Source", 109, 0),
                ("VCA Mode", 110, 0),
                ("VCF ENV Polarity", 111, 0),
                ("HPF", 112, 0),
                ("Noise", 113, 0),
            ]
        } else {
            &[
                ("Range", 103, 1),
                ("Pulse", 104, 1),
                ("Saw", 105, 0),
                ("Chorus", 106, 0),
                ("VCF Dynamics", 107, 0),
                ("VCA Dynamics", 108, 0),
                ("PWM Source", 109, 0),
                ("VCA Mode", 110, 0),
                ("VCF ENV Polarity", 111, 0),
                ("HPF", 112, 0),
            ]
        };
        for (offset, (expected_name, expected_id, expected_default)) in
            switch_names.iter().enumerate()
        {
            let parameter = param_info(part, (base_names.len() + offset) as u32, 1).unwrap();
            assert_eq!(
                (parameter.name, parameter.id, parameter.default_value),
                (*expected_name, *expected_id, *expected_default)
            );
            assert_eq!(parameter.flags, SWITCH);
        }

        let outputs = no_outputs();
        if index == 0 {
            assert_eq!(value_text(part, 1, 103, 2), Some(ValueText::Label("4'")));
            assert_eq!(value_text(part, 1, 109, 1), Some(ValueText::Label("Manual")));
            assert_eq!(label_value(part, &outputs, 109, "Manual"), Some(1));
        } else if index == 1 {
            assert_eq!(value_text(part, 1, 102, 1), Some(ValueText::Label("6 Voices")));
            assert_eq!(label_value(part, &outputs, 102, "6 Voices"), Some(1));
        } else {
            assert_eq!(value_text(part, 1, 114, 0), Some(ValueText::Label("Pulse")));
            assert_eq!(label_value(part, &outputs, 114, "Pulse"), Some(0));
        }
        assert_eq!(label_value(part, &outputs, 101, "None"), Some(0));

        let saved = state.save(0);
        assert_eq!(&saved[..5], b"MKS7\x05");
        assert_eq!(
            saved.len(),
            if index == 2 {
                22
            } else if index == 1 {
                40
            } else {
                39
            }
        );

        assert_eq!(remote_page_count(part), page_count);
        let expected_pages: Vec<(&str, Vec<u32>)> = if index == 2 {
            vec![
                ("DCO and VCF", vec![0, 114, 1, 2, 3, 4]),
                ("VCA and ENV", vec![5, 6, 7, 8, 9]),
                ("MIDI", vec![101, 100]),
            ]
        } else {
            vec![
                ("LFO and DCO", vec![0, 1, 2, 3, 14]),
                ("VCF", vec![4, 5, 6, 7, 8]),
                ("VCA and ENV", vec![9, 10, 11, 12, 13]),
                (
                    "DCO Switches",
                    if index == 0 {
                        vec![103, 104, 105, 106, 109, 113]
                    } else {
                        vec![103, 104, 105, 106, 109]
                    },
                ),
                ("Modes and Dynamics", vec![107, 108, 110, 111, 112]),
                ("MIDI", if index == 1 { vec![101, 100, 102] } else { vec![101, 100] }),
            ]
        };
        for (page_index, (page_name, page_ids)) in expected_pages.iter().enumerate() {
            let page = remote_page(part, page_index as u32).unwrap();
            assert_eq!(page.page_id, 200 + page_index as u32);
            assert_eq!(page.section_name, &name[6..name.len() - " Controller".len()]);
            assert_eq!(page.page_name, *page_name);
            assert_eq!(page.param_ids, expected_page_ids(page_ids));
            assert!(!page.is_for_preset);
        }
    }
    assert!(plugin_part(3).is_none());
}
