//! Laws that state what the controller does in terms of what the host reads back
//! (`get_value`), the MKS-7 wire format and the documented file format, independently of
//! the model's own definitions.
use crate::laws::{
    law_save_layout, presence_offset, switch_group_of_part, written_value, law_declared_parameters_are_readable, law_value_written_is_read, group_present, is_pending, kind_of_part, law_parameter_tables, law_taken_kinds_belong_to_part,
    table_protocol_number,
};
use crate::model::{
    first_match, flag, le_bytes, le_u32, loaded_output, spec_save, spec_apply_value, spec_apply_modulation, ModulationAmount, load_valid, secondary_offset, spec_load, switch_offset, v1_size, clamp, message_bytes, spec_get_value, spec_take_next_message, DirtyKind, Part, StateView,
    BASS_WAVEFORM_PARAMETER_ID, CHANNEL_PARAMETER_ID, CHORUS_PARAMETER_ID, MIDI_OUTPUT_PARAMETER_ID,
    ENV_POLARITY_PARAMETER_ID, HPF_PARAMETER_ID, NOISE_PARAMETER_ID, PULSE_PARAMETER_ID,
    PWM_SOURCE_PARAMETER_ID, RANGE_PARAMETER_ID, SAW_PARAMETER_ID, VCA_DYNAMICS_PARAMETER_ID,
    VCA_MODE_PARAMETER_ID, VCF_DYNAMICS_PARAMETER_ID, WHOLE_MODE_PARAMETER_ID,
};
use crate::params::{page_slots, spec_page_contents, spec_remote_page_count, spec_value_bounds, spec_param_info, spec_switch_param, is_on_off_switch, spec_label_value, spec_value_text, ValueText};
use vstd::prelude::*;

verus! {

/// The value the host reads for parameter `id`, 0 where the part has no such parameter.
pub open spec fn reads(s: StateView, id: u32) -> int {
    match spec_get_value(s, id) {
        Some(v) => v as int,
        None => 0,
    }
}

/// A Roland tone-parameter write on user channel `channel`: F0 41 32, the channel nibble,
/// the parameter number, the value, F7.
pub open spec fn tone_write(channel: int, parameter: int, value: int) -> Seq<u8> {
    seq![0xf0u8, 0x41u8, 0x32u8, (channel - 1) as u8, parameter as u8, value as u8, 0xf7u8]
}

/// The message the MKS-7 expects for change `kind`, from what the host reads:
/// - Whole Mode: Control Change 121 with 127 for six voices and 0 for four;
/// - oscillator switches (parameter 16): the range as one of bits 0-2 (16', 8', 4'), pulse
///   in bit 3, saw in bit 4, and bit 5 when the chorus is off;
/// - dynamics (parameter 4): VCF dynamics in bit 6, VCA dynamics in bit 5;
/// - mode switches (parameter 17): PWM manual in bit 0, VCF envelope negative in bit 1, VCA
///   gate in bit 2, bit 4 when the HPF is off, noise (Melody) in bit 5;
/// - Bass waveform (parameter 16): saw in bit 4;
/// - continuous parameter `i`: its protocol number with its value plus the modulation
///   offset, limited to 0..=127.
pub open spec fn wire_message(s: StateView, kind: DirtyKind) -> Seq<u8> {
    let ch = reads(s, CHANNEL_PARAMETER_ID);
    match kind {
        DirtyKind::WholeMode => seq![
            (0xb0 + ch - 1) as u8,
            121u8,
            (127 * reads(s, WHOLE_MODE_PARAMETER_ID)) as u8,
        ],
        DirtyKind::Oscillator => tone_write(
            ch,
            16,
            (if reads(s, RANGE_PARAMETER_ID) == 0 {
                1int
            } else if reads(s, RANGE_PARAMETER_ID) == 1 {
                2int
            } else {
                4int
            }) + 8 * reads(s, PULSE_PARAMETER_ID) + 16 * reads(s, SAW_PARAMETER_ID) + 32 * (1
                - reads(s, CHORUS_PARAMETER_ID)),
        ),
        DirtyKind::Dynamics => tone_write(
            ch,
            4,
            64 * reads(s, VCF_DYNAMICS_PARAMETER_ID) + 32 * reads(s, VCA_DYNAMICS_PARAMETER_ID),
        ),
        DirtyKind::Secondary => tone_write(
            ch,
            17,
            reads(s, PWM_SOURCE_PARAMETER_ID) + 2 * reads(s, ENV_POLARITY_PARAMETER_ID) + 4 * reads(
                s,
                VCA_MODE_PARAMETER_ID,
            ) + 16 * (1 - reads(s, HPF_PARAMETER_ID)) + 32 * reads(s, NOISE_PARAMETER_ID),
        ),
        DirtyKind::BassWaveform => tone_write(ch, 16, 16 * reads(s, BASS_WAVEFORM_PARAMETER_ID)),
        DirtyKind::Parameter(i) => tone_write(
            ch,
            table_protocol_number(s.part, i as int),
            clamp(reads(s, i as u32) + s.modulations[i as int].offset, 0, 127),
        ),
    }
}

/// Every message the controller builds for a change its part has is the one the MKS-7
/// expects for what the host reads; in particular every message the sender takes is.
pub proof fn law_messages_carry_what_is_read(s: StateView, kind: DirtyKind, next: usize)
    requires
        s.wf(),
    ensures
        kind_of_part(s.part, kind) ==> message_bytes(s, kind) == wire_message(s, kind),
        spec_take_next_message(s, next).0 matches Some((bytes, taken)) ==> bytes == wire_message(
            s,
            taken,
        ),
{
    law_taken_kinds_belong_to_part(s, next);
    law_parameter_tables(s.part);
    if kind_of_part(s.part, kind) {
        lemma_message(s, kind);
    }
    if let Some((_, taken)) = spec_take_next_message(s, next).0 {
        lemma_message(s, taken);
    }
}

proof fn lemma_message(s: StateView, kind: DirtyKind)
    requires
        s.wf(),
        kind_of_part(s.part, kind),
    ensures
        message_bytes(s, kind) == wire_message(s, kind),
{
    law_parameter_tables(s.part);
    match kind {
        DirtyKind::WholeMode => {
            assert(message_bytes(s, kind) =~= wire_message(s, kind));
        },
        DirtyKind::Oscillator => {
            assert(message_bytes(s, kind) =~= wire_message(s, kind));
        },
        DirtyKind::Dynamics => {
            assert(message_bytes(s, kind) =~= wire_message(s, kind));
        },
        DirtyKind::Secondary => {
            assert(message_bytes(s, kind) =~= wire_message(s, kind));
        },
        DirtyKind::BassWaveform => {
            assert(message_bytes(s, kind) =~= wire_message(s, kind));
        },
        DirtyKind::Parameter(i) => {
            assert(s.part.spec_parameters()[i as int].protocol_number == table_protocol_number(
                s.part,
                i as int,
            ));
            assert(message_bytes(s, kind) =~= wire_message(s, kind));
        },
    }
}

/// Where the continuous values of a saved state end (header, channel and values): 21 for
/// Melody and Chord, 16 for Bass.
pub open spec fn file_values_end(part: Part) -> int {
    if part is Bass {
        16
    } else {
        21
    }
}

/// Where the switch bytes of a saved state start: after the values, the four bytes of the
/// output id and, for Chord, the Whole Mode byte.
pub open spec fn file_switches_start(part: Part) -> int {
    match part {
        Part::Melody => 25,
        Part::Chord => 26,
        Part::Bass => 20,
    }
}

/// 1 for a nonzero byte, 0 for zero.
pub open spec fn on(b: u8) -> int {
    if b != 0 {
        1
    } else {
        0
    }
}

/// Loading a valid saved state of any format sets what the host reads from the file: the
/// channel from byte 5 and each continuous value from bytes 6 on; for Chord, the Whole Mode
/// from the byte after the output id when the format has it (3 on), else four voices; for
/// Melody and Chord, the oscillator switches (range, pulse, saw, chorus) and their presence
/// from the switch bytes when the format has them (4 on), else the defaults (8', pulse on,
/// saw and chorus off, not present); the dynamics and mode switches and their presence
/// from the bytes after them in format 5, else off and not present; for Bass, the waveform
/// and its presence in format 5, else pulse and not present. The loaded settings are
/// authoritative.
pub proof fn law_load_reads_the_file(s: StateView, d: Seq<u8>, ids: Seq<i32>)
    requires
        s.wf(),
        load_valid(s.part, d),
    ensures
        ({
            let t = spec_load(s, d, ids);
            let part = s.part;
            let version = d[4];
            let sw = file_switches_start(part);
            let osc = !(part is Bass);
            &&& t.part == part
            &&& t.authoritative
            &&& reads(t, CHANNEL_PARAMETER_ID) == d[5]
            &&& forall|i: int|
                0 <= i < file_values_end(part) - 6 ==> #[trigger] reads(t, i as u32) == d[6 + i]
            &&& part is Chord ==> reads(t, WHOLE_MODE_PARAMETER_ID) == (if version >= 3 {
                on(d[file_values_end(part) + 4])
            } else {
                0
            })
            &&& osc && version >= 4 ==> {
                &&& reads(t, RANGE_PARAMETER_ID) == d[sw + 1]
                &&& reads(t, PULSE_PARAMETER_ID) == on(d[sw + 2])
                &&& reads(t, SAW_PARAMETER_ID) == on(d[sw + 3])
                &&& reads(t, CHORUS_PARAMETER_ID) == on(d[sw + 4])
                &&& group_present(t, DirtyKind::Oscillator) == (d[sw] != 0)
            }
            &&& osc && version < 4 ==> {
                &&& reads(t, RANGE_PARAMETER_ID) == 1
                &&& reads(t, PULSE_PARAMETER_ID) == 1
                &&& reads(t, SAW_PARAMETER_ID) == 0
                &&& reads(t, CHORUS_PARAMETER_ID) == 0
                &&& !group_present(t, DirtyKind::Oscillator)
            }
            &&& osc && version == 5 ==> {
                &&& reads(t, VCF_DYNAMICS_PARAMETER_ID) == on(d[sw + 6])
                &&& reads(t, VCA_DYNAMICS_PARAMETER_ID) == on(d[sw + 7])
                &&& group_present(t, DirtyKind::Dynamics) == (d[sw + 5] != 0)
                &&& reads(t, PWM_SOURCE_PARAMETER_ID) == on(d[sw + 9])
                &&& reads(t, ENV_POLARITY_PARAMETER_ID) == on(d[sw + 10])
                &&& reads(t, VCA_MODE_PARAMETER_ID) == on(d[sw + 11])
                &&& reads(t, HPF_PARAMETER_ID) == on(d[sw + 12])
                &&& part is Melody ==> reads(t, NOISE_PARAMETER_ID) == on(d[sw + 13])
                &&& group_present(t, DirtyKind::Secondary) == (d[sw + 8] != 0)
            }
            &&& osc && version < 5 ==> {
                &&& reads(t, VCF_DYNAMICS_PARAMETER_ID) == 0
                &&& reads(t, VCA_DYNAMICS_PARAMETER_ID) == 0
                &&& !group_present(t, DirtyKind::Dynamics)
                &&& reads(t, PWM_SOURCE_PARAMETER_ID) == 0
                &&& reads(t, ENV_POLARITY_PARAMETER_ID) == 0
                &&& reads(t, VCA_MODE_PARAMETER_ID) == 0
                &&& reads(t, HPF_PARAMETER_ID) == 0
                &&& reads(t, NOISE_PARAMETER_ID) == 0
                &&& !group_present(t, DirtyKind::Secondary)
            }
            &&& part is Bass ==> {
                &&& reads(t, BASS_WAVEFORM_PARAMETER_ID) == (if version == 5 {
                    on(d[sw + 1])
                } else {
                    0
                })
                &&& group_present(t, DirtyKind::BassWaveform) == (version == 5 && d[sw] != 0)
            }
        }),
{
    let t = spec_load(s, d, ids);
    assert(v1_size(s.part) == file_values_end(s.part));
    assert(switch_offset(s.part) == file_switches_start(s.part));
    assert(secondary_offset(s.part) == file_switches_start(s.part) + 5);
    lemma_load_values(s, d, ids);
}

proof fn lemma_load_values(s: StateView, d: Seq<u8>, ids: Seq<i32>)
    requires
        s.wf(),
        load_valid(s.part, d),
    ensures
        forall|i: int|
            0 <= i < file_values_end(s.part) - 6 ==> #[trigger] reads(spec_load(s, d, ids), i as u32)
                == d[6 + i],
{
    let t = spec_load(s, d, ids);
    assert forall|i: int| 0 <= i < file_values_end(s.part) - 6 implies #[trigger] reads(t, i as u32)
        == d[6 + i] by {
        assert(t.values[i] == d[6 + i]);
    }
}

/// Whether the host is shown the label `text` for value `value` of parameter `id`.
pub open spec fn shows(part: Part, output_count: usize, id: u32, value: i64, text: Seq<char>) -> bool {
    spec_value_text(part, output_count, id, value) matches Some(ValueText::Label(l)) && l@ == text
}

/// Whether `id` is one of the plain on/off switches of `part`: pulse, saw, chorus, the two
/// dynamics and the HPF for Melody and Chord, and noise for Melody.
pub open spec fn on_off_ids(part: Part, id: u32) -> bool {
    ||| !(part is Bass) && (id == PULSE_PARAMETER_ID || id == SAW_PARAMETER_ID || id
        == CHORUS_PARAMETER_ID || id == VCF_DYNAMICS_PARAMETER_ID || id == VCA_DYNAMICS_PARAMETER_ID
        || id == HPF_PARAMETER_ID)
    ||| part is Melody && id == NOISE_PARAMETER_ID
}

/// The two labels of a two-way switch `id` of `part`, off first, if it is one.
pub open spec fn switch_labels(part: Part, id: u32) -> Option<(Seq<char>, Seq<char>)> {
    if on_off_ids(part, id) {
        Some(("Off"@, "On"@))
    } else if !(part is Bass) && id == PWM_SOURCE_PARAMETER_ID {
        Some(("LFO"@, "Manual"@))
    } else if !(part is Bass) && id == VCA_MODE_PARAMETER_ID {
        Some(("ENV"@, "Gate"@))
    } else if !(part is Bass) && id == ENV_POLARITY_PARAMETER_ID {
        Some(("Positive"@, "Negative"@))
    } else if part is Chord && id == WHOLE_MODE_PARAMETER_ID {
        Some(("4 Voices"@, "6 Voices"@))
    } else if part is Bass && id == BASS_WAVEFORM_PARAMETER_ID {
        Some(("Pulse"@, "Saw"@))
    } else {
        None
    }
}

/// The labels mean what they say. A two-way switch shows its "on" label (On, Manual, Gate,
/// Negative, 6 Voices, Saw) exactly for values of at least 1 and its "off" label (Off, LFO,
/// ENV, Positive, 4 Voices, Pulse) otherwise, and typing a label gives 1 for the "on" label
/// and 0 for the "off" one. The range shows 16', 8' and 4' for steps 0, 1 and 2 (values
/// below and above limited to them), and those labels read back as their steps. Continuous
/// parameters and the channel show their number; the MIDI output shows the output, limited
/// to the outputs there are.
pub proof fn law_labels_mean_what_they_say(
    part: Part,
    output_count: usize,
    outputs: Seq<(i32, Seq<char>)>,
    id: u32,
    value: i64,
)
    ensures
        switch_labels(part, id) matches Some((off, on)) ==> {
            &&& shows(part, output_count, id, value, if value >= 1 {
                on
            } else {
                off
            })
            &&& spec_label_value(part, outputs, id, on) == Some(1u64)
            &&& spec_label_value(part, outputs, id, off) == Some(0u64)
        },
        !(part is Bass) && id == RANGE_PARAMETER_ID ==> {
            &&& shows(part, output_count, id, value, if value <= 0 {
                "16'"@
            } else if value == 1 {
                "8'"@
            } else {
                "4'"@
            })
            &&& spec_label_value(part, outputs, id, "16'"@) == Some(0u64)
            &&& spec_label_value(part, outputs, id, "8'"@) == Some(1u64)
            &&& spec_label_value(part, outputs, id, "4'"@) == Some(2u64)
        },
        (id as int) < (if part is Bass {
            10int
        } else {
            15int
        }) || id == CHANNEL_PARAMETER_ID ==> spec_value_text(part, output_count, id, value) == Some(
            ValueText::Number(value),
        ),
        id == MIDI_OUTPUT_PARAMETER_ID ==> spec_value_text(part, output_count, id, value) == Some(
            ValueText::Output(clamp(value as int, 0, if output_count == 0 {
                0
            } else {
                output_count - 1
            }) as usize),
        ),
{
    if switch_labels(part, id) is Some {
        lemma_switch_labels(part, output_count, outputs, id, value);
    }
    if !(part is Bass) && id == RANGE_PARAMETER_ID {
        lemma_range_labels(part, output_count, outputs, value);
    }
}

proof fn lemma_range_labels(part: Part, output_count: usize, outputs: Seq<(i32, Seq<char>)>, value: i64)
    requires
        !(part is Bass),
    ensures
        shows(part, output_count, RANGE_PARAMETER_ID, value, if value <= 0 {
            "16'"@
        } else if value == 1 {
            "8'"@
        } else {
            "4'"@
        }),
        spec_label_value(part, outputs, RANGE_PARAMETER_ID, "16'"@) == Some(0u64),
        spec_label_value(part, outputs, RANGE_PARAMETER_ID, "8'"@) == Some(1u64),
        spec_label_value(part, outputs, RANGE_PARAMETER_ID, "4'"@) == Some(2u64),
{
    reveal_strlit("Off");
    reveal_strlit("On");
    reveal_strlit("LFO");
    reveal_strlit("Manual");
    reveal_strlit("ENV");
    reveal_strlit("Gate");
    reveal_strlit("Positive");
    reveal_strlit("Negative");
    reveal_strlit("4 Voices");
    reveal_strlit("6 Voices");
    reveal_strlit("Pulse");
    reveal_strlit("Saw");
    reveal_strlit("16'");
    reveal_strlit("8'");
    reveal_strlit("4'");
    assert("16'"@.len() != "8'"@.len() && "16'"@.len() != "4'"@.len() && "8'"@[0] != "4'"@[0]);
}

proof fn lemma_switch_labels(
    part: Part,
    output_count: usize,
    outputs: Seq<(i32, Seq<char>)>,
    id: u32,
    value: i64,
)
    requires
        switch_labels(part, id) is Some,
    ensures
        switch_labels(part, id) matches Some((off, on)) ==> {
            &&& shows(part, output_count, id, value, if value >= 1 {
                on
            } else {
                off
            })
            &&& spec_label_value(part, outputs, id, on) == Some(1u64)
            &&& spec_label_value(part, outputs, id, off) == Some(0u64)
        },
{
    reveal_strlit("Off");
    reveal_strlit("On");
    reveal_strlit("LFO");
    reveal_strlit("Manual");
    reveal_strlit("ENV");
    reveal_strlit("Gate");
    reveal_strlit("Positive");
    reveal_strlit("Negative");
    reveal_strlit("4 Voices");
    reveal_strlit("6 Voices");
    reveal_strlit("Pulse");
    reveal_strlit("Saw");
    reveal_strlit("16'");
    reveal_strlit("8'");
    reveal_strlit("4'");
    if on_off_ids(part, id) {
        assert(is_on_off_switch(part, id));
        assert("Off"@.len() != "On"@.len());
    } else if id == PWM_SOURCE_PARAMETER_ID {
        assert("LFO"@.len() != "Manual"@.len());
    } else if id == VCA_MODE_PARAMETER_ID {
        assert("ENV"@.len() != "Gate"@.len());
    } else if id == ENV_POLARITY_PARAMETER_ID {
        assert("Positive"@[0] != "Negative"@[0]);
    } else if id == WHOLE_MODE_PARAMETER_ID {
        assert("4 Voices"@[0] != "6 Voices"@[0]);
    } else {
        assert("Pulse"@.len() != "Saw"@.len());
    }
}

/// Modulating a continuous parameter of the part (15 of them for Melody and Chord, 10 for
/// Bass) by an amount other than its current one stores the amount and makes the parameter
/// pending, and the message for it then carries its value plus the amount's offset, limited
/// to 0..=127; nothing the host reads changes. An unchanged amount, or an id that is no
/// continuous parameter of the part, changes nothing.
pub proof fn law_modulation_is_sent(s: StateView, id: u32, amount: ModulationAmount, other: u32)
    requires
        s.wf(),
    ensures
        ({
            let t = spec_apply_modulation(s, id, amount);
            let n = if s.part is Bass {
                10int
            } else {
                15int
            };
            &&& (id as int) < n && s.modulations[id as int] != amount ==> {
                &&& t.modulations[id as int] == amount
                &&& is_pending(t, DirtyKind::Parameter(id as usize))
                &&& message_bytes(t, DirtyKind::Parameter(id as usize)) == tone_write(
                    reads(s, CHANNEL_PARAMETER_ID),
                    table_protocol_number(s.part, id as int),
                    clamp(reads(s, id) + amount.offset, 0, 127),
                )
                &&& spec_get_value(t, other) == spec_get_value(s, other)
            }
            &&& (id as int) >= n || s.modulations[id as int] == amount ==> t == s
        }),
{
    let t = spec_apply_modulation(s, id, amount);
    law_parameter_tables(s.part);
    if (id as int) < s.count() && s.modulations[id as int] != amount {
        assert(t.wf());
        lemma_message(t, DirtyKind::Parameter(id as usize));
        assert(reads(t, id) == reads(s, id));
        assert(reads(t, CHANNEL_PARAMETER_ID) == reads(s, CHANNEL_PARAMETER_ID));
    }
}

/// Every declared parameter's range is exactly the values it can hold: whatever the host
/// writes to it, it reads back a value between the declared minimum and maximum; writing
/// the minimum, or the maximum, reads that bound back; and the declared default lies
/// between them.
pub proof fn law_declared_ranges_are_exact(s: StateView, index: u32, value: i64, output_count: usize)
    requires
        s.wf(),
        spec_param_info(s.part, index as int, output_count) is Some,
    ensures
        ({
            let p = spec_param_info(s.part, index as int, output_count)->Some_0;
            &&& spec_get_value(spec_apply_value(s, p.id, value, output_count), p.id) matches Some(r)
                && p.min_value <= r <= p.max_value
            &&& spec_get_value(spec_apply_value(s, p.id, p.min_value as i64, output_count), p.id)
                == Some(p.min_value)
            &&& p.max_value <= i64::MAX ==> spec_get_value(
                spec_apply_value(s, p.id, p.max_value as i64, output_count),
                p.id,
            ) == Some(p.max_value)
            &&& p.min_value <= p.default_value <= p.max_value
            &&& spec_value_bounds(p.id, output_count) == (p.min_value, p.max_value)
        }),
{
    let p = spec_param_info(s.part, index as int, output_count)->Some_0;
    law_declared_parameters_are_readable(s, index as int, output_count);
    lemma_declared_bounds(s.part, index, value, output_count);
    law_value_written_is_read(s, p.id, value, output_count);
    law_value_written_is_read(s, p.id, p.min_value as i64, output_count);
    if p.max_value <= i64::MAX {
        law_value_written_is_read(s, p.id, p.max_value as i64, output_count);
    }
}

proof fn lemma_declared_bounds(part: Part, index: u32, value: i64, output_count: usize)
    requires
        spec_param_info(part, index as int, output_count) is Some,
    ensures
        ({
            let p = spec_param_info(part, index as int, output_count)->Some_0;
            &&& p.min_value <= written_value(part, p.id, value, output_count) <= p.max_value
            &&& written_value(part, p.id, p.min_value as i64, output_count) == p.min_value
            &&& p.max_value <= i64::MAX ==> written_value(part, p.id, p.max_value as i64, output_count)
                == p.max_value
            &&& p.min_value <= p.default_value <= p.max_value
            &&& spec_value_bounds(p.id, output_count) == (p.min_value, p.max_value)
        }),
{
    let base = part.spec_parameter_len() as int;
    law_parameter_tables(part);
    if (index as int) < base {
        assert(part.spec_parameters()[index as int].id == index);
    } else if (index as int) < base + part.spec_switch_control_count() {
        if !(part is Bass) {
            lemma_switch_param_bounds(part, (index as int) - base, value);
        }
    }
}

proof fn lemma_switch_param_bounds(part: Part, k: int, value: i64)
    requires
        !(part is Bass),
        0 <= k < part.spec_switch_control_count(),
    ensures
        ({
            let p = spec_switch_param(k);
            &&& p.min_value <= written_value(part, p.id, value, 0) <= p.max_value
            &&& written_value(part, p.id, p.min_value as i64, 0) == p.min_value
            &&& written_value(part, p.id, p.max_value as i64, 0) == p.max_value
            &&& p.min_value <= p.default_value <= p.max_value
            &&& spec_value_bounds(p.id, 0) == (p.min_value, p.max_value)
        }),
{
}
/// The number the four bytes `d[at..at + 4]` hold, least significant first.
pub open spec fn file_u32(d: Seq<u8>, at: int) -> int {
    d[at] + 256 * d[at + 1] + 65536 * d[at + 2] + 16777216 * d[at + 3]
}

proof fn lemma_le_u32_value(b0: u8, b1: u8, b2: u8, b3: u8)
    ensures
        le_u32(b0, b1, b2, b3) as int == b0 + 256 * b1 + 65536 * b2 + 16777216 * b3,
{
    assert((b0 as u32) | ((b1 as u32) << 8u32) | ((b2 as u32) << 16u32) | ((b3 as u32) << 24u32)
        == b0 as u32 + 256 * (b1 as u32) + 65536 * (b2 as u32) + 16777216 * (b3 as u32)) by (bit_vector);
}

proof fn lemma_same_id(x: i32, l: u32)
    ensures
        (x == l as i32) == (x as u32 == l),
{
    assert((x == l as i32) == (x as u32 == l)) by (bit_vector);
}

proof fn lemma_first_match_is_first(ids: Seq<i32>, id: i32, i: int)
    requires
        1 <= i,
    ensures
        ({
            let o = first_match(ids, id, i);
            ||| o == 0 && forall|k: int| i <= k < ids.len() ==> #[trigger] ids[k] != id
            ||| i <= o < ids.len() && ids[o] == id && forall|k: int| i <= k < o ==> #[trigger] ids[k]
                != id
        }),
    decreases ids.len() - i,
{
    if i < ids.len() && ids[i] != id {
        lemma_first_match_is_first(ids, id, i + 1);
    }
}

/// Loading reselects the MIDI output by unique id: in a format that saves the id (2 on),
/// the selected output is the first one after "None" whose unique id is the saved one (the
/// four bytes after the values, least significant first), or "None" when no output has it;
/// an older format selects "None".
pub proof fn law_load_reselects_output(s: StateView, d: Seq<u8>, ids: Seq<i32>)
    requires
        s.wf(),
        load_valid(s.part, d),
        ids.len() <= usize::MAX,
    ensures
        ({
            let o = spec_load(s, d, ids).output_index as int;
            let saved = file_u32(d, file_values_end(s.part));
            &&& d[4] >= 2 ==> {
                ||| o == 0 && forall|k: int| 1 <= k < ids.len() ==> #[trigger] ids[k] as u32 != saved
                ||| 1 <= o < ids.len() && ids[o] as u32 == saved && forall|k: int|
                    1 <= k < o ==> #[trigger] ids[k] as u32 != saved
            }
            &&& d[4] < 2 ==> o == 0
        }),
{
    let v1 = v1_size(s.part);
    assert(v1 == file_values_end(s.part));
    if d[4] >= 2 {
        let l = le_u32(d[v1], d[v1 + 1], d[v1 + 2], d[v1 + 3]);
        lemma_le_u32_value(d[v1], d[v1 + 1], d[v1 + 2], d[v1 + 3]);
        lemma_first_match_is_first(ids, l as i32, 1);
        assert forall|k: int| 0 <= k < ids.len() implies (#[trigger] ids[k] as u32 == l) == (ids[k]
            == l as i32) by {
            lemma_same_id(ids[k], l);
        }
        let o = first_match(ids, l as i32, 1);
        assert(o == loaded_output(s.part, d, ids));
        assert(spec_load(s, d, ids).output_index == o as usize);
        if o >= 1 {
            lemma_same_id(ids[o], l);
        }
    } else {
        assert(spec_load(s, d, ids).output_index == 0);
    }
}

/// Saving writes the documented file: "MKS7" and format 5; the channel and the continuous
/// values as the host reads them; the unique id of the selected output, least significant
/// byte first; for Chord the Whole Mode; then, for Melody and Chord, the oscillator group
/// (presence, range, pulse, saw, chorus), the dynamics group (presence, VCF, VCA) and the
/// mode group (presence, PWM manual, VCF envelope negative, VCA gate, HPF, noise), and for
/// Bass the waveform (presence, saw). Melody saves 39 bytes, Chord 40 and Bass 22.
pub proof fn law_save_writes_the_file(s: StateView, output_id: i32)
    requires
        s.wf(),
    ensures
        ({
            let d = spec_save(s, output_id);
            let v1 = file_values_end(s.part);
            let sw = file_switches_start(s.part);
            let b = |present: bool| if present {
                1int
            } else {
                0int
            };
            &&& d.len() == (match s.part {
                Part::Melody => 39int,
                Part::Chord => 40int,
                Part::Bass => 22int,
            })
            &&& d[0] == 0x4d && d[1] == 0x4b && d[2] == 0x53 && d[3] == 0x37 && d[4] == 5
            &&& d[5] == reads(s, CHANNEL_PARAMETER_ID)
            &&& forall|i: int| 0 <= i < v1 - 6 ==> #[trigger] d[6 + i] == reads(s, i as u32)
            &&& file_u32(d, v1) == output_id as u32
            &&& s.part is Chord ==> d[v1 + 4] == reads(s, WHOLE_MODE_PARAMETER_ID)
            &&& !(s.part is Bass) ==> {
                &&& d[sw] == b(group_present(s, DirtyKind::Oscillator))
                &&& d[sw + 1] == reads(s, RANGE_PARAMETER_ID)
                &&& d[sw + 2] == reads(s, PULSE_PARAMETER_ID)
                &&& d[sw + 3] == reads(s, SAW_PARAMETER_ID)
                &&& d[sw + 4] == reads(s, CHORUS_PARAMETER_ID)
                &&& d[sw + 5] == b(group_present(s, DirtyKind::Dynamics))
                &&& d[sw + 6] == reads(s, VCF_DYNAMICS_PARAMETER_ID)
                &&& d[sw + 7] == reads(s, VCA_DYNAMICS_PARAMETER_ID)
                &&& d[sw + 8] == b(group_present(s, DirtyKind::Secondary))
                &&& d[sw + 9] == reads(s, PWM_SOURCE_PARAMETER_ID)
                &&& d[sw + 10] == reads(s, ENV_POLARITY_PARAMETER_ID)
                &&& d[sw + 11] == reads(s, VCA_MODE_PARAMETER_ID)
                &&& d[sw + 12] == reads(s, HPF_PARAMETER_ID)
                &&& d[sw + 13] == reads(s, NOISE_PARAMETER_ID)
            }
            &&& s.part is Bass ==> {
                &&& d[sw] == b(group_present(s, DirtyKind::BassWaveform))
                &&& d[sw + 1] == reads(s, BASS_WAVEFORM_PARAMETER_ID)
            }
        }),
{
    let d = spec_save(s, output_id);
    let v1 = v1_size(s.part);
    law_save_layout(s, output_id);
    assert(v1 == file_values_end(s.part));
    assert(switch_offset(s.part) == file_switches_start(s.part));
    assert(secondary_offset(s.part) == file_switches_start(s.part) + 5);
    let l = le_bytes(output_id as u32);
    assert(d.subrange(v1, v1 + 4) == l);
    assert(d[v1] == l[0] && d[v1 + 1] == l[1] && d[v1 + 2] == l[2] && d[v1 + 3] == l[3]);
    let x = output_id as u32;
    assert(x as u8 + 256 * ((x >> 8u32) as u8) + 65536 * ((x >> 16u32) as u8) + 16777216 * ((x
        >> 24u32) as u8) == x) by (bit_vector);
    assert forall|i: int| 0 <= i < v1 - 6 implies #[trigger] d[6 + i] == reads(s, i as u32) by {
        assert(spec_get_value(s, i as u32) == Some(d[6 + i] as u64));
    }
    assert(forall|kind: DirtyKind|
        switch_group_of_part(s.part, kind) ==> (#[trigger] d[presence_offset(s.part, kind)] == flag(
            group_present(s, kind),
        )));
    if !(s.part is Bass) {
        assert(d[presence_offset(s.part, DirtyKind::Oscillator)] == flag(group_present(s, DirtyKind::Oscillator)));
        assert(d[presence_offset(s.part, DirtyKind::Dynamics)] == flag(group_present(s, DirtyKind::Dynamics)));
        assert(d[presence_offset(s.part, DirtyKind::Secondary)] == flag(group_present(s, DirtyKind::Secondary)));
    } else {
        assert(d[presence_offset(s.part, DirtyKind::BassWaveform)] == flag(group_present(s, DirtyKind::BassWaveform)));
    }
}

/// What slot `slot` of remote-control page `page` of `part` holds.
pub open spec fn page_slot(part: Part, page: u32, slot: int) -> Option<u32> {
    page_slots(spec_page_contents(part, page).1)[slot]
}

/// Whether parameter `id` of `part` is on one of the part's remote-control pages.
pub open spec fn on_some_page(part: Part, id: u32) -> bool {
    exists|page: u32, slot: int|
        page < spec_remote_page_count(part) && 0 <= slot < 8 && #[trigger] page_slot(part, page, slot)
            == Some(id)
}

proof fn lemma_on_page(part: Part, id: u32, page: u32, slot: int)
    requires
        page < spec_remote_page_count(part),
        0 <= slot < 8,
        page_slot(part, page, slot) == Some(id),
    ensures
        on_some_page(part, id),
{
}

/// The remote-control pages reach every parameter the part declares: each declared
/// parameter is in some slot of some page.
pub proof fn law_pages_reach_every_parameter(part: Part, index: u32, output_count: usize)
    requires
        spec_param_info(part, index as int, output_count) is Some,
    ensures
        on_some_page(part, spec_param_info(part, index as int, output_count)->Some_0.id),
{
    let id = spec_param_info(part, index as int, output_count)->Some_0.id;
    law_parameter_tables(part);
    if (index as int) < part.spec_parameter_len() {
        assert(part.spec_parameters()[index as int].id == index);
    }
    if part is Bass {
        if id == 0 {
            lemma_on_page(part, id, 0, 0);
        } else if id == 114 {
            lemma_on_page(part, id, 0, 1);
        } else if id == 1 {
            lemma_on_page(part, id, 0, 2);
        } else if id == 2 {
            lemma_on_page(part, id, 0, 3);
        } else if id == 3 {
            lemma_on_page(part, id, 0, 4);
        } else if id == 4 {
            lemma_on_page(part, id, 0, 5);
        } else if id == 5 {
            lemma_on_page(part, id, 1, 0);
        } else if id == 6 {
            lemma_on_page(part, id, 1, 1);
        } else if id == 7 {
            lemma_on_page(part, id, 1, 2);
        } else if id == 8 {
            lemma_on_page(part, id, 1, 3);
        } else if id == 9 {
            lemma_on_page(part, id, 1, 4);
        } else if id == 101 {
            lemma_on_page(part, id, 2, 0);
        } else if id == 100 {
            lemma_on_page(part, id, 2, 1);
        }
    } else {
        if id == 0 {
            lemma_on_page(part, id, 0, 0);
        } else if id == 1 {
            lemma_on_page(part, id, 0, 1);
        } else if id == 2 {
            lemma_on_page(part, id, 0, 2);
        } else if id == 3 {
            lemma_on_page(part, id, 0, 3);
        } else if id == 14 {
            lemma_on_page(part, id, 0, 4);
        } else if id == 4 {
            lemma_on_page(part, id, 1, 0);
        } else if id == 5 {
            lemma_on_page(part, id, 1, 1);
        } else if id == 6 {
            lemma_on_page(part, id, 1, 2);
        } else if id == 7 {
            lemma_on_page(part, id, 1, 3);
        } else if id == 8 {
            lemma_on_page(part, id, 1, 4);
        } else if id == 9 {
            lemma_on_page(part, id, 2, 0);
        } else if id == 10 {
            lemma_on_page(part, id, 2, 1);
        } else if id == 11 {
            lemma_on_page(part, id, 2, 2);
        } else if id == 12 {
            lemma_on_page(part, id, 2, 3);
        } else if id == 13 {
            lemma_on_page(part, id, 2, 4);
        } else if id == 103 {
            lemma_on_page(part, id, 3, 0);
        } else if id == 104 {
            lemma_on_page(part, id, 3, 1);
        } else if id == 105 {
            lemma_on_page(part, id, 3, 2);
        } else if id == 106 {
            lemma_on_page(part, id, 3, 3);
        } else if id == 109 {
            lemma_on_page(part, id, 3, 4);
        } else if id == 113 {
            lemma_on_page(part, id, 3, 5);
        } else if id == 107 {
            lemma_on_page(part, id, 4, 0);
        } else if id == 108 {
            lemma_on_page(part, id, 4, 1);
        } else if id == 110 {
            lemma_on_page(part, id, 4, 2);
        } else if id == 111 {
            lemma_on_page(part, id, 4, 3);
        } else if id == 112 {
            lemma_on_page(part, id, 4, 4);
        } else if id == 101 {
            lemma_on_page(part, id, 5, 0);
        } else if id == 100 {
            lemma_on_page(part, id, 5, 1);
        } else if id == 102 {
            lemma_on_page(part, id, 5, 2);
        }
    }
}

} // verus!
