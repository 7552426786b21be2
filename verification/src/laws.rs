//! Properties of the controller model that span several operations.
use crate::protocol::{
    spec_bass_switches_1, spec_control_change, spec_melody_chord_dynamics,
    spec_melody_chord_switches_1, spec_melody_chord_switches_2, spec_parameter_change,
    melody_table, bass_table,
};
use crate::midi::{spec_output_count, spec_output_name};
use crate::sender::{spec_sender_complete, spec_sender_poll, RETRY_DELAY_MS, SENT_DELAY_MS};
use crate::params::{
    first_output_named, is_on_off_switch, spec_label_value, spec_value_text, ValueText,
    page_slots, spec_page_contents, spec_param_info, spec_remote_page_count,
};
use crate::model::{
    BASS_WAVEFORM_PARAMETER_ID, ENV_POLARITY_PARAMETER_ID, PWM_SOURCE_PARAMETER_ID,
    VCA_MODE_PARAMETER_ID,
    initial_state, PARAMETER_SLOTS, bass_write, channel_write, continuous_write, output_write,
    whole_mode_write, message_bytes, parameter_message, loaded_bass, loaded_dynamics, loaded_oscillator, loaded_output,
    loaded_secondary, zero_modulation, WholeModeSetting, oscillator_write, dynamics_write,
    secondary_write, CHORUS_PARAMETER_ID, HPF_PARAMETER_ID, NOISE_PARAMETER_ID,
    PULSE_PARAMETER_ID, SAW_PARAMETER_ID, VCA_DYNAMICS_PARAMETER_ID, VCF_DYNAMICS_PARAMETER_ID,
    bytes_at_most, first_dirty, lemma_first_dirty_is_pending, next_kind, first_match, flag, le_bytes, saved_head, saved_tail, le_u32, load_valid, secondary_offset, spec_load,
    spec_retry, spec_save, saved_switches, spec_serialized_size, spec_take_next_message, switch_offset, v1_size,
    bool_value, clamp, clear_pending, next_group, switch_write, WHOLE_MODE_PARAMETER_ID, spec_apply_modulation, spec_apply_value, spec_get_value, spec_has_dirty, spec_mark_all_dirty,
    BassWaveform, DirtyKind, ModulationAmount, Part, CHANNEL_PARAMETER_ID, MIDI_OUTPUT_PARAMETER_ID,
    RANGE_PARAMETER_ID, DynamicsSwitches, ModeSwitches, OscillatorSwitches, StateView,
};
use vstd::prelude::*;

verus! {

/// Whether the change of kind `kind` is pending in `s`.
pub open spec fn is_pending(s: StateView, kind: DirtyKind) -> bool {
    match kind {
        DirtyKind::WholeMode => s.whole_mode.dirty,
        DirtyKind::Oscillator => s.oscillator.dirty,
        DirtyKind::Dynamics => s.dynamics.dirty,
        DirtyKind::Secondary => s.secondary.dirty,
        DirtyKind::BassWaveform => s.bass.dirty,
        DirtyKind::Parameter(index) => index < s.dirty.len() && s.dirty[index as int],
    }
}

proof fn lemma_retry_undoes_clear_whole_mode(s: StateView)
    requires
        s.whole_mode.dirty,
    ensures
        spec_retry(clear_pending(s, DirtyKind::WholeMode), DirtyKind::WholeMode) == s,
{
}

proof fn lemma_retry_undoes_clear_oscillator(s: StateView)
    requires
        s.oscillator.dirty,
    ensures
        spec_retry(clear_pending(s, DirtyKind::Oscillator), DirtyKind::Oscillator) == s,
{
}

proof fn lemma_retry_undoes_clear_dynamics(s: StateView)
    requires
        s.dynamics.dirty,
    ensures
        spec_retry(clear_pending(s, DirtyKind::Dynamics), DirtyKind::Dynamics) == s,
{
}

proof fn lemma_retry_undoes_clear_secondary(s: StateView)
    requires
        s.secondary.dirty,
    ensures
        spec_retry(clear_pending(s, DirtyKind::Secondary), DirtyKind::Secondary) == s,
{
}

proof fn lemma_retry_undoes_clear_bass(s: StateView)
    requires
        s.bass.dirty,
    ensures
        spec_retry(clear_pending(s, DirtyKind::BassWaveform), DirtyKind::BassWaveform) == s,
{
}

proof fn lemma_retry_undoes_clear_parameter(s: StateView, index: usize)
    requires
        index < s.dirty.len(),
        s.dirty[index as int],
    ensures
        spec_retry(clear_pending(s, DirtyKind::Parameter(index)), DirtyKind::Parameter(index)) == s,
{
    assert(spec_retry(clear_pending(s, DirtyKind::Parameter(index)), DirtyKind::Parameter(index)).dirty
        =~= s.dirty);
}

/// Making a pending change pending again after clearing it gives back the same state.
pub proof fn lemma_retry_undoes_clear(s: StateView, kind: DirtyKind)
    requires
        is_pending(s, kind),
    ensures
        spec_retry(clear_pending(s, kind), kind) == s,
{
    match kind {
        DirtyKind::WholeMode => lemma_retry_undoes_clear_whole_mode(s),
        DirtyKind::Oscillator => lemma_retry_undoes_clear_oscillator(s),
        DirtyKind::Dynamics => lemma_retry_undoes_clear_dynamics(s),
        DirtyKind::Secondary => lemma_retry_undoes_clear_secondary(s),
        DirtyKind::BassWaveform => lemma_retry_undoes_clear_bass(s),
        DirtyKind::Parameter(index) => lemma_retry_undoes_clear_parameter(s, index),
    }
}

/// A failed send loses nothing: making the change a taken message carried pending again
/// gives back exactly the state before the message was taken.
pub proof fn law_retry_restores_taken_change(s: StateView, next: usize)
    requires
        s.dirty.len() == PARAMETER_SLOTS,
    ensures
        ({
            let (message, t, _) = spec_take_next_message(s, next);
            message matches Some((_, kind)) ==> spec_retry(t, kind) == s
        }),
{
    lemma_first_dirty_is_pending(s.dirty, next as int, s.count(), 0);
    match next_kind(s, next) {
        Some(kind) => {
            assert(is_pending(s, kind));
            lemma_retry_undoes_clear(s, kind);
        },
        None => {},
    }
}

/// The two views hold the same settings: everything a saved state keeps, apart from the
/// MIDI output, which is saved by its unique id.
pub open spec fn same_settings(a: StateView, b: StateView) -> bool {
    &&& a.part == b.part
    &&& a.channel == b.channel
    &&& a.values.take(a.count()) == b.values.take(b.count())
    &&& a.whole_mode.enabled == b.whole_mode.enabled
    &&& (OscillatorSwitches { dirty: false, ..a.oscillator }) == (OscillatorSwitches {
        dirty: false,
        ..b.oscillator
    })
    &&& (DynamicsSwitches { dirty: false, ..a.dynamics }) == (DynamicsSwitches {
        dirty: false,
        ..b.dynamics
    })
    &&& (ModeSwitches { dirty: false, ..a.secondary }) == (ModeSwitches {
        dirty: false,
        ..b.secondary
    })
    &&& (BassWaveform { dirty: false, ..a.bass }) == (BassWaveform { dirty: false, ..b.bass })
}

proof fn lemma_le_round_trip(x: u32)
    ensures
        le_u32(x as u8, (x >> 8u32) as u8, (x >> 16u32) as u8, (x >> 24u32) as u8) == x,
{
    assert(((x as u8) as u32) | ((((x >> 8u32) as u8) as u32) << 8u32) | ((((x >> 16u32) as u8) as u32)
        << 16u32) | ((((x >> 24u32) as u8) as u32) << 24u32) == x) by (bit_vector);
}

proof fn lemma_i32_round_trip(x: i32)
    ensures
        (x as u32) as i32 == x,
{
    assert((x as u32) as i32 == x) by (bit_vector);
}

/// The saved form is its head, the output id and its tail, one after the other.
proof fn lemma_save_pieces(s: StateView, output_id: i32)
    requires
        s.values.len() == 15,
    ensures
        ({
            let d = spec_save(s, output_id);
            let h = saved_head(s);
            let l = le_bytes(output_id as u32);
            let t = saved_tail(s);
            let n = s.count();
            &&& h.len() == 6 + n
            &&& d.len() == 10 + n + t.len()
            &&& forall|i: int| 0 <= i < 6 + n ==> #[trigger] d[i] == h[i]
            &&& d[6 + n] == l[0] && d[7 + n] == l[1] && d[8 + n] == l[2] && d[9 + n] == l[3]
            &&& forall|j: int| 0 <= j < t.len() ==> d[10 + n + j] == #[trigger] t[j]
        }),
{
    let h = saved_head(s);
    let l = le_bytes(output_id as u32);
    let t = saved_tail(s);
    let n = s.count();
    let hl = h + l;
    assert(hl.len() == 10 + n);
    assert forall|j: int| 0 <= j < t.len() implies spec_save(s, output_id)[10 + n + j] == #[trigger] t[j] by {
        assert(spec_save(s, output_id) == hl + t);
    }
    assert forall|i: int| 0 <= i < 6 + n implies #[trigger] spec_save(s, output_id)[i] == h[i] by {
        assert(spec_save(s, output_id) == hl + t);
        assert(hl[i] == h[i]);
    }
}


/// The switch bytes of a saved Melody state.
proof fn lemma_melody_tail(s: StateView, output_id: i32)
    requires
        s.values.len() == 15,
        s.part is Melody,
    ensures
        spec_save(s, output_id).len() == 39,
        spec_save(s, output_id)[25] == flag(s.oscillator.present),
        spec_save(s, output_id)[26] == s.oscillator.range,
        spec_save(s, output_id)[27] == flag(s.oscillator.pulse),
        spec_save(s, output_id)[28] == flag(s.oscillator.saw),
        spec_save(s, output_id)[29] == flag(s.oscillator.chorus),
        spec_save(s, output_id)[30] == flag(s.dynamics.present),
        spec_save(s, output_id)[31] == flag(s.dynamics.vcf),
        spec_save(s, output_id)[32] == flag(s.dynamics.vca),
        spec_save(s, output_id)[33] == flag(s.secondary.present),
        spec_save(s, output_id)[34] == flag(s.secondary.pwm_manual),
        spec_save(s, output_id)[35] == flag(s.secondary.env_negative),
        spec_save(s, output_id)[36] == flag(s.secondary.vca_gate),
        spec_save(s, output_id)[37] == flag(s.secondary.hpf),
        spec_save(s, output_id)[38] == flag(s.secondary.noise),
{
    lemma_save_pieces(s, output_id);
    let d = spec_save(s, output_id);
    let t = saved_tail(s);
    assert(t.len() == 14);
    assert(t[0] == flag(s.oscillator.present));
    assert(d[25] == t[0]);
    assert(t[1] == s.oscillator.range);
    assert(d[26] == t[1]);
    assert(t[2] == flag(s.oscillator.pulse));
    assert(d[27] == t[2]);
    assert(t[3] == flag(s.oscillator.saw));
    assert(d[28] == t[3]);
    assert(t[4] == flag(s.oscillator.chorus));
    assert(d[29] == t[4]);
    assert(t[5] == flag(s.dynamics.present));
    assert(d[30] == t[5]);
    assert(t[6] == flag(s.dynamics.vcf));
    assert(d[31] == t[6]);
    assert(t[7] == flag(s.dynamics.vca));
    assert(d[32] == t[7]);
    assert(t[8] == flag(s.secondary.present));
    assert(d[33] == t[8]);
    assert(t[9] == flag(s.secondary.pwm_manual));
    assert(d[34] == t[9]);
    assert(t[10] == flag(s.secondary.env_negative));
    assert(d[35] == t[10]);
    assert(t[11] == flag(s.secondary.vca_gate));
    assert(d[36] == t[11]);
    assert(t[12] == flag(s.secondary.hpf));
    assert(d[37] == t[12]);
    assert(t[13] == flag(s.secondary.noise));
    assert(d[38] == t[13]);
}

/// The Whole Mode and switch bytes of a saved Chord state.
proof fn lemma_chord_tail(s: StateView, output_id: i32)
    requires
        s.values.len() == 15,
        s.part is Chord,
    ensures
        spec_save(s, output_id).len() == 40,
        spec_save(s, output_id)[25] == flag(s.whole_mode.enabled),
        spec_save(s, output_id)[26] == flag(s.oscillator.present),
        spec_save(s, output_id)[27] == s.oscillator.range,
        spec_save(s, output_id)[28] == flag(s.oscillator.pulse),
        spec_save(s, output_id)[29] == flag(s.oscillator.saw),
        spec_save(s, output_id)[30] == flag(s.oscillator.chorus),
        spec_save(s, output_id)[31] == flag(s.dynamics.present),
        spec_save(s, output_id)[32] == flag(s.dynamics.vcf),
        spec_save(s, output_id)[33] == flag(s.dynamics.vca),
        spec_save(s, output_id)[34] == flag(s.secondary.present),
        spec_save(s, output_id)[35] == flag(s.secondary.pwm_manual),
        spec_save(s, output_id)[36] == flag(s.secondary.env_negative),
        spec_save(s, output_id)[37] == flag(s.secondary.vca_gate),
        spec_save(s, output_id)[38] == flag(s.secondary.hpf),
        spec_save(s, output_id)[39] == flag(s.secondary.noise),
{
    lemma_save_pieces(s, output_id);
    let d = spec_save(s, output_id);
    let t = saved_tail(s);
    assert(t.len() == 15);
    assert(t[0] == flag(s.whole_mode.enabled));
    assert(d[25] == t[0]);
    assert(t[1] == flag(s.oscillator.present));
    assert(d[26] == t[1]);
    assert(t[2] == s.oscillator.range);
    assert(d[27] == t[2]);
    assert(t[3] == flag(s.oscillator.pulse));
    assert(d[28] == t[3]);
    assert(t[4] == flag(s.oscillator.saw));
    assert(d[29] == t[4]);
    assert(t[5] == flag(s.oscillator.chorus));
    assert(d[30] == t[5]);
    assert(t[6] == flag(s.dynamics.present));
    assert(d[31] == t[6]);
    assert(t[7] == flag(s.dynamics.vcf));
    assert(d[32] == t[7]);
    assert(t[8] == flag(s.dynamics.vca));
    assert(d[33] == t[8]);
    assert(t[9] == flag(s.secondary.present));
    assert(d[34] == t[9]);
    assert(t[10] == flag(s.secondary.pwm_manual));
    assert(d[35] == t[10]);
    assert(t[11] == flag(s.secondary.env_negative));
    assert(d[36] == t[11]);
    assert(t[12] == flag(s.secondary.vca_gate));
    assert(d[37] == t[12]);
    assert(t[13] == flag(s.secondary.hpf));
    assert(d[38] == t[13]);
    assert(t[14] == flag(s.secondary.noise));
    assert(d[39] == t[14]);
}

/// The waveform bytes of a saved Bass state.
proof fn lemma_bass_tail(s: StateView, output_id: i32)
    requires
        s.values.len() == 15,
        s.part is Bass,
    ensures
        spec_save(s, output_id).len() == 22,
        spec_save(s, output_id)[20] == flag(s.bass.present),
        spec_save(s, output_id)[21] == flag(s.bass.saw),
{
    lemma_save_pieces(s, output_id);
    let d = spec_save(s, output_id);
    let t = saved_tail(s);
    assert(t.len() == 2);
    assert(t[0] == flag(s.bass.present));
    assert(d[20] == t[0]);
    assert(t[1] == flag(s.bass.saw));
    assert(d[21] == t[1]);
}


/// The head of the saved form holds the channel and the continuous values.
proof fn lemma_saved_values(s: StateView, output_id: i32)
    requires
        s.values.len() == 15,
    ensures
        ({
            let d = spec_save(s, output_id);
            &&& d[0] == 0x4d && d[1] == 0x4b && d[2] == 0x53 && d[3] == 0x37 && d[4] == 5
            &&& d[5] == s.channel
            &&& forall|i: int| 6 <= i < v1_size(s.part) ==> #[trigger] d[i] == s.values[i - 6]
        }),
{
    lemma_save_pieces(s, output_id);
    let d = spec_save(s, output_id);
    let h = saved_head(s);
    assert(d[0] == h[0] && d[1] == h[1] && d[2] == h[2] && d[3] == h[3] && d[4] == h[4] && d[5] == h[5]);
    assert forall|i: int| 6 <= i < v1_size(s.part) implies #[trigger] d[i] == s.values[i - 6] by {
        assert(d[i] == h[i]);
    }
}

/// The saved form of a well-formed state is one that its part loads.
proof fn lemma_saved_state_is_valid(s: StateView, output_id: i32)
    requires
        s.wf(),
    ensures
        load_valid(s.part, spec_save(s, output_id)),
        spec_save(s, output_id).len() == spec_serialized_size(s.part, 5)->Some_0,
{
    lemma_saved_values(s, output_id);
    let d = spec_save(s, output_id);
    assert(bytes_at_most(d, 6, v1_size(s.part), 127));
    if s.part is Melody {
        lemma_melody_tail(s, output_id);
        assert(bytes_at_most(d, 27, 30, 1));
        assert(bytes_at_most(d, 30, 39, 1));
    } else if s.part is Chord {
        lemma_chord_tail(s, output_id);
        assert(bytes_at_most(d, 28, 31, 1));
        assert(bytes_at_most(d, 31, 40, 1));
    } else {
        lemma_bass_tail(s, output_id);
        assert(bytes_at_most(d, 20, 22, 1));
    }
}


/// Saving depends on the settings alone, not on what is pending or modulated.
proof fn lemma_save_depends_on_settings(a: StateView, b: StateView, output_id: i32)
    requires
        a.values.len() == 15,
        b.values.len() == 15,
        same_settings(a, b),
    ensures
        spec_save(a, output_id) == spec_save(b, output_id),
{
    assert(saved_head(a) =~= saved_head(b));
    assert(saved_switches(a) =~= saved_switches(b));
    assert(saved_tail(a) =~= saved_tail(b));
}

/// Loading the saved form of `s` restores the settings of `s`.
proof fn lemma_load_restores_settings(s: StateView, t: StateView, output_id: i32, ids: Seq<i32>)
    requires
        s.wf(),
        t.wf(),
        t.part == s.part,
    ensures
        same_settings(spec_load(t, spec_save(s, output_id), ids), s),
        spec_load(t, spec_save(s, output_id), ids).output_index == first_match(ids, output_id, 1) as usize,
        spec_load(t, spec_save(s, output_id), ids).authoritative,
        spec_load(t, spec_save(s, output_id), ids).values.len() == 15,
{
    lemma_saved_values(s, output_id);
    lemma_save_pieces(s, output_id);
    let d = spec_save(s, output_id);
    let x = output_id as u32;
    lemma_le_round_trip(x);
    lemma_i32_round_trip(output_id);
    let n = s.count();
    let v1 = v1_size(s.part);
    let l = le_bytes(x);
    assert(d[v1] == l[0] && d[v1 + 1] == l[1] && d[v1 + 2] == l[2] && d[v1 + 3] == l[3]);
    if s.part is Melody {
        lemma_melody_tail(s, output_id);
    } else if s.part is Chord {
        lemma_chord_tail(s, output_id);
    } else {
        lemma_bass_tail(s, output_id);
    }
    let u = spec_load(t, d, ids);
    assert(u.values.take(n) =~= s.values.take(n));
}


/// A saved state loads back: whatever state of the same part loads the saved form of `s`, it
/// accepts it, ends up with the settings of `s`, selects the first MIDI output after "None"
/// whose unique id is the saved one, holds its settings as authoritative, and saves exactly
/// the same bytes again.
pub proof fn law_saved_state_loads_back(s: StateView, t: StateView, output_id: i32, ids: Seq<i32>)
    requires
        s.wf(),
        t.wf(),
        t.part == s.part,
    ensures
        load_valid(s.part, spec_save(s, output_id)),
        spec_save(s, output_id).len() == spec_serialized_size(s.part, 5)->Some_0,
        same_settings(spec_load(t, spec_save(s, output_id), ids), s),
        spec_load(t, spec_save(s, output_id), ids).output_index == first_match(ids, output_id, 1) as usize,
        spec_load(t, spec_save(s, output_id), ids).authoritative,
        spec_save(spec_load(t, spec_save(s, output_id), ids), output_id) == spec_save(s, output_id),
{
    lemma_saved_state_is_valid(s, output_id);
    lemma_load_restores_settings(s, t, output_id, ids);
    lemma_save_depends_on_settings(spec_load(t, spec_save(s, output_id), ids), s, output_id);
}


/// The value the host reads back after writing `value` to parameter `id` of `part`:
/// continuous parameters are limited to 0..=127, the channel to 1..=16, the MIDI output to
/// the outputs there are, the range to 0..=2, and a switch reads 1 exactly when the value
/// written was at least 1.
pub open spec fn written_value(part: Part, id: u32, value: i64, output_count: usize) -> u64 {
    if (id as int) < part.spec_parameter_len() {
        clamp(value as int, 0, 127) as u64
    } else if id == CHANNEL_PARAMETER_ID {
        clamp(value as int, 1, 16) as u64
    } else if id == MIDI_OUTPUT_PARAMETER_ID {
        clamp(value as int, 0, if output_count == 0 { 0 } else { output_count - 1 }) as u64
    } else if id == RANGE_PARAMETER_ID {
        clamp(value as int, 0, 2) as u64
    } else {
        bool_value(value >= 1)
    }
}

/// What the host writes to a parameter is what it reads back (after limiting the value to
/// the parameter's range).
pub proof fn law_value_written_is_read(s: StateView, id: u32, value: i64, output_count: usize)
    requires
        s.wf(),
        spec_get_value(s, id) is Some,
    ensures
        spec_get_value(spec_apply_value(s, id, value, output_count), id) == Some(
            written_value(s.part, id, value, output_count),
        ),
{
    let t = spec_apply_value(s, id, value, output_count);
    if (id as int) < s.count() {
        assert(t.values[id as int] == clamp(value as int, 0, 127) as u8);
    } else if id == CHANNEL_PARAMETER_ID || id == MIDI_OUTPUT_PARAMETER_ID {
    } else if s.part is Bass {
    } else if id != WHOLE_MODE_PARAMETER_ID {
        assert(t == switch_write(s, id, value));
        lemma_switch_write_reads_back(s, id, value);
    }
}

/// A written Melody/Chord switch reads back as written.
proof fn lemma_switch_write_reads_back(s: StateView, id: u32, value: i64)
    requires
        !(s.part is Bass),
        !((id as int) < s.count()),
        id != CHANNEL_PARAMETER_ID,
        id != MIDI_OUTPUT_PARAMETER_ID,
        id != WHOLE_MODE_PARAMETER_ID,
        spec_get_value(s, id) is Some,
    ensures
        spec_get_value(switch_write(s, id, value), id) == Some(
            if id == RANGE_PARAMETER_ID {
                clamp(value as int, 0, 2) as u64
            } else {
                bool_value(value >= 1)
            },
        ),
{
    let on = value >= 1;
    let o = s.oscillator;
    let d = s.dynamics;
    let m = s.secondary;
    let t = switch_write(s, id, value);
    lemma_switch_write_keeps_groups(s, id, value);
    if id == RANGE_PARAMETER_ID {
        lemma_oscillator_write_keeps_groups(s, OscillatorSwitches { range: clamp(value as int, 0, 2) as u8, ..o });
    } else if id == PULSE_PARAMETER_ID {
        lemma_oscillator_write_keeps_groups(s, OscillatorSwitches { pulse: on, ..o });
    } else if id == SAW_PARAMETER_ID {
        lemma_oscillator_write_keeps_groups(s, OscillatorSwitches { saw: on, ..o });
    } else if id == CHORUS_PARAMETER_ID {
        lemma_oscillator_write_keeps_groups(s, OscillatorSwitches { chorus: on, ..o });
    } else if id == VCF_DYNAMICS_PARAMETER_ID {
        lemma_dynamics_write_keeps_groups(s, DynamicsSwitches { vcf: on, ..d });
    } else if id == VCA_DYNAMICS_PARAMETER_ID {
        lemma_dynamics_write_keeps_groups(s, DynamicsSwitches { vca: on, ..d });
    } else if id == PWM_SOURCE_PARAMETER_ID {
        lemma_secondary_write_keeps_groups(s, ModeSwitches { pwm_manual: on, ..m });
    } else if id == VCA_MODE_PARAMETER_ID {
        lemma_secondary_write_keeps_groups(s, ModeSwitches { vca_gate: on, ..m });
    } else if id == ENV_POLARITY_PARAMETER_ID {
        lemma_secondary_write_keeps_groups(s, ModeSwitches { env_negative: on, ..m });
    } else if id == HPF_PARAMETER_ID {
        lemma_secondary_write_keeps_groups(s, ModeSwitches { hpf: on, ..m });
    } else if id == NOISE_PARAMETER_ID {
        lemma_secondary_write_keeps_groups(s, ModeSwitches { noise: on, ..m });
    }
}

/// Modulation never changes the values the host reads.
pub proof fn law_modulation_leaves_values(s: StateView, id: u32, amount: ModulationAmount, other: u32)
    requires
        s.wf(),
    ensures
        spec_get_value(spec_apply_modulation(s, id, amount), other) == spec_get_value(s, other),
{
}

/// Once the settings are authoritative they stay so, whatever the host writes or modulates,
/// and whatever the sender takes or retries; a loaded state is always authoritative.
pub proof fn law_authority_is_kept(
    s: StateView,
    id: u32,
    value: i64,
    output_count: usize,
    amount: ModulationAmount,
    next: usize,
    kind: DirtyKind,
    data: Seq<u8>,
    ids: Seq<i32>,
)
    requires
        s.wf(),
    ensures
        s.authoritative ==> spec_apply_value(s, id, value, output_count).authoritative,
        s.authoritative ==> spec_apply_modulation(s, id, amount).authoritative,
        s.authoritative ==> spec_mark_all_dirty(s).authoritative,
        s.authoritative ==> spec_take_next_message(s, next).1.authoritative,
        s.authoritative ==> spec_retry(s, kind).authoritative,
        spec_load(s, data, ids).authoritative,
{
    if s.authoritative && !((id as int) < s.count()) && id != CHANNEL_PARAMETER_ID && id
        != MIDI_OUTPUT_PARAMETER_ID && !(id == WHOLE_MODE_PARAMETER_ID && s.part is Chord)
        && s.part.spec_supports_oscillator_switches() {
        lemma_switch_write_keeps_groups(s, id, value);
    }
}


/// When no continuous parameter is found from offset `k` on, none of those offsets is
/// pending.
proof fn lemma_first_dirty_none(dirty: Seq<bool>, start: int, n: int, k: int)
    requires
        0 <= start,
        0 <= k,
        n > 0,
        first_dirty(dirty, start, n, k) is None,
    ensures
        forall|j: int| k <= j < n ==> !#[trigger] dirty[(start + j) % n],
    decreases n - k,
{
    if k < n {
        lemma_first_dirty_none(dirty, start, n, k + 1);
    }
}

/// Every position `i` below `n` is reached from `start` by some offset below `n`.
proof fn lemma_round_robin_reaches(start: int, n: int, i: int) -> (j: int)
    requires
        0 <= start,
        0 <= i < n,
    ensures
        0 <= j < n,
        (start + j) % n == i,
{
    let q = start / n;
    let r = start % n;
    vstd::arithmetic::div_mod::lemma_fundamental_div_mod(start, n);
    assert(n * q == q * n) by (nonlinear_arith);
    if i >= r {
        let j = i - r;
        vstd::arithmetic::div_mod::lemma_fundamental_div_mod_converse_mod(start + j, n, q, i);
        j
    } else {
        let j = i + n - r;
        assert((q + 1) * n == q * n + n) by (nonlinear_arith);
        vstd::arithmetic::div_mod::lemma_fundamental_div_mod_converse_mod(start + j, n, q + 1, i);
        j
    }
}

/// No change is pending for a group that the part does not have.
pub open spec fn no_foreign_pending(s: StateView) -> bool {
    &&& !(s.part is Chord) ==> !s.whole_mode.dirty
    &&& s.part is Bass ==> !s.oscillator.dirty && !s.dynamics.dirty && !s.secondary.dirty
    &&& !(s.part is Bass) ==> !s.bass.dirty
}

/// The sender has a message to take exactly when a change is pending, wherever the
/// round-robin stands.
pub proof fn law_sender_takes_exactly_pending(s: StateView, next: usize)
    requires
        no_foreign_pending(s),
    ensures
        spec_take_next_message(s, next).0 is Some <==> spec_has_dirty(s),
{
    lemma_first_dirty_is_pending(s.dirty, next as int, s.count(), 0);
    if next_group(s) is None && first_dirty(s.dirty, next as int, s.count(), 0) is None {
        lemma_first_dirty_none(s.dirty, next as int, s.count(), 0);
        assert forall|i: int| 0 <= i < s.count() implies !#[trigger] s.dirty[i] by {
            let j = lemma_round_robin_reaches(next as int, s.count(), i);
            assert(!s.dirty[(next + j) % s.count()]);
        }
    }
}


/// Whether `kind` names a change that `part` can have pending: the Whole Mode for Chord,
/// the three packed switch groups for Melody and Chord, the waveform for Bass, and one of
/// the part's continuous parameters.
pub open spec fn kind_of_part(part: Part, kind: DirtyKind) -> bool {
    match kind {
        DirtyKind::WholeMode => part is Chord,
        DirtyKind::Oscillator | DirtyKind::Dynamics | DirtyKind::Secondary => !(part is Bass),
        DirtyKind::BassWaveform => part is Bass,
        DirtyKind::Parameter(index) => index < part.spec_parameter_len(),
    }
}

/// Every message the sender takes is for a change the part has, so that handing its kind
/// back to `retry` is always allowed.
pub proof fn law_taken_kinds_belong_to_part(s: StateView, next: usize)
    ensures
        spec_take_next_message(s, next).0 matches Some((_, kind)) ==> kind_of_part(s.part, kind),
{
    lemma_first_dirty_is_pending(s.dirty, next as int, s.count(), 0);
}

/// One call through the public interface of a [`State`], as its effect on the state.
pub enum Operation {
    ApplyValue { id: u32, value: i64, output_count: usize },
    ApplyModulation { id: u32, amount: ModulationAmount },
    MarkAllDirty,
    Load { data: Seq<u8>, output_ids: Seq<i32> },
    Take { next: usize },
    Retry { kind: DirtyKind },
}

/// The state after `op`: `load` of data it refuses leaves the state as it was.
pub open spec fn apply_operation(s: StateView, op: Operation) -> StateView {
    match op {
        Operation::ApplyValue { id, value, output_count } => spec_apply_value(s, id, value, output_count),
        Operation::ApplyModulation { id, amount } => spec_apply_modulation(s, id, amount),
        Operation::MarkAllDirty => spec_mark_all_dirty(s),
        Operation::Load { data, output_ids } => if load_valid(s.part, data) {
            spec_load(s, data, output_ids)
        } else {
            s
        },
        Operation::Take { next } => spec_take_next_message(s, next).1,
        Operation::Retry { kind } => spec_retry(s, kind),
    }
}

/// Retries hand back only kinds the part has, as every taken message's kind is.
pub open spec fn operation_allowed(part: Part, op: Operation) -> bool {
    match op {
        Operation::Retry { kind } => kind_of_part(part, kind),
        _ => true,
    }
}

/// The state after the operations `ops`, in order, starting from `s`.
pub open spec fn run(s: StateView, ops: Seq<Operation>) -> StateView
    decreases ops.len(),
{
    if ops.len() == 0 {
        s
    } else {
        run(apply_operation(s, ops[0]), ops.drop_first())
    }
}

/// Each operation keeps the part, and keeps every change the part lacks from being pending.
pub proof fn law_operation_keeps_groups(s: StateView, op: Operation)
    requires
        no_foreign_pending(s),
        operation_allowed(s.part, op),
    ensures
        apply_operation(s, op).part == s.part,
        no_foreign_pending(apply_operation(s, op)),
{
    match op {
        Operation::ApplyValue { id, value, output_count } => {
            lemma_apply_value_keeps_groups(s, id, value, output_count);
        },
        Operation::ApplyModulation { id, amount } => {},
        Operation::MarkAllDirty => {
            lemma_mark_all_dirty_keeps_groups(s);
        },
        Operation::Load { data, output_ids } => {
            if load_valid(s.part, data) {
                lemma_load_keeps_groups(s, data, output_ids);
            }
        },
        Operation::Take { next } => {
            law_taken_kinds_belong_to_part(s, next);
        },
        Operation::Retry { kind } => {},
    }
}

proof fn lemma_mark_all_dirty_keeps_groups(s: StateView)
    requires
        no_foreign_pending(s),
    ensures
        spec_mark_all_dirty(s).part == s.part,
        no_foreign_pending(spec_mark_all_dirty(s)),
{
}

proof fn lemma_switch_write_keeps_groups(s: StateView, id: u32, value: i64)
    ensures
        switch_write(s, id, value).part == s.part,
        switch_write(s, id, value).whole_mode == s.whole_mode,
        switch_write(s, id, value).bass == s.bass,
        s.authoritative ==> switch_write(s, id, value).authoritative,
        switch_write(s, id, value).channel == s.channel,
        switch_write(s, id, value).dirty == s.dirty,
{
    let on = value >= 1;
    let o = s.oscillator;
    let d = s.dynamics;
    let m = s.secondary;
    if id == RANGE_PARAMETER_ID {
        lemma_oscillator_write_keeps_groups(s, OscillatorSwitches { range: clamp(value as int, 0, 2) as u8, ..o });
    } else if id == PULSE_PARAMETER_ID {
        lemma_oscillator_write_keeps_groups(s, OscillatorSwitches { pulse: on, ..o });
    } else if id == SAW_PARAMETER_ID {
        lemma_oscillator_write_keeps_groups(s, OscillatorSwitches { saw: on, ..o });
    } else if id == CHORUS_PARAMETER_ID {
        lemma_oscillator_write_keeps_groups(s, OscillatorSwitches { chorus: on, ..o });
    } else if id == VCF_DYNAMICS_PARAMETER_ID {
        lemma_dynamics_write_keeps_groups(s, DynamicsSwitches { vcf: on, ..d });
    } else if id == VCA_DYNAMICS_PARAMETER_ID {
        lemma_dynamics_write_keeps_groups(s, DynamicsSwitches { vca: on, ..d });
    } else if id == PWM_SOURCE_PARAMETER_ID {
        lemma_secondary_write_keeps_groups(s, ModeSwitches { pwm_manual: on, ..m });
    } else if id == VCA_MODE_PARAMETER_ID {
        lemma_secondary_write_keeps_groups(s, ModeSwitches { vca_gate: on, ..m });
    } else if id == ENV_POLARITY_PARAMETER_ID {
        lemma_secondary_write_keeps_groups(s, ModeSwitches { env_negative: on, ..m });
    } else if id == HPF_PARAMETER_ID {
        lemma_secondary_write_keeps_groups(s, ModeSwitches { hpf: on, ..m });
    } else if id == NOISE_PARAMETER_ID && s.part is Melody {
        lemma_secondary_write_keeps_groups(s, ModeSwitches { noise: on, ..m });
    }
}

proof fn lemma_oscillator_write_keeps_groups(s: StateView, o: OscillatorSwitches)
    ensures
        oscillator_write(s, o).part == s.part,
        oscillator_write(s, o).whole_mode == s.whole_mode,
        oscillator_write(s, o).bass == s.bass,
        s.authoritative ==> oscillator_write(s, o).authoritative,
        oscillator_write(s, o).channel == s.channel,
        oscillator_write(s, o).dirty == s.dirty,
        (OscillatorSwitches { present: false, dirty: false, ..oscillator_write(s, o).oscillator }) == (OscillatorSwitches {
            present: false,
            dirty: false,
            ..o
        }),
{
}

proof fn lemma_dynamics_write_keeps_groups(s: StateView, d: DynamicsSwitches)
    ensures
        dynamics_write(s, d).part == s.part,
        dynamics_write(s, d).whole_mode == s.whole_mode,
        dynamics_write(s, d).bass == s.bass,
        s.authoritative ==> dynamics_write(s, d).authoritative,
        dynamics_write(s, d).channel == s.channel,
        dynamics_write(s, d).dirty == s.dirty,
        (DynamicsSwitches { present: false, dirty: false, ..dynamics_write(s, d).dynamics }) == (DynamicsSwitches {
            present: false,
            dirty: false,
            ..d
        }),
{
}

proof fn lemma_secondary_write_keeps_groups(s: StateView, m: ModeSwitches)
    ensures
        secondary_write(s, m).part == s.part,
        secondary_write(s, m).whole_mode == s.whole_mode,
        secondary_write(s, m).bass == s.bass,
        s.authoritative ==> secondary_write(s, m).authoritative,
        secondary_write(s, m).channel == s.channel,
        secondary_write(s, m).dirty == s.dirty,
        (ModeSwitches { present: false, dirty: false, ..secondary_write(s, m).secondary }) == (ModeSwitches {
            present: false,
            dirty: false,
            ..m
        }),
{
}

proof fn lemma_apply_value_keeps_groups(s: StateView, id: u32, value: i64, output_count: usize)
    requires
        no_foreign_pending(s),
    ensures
        spec_apply_value(s, id, value, output_count).part == s.part,
        no_foreign_pending(spec_apply_value(s, id, value, output_count)),
{
    if (id as int) < s.count() {
    } else if id == CHANNEL_PARAMETER_ID {
        let c = clamp(value as int, 1, 16) as u8;
        lemma_mark_all_dirty_keeps_groups(StateView { channel: c, authoritative: true, ..s });
    } else if id == MIDI_OUTPUT_PARAMETER_ID {
        let last = if output_count == 0 {
            0
        } else {
            output_count - 1
        };
        let out = clamp(value as int, 0, last) as usize;
        lemma_mark_all_dirty_keeps_groups(StateView { output_index: out, ..s });
    } else if id == WHOLE_MODE_PARAMETER_ID && s.part is Chord {
    } else if s.part.spec_supports_oscillator_switches() {
        lemma_switch_write_keeps_groups(s, id, value);
    }
}

proof fn lemma_load_keeps_groups(s: StateView, d: Seq<u8>, ids: Seq<i32>)
    requires
        no_foreign_pending(s),
    ensures
        spec_load(s, d, ids).part == s.part,
        no_foreign_pending(spec_load(s, d, ids)),
{
    let part = s.part;
    let n = s.count();
    let t = StateView {
        values: Seq::new(15, |i: int| if i < n { d[6 + i] } else { s.values[i] }),
        modulations: Seq::new(15, |i: int| if i < n { zero_modulation() } else { s.modulations[i] }),
        channel: d[5],
        output_index: loaded_output(part, d, ids) as usize,
        whole_mode: WholeModeSetting {
            enabled: part is Chord && d[4] >= 3 && d[v1_size(part) + 4] != 0,
            ..s.whole_mode
        },
        oscillator: loaded_oscillator(part, d),
        dynamics: loaded_dynamics(part, d),
        secondary: loaded_secondary(part, d),
        bass: loaded_bass(part, d),
        authoritative: true,
        ..s
    };
    assert(spec_load(s, d, ids) == spec_mark_all_dirty(t));
    assert(no_foreign_pending(t));
    lemma_mark_all_dirty_keeps_groups(t);
}

/// Every operation keeps the fifteen pending slots of the continuous parameters.
proof fn lemma_operation_keeps_slots(s: StateView, op: Operation)
    requires
        s.dirty.len() == PARAMETER_SLOTS,
        operation_allowed(s.part, op),
    ensures
        apply_operation(s, op).dirty.len() == PARAMETER_SLOTS,
{
    match op {
        Operation::ApplyValue { id, value, output_count } => {
            if !((id as int) < s.count()) && id != CHANNEL_PARAMETER_ID && id
                != MIDI_OUTPUT_PARAMETER_ID && s.part.spec_supports_oscillator_switches() {
                lemma_switch_write_keeps_groups(s, id, value);
            }
        },
        Operation::Load { data, output_ids } => {
            if load_valid(s.part, data) {
                assert(spec_load(s, data, output_ids).dirty.len() == PARAMETER_SLOTS);
            }
        },
        Operation::Take { next } => {
            lemma_first_dirty_is_pending(s.dirty, next as int, s.count(), 0);
        },
        _ => {},
    }
}

/// Every operation keeps the receive channel in 1..=16.
proof fn lemma_operation_keeps_channel(s: StateView, op: Operation)
    requires
        1 <= s.channel <= 16,
    ensures
        1 <= apply_operation(s, op).channel <= 16,
{
    match op {
        Operation::ApplyValue { id, value, output_count } => {
            lemma_apply_value_keeps_channel(s, id, value, output_count);
        },
        Operation::Load { data, output_ids } => {
            if load_valid(s.part, data) {
                assert(spec_load(s, data, output_ids).channel == data[5]);
            }
        },
        _ => {},
    }
}

proof fn lemma_apply_value_keeps_channel(s: StateView, id: u32, value: i64, output_count: usize)
    requires
        1 <= s.channel <= 16,
    ensures
        1 <= spec_apply_value(s, id, value, output_count).channel <= 16,
{
    if (id as int) < s.count() {
    } else if id == CHANNEL_PARAMETER_ID {
    } else if id == MIDI_OUTPUT_PARAMETER_ID {
    } else if id == WHOLE_MODE_PARAMETER_ID && s.part is Chord {
    } else if s.part.spec_supports_oscillator_switches() {
        lemma_switch_write_keeps_groups(s, id, value);
    }
}

/// From a new instance, whatever operations the host and the sender perform, no change is
/// ever pending for a switch group the part lacks, and the receive channel stays in 1..=16.
pub proof fn law_reached_states_keep_groups(part: Part, ops: Seq<Operation>)
    requires
        forall|i: int| 0 <= i < ops.len() ==> operation_allowed(part, #[trigger] ops[i]),
    ensures
        run(initial_state(part), ops).part == part,
        no_foreign_pending(run(initial_state(part), ops)),
        1 <= run(initial_state(part), ops).channel <= 16,
        run(initial_state(part), ops).dirty.len() == PARAMETER_SLOTS,
{
    lemma_run_keeps_groups(initial_state(part), ops);
}

proof fn lemma_run_keeps_groups(s: StateView, ops: Seq<Operation>)
    requires
        no_foreign_pending(s),
        1 <= s.channel <= 16,
        s.dirty.len() == PARAMETER_SLOTS,
        forall|i: int| 0 <= i < ops.len() ==> operation_allowed(s.part, #[trigger] ops[i]),
    ensures
        run(s, ops).part == s.part,
        no_foreign_pending(run(s, ops)),
        1 <= run(s, ops).channel <= 16,
        run(s, ops).dirty.len() == PARAMETER_SLOTS,
    decreases ops.len(),
{
    if ops.len() > 0 {
        law_operation_keeps_groups(s, ops[0]);
        lemma_operation_keeps_channel(s, ops[0]);
        lemma_operation_keeps_slots(s, ops[0]);
        let t = apply_operation(s, ops[0]);
        assert forall|i: int| 0 <= i < ops.drop_first().len() implies operation_allowed(
            t.part,
            #[trigger] ops.drop_first()[i],
        ) by {
            assert(ops.drop_first()[i] == ops[i + 1]);
        }
        lemma_run_keeps_groups(t, ops.drop_first());
    }
}

/// In every state reached from a new instance, the sender has a message to take exactly
/// when a change is pending, wherever the round-robin stands; when it has none, taking
/// changes nothing.
pub proof fn law_reached_sender_takes_exactly_pending(part: Part, ops: Seq<Operation>, next: usize)
    requires
        forall|i: int| 0 <= i < ops.len() ==> operation_allowed(part, #[trigger] ops[i]),
    ensures
        ({
            let s = run(initial_state(part), ops);
            &&& spec_take_next_message(s, next).0 is Some <==> spec_has_dirty(s)
            &&& spec_take_next_message(s, next).0 is None ==> spec_take_next_message(s, next).1 == s
                && spec_take_next_message(s, next).2 == next
        }),
{
    law_reached_states_keep_groups(part, ops);
    law_sender_takes_exactly_pending(run(initial_state(part), ops), next);
}

/// Every tone-parameter write the library encodes is a complete SysEx message: it starts with
/// F0 and ends with F7, and every byte between is a 7-bit data byte.
pub proof fn law_parameter_writes_are_sysex(channel: int, parameter: int, value: int)
    ensures
        spec_parameter_change(channel, parameter, value) matches Ok(bytes) ==> {
            &&& bytes.len() == 7
            &&& bytes[0] == 0xf0
            &&& bytes[6] == 0xf7
            &&& forall|i: int| 1 <= i < 6 ==> #[trigger] bytes[i] < 0x80
        },
{
}

/// Every Control Change the library encodes has a Control Change status byte and two 7-bit
/// data bytes.
pub proof fn law_control_changes_are_well_formed(channel: int, controller: int, value: int)
    ensures
        spec_control_change(channel, controller, value) matches Ok(bytes) ==> {
            &&& bytes.len() == 3
            &&& 0xb0 <= bytes[0] <= 0xbf
            &&& bytes[1] < 0x80
            &&& bytes[2] < 0x80
        },
{
}

/// The packed switch bytes keep the bits that the hardware ignores clear: parameter 16
/// uses bits 0-5 with exactly one range bit, parameter 4 only bits 5 and 6, parameter 17
/// leaves bit 3 clear, and the Bass parameter 16 uses bit 4 alone.
pub proof fn law_packed_bytes_leave_ignored_bits_clear(
    range: int,
    pulse: bool,
    saw: bool,
    chorus: bool,
    vcf: bool,
    vca: bool,
    pwm_manual: bool,
    env_negative: bool,
    vca_gate: bool,
    hpf: bool,
    noise: bool,
)
    requires
        0 <= range <= 2,
    ensures
        (spec_melody_chord_switches_1(range, pulse, saw, chorus) as u8) & 0xc0 == 0,
        (spec_melody_chord_switches_1(range, pulse, saw, chorus) as u8) & 0x07 == (1u8 << (range as u8)),
        (spec_melody_chord_dynamics(vcf, vca) as u8) & 0x9f == 0,
        (spec_melody_chord_switches_2(pwm_manual, env_negative, vca_gate, hpf, noise) as u8) & 0xc8 == 0,
        (spec_bass_switches_1(saw) as u8) & 0xef == 0,
{
    let r = range as u8;
    let p: u8 = if pulse { 0x08 } else { 0 };
    let w: u8 = if saw { 0x10 } else { 0 };
    let c: u8 = if chorus { 0 } else { 0x20 };
    let b: u8 = if r == 0 { 1 } else if r == 1 { 2 } else { 4 };
    assert(spec_melody_chord_switches_1(range, pulse, saw, chorus) as u8 == b + p + w + c);
    assert(((b + p + w + c) as u8) & 0xc0 == 0 && ((b + p + w + c) as u8) & 0x07 == (1u8 << r)) by (bit_vector)
        requires
            r <= 2,
            b == (if r == 0 { 1u8 } else if r == 1 { 2u8 } else { 4u8 }),
            p == 0x08 || p == 0,
            w == 0x10 || w == 0,
            c == 0x20 || c == 0,
    ;
    let f: u8 = if vcf { 0x40 } else { 0 };
    let a: u8 = if vca { 0x20 } else { 0 };
    assert(spec_melody_chord_dynamics(vcf, vca) as u8 == f + a);
    assert(((f + a) as u8) & 0x9f == 0) by (bit_vector)
        requires
            f == 0x40 || f == 0,
            a == 0x20 || a == 0,
    ;
    let b0: u8 = if pwm_manual { 0x01 } else { 0 };
    let b1: u8 = if env_negative { 0x02 } else { 0 };
    let b2: u8 = if vca_gate { 0x04 } else { 0 };
    let b4: u8 = if hpf { 0 } else { 0x10 };
    let b5: u8 = if noise { 0x20 } else { 0 };
    assert(spec_melody_chord_switches_2(pwm_manual, env_negative, vca_gate, hpf, noise) as u8 == b0 + b1
        + b2 + b4 + b5);
    assert(((b0 + b1 + b2 + b4 + b5) as u8) & 0xc8 == 0) by (bit_vector)
        requires
            b0 == 0x01 || b0 == 0,
            b1 == 0x02 || b1 == 0,
            b2 == 0x04 || b2 == 0,
            b4 == 0x10 || b4 == 0,
            b5 == 0x20 || b5 == 0,
    ;
    let s: u8 = if saw { 0x10 } else { 0 };
    assert(s & 0xef == 0) by (bit_vector)
        requires
            s == 0x10 || s == 0,
    ;
}


/// Every host parameter a part declares is one whose value the host can read, and the
/// declared parameters are exactly the first `parameter_count` indices.
pub proof fn law_declared_parameters_are_readable(s: StateView, index: int, output_count: usize)
    requires
        s.wf(),
        0 <= index,
    ensures
        spec_param_info(s.part, index, output_count) is Some <==> index < s.part.spec_parameter_count(),
        spec_param_info(s.part, index, output_count) matches Some(p) ==> spec_get_value(s, p.id) is Some,
{
}

/// A new instance reads every declared parameter at its declared default.
pub proof fn law_new_instance_reads_defaults(part: Part, index: int, output_count: usize)
    requires
        0 <= index,
    ensures
        spec_param_info(part, index, output_count) matches Some(p) ==> spec_get_value(
            initial_state(part),
            p.id,
        ) == Some(p.default_value),
{
}

/// The remote-control pages of a part list only parameters that the part has.
pub proof fn law_remote_pages_list_parameters(s: StateView, index: u32, slot: int)
    requires
        s.wf(),
        index < spec_remote_page_count(s.part),
        0 <= slot < 8,
    ensures
        page_slots(spec_page_contents(s.part, index).1)[slot] matches Some(id) ==> spec_get_value(s, id) is Some,
{
}


/// The step a label shows: the range step for the range, 1 or 0 for a switch.
pub open spec fn shown_step(id: u32, value: i64) -> u64 {
    if id == RANGE_PARAMETER_ID {
        clamp(value as int, 0, 2) as u64
    } else {
        bool_value(value >= 1)
    }
}

/// A label the host shows for a value reads back as that value's step.
pub proof fn law_labels_read_back(
    part: Part,
    outputs: Seq<(i32, Seq<char>)>,
    id: u32,
    value: i64,
    output_count: usize,
)
    ensures
        spec_value_text(part, output_count, id, value) matches Some(ValueText::Label(label))
            ==> spec_label_value(part, outputs, id, label@) == Some(shown_step(id, value)),
{
    reveal_strlit("4 Voices");
    reveal_strlit("6 Voices");
    reveal_strlit("16'");
    reveal_strlit("8'");
    reveal_strlit("4'");
    reveal_strlit("Off");
    reveal_strlit("On");
    reveal_strlit("LFO");
    reveal_strlit("Manual");
    reveal_strlit("ENV");
    reveal_strlit("Gate");
    reveal_strlit("Positive");
    reveal_strlit("Negative");
    reveal_strlit("Pulse");
    reveal_strlit("Saw");
    let osc = part.spec_supports_oscillator_switches();
    if id == MIDI_OUTPUT_PARAMETER_ID {
    } else if id == WHOLE_MODE_PARAMETER_ID && part is Chord {
        assert("4 Voices"@[0] != "6 Voices"@[0]);
    } else if id == RANGE_PARAMETER_ID && osc {
        assert("16'"@.len() != "8'"@.len() && "16'"@.len() != "4'"@.len() && "8'"@[0] != "4'"@[0]);
    } else if is_on_off_switch(part, id) {
        assert("Off"@.len() != "On"@.len());
    } else if id == PWM_SOURCE_PARAMETER_ID && osc {
        assert("LFO"@.len() != "Manual"@.len());
    } else if id == VCA_MODE_PARAMETER_ID && osc {
        assert("ENV"@.len() != "Gate"@.len());
    } else if id == ENV_POLARITY_PARAMETER_ID && osc {
        assert("Positive"@[0] != "Negative"@[0]);
    } else if id == BASS_WAVEFORM_PARAMETER_ID && part is Bass {
        assert("Pulse"@.len() != "Saw"@.len());
    }
}

/// When the MIDI outputs have distinct names, the name shown for an output reads back as
/// that output.
pub proof fn law_output_names_read_back(outputs: Seq<(i32, Seq<char>)>, index: int)
    requires
        0 <= index < spec_output_count(outputs),
        forall|j: int, k: int|
            0 <= j < k < spec_output_count(outputs) ==> spec_output_name(outputs, j)
                != spec_output_name(outputs, k),
    ensures
        first_output_named(outputs, spec_output_name(outputs, index), 0) == Some(index as u64),
{
    lemma_first_output_named_from(outputs, index, 0);
}

proof fn lemma_first_output_named_from(outputs: Seq<(i32, Seq<char>)>, index: int, i: int)
    requires
        0 <= i <= index < spec_output_count(outputs),
        forall|j: int, k: int|
            0 <= j < k < spec_output_count(outputs) ==> spec_output_name(outputs, j)
                != spec_output_name(outputs, k),
    ensures
        first_output_named(outputs, spec_output_name(outputs, index), i) == Some(index as u64),
    decreases index - i,
{
    if i < index {
        assert(spec_output_name(outputs, i) != spec_output_name(outputs, index));
        lemma_first_output_named_from(outputs, index, i + 1);
    }
}

/// Whether the switch group `kind` has been set by the host so that it belongs to the saved
/// settings; the Whole Mode and the continuous parameters have no such flag.
pub open spec fn group_present(s: StateView, kind: DirtyKind) -> bool {
    match kind {
        DirtyKind::Oscillator => s.oscillator.present,
        DirtyKind::Dynamics => s.dynamics.present,
        DirtyKind::Secondary => s.secondary.present,
        DirtyKind::BassWaveform => s.bass.present,
        _ => false,
    }
}

/// The offset of the presence byte of switch group `kind` in a saved state of `part`.
pub open spec fn presence_offset(part: Part, kind: DirtyKind) -> int {
    match kind {
        DirtyKind::Dynamics => secondary_offset(part),
        DirtyKind::Secondary => secondary_offset(part) + 3,
        _ => switch_offset(part),
    }
}

/// Whether `kind` is one of the switch groups of `part` (not the Whole Mode, not a
/// continuous parameter).
pub open spec fn switch_group_of_part(part: Part, kind: DirtyKind) -> bool {
    kind_of_part(part, kind) && !(kind is WholeMode) && !(kind is Parameter)
}

/// The saved form lays out what the host reads: "MKS7" and format 5, the channel, each
/// continuous value, the unique id of the output in little-endian order, for Chord the Whole
/// Mode, then each switch group with its presence byte and switch values; its length is the
/// one the part's format 5 has.
pub proof fn law_save_layout(s: StateView, output_id: i32)
    requires
        s.wf(),
    ensures
        ({
            let d = spec_save(s, output_id);
            let v1 = v1_size(s.part);
            let sw = switch_offset(s.part);
            let sec = secondary_offset(s.part);
            let osc = s.part.spec_supports_oscillator_switches();
            &&& d.len() == spec_serialized_size(s.part, 5)->Some_0
            &&& d.take(5) == seq![0x4du8, 0x4bu8, 0x53u8, 0x37u8, 5u8]
            &&& spec_get_value(s, CHANNEL_PARAMETER_ID) == Some(d[5] as u64)
            &&& forall|i: int|
                0 <= i < s.count() ==> spec_get_value(s, i as u32) == Some(#[trigger] d[6 + i] as u64)
            &&& d.subrange(v1, v1 + 4) == le_bytes(output_id as u32)
            &&& s.part is Chord ==> spec_get_value(s, WHOLE_MODE_PARAMETER_ID) == Some(d[v1 + 4] as u64)
            &&& forall|kind: DirtyKind|
                switch_group_of_part(s.part, kind) ==> (#[trigger] d[presence_offset(s.part, kind)]
                    == flag(group_present(s, kind)))
            &&& osc ==> {
                &&& spec_get_value(s, RANGE_PARAMETER_ID) == Some(d[sw + 1] as u64)
                &&& spec_get_value(s, PULSE_PARAMETER_ID) == Some(d[sw + 2] as u64)
                &&& spec_get_value(s, SAW_PARAMETER_ID) == Some(d[sw + 3] as u64)
                &&& spec_get_value(s, CHORUS_PARAMETER_ID) == Some(d[sw + 4] as u64)
                &&& spec_get_value(s, VCF_DYNAMICS_PARAMETER_ID) == Some(d[sec + 1] as u64)
                &&& spec_get_value(s, VCA_DYNAMICS_PARAMETER_ID) == Some(d[sec + 2] as u64)
                &&& spec_get_value(s, PWM_SOURCE_PARAMETER_ID) == Some(d[sec + 4] as u64)
                &&& spec_get_value(s, ENV_POLARITY_PARAMETER_ID) == Some(d[sec + 5] as u64)
                &&& spec_get_value(s, VCA_MODE_PARAMETER_ID) == Some(d[sec + 6] as u64)
                &&& spec_get_value(s, HPF_PARAMETER_ID) == Some(d[sec + 7] as u64)
            }
            &&& s.part is Melody ==> spec_get_value(s, NOISE_PARAMETER_ID) == Some(d[sec + 8] as u64)
            &&& s.part is Bass ==> spec_get_value(s, BASS_WAVEFORM_PARAMETER_ID) == Some(d[sw + 1] as u64)
        }),
{
    let d = spec_save(s, output_id);
    let v1 = v1_size(s.part);
    lemma_saved_state_is_valid(s, output_id);
    lemma_saved_values(s, output_id);
    lemma_save_pieces(s, output_id);
    assert(d.take(5) =~= seq![0x4du8, 0x4bu8, 0x53u8, 0x37u8, 5u8]);
    assert forall|i: int| 0 <= i < s.count() implies spec_get_value(s, i as u32) == Some(
        #[trigger] d[6 + i] as u64,
    ) by {
        assert(d[6 + i] == s.values[6 + i - 6]);
    }
    assert(d.subrange(v1, v1 + 4) =~= le_bytes(output_id as u32));
    if s.part is Melody {
        lemma_melody_tail(s, output_id);
    } else if s.part is Chord {
        lemma_chord_tail(s, output_id);
    } else {
        lemma_bass_tail(s, output_id);
    }
}

/// Only what is pending differs between `t` and `s`.
pub open spec fn differs_in_pending_only(t: StateView, s: StateView) -> bool {
    t == StateView {
        dirty: t.dirty,
        whole_mode: WholeModeSetting { dirty: t.whole_mode.dirty, ..s.whole_mode },
        oscillator: OscillatorSwitches { dirty: t.oscillator.dirty, ..s.oscillator },
        dynamics: DynamicsSwitches { dirty: t.dynamics.dirty, ..s.dynamics },
        secondary: ModeSwitches { dirty: t.secondary.dirty, ..s.secondary },
        bass: BassWaveform { dirty: t.bass.dirty, ..s.bass },
        ..s
    }
}

/// A state that differs only in what is pending reads, selects, saves and holds authority
/// as the other does.
proof fn lemma_pending_only_frame(t: StateView, s: StateView, id: u32, output_id: i32)
    requires
        s.wf(),
        differs_in_pending_only(t, s),
    ensures
        spec_get_value(t, id) == spec_get_value(s, id),
        t.output_index == s.output_index,
        t.authoritative == s.authoritative,
        spec_save(t, output_id) == spec_save(s, output_id),
{
    assert(t.values == s.values);
    assert(t.values.take(t.count()) =~= s.values.take(s.count()));
    assert(same_settings(t, s));
    lemma_save_depends_on_settings(t, s, output_id);
}

/// A resync makes every continuous parameter pending, the Whole Mode for Chord, and each
/// switch group of the part that was pending or is saved as present; it changes nothing the
/// host reads, not the output, not whether the settings are authoritative, and not the
/// saved form.
pub proof fn law_resync(s: StateView, output_id: i32, id: u32)
    requires
        s.wf(),
    ensures
        ({
            let t = spec_mark_all_dirty(s);
            let d = spec_save(s, output_id);
            &&& spec_get_value(t, id) == spec_get_value(s, id)
            &&& t.output_index == s.output_index
            &&& t.authoritative == s.authoritative
            &&& spec_save(t, output_id) == d
            &&& forall|i: int| 0 <= i < s.count() ==> #[trigger] t.dirty[i]
            &&& t.whole_mode.dirty == (s.whole_mode.dirty || s.part is Chord)
            &&& forall|kind: DirtyKind|
                switch_group_of_part(s.part, kind) ==> (#[trigger] is_pending(t, kind) == (is_pending(
                    s,
                    kind,
                ) || d[presence_offset(s.part, kind)] == 1))
        }),
{
    let t = spec_mark_all_dirty(s);
    assert(differs_in_pending_only(t, s));
    lemma_pending_only_frame(t, s, id, output_id);
    law_save_layout(s, output_id);
    assert forall|kind: DirtyKind| switch_group_of_part(s.part, kind) implies (#[trigger] is_pending(
        t,
        kind,
    ) == (is_pending(s, kind) || spec_save(s, output_id)[presence_offset(s.part, kind)] == 1)) by {
        assert(spec_save(s, output_id)[presence_offset(s.part, kind)] == flag(group_present(s, kind)));
    }
}

/// Clearing one pending change leaves every other one as it was.
proof fn lemma_clear_pending_others(s: StateView, kind: DirtyKind, other: DirtyKind)
    requires
        s.wf(),
        other != kind,
        kind matches DirtyKind::Parameter(i) ==> i < s.dirty.len(),
    ensures
        differs_in_pending_only(clear_pending(s, kind), s),
        !is_pending(clear_pending(s, kind), kind),
        is_pending(clear_pending(s, kind), other) == is_pending(s, other),
{
    lemma_clear_pending_is_pending_only(s, kind);
    lemma_clear_pending_flags(s, kind, other);
}

proof fn lemma_clear_pending_is_pending_only(s: StateView, kind: DirtyKind)
    ensures
        differs_in_pending_only(clear_pending(s, kind), s),
{
}

proof fn lemma_clear_pending_flags(s: StateView, kind: DirtyKind, other: DirtyKind)
    requires
        other != kind,
        kind matches DirtyKind::Parameter(i) ==> i < s.dirty.len(),
    ensures
        !is_pending(clear_pending(s, kind), kind),
        is_pending(clear_pending(s, kind), other) == is_pending(s, other),
{
    let t = clear_pending(s, kind);
    lemma_clear_pending_fields(s, kind);
    lemma_cleared_flags(s, t, kind, other);
}

proof fn lemma_clear_pending_fields(s: StateView, kind: DirtyKind)
    ensures
        clear_pending(s, kind).whole_mode.dirty == (s.whole_mode.dirty && !(kind is WholeMode)),
        clear_pending(s, kind).oscillator.dirty == (s.oscillator.dirty && !(kind is Oscillator)),
        clear_pending(s, kind).dynamics.dirty == (s.dynamics.dirty && !(kind is Dynamics)),
        clear_pending(s, kind).secondary.dirty == (s.secondary.dirty && !(kind is Secondary)),
        clear_pending(s, kind).bass.dirty == (s.bass.dirty && !(kind is BassWaveform)),
        clear_pending(s, kind).dirty == (match kind {
            DirtyKind::Parameter(index) => s.dirty.update(index as int, false),
            _ => s.dirty,
        }),
{
}

proof fn lemma_cleared_flags(s: StateView, t: StateView, kind: DirtyKind, other: DirtyKind)
    requires
        other != kind,
        kind matches DirtyKind::Parameter(i) ==> i < s.dirty.len(),
        t.whole_mode.dirty == (s.whole_mode.dirty && !(kind is WholeMode)),
        t.oscillator.dirty == (s.oscillator.dirty && !(kind is Oscillator)),
        t.dynamics.dirty == (s.dynamics.dirty && !(kind is Dynamics)),
        t.secondary.dirty == (s.secondary.dirty && !(kind is Secondary)),
        t.bass.dirty == (s.bass.dirty && !(kind is BassWaveform)),
        t.dirty == (match kind {
            DirtyKind::Parameter(index) => s.dirty.update(index as int, false),
            _ => s.dirty,
        }),
    ensures
        !is_pending(t, kind),
        is_pending(t, other) == is_pending(s, other),
{
    if let DirtyKind::Parameter(i) = kind {
        if let DirtyKind::Parameter(j) = other {
            if j < s.dirty.len() {
                assert(t.dirty[j as int] == s.dirty[j as int]);
            }
        }
    }
}

/// Taking a message removes exactly the taken change from what is pending and changes
/// nothing else: not what the host reads, not the output, not whether the settings are
/// authoritative, not the saved form; the round-robin moves only past a taken continuous
/// parameter. When nothing is taken, nothing changes.
pub proof fn law_take_frame(s: StateView, next: usize, id: u32, output_id: i32, other: DirtyKind)
    requires
        s.wf(),
    ensures
        ({
            let (m, t, n) = spec_take_next_message(s, next);
            &&& spec_get_value(t, id) == spec_get_value(s, id)
            &&& t.output_index == s.output_index
            &&& t.authoritative == s.authoritative
            &&& spec_save(t, output_id) == spec_save(s, output_id)
            &&& match m {
                Some((_, kind)) => {
                    &&& is_pending(s, kind)
                    &&& !is_pending(t, kind)
                    &&& other != kind ==> is_pending(t, other) == is_pending(s, other)
                    &&& t == clear_pending(s, kind)
                    &&& !(kind is Parameter) ==> n == next
                },
                None => t == s && n == next,
            }
        }),
{
    lemma_first_dirty_is_pending(s.dirty, next as int, s.count(), 0);
    match next_kind(s, next) {
        Some(kind) => {
            assert(is_pending(s, kind));
            if other != kind {
                lemma_clear_pending_others(s, kind, other);
            } else {
                lemma_clear_pending_others(s, kind, if kind is WholeMode {
                    DirtyKind::Oscillator
                } else {
                    DirtyKind::WholeMode
                });
            }
            lemma_pending_only_frame(clear_pending(s, kind), s, id, output_id);
        },
        None => {},
    }
}


/// The protocol number of the continuous parameter at host index `i`: Melody and Chord
/// number 0-3 and 5-15, Bass 3, 5-7 and 9-14.
pub open spec fn table_protocol_number(part: Part, i: int) -> int {
    if part is Bass {
        if i == 0 {
            3
        } else if i <= 3 {
            i + 4
        } else {
            i + 5
        }
    } else if i < 4 {
        i
    } else {
        i + 1
    }
}

/// Bass entry `i` has the protocol number, name and module of some Melody entry.
pub open spec fn bass_entry_is_in_melody(i: int) -> bool {
    exists|j: int|
        #![trigger melody_table()[j]]
        0 <= j < melody_table().len() && melody_table()[j].protocol_number
            == bass_table()[i].protocol_number && melody_table()[j].name == bass_table()[i].name
            && melody_table()[j].module == bass_table()[i].module
}

/// The Melody entry that Bass entry `i` repeats.
pub open spec fn melody_index_of_bass(i: int) -> int {
    if i == 0 {
        3
    } else if i <= 3 {
        i + 3
    } else {
        i + 4
    }
}

proof fn lemma_melody_table_entries()
    ensures
        forall|i: int|
            0 <= i < 15 ==> #[trigger] melody_table()[i].id == i && melody_table()[i].protocol_number
                == table_protocol_number(Part::Melody, i),
{
    assert forall|i: int| 0 <= i < 15 implies #[trigger] melody_table()[i].id == i
        && melody_table()[i].protocol_number == table_protocol_number(Part::Melody, i) by {
        assert(0 <= i < 15);
    }
}

proof fn lemma_bass_table_entries()
    ensures
        forall|i: int|
            0 <= i < 10 ==> #[trigger] bass_table()[i].id == i && bass_table()[i].protocol_number
                == table_protocol_number(Part::Bass, i) && bass_table()[i].protocol_number
                == melody_table()[melody_index_of_bass(i)].protocol_number && bass_table()[i].name
                == melody_table()[melody_index_of_bass(i)].name && bass_table()[i].module
                == melody_table()[melody_index_of_bass(i)].module,
{
}

/// The continuous parameter tables: host ids are the indices, protocol numbers rise with the
/// index, lie in 0..=15 and skip 4, 16 and 17 (the packed switch parameters), and every Bass
/// entry is a Melody entry with the same protocol number, name and module.
pub proof fn law_parameter_tables(part: Part)
    ensures
        part.spec_parameters().len() == part.spec_parameter_len(),
        part.spec_parameter_len() == (if part is Bass {
            10nat
        } else {
            15nat
        }),
        forall|i: int| 0 <= i < part.spec_parameter_len() ==> #[trigger] part.spec_parameters()[i].id == i,
        forall|i: int|
            0 <= i < part.spec_parameter_len() ==> #[trigger] part.spec_parameters()[i].protocol_number
                == table_protocol_number(part, i),
        forall|i: int, j: int|
            0 <= i < j < part.spec_parameter_len() ==> #[trigger] part.spec_parameters()[i].protocol_number
                < #[trigger] part.spec_parameters()[j].protocol_number,
        forall|i: int|
            0 <= i < part.spec_parameter_len() ==> {
                let p = #[trigger] part.spec_parameters()[i].protocol_number;
                p <= 15 && p != 4 && p != 16 && p != 17
            },
        forall|i: int|
            #![trigger bass_table()[i]]
            0 <= i < bass_table().len() ==> bass_entry_is_in_melody(i),
{
    lemma_melody_table_entries();
    lemma_bass_table_entries();
    assert forall|i: int| #![trigger bass_table()[i]] 0 <= i < bass_table().len() implies bass_entry_is_in_melody(i) by {
        let j = melody_index_of_bass(i);
        assert(melody_table().len() == 15);
        assert(0 <= j < 15);
        assert(bass_table()[i].id == i);
        assert(melody_table()[j].protocol_number == bass_table()[i].protocol_number);
        assert(melody_table()[j].name == bass_table()[i].name);
        assert(melody_table()[j].module == bass_table()[i].module);
    }
}

/// The pending switch change that comes first in the order Whole Mode, oscillator switches,
/// dynamics switches, mode switches, Bass waveform.
pub open spec fn first_pending_group(s: StateView) -> Option<DirtyKind> {
    if s.whole_mode.dirty {
        Some(DirtyKind::WholeMode)
    } else if s.oscillator.dirty {
        Some(DirtyKind::Oscillator)
    } else if s.dynamics.dirty {
        Some(DirtyKind::Dynamics)
    } else if s.secondary.dirty {
        Some(DirtyKind::Secondary)
    } else if s.bass.dirty {
        Some(DirtyKind::BassWaveform)
    } else {
        None
    }
}

/// In every state reached from a new instance, the sender takes the first pending switch
/// change in the order Whole Mode, oscillator, dynamics, mode switches, Bass waveform, and
/// keeps its round-robin position; else the first pending continuous parameter in
/// round-robin order from `next`, as the tone-parameter write of its protocol number on the
/// receive channel with its value plus modulation limited to 0..=127, and moves the
/// round-robin past it; else nothing, and then nothing is pending.
pub proof fn law_reached_take_order(part: Part, ops: Seq<Operation>, next: usize)
    requires
        forall|i: int| 0 <= i < ops.len() ==> operation_allowed(part, #[trigger] ops[i]),
    ensures
        ({
            let s = run(initial_state(part), ops);
            let c = s.count();
            let (m, t, n) = spec_take_next_message(s, next);
            match first_pending_group(s) {
                Some(kind) => m == Some((message_bytes(s, kind), kind)) && n == next,
                None => match first_dirty(s.dirty, next as int, c, 0) {
                    Some(i) => {
                        &&& 0 <= i < c
                        &&& spec_parameter_change(
                            s.channel as int,
                            part.spec_parameters()[i].protocol_number as int,
                            clamp(s.values[i] + s.modulations[i].offset, 0, 127),
                        ) is Ok
                        &&& m == Some(
                            (
                                spec_parameter_change(
                                    s.channel as int,
                                    part.spec_parameters()[i].protocol_number as int,
                                    clamp(s.values[i] + s.modulations[i].offset, 0, 127),
                                )->Ok_0,
                                DirtyKind::Parameter(i as usize),
                            ),
                        )
                        &&& n == ((i + 1) % c) as usize
                    },
                    None => m is None && !spec_has_dirty(s),
                },
            }
        }),
{
    let s = run(initial_state(part), ops);
    law_reached_states_keep_groups(part, ops);
    law_reached_sender_takes_exactly_pending(part, ops, next);
    law_parameter_tables(part);
    lemma_first_dirty_is_pending(s.dirty, next as int, s.count(), 0);
    assert(next_group(s) == first_pending_group(s));
    if first_pending_group(s) is None {
        if let Some(i) = first_dirty(s.dirty, next as int, s.count(), 0) {
            let p = part.spec_parameters()[i].protocol_number;
            let v = clamp(s.values[i] + s.modulations[i].offset, 0, 127);
            assert(p <= 15);
            assert(parameter_message(s, i) =~= spec_parameter_change(s.channel as int, p as int, v)->Ok_0);
        }
    }
}

/// The switch change a write to switch parameter `id` makes pending.
pub open spec fn switch_group_of_id(id: u32) -> DirtyKind {
    if id == RANGE_PARAMETER_ID || id == PULSE_PARAMETER_ID || id == SAW_PARAMETER_ID || id
        == CHORUS_PARAMETER_ID {
        DirtyKind::Oscillator
    } else if id == VCF_DYNAMICS_PARAMETER_ID || id == VCA_DYNAMICS_PARAMETER_ID {
        DirtyKind::Dynamics
    } else if id == BASS_WAVEFORM_PARAMETER_ID {
        DirtyKind::BassWaveform
    } else {
        DirtyKind::Secondary
    }
}

/// Whether `id` is one of the packed switches (range to noise, and the Bass waveform).
pub open spec fn is_switch_id(id: u32) -> bool {
    RANGE_PARAMETER_ID <= id <= BASS_WAVEFORM_PARAMETER_ID
}

proof fn lemma_oscillator_write_effect(s: StateView, x: OscillatorSwitches)
    requires
        x.present == s.oscillator.present,
        x.dirty == s.oscillator.dirty,
    ensures
        ({
            let t = oscillator_write(s, x);
            let changed = x.range != s.oscillator.range || x.pulse != s.oscillator.pulse || x.saw != s.oscillator.saw || x.chorus != s.oscillator.chorus;
            &&& t.oscillator.dirty == (s.oscillator.dirty || changed || !s.oscillator.present)
            &&& t.authoritative == (s.authoritative || changed || !s.oscillator.present)
            &&& t.oscillator.present == (s.oscillator.present || !changed)
        }),
{
}

proof fn lemma_dynamics_write_effect(s: StateView, x: DynamicsSwitches)
    requires
        x.present == s.dynamics.present,
        x.dirty == s.dynamics.dirty,
    ensures
        ({
            let t = dynamics_write(s, x);
            let changed = x.vcf != s.dynamics.vcf || x.vca != s.dynamics.vca;
            &&& t.dynamics.dirty == (s.dynamics.dirty || changed || !s.dynamics.present)
            &&& t.authoritative == (s.authoritative || changed || !s.dynamics.present)
            &&& t.dynamics.present == (s.dynamics.present || !changed)
        }),
{
}

proof fn lemma_secondary_write_effect(s: StateView, x: ModeSwitches)
    requires
        x.present == s.secondary.present,
        x.dirty == s.secondary.dirty,
    ensures
        ({
            let t = secondary_write(s, x);
            let changed = x.pwm_manual != s.secondary.pwm_manual || x.env_negative != s.secondary.env_negative || x.vca_gate != s.secondary.vca_gate || x.hpf != s.secondary.hpf || x.noise != s.secondary.noise;
            &&& t.secondary.dirty == (s.secondary.dirty || changed || !s.secondary.present)
            &&& t.authoritative == (s.authoritative || changed || !s.secondary.present)
            &&& t.secondary.present == (s.secondary.present || !changed)
        }),
{
}

/// What a write to switch `id` does to its group, in terms of what the host reads.
pub open spec fn switch_write_effect(s: StateView, t: StateView, id: u32) -> bool {
    let changed = spec_get_value(t, id) != spec_get_value(s, id);
    let g = switch_group_of_id(id);
    &&& is_pending(t, g) == (is_pending(s, g) || changed || !group_present(s, g))
    &&& t.authoritative == (s.authoritative || changed || !group_present(s, g))
    &&& group_present(t, g) == (group_present(s, g) || !changed)
}

proof fn lemma_range_write_effect(s: StateView, value: i64)
    requires
        s.wf(),
        !(s.part is Bass),
        RANGE_PARAMETER_ID != NOISE_PARAMETER_ID || s.part is Melody,
    ensures
        switch_write_effect(s, switch_write(s, RANGE_PARAMETER_ID, value), RANGE_PARAMETER_ID),
{
    let x = OscillatorSwitches { range: clamp(value as int, 0, 2) as u8, ..s.oscillator };
    assert(switch_write(s, RANGE_PARAMETER_ID, value) == oscillator_write(s, x));
    lemma_oscillator_write_keeps_groups(s, x);
    lemma_oscillator_write_effect(s, x);
}

proof fn lemma_pulse_write_effect(s: StateView, value: i64)
    requires
        s.wf(),
        !(s.part is Bass),
        PULSE_PARAMETER_ID != NOISE_PARAMETER_ID || s.part is Melody,
    ensures
        switch_write_effect(s, switch_write(s, PULSE_PARAMETER_ID, value), PULSE_PARAMETER_ID),
{
    let x = OscillatorSwitches { pulse: value >= 1, ..s.oscillator };
    assert(switch_write(s, PULSE_PARAMETER_ID, value) == oscillator_write(s, x));
    lemma_oscillator_write_keeps_groups(s, x);
    lemma_oscillator_write_effect(s, x);
}

proof fn lemma_saw_write_effect(s: StateView, value: i64)
    requires
        s.wf(),
        !(s.part is Bass),
        SAW_PARAMETER_ID != NOISE_PARAMETER_ID || s.part is Melody,
    ensures
        switch_write_effect(s, switch_write(s, SAW_PARAMETER_ID, value), SAW_PARAMETER_ID),
{
    let x = OscillatorSwitches { saw: value >= 1, ..s.oscillator };
    assert(switch_write(s, SAW_PARAMETER_ID, value) == oscillator_write(s, x));
    lemma_oscillator_write_keeps_groups(s, x);
    lemma_oscillator_write_effect(s, x);
}

proof fn lemma_chorus_write_effect(s: StateView, value: i64)
    requires
        s.wf(),
        !(s.part is Bass),
        CHORUS_PARAMETER_ID != NOISE_PARAMETER_ID || s.part is Melody,
    ensures
        switch_write_effect(s, switch_write(s, CHORUS_PARAMETER_ID, value), CHORUS_PARAMETER_ID),
{
    let x = OscillatorSwitches { chorus: value >= 1, ..s.oscillator };
    assert(switch_write(s, CHORUS_PARAMETER_ID, value) == oscillator_write(s, x));
    lemma_oscillator_write_keeps_groups(s, x);
    lemma_oscillator_write_effect(s, x);
}

proof fn lemma_vcf_dynamics_write_effect(s: StateView, value: i64)
    requires
        s.wf(),
        !(s.part is Bass),
        VCF_DYNAMICS_PARAMETER_ID != NOISE_PARAMETER_ID || s.part is Melody,
    ensures
        switch_write_effect(s, switch_write(s, VCF_DYNAMICS_PARAMETER_ID, value), VCF_DYNAMICS_PARAMETER_ID),
{
    let x = DynamicsSwitches { vcf: value >= 1, ..s.dynamics };
    assert(switch_write(s, VCF_DYNAMICS_PARAMETER_ID, value) == dynamics_write(s, x));
    lemma_dynamics_write_keeps_groups(s, x);
    lemma_dynamics_write_effect(s, x);
}

proof fn lemma_vca_dynamics_write_effect(s: StateView, value: i64)
    requires
        s.wf(),
        !(s.part is Bass),
        VCA_DYNAMICS_PARAMETER_ID != NOISE_PARAMETER_ID || s.part is Melody,
    ensures
        switch_write_effect(s, switch_write(s, VCA_DYNAMICS_PARAMETER_ID, value), VCA_DYNAMICS_PARAMETER_ID),
{
    let x = DynamicsSwitches { vca: value >= 1, ..s.dynamics };
    assert(switch_write(s, VCA_DYNAMICS_PARAMETER_ID, value) == dynamics_write(s, x));
    lemma_dynamics_write_keeps_groups(s, x);
    lemma_dynamics_write_effect(s, x);
}

proof fn lemma_pwm_source_write_effect(s: StateView, value: i64)
    requires
        s.wf(),
        !(s.part is Bass),
        PWM_SOURCE_PARAMETER_ID != NOISE_PARAMETER_ID || s.part is Melody,
    ensures
        switch_write_effect(s, switch_write(s, PWM_SOURCE_PARAMETER_ID, value), PWM_SOURCE_PARAMETER_ID),
{
    let x = ModeSwitches { pwm_manual: value >= 1, ..s.secondary };
    assert(switch_write(s, PWM_SOURCE_PARAMETER_ID, value) == secondary_write(s, x));
    lemma_secondary_write_keeps_groups(s, x);
    lemma_secondary_write_effect(s, x);
}

proof fn lemma_vca_mode_write_effect(s: StateView, value: i64)
    requires
        s.wf(),
        !(s.part is Bass),
        VCA_MODE_PARAMETER_ID != NOISE_PARAMETER_ID || s.part is Melody,
    ensures
        switch_write_effect(s, switch_write(s, VCA_MODE_PARAMETER_ID, value), VCA_MODE_PARAMETER_ID),
{
    let x = ModeSwitches { vca_gate: value >= 1, ..s.secondary };
    assert(switch_write(s, VCA_MODE_PARAMETER_ID, value) == secondary_write(s, x));
    lemma_secondary_write_keeps_groups(s, x);
    lemma_secondary_write_effect(s, x);
}

proof fn lemma_env_polarity_write_effect(s: StateView, value: i64)
    requires
        s.wf(),
        !(s.part is Bass),
        ENV_POLARITY_PARAMETER_ID != NOISE_PARAMETER_ID || s.part is Melody,
    ensures
        switch_write_effect(s, switch_write(s, ENV_POLARITY_PARAMETER_ID, value), ENV_POLARITY_PARAMETER_ID),
{
    let x = ModeSwitches { env_negative: value >= 1, ..s.secondary };
    assert(switch_write(s, ENV_POLARITY_PARAMETER_ID, value) == secondary_write(s, x));
    lemma_secondary_write_keeps_groups(s, x);
    lemma_secondary_write_effect(s, x);
}

proof fn lemma_hpf_write_effect(s: StateView, value: i64)
    requires
        s.wf(),
        !(s.part is Bass),
        HPF_PARAMETER_ID != NOISE_PARAMETER_ID || s.part is Melody,
    ensures
        switch_write_effect(s, switch_write(s, HPF_PARAMETER_ID, value), HPF_PARAMETER_ID),
{
    let x = ModeSwitches { hpf: value >= 1, ..s.secondary };
    assert(switch_write(s, HPF_PARAMETER_ID, value) == secondary_write(s, x));
    lemma_secondary_write_keeps_groups(s, x);
    lemma_secondary_write_effect(s, x);
}

proof fn lemma_noise_write_effect(s: StateView, value: i64)
    requires
        s.wf(),
        !(s.part is Bass),
        NOISE_PARAMETER_ID != NOISE_PARAMETER_ID || s.part is Melody,
    ensures
        switch_write_effect(s, switch_write(s, NOISE_PARAMETER_ID, value), NOISE_PARAMETER_ID),
{
    let x = ModeSwitches { noise: value >= 1, ..s.secondary };
    assert(switch_write(s, NOISE_PARAMETER_ID, value) == secondary_write(s, x));
    lemma_secondary_write_keeps_groups(s, x);
    lemma_secondary_write_effect(s, x);
}

proof fn lemma_bass_write_effect(s: StateView, value: i64)
    requires
        s.wf(),
        s.part is Bass,
    ensures
        switch_write_effect(
            s,
            spec_apply_value(s, BASS_WAVEFORM_PARAMETER_ID, value, 0),
            BASS_WAVEFORM_PARAMETER_ID,
        ),
{
    assert(spec_apply_value(s, BASS_WAVEFORM_PARAMETER_ID, value, 0) == bass_write(s, value >= 1));
}

/// What a write to a switch does: its group becomes pending, and the settings
/// authoritative, when the switch changed or the group was not present; the group becomes
/// present only through a write that changes nothing.
proof fn lemma_switch_write_effect(s: StateView, id: u32, value: i64)
    requires
        s.wf(),
        is_switch_id(id),
        spec_get_value(s, id) is Some,
    ensures
        switch_write_effect(s, spec_apply_value(s, id, value, 0), id),
{
    if s.part is Bass {
        lemma_bass_write_effect(s, value);
    } else {
        assert(spec_apply_value(s, id, value, 0) == switch_write(s, id, value));
        if id == RANGE_PARAMETER_ID {
            lemma_range_write_effect(s, value);
        } else if id == PULSE_PARAMETER_ID {
            lemma_pulse_write_effect(s, value);
        } else if id == SAW_PARAMETER_ID {
            lemma_saw_write_effect(s, value);
        } else if id == CHORUS_PARAMETER_ID {
            lemma_chorus_write_effect(s, value);
        } else if id == VCF_DYNAMICS_PARAMETER_ID {
            lemma_vcf_dynamics_write_effect(s, value);
        } else if id == VCA_DYNAMICS_PARAMETER_ID {
            lemma_vca_dynamics_write_effect(s, value);
        } else if id == PWM_SOURCE_PARAMETER_ID {
            lemma_pwm_source_write_effect(s, value);
        } else if id == VCA_MODE_PARAMETER_ID {
            lemma_vca_mode_write_effect(s, value);
        } else if id == ENV_POLARITY_PARAMETER_ID {
            lemma_env_polarity_write_effect(s, value);
        } else if id == HPF_PARAMETER_ID {
            lemma_hpf_write_effect(s, value);
        } else if id == NOISE_PARAMETER_ID {
            lemma_noise_write_effect(s, value);
        }
    }
}

/// What a host write does apart from switches: a write to a parameter the part lacks, and a
/// write of the value a parameter already has, change nothing; a changed continuous value
/// is pending and makes the settings authoritative; a changed channel makes them
/// authoritative and resyncs; a changed output resyncs without making them authoritative;
/// a changed Whole Mode is pending and makes them authoritative.
pub open spec fn plain_write_effect(s: StateView, t: StateView, id: u32) -> bool {
    let changed = spec_get_value(t, id) != spec_get_value(s, id);
    &&& spec_get_value(s, id) is None ==> t == s
    &&& !changed && !is_switch_id(id) ==> t == s
    &&& (id as int) < s.count() && changed ==> t == StateView {
        values: t.values,
        dirty: s.dirty.update(id as int, true),
        authoritative: true,
        ..s
    }
    &&& id == CHANNEL_PARAMETER_ID && changed ==> t == spec_mark_all_dirty(
        StateView { channel: t.channel, authoritative: true, ..s },
    )
    &&& id == MIDI_OUTPUT_PARAMETER_ID && changed ==> t == spec_mark_all_dirty(
        StateView { output_index: t.output_index, ..s },
    )
    &&& id == WHOLE_MODE_PARAMETER_ID && changed ==> t == StateView {
        whole_mode: WholeModeSetting { enabled: t.whole_mode.enabled, dirty: true },
        authoritative: true,
        ..s
    }
}

proof fn lemma_plain_write_effect(s: StateView, id: u32, value: i64, output_count: usize)
    requires
        s.wf(),
        !is_switch_id(id),
    ensures
        plain_write_effect(s, spec_apply_value(s, id, value, output_count), id),
{
    if (id as int) < s.count() {
        lemma_continuous_write_effect(s, id, value, output_count);
    } else if id == CHANNEL_PARAMETER_ID {
        lemma_channel_write_effect(s, value, output_count);
    } else if id == MIDI_OUTPUT_PARAMETER_ID {
        lemma_output_write_effect(s, value, output_count);
    } else if id == WHOLE_MODE_PARAMETER_ID {
        lemma_whole_mode_write_effect(s, value, output_count);
    } else {
        lemma_other_write_effect(s, id, value, output_count);
    }
}

proof fn lemma_continuous_write_effect(s: StateView, id: u32, value: i64, output_count: usize)
    requires
        s.wf(),
        (id as int) < s.count(),
    ensures
        plain_write_effect(s, spec_apply_value(s, id, value, output_count), id),
{
    let t = spec_apply_value(s, id, value, output_count);
    assert(t == continuous_write(s, id as int, value));
    assert(t.values[id as int] == clamp(value as int, 0, 127) as u8);
}

proof fn lemma_channel_write_effect(s: StateView, value: i64, output_count: usize)
    requires
        s.wf(),
    ensures
        plain_write_effect(s, spec_apply_value(s, CHANNEL_PARAMETER_ID, value, output_count), CHANNEL_PARAMETER_ID),
{
    let t = spec_apply_value(s, CHANNEL_PARAMETER_ID, value, output_count);
    assert(t == channel_write(s, value));
}

proof fn lemma_output_write_effect(s: StateView, value: i64, output_count: usize)
    requires
        s.wf(),
    ensures
        plain_write_effect(
            s,
            spec_apply_value(s, MIDI_OUTPUT_PARAMETER_ID, value, output_count),
            MIDI_OUTPUT_PARAMETER_ID,
        ),
{
    let t = spec_apply_value(s, MIDI_OUTPUT_PARAMETER_ID, value, output_count);
    assert(t == output_write(s, value, output_count));
}

proof fn lemma_whole_mode_write_effect(s: StateView, value: i64, output_count: usize)
    requires
        s.wf(),
    ensures
        plain_write_effect(
            s,
            spec_apply_value(s, WHOLE_MODE_PARAMETER_ID, value, output_count),
            WHOLE_MODE_PARAMETER_ID,
        ),
{
    let t = spec_apply_value(s, WHOLE_MODE_PARAMETER_ID, value, output_count);
    if s.part is Chord {
        assert(t == whole_mode_write(s, value >= 1));
    } else if !(s.part is Bass) {
        lemma_switch_write_keeps_groups(s, WHOLE_MODE_PARAMETER_ID, value);
        assert(t == s);
    }
}

proof fn lemma_other_write_effect(s: StateView, id: u32, value: i64, output_count: usize)
    requires
        s.wf(),
        !is_switch_id(id),
        !((id as int) < s.count()),
        id != CHANNEL_PARAMETER_ID,
        id != MIDI_OUTPUT_PARAMETER_ID,
        id != WHOLE_MODE_PARAMETER_ID,
    ensures
        spec_apply_value(s, id, value, output_count) == s,
        spec_get_value(s, id) is None,
{
    if !(s.part is Bass) {
        lemma_switch_write_keeps_groups(s, id, value);
        assert(switch_write(s, id, value) == s);
    }
}

/// What a host write does, by parameter. A write to a parameter the part lacks, and a write
/// of the value a parameter already has to anything but a switch, change nothing. A changed
/// continuous value is pending and makes the settings authoritative; a changed channel makes
/// them authoritative and resyncs; a changed output resyncs without making them
/// authoritative; a changed Whole Mode is pending and makes them authoritative. A write to a
/// switch makes its group pending, and the settings authoritative, when the switch changed
/// or the group was not present; the group becomes present only through a write that
/// changes nothing.
pub proof fn law_write_effect(s: StateView, id: u32, value: i64, output_count: usize)
    requires
        s.wf(),
    ensures
        is_switch_id(id) && spec_get_value(s, id) is Some ==> switch_write_effect(
            s,
            spec_apply_value(s, id, value, output_count),
            id,
        ),
        is_switch_id(id) && spec_get_value(s, id) is None ==> spec_apply_value(s, id, value, output_count) == s,
        !is_switch_id(id) ==> plain_write_effect(s, spec_apply_value(s, id, value, output_count), id),
{
    if is_switch_id(id) {
        if spec_get_value(s, id) is Some {
            assert(spec_apply_value(s, id, value, output_count) == spec_apply_value(s, id, value, 0));
            lemma_switch_write_effect(s, id, value);
        } else if s.part.spec_supports_oscillator_switches() {
            lemma_switch_write_keeps_groups(s, id, value);
        }
    } else {
        lemma_plain_write_effect(s, id, value, output_count);
    }
}
/// One round of the sender in a state reached from a new instance: it sends only to the
/// selected output, which is not "None" and exists, and only the message that taking gives,
/// for a change the part has; a delivered message is followed by a wait of 25 ms; a failed
/// one is made pending again before anything else is taken, which gives back the state
/// before the round, and is followed by a wait of 5 ms. When it sends nothing, nothing
/// changes.
pub proof fn law_sender_round(
    part: Part,
    ops: Seq<Operation>,
    next: usize,
    output_count: usize,
    delivered: bool,
)
    requires
        forall|i: int| 0 <= i < ops.len() ==> operation_allowed(part, #[trigger] ops[i]),
    ensures
        ({
            let s = run(initial_state(part), ops);
            let (polled, t, n) = spec_sender_poll(s, next, output_count);
            match polled {
                Some((output, bytes, kind)) => {
                    &&& 0 < output < output_count
                    &&& output == s.output_index
                    &&& spec_take_next_message(s, next) == (Some((bytes, kind)), t, n)
                    &&& kind_of_part(part, kind)
                    &&& delivered ==> spec_sender_complete(t, kind, delivered) == (t, SENT_DELAY_MS)
                    &&& !delivered ==> spec_sender_complete(t, kind, delivered) == (s, RETRY_DELAY_MS)
                },
                None => t == s && n == next,
            }
        }),
{
    let s = run(initial_state(part), ops);
    law_reached_states_keep_groups(part, ops);
    law_taken_kinds_belong_to_part(s, next);
    law_retry_restores_taken_change(s, next);
}

} // verus!
