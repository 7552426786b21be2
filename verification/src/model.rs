use crate::protocol::{
    bass_parameters, bass_switches_1, bass_table, chord_parameters, control_change,
    melody_chord_dynamics, melody_chord_switches_1, melody_chord_switches_2, melody_parameters,
    melody_table, parameter_change, spec_bass_switches_1, spec_melody_chord_dynamics,
    spec_melody_chord_switches_1, spec_melody_chord_switches_2, ParameterDefinition,
};
use vstd::prelude::*;

verus! {

pub const CHANNEL_PARAMETER_ID: u32 = 100;
pub const MIDI_OUTPUT_PARAMETER_ID: u32 = 101;
pub const WHOLE_MODE_PARAMETER_ID: u32 = 102;
pub const RANGE_PARAMETER_ID: u32 = 103;
pub const PULSE_PARAMETER_ID: u32 = 104;
pub const SAW_PARAMETER_ID: u32 = 105;
pub const CHORUS_PARAMETER_ID: u32 = 106;
pub const VCF_DYNAMICS_PARAMETER_ID: u32 = 107;
pub const VCA_DYNAMICS_PARAMETER_ID: u32 = 108;
pub const PWM_SOURCE_PARAMETER_ID: u32 = 109;
pub const VCA_MODE_PARAMETER_ID: u32 = 110;
pub const ENV_POLARITY_PARAMETER_ID: u32 = 111;
pub const HPF_PARAMETER_ID: u32 = 112;
pub const NOISE_PARAMETER_ID: u32 = 113;
pub const BASS_WAVEFORM_PARAMETER_ID: u32 = 114;

/// The number of continuous-parameter slots a state keeps, whatever its part.
pub const PARAMETER_SLOTS: usize = 15;

/// One of the three MKS-7 parts that a controller instance drives.
#[derive(Clone, Copy, Debug, PartialEq, Eq, Structural)]
pub enum Part {
    Melody,
    Chord,
    Bass,
}

impl Part {
    pub open spec fn spec_parameters(self) -> Seq<ParameterDefinition> {
        match self {
            Part::Bass => bass_table(),
            _ => melody_table(),
        }
    }

    /// The number of continuous parameters of the part.
    pub open spec fn spec_parameter_len(self) -> nat {
        if self is Bass {
            10
        } else {
            15
        }
    }

    pub open spec fn spec_default_channel(self) -> i32 {
        match self {
            Part::Melody => 1,
            Part::Chord => 3,
            Part::Bass => 2,
        }
    }

    pub open spec fn spec_supports_whole_mode(self) -> bool {
        self is Chord
    }

    pub open spec fn spec_supports_oscillator_switches(self) -> bool {
        !(self is Bass)
    }

    pub open spec fn spec_is_melody(self) -> bool {
        self is Melody
    }

    pub open spec fn spec_is_bass(self) -> bool {
        self is Bass
    }

    pub open spec fn spec_switch_control_count(self) -> nat {
        match self {
            Part::Melody => 11,
            Part::Chord => 10,
            Part::Bass => 1,
        }
    }

    pub open spec fn spec_parameter_count(self) -> nat {
        self.spec_parameter_len() + self.spec_switch_control_count() + 2 + (if self is Chord {
            1nat
        } else {
            0nat
        })
    }

    /// The continuous parameters of the part, in host order.
    pub fn parameters(self) -> (r: Vec<ParameterDefinition>)
        ensures
            r@ == self.spec_parameters(),
            r@.len() == self.spec_parameter_len(),
    {
        match self {
            Part::Melody => vstd::slice::slice_to_vec(melody_parameters().as_slice()),
            Part::Chord => vstd::slice::slice_to_vec(chord_parameters().as_slice()),
            Part::Bass => vstd::slice::slice_to_vec(bass_parameters().as_slice()),
        }
    }

    /// The factory receive channel of the part.
    #[verifier::when_used_as_spec(spec_default_channel)]
    pub fn default_channel(self) -> (r: i32)
        ensures
            r == self.spec_default_channel(),
    {
        match self {
            Part::Melody => 1,
            Part::Chord => 3,
            Part::Bass => 2,
        }
    }

    /// The part's display name.
    pub fn name(self) -> (r: &'static str)
        ensures
            r@ == (match self {
                Part::Melody => "Melody"@,
                Part::Chord => "Chord"@,
                Part::Bass => "Bass"@,
            }),
    {
        match self {
            Part::Melody => "Melody",
            Part::Chord => "Chord",
            Part::Bass => "Bass",
        }
    }

    /// Only the Chord part has the four/six-voice Whole Mode.
    #[verifier::when_used_as_spec(spec_supports_whole_mode)]
    pub fn supports_whole_mode(self) -> (r: bool)
        ensures
            r == self.spec_supports_whole_mode(),
    {
        matches!(self, Part::Chord)
    }

    /// Melody and Chord have the packed oscillator, dynamics and mode switches.
    #[verifier::when_used_as_spec(spec_supports_oscillator_switches)]
    pub fn supports_oscillator_switches(self) -> (r: bool)
        ensures
            r == self.spec_supports_oscillator_switches(),
    {
        !matches!(self, Part::Bass)
    }

    #[verifier::when_used_as_spec(spec_is_melody)]
    pub fn is_melody(self) -> (r: bool)
        ensures
            r == self.spec_is_melody(),
    {
        matches!(self, Part::Melody)
    }

    #[verifier::when_used_as_spec(spec_is_bass)]
    pub fn is_bass(self) -> (r: bool)
        ensures
            r == self.spec_is_bass(),
    {
        matches!(self, Part::Bass)
    }

    /// The number of switch controls the host sees: ten packed switches for Chord, the same
    /// plus Noise for Melody, and the waveform switch alone for Bass.
    pub fn switch_control_count(self) -> (r: usize)
        ensures
            r == self.spec_switch_control_count(),
    {
        if self.supports_oscillator_switches() {
            10 + if self.is_melody() {
                1
            } else {
                0
            }
        } else {
            1
        }
    }

    /// The number of host parameters: continuous ones, switches, channel, MIDI output, and
    /// Whole Mode where the part has it.
    pub fn parameter_count(self) -> (r: usize)
        ensures
            r == self.spec_parameter_count(),
    {
        self.parameters().len() + self.switch_control_count() + 2 + if self.supports_whole_mode() {
            1
        } else {
            0
        }
    }
}


/// A host modulation amount as the model reads it: `key` identifies the amount (two amounts
/// are the same modulation exactly when their keys and offsets agree), and `offset` is the
/// whole number of value steps it adds before the effective value is rounded and clamped.
#[derive(Clone, Copy, Debug, PartialEq, Eq, Structural)]
pub struct ModulationAmount {
    pub key: u64,
    pub offset: i64,
}

impl ModulationAmount {
    /// No modulation.
    pub fn none() -> (r: ModulationAmount)
        ensures
            r == zero_modulation(),
    {
        ModulationAmount { key: 0, offset: 0 }
    }
}

pub open spec fn zero_modulation() -> ModulationAmount {
    ModulationAmount { key: 0, offset: 0 }
}

/// Which pending change a message carries, so that a failed send can be retried.
#[derive(Clone, Copy, Debug, PartialEq, Eq, Structural)]
pub enum DirtyKind {
    WholeMode,
    Oscillator,
    Dynamics,
    Secondary,
    BassWaveform,
    Parameter(usize),
}

/// A message ready for the MIDI transport.
#[derive(Debug, PartialEq, Eq)]
pub struct PendingMessage {
    pub bytes: Vec<u8>,
    pub kind: DirtyKind,
}

/// A saved state that this part cannot load.
#[derive(Clone, Copy, Debug, PartialEq, Eq, Structural)]
pub struct StateError;

/// The Chord part's four/six-voice Whole Mode setting.
#[derive(Clone, Copy, Debug, PartialEq, Eq)]
pub struct WholeModeSetting {
    pub enabled: bool,
    pub dirty: bool,
}

/// The oscillator switches that parameter 16 carries for Melody and Chord. `present` is set
/// by a host write that leaves the switches as they were; a write that changes a switch
/// keeps `present` as it was. A present group is saved as such and resent on a resync.
#[derive(Clone, Copy, Debug, PartialEq, Eq)]
pub struct OscillatorSwitches {
    pub range: u8,
    pub pulse: bool,
    pub saw: bool,
    pub chorus: bool,
    pub present: bool,
    pub dirty: bool,
}

/// The dynamics switches that parameter 4 carries for Melody and Chord.
#[derive(Clone, Copy, Debug, PartialEq, Eq)]
pub struct DynamicsSwitches {
    pub vcf: bool,
    pub vca: bool,
    pub present: bool,
    pub dirty: bool,
}

/// The mode switches that parameter 17 carries for Melody and Chord (noise for Melody only).
#[derive(Clone, Copy, Debug, PartialEq, Eq)]
pub struct ModeSwitches {
    pub pwm_manual: bool,
    pub env_negative: bool,
    pub vca_gate: bool,
    pub hpf: bool,
    pub noise: bool,
    pub present: bool,
    pub dirty: bool,
}

/// The Bass waveform switch that parameter 16 carries for Bass.
#[derive(Clone, Copy, Debug, PartialEq, Eq)]
pub struct BassWaveform {
    pub saw: bool,
    pub present: bool,
    pub dirty: bool,
}

/// The abstract value of a [`State`]: every setting, every pending change, and whether the
/// controller's settings are authoritative for the hardware.
pub struct StateView {
    pub part: Part,
    pub values: Seq<u8>,
    pub modulations: Seq<ModulationAmount>,
    pub dirty: Seq<bool>,
    pub channel: u8,
    pub output_index: usize,
    pub whole_mode: WholeModeSetting,
    pub oscillator: OscillatorSwitches,
    pub dynamics: DynamicsSwitches,
    pub secondary: ModeSwitches,
    pub bass: BassWaveform,
    pub authoritative: bool,
}

/// The oscillator switches of a new instance: 8' range, pulse on, saw and chorus off.
pub open spec fn default_oscillator() -> OscillatorSwitches {
    OscillatorSwitches { range: 1, pulse: true, saw: false, chorus: false, present: false, dirty: false }
}

pub open spec fn default_dynamics() -> DynamicsSwitches {
    DynamicsSwitches { vcf: false, vca: false, present: false, dirty: false }
}

pub open spec fn default_secondary() -> ModeSwitches {
    ModeSwitches {
        pwm_manual: false,
        env_negative: false,
        vca_gate: false,
        hpf: false,
        noise: false,
        present: false,
        dirty: false,
    }
}

pub open spec fn default_bass() -> BassWaveform {
    BassWaveform { saw: false, present: false, dirty: false }
}

impl StateView {
    /// The number of continuous parameters in use.
    pub open spec fn count(self) -> int {
        self.part.spec_parameter_len() as int
    }

    /// Well-formedness: slot arrays of the fixed size, every setting in its range, and the
    /// settings that a part does not have held at their defaults.
    pub open spec fn wf(self) -> bool {
        &&& self.values.len() == PARAMETER_SLOTS
        &&& self.modulations.len() == PARAMETER_SLOTS
        &&& self.dirty.len() == PARAMETER_SLOTS
        &&& forall|i: int| 0 <= i < PARAMETER_SLOTS ==> #[trigger] self.values[i] <= 127
        &&& 1 <= self.channel <= 16
        &&& self.oscillator.range <= 2
        &&& self.whole_mode.enabled ==> self.part is Chord
        &&& self.secondary.noise ==> self.part is Melody
        &&& self.part is Bass ==> {
            &&& self.oscillator == (OscillatorSwitches {
                dirty: self.oscillator.dirty,
                ..default_oscillator()
            })
            &&& self.dynamics == (DynamicsSwitches { dirty: self.dynamics.dirty, ..default_dynamics() })
            &&& self.secondary == (ModeSwitches { dirty: self.secondary.dirty, ..default_secondary() })
        }
        &&& !(self.part is Bass) ==> self.bass == (BassWaveform {
            dirty: self.bass.dirty,
            ..default_bass()
        })
    }
}

/// The state of one controller instance: the MKS-7 settings the host edits, the host's
/// modulation of the continuous parameters, and which changes still have to be sent.
pub struct State {
    pub part: Part,
    values: [u8; 15],
    modulations: [ModulationAmount; 15],
    dirty: [bool; 15],
    channel: u8,
    output_index: usize,
    whole_mode: WholeModeSetting,
    oscillator: OscillatorSwitches,
    dynamics: DynamicsSwitches,
    secondary: ModeSwitches,
    bass: BassWaveform,
    authoritative: bool,
}

impl View for State {
    type V = StateView;

    closed spec fn view(&self) -> StateView {
        StateView {
            part: self.part,
            values: self.values@,
            modulations: self.modulations@,
            dirty: self.dirty@,
            channel: self.channel,
            output_index: self.output_index,
            whole_mode: self.whole_mode,
            oscillator: self.oscillator,
            dynamics: self.dynamics,
            secondary: self.secondary,
            bass: self.bass,
            authoritative: self.authoritative,
        }
    }
}

/// The state of a new instance: every continuous value at zero and unmodulated, the part's
/// factory channel, no MIDI output, the switch defaults, nothing pending and nothing
/// authoritative.
pub open spec fn initial_state(part: Part) -> StateView {
    StateView {
        part,
        values: Seq::new(15, |i: int| 0u8),
        modulations: Seq::new(15, |i: int| zero_modulation()),
        dirty: Seq::new(15, |i: int| false),
        channel: part.spec_default_channel() as u8,
        output_index: 0,
        whole_mode: WholeModeSetting { enabled: false, dirty: false },
        oscillator: default_oscillator(),
        dynamics: default_dynamics(),
        secondary: default_secondary(),
        bass: default_bass(),
        authoritative: false,
    }
}

/// A switch reads as 1 when on and 0 when off.
pub open spec fn bool_value(b: bool) -> u64 {
    if b {
        1
    } else {
        0
    }
}

/// The value the host reads for parameter `id`, if the part has that parameter.
pub open spec fn spec_get_value(s: StateView, id: u32) -> Option<u64> {
    let osc = s.part.spec_supports_oscillator_switches();
    if (id as int) < s.count() {
        Some(s.values[id as int] as u64)
    } else if id == CHANNEL_PARAMETER_ID {
        Some(s.channel as u64)
    } else if id == MIDI_OUTPUT_PARAMETER_ID {
        Some(s.output_index as u64)
    } else if id == WHOLE_MODE_PARAMETER_ID && s.part is Chord {
        Some(bool_value(s.whole_mode.enabled))
    } else if id == RANGE_PARAMETER_ID && osc {
        Some(s.oscillator.range as u64)
    } else if id == PULSE_PARAMETER_ID && osc {
        Some(bool_value(s.oscillator.pulse))
    } else if id == SAW_PARAMETER_ID && osc {
        Some(bool_value(s.oscillator.saw))
    } else if id == CHORUS_PARAMETER_ID && osc {
        Some(bool_value(s.oscillator.chorus))
    } else if id == VCF_DYNAMICS_PARAMETER_ID && osc {
        Some(bool_value(s.dynamics.vcf))
    } else if id == VCA_DYNAMICS_PARAMETER_ID && osc {
        Some(bool_value(s.dynamics.vca))
    } else if id == PWM_SOURCE_PARAMETER_ID && osc {
        Some(bool_value(s.secondary.pwm_manual))
    } else if id == VCA_MODE_PARAMETER_ID && osc {
        Some(bool_value(s.secondary.vca_gate))
    } else if id == ENV_POLARITY_PARAMETER_ID && osc {
        Some(bool_value(s.secondary.env_negative))
    } else if id == HPF_PARAMETER_ID && osc {
        Some(bool_value(s.secondary.hpf))
    } else if id == NOISE_PARAMETER_ID && s.part is Melody {
        Some(bool_value(s.secondary.noise))
    } else if id == BASS_WAVEFORM_PARAMETER_ID && s.part is Bass {
        Some(bool_value(s.bass.saw))
    } else {
        None
    }
}

/// `v` limited to `lo..=hi`.
pub open spec fn clamp(v: int, lo: int, hi: int) -> int {
    if v < lo {
        lo
    } else if v > hi {
        hi
    } else {
        v
    }
}

/// Every setting that has been sent before is pending again: all continuous parameters, the
/// Whole Mode where the part has it, and each switch group that has been set.
pub open spec fn spec_mark_all_dirty(s: StateView) -> StateView {
    let osc = s.part.spec_supports_oscillator_switches();
    StateView {
        dirty: Seq::new(15, |i: int| i < s.count() || s.dirty[i]),
        whole_mode: WholeModeSetting {
            dirty: s.whole_mode.dirty || s.part is Chord,
            ..s.whole_mode
        },
        oscillator: OscillatorSwitches {
            dirty: s.oscillator.dirty || (osc && s.oscillator.present),
            ..s.oscillator
        },
        dynamics: DynamicsSwitches {
            dirty: s.dynamics.dirty || (osc && s.dynamics.present),
            ..s.dynamics
        },
        secondary: ModeSwitches {
            dirty: s.secondary.dirty || (osc && s.secondary.present),
            ..s.secondary
        },
        bass: BassWaveform {
            dirty: s.bass.dirty || (s.part is Bass && s.bass.present),
            ..s.bass
        },
        ..s
    }
}

/// Whether any change is waiting to be sent.
pub open spec fn spec_has_dirty(s: StateView) -> bool {
    ||| s.whole_mode.dirty
    ||| s.oscillator.dirty
    ||| s.dynamics.dirty
    ||| s.secondary.dirty
    ||| s.bass.dirty
    ||| exists|i: int| 0 <= i < s.count() && #[trigger] s.dirty[i]
}

/// A host write of one oscillator switch: the switches become `o`. A write that changes a
/// switch makes the message pending and the settings authoritative and leaves the group's
/// presence as it was; a write that changes nothing makes the group present, and when it was
/// not present before, also makes the message pending and the settings authoritative.
pub open spec fn oscillator_write(s: StateView, o: OscillatorSwitches) -> StateView {
    if o.range != s.oscillator.range || o.pulse != s.oscillator.pulse || o.saw != s.oscillator.saw
        || o.chorus != s.oscillator.chorus {
        StateView {
            oscillator: OscillatorSwitches { present: s.oscillator.present, dirty: true, ..o },
            authoritative: true,
            ..s
        }
    } else if !s.oscillator.present {
        StateView {
            oscillator: OscillatorSwitches { present: true, dirty: true, ..o },
            authoritative: true,
            ..s
        }
    } else {
        StateView { oscillator: OscillatorSwitches { present: true, ..o }, ..s }
    }
}

/// A host write of one dynamics switch, as for the oscillator switches.
pub open spec fn dynamics_write(s: StateView, d: DynamicsSwitches) -> StateView {
    if d.vcf != s.dynamics.vcf || d.vca != s.dynamics.vca {
        StateView {
            dynamics: DynamicsSwitches { present: s.dynamics.present, dirty: true, ..d },
            authoritative: true,
            ..s
        }
    } else if !s.dynamics.present {
        StateView {
            dynamics: DynamicsSwitches { present: true, dirty: true, ..d },
            authoritative: true,
            ..s
        }
    } else {
        StateView { dynamics: DynamicsSwitches { present: true, ..d }, ..s }
    }
}

/// A host write of one mode switch, as for the oscillator switches.
pub open spec fn secondary_write(s: StateView, m: ModeSwitches) -> StateView {
    if m.pwm_manual != s.secondary.pwm_manual || m.env_negative != s.secondary.env_negative
        || m.vca_gate != s.secondary.vca_gate || m.hpf != s.secondary.hpf || m.noise
        != s.secondary.noise {
        StateView {
            secondary: ModeSwitches { present: s.secondary.present, dirty: true, ..m },
            authoritative: true,
            ..s
        }
    } else if !s.secondary.present {
        StateView {
            secondary: ModeSwitches { present: true, dirty: true, ..m },
            authoritative: true,
            ..s
        }
    } else {
        StateView { secondary: ModeSwitches { present: true, ..m }, ..s }
    }
}

/// A host write of continuous parameter `index`: the value is limited to 0..=127, and a
/// change makes the parameter pending and the settings authoritative.
pub open spec fn continuous_write(s: StateView, index: int, value: i64) -> StateView {
    let v = clamp(value as int, 0, 127) as u8;
    if s.values[index] != v {
        StateView {
            values: s.values.update(index, v),
            dirty: s.dirty.update(index, true),
            authoritative: true,
            ..s
        }
    } else {
        s
    }
}

/// A host write of the receive channel: limited to 1..=16; a change makes the settings
/// authoritative and every sent setting pending again.
pub open spec fn channel_write(s: StateView, value: i64) -> StateView {
    let c = clamp(value as int, 1, 16) as u8;
    if s.channel != c {
        spec_mark_all_dirty(StateView { channel: c, authoritative: true, ..s })
    } else {
        s
    }
}

/// A host write of the MIDI output: limited to the outputs there are; a change makes every
/// sent setting pending again, without making the settings authoritative.
pub open spec fn output_write(s: StateView, value: i64, output_count: usize) -> StateView {
    let last = if output_count == 0 {
        0
    } else {
        output_count - 1
    };
    let out = clamp(value as int, 0, last) as usize;
    if s.output_index != out {
        spec_mark_all_dirty(StateView { output_index: out, ..s })
    } else {
        s
    }
}

/// A host write of the Whole Mode switch.
pub open spec fn whole_mode_write(s: StateView, on: bool) -> StateView {
    if s.whole_mode.enabled != on {
        StateView { whole_mode: WholeModeSetting { enabled: on, dirty: true }, authoritative: true, ..s }
    } else {
        s
    }
}

/// A host write of one of the Melody/Chord switches (ids of other parameters are ignored).
pub open spec fn switch_write(s: StateView, id: u32, value: i64) -> StateView {
    let on = value >= 1;
    let o = s.oscillator;
    let d = s.dynamics;
    let m = s.secondary;
    if id == RANGE_PARAMETER_ID {
        oscillator_write(s, OscillatorSwitches { range: clamp(value as int, 0, 2) as u8, ..o })
    } else if id == PULSE_PARAMETER_ID {
        oscillator_write(s, OscillatorSwitches { pulse: on, ..o })
    } else if id == SAW_PARAMETER_ID {
        oscillator_write(s, OscillatorSwitches { saw: on, ..o })
    } else if id == CHORUS_PARAMETER_ID {
        oscillator_write(s, OscillatorSwitches { chorus: on, ..o })
    } else if id == VCF_DYNAMICS_PARAMETER_ID {
        dynamics_write(s, DynamicsSwitches { vcf: on, ..d })
    } else if id == VCA_DYNAMICS_PARAMETER_ID {
        dynamics_write(s, DynamicsSwitches { vca: on, ..d })
    } else if id == PWM_SOURCE_PARAMETER_ID {
        secondary_write(s, ModeSwitches { pwm_manual: on, ..m })
    } else if id == VCA_MODE_PARAMETER_ID {
        secondary_write(s, ModeSwitches { vca_gate: on, ..m })
    } else if id == ENV_POLARITY_PARAMETER_ID {
        secondary_write(s, ModeSwitches { env_negative: on, ..m })
    } else if id == HPF_PARAMETER_ID {
        secondary_write(s, ModeSwitches { hpf: on, ..m })
    } else if id == NOISE_PARAMETER_ID && s.part is Melody {
        secondary_write(s, ModeSwitches { noise: on, ..m })
    } else {
        s
    }
}

/// A host write of the Bass waveform switch, as for the Melody/Chord switch groups.
pub open spec fn bass_write(s: StateView, on: bool) -> StateView {
    if s.bass.saw != on {
        StateView {
            bass: BassWaveform { saw: on, present: s.bass.present, dirty: true },
            authoritative: true,
            ..s
        }
    } else if !s.bass.present {
        StateView { bass: BassWaveform { saw: on, present: true, dirty: true }, authoritative: true, ..s }
    } else {
        StateView { bass: BassWaveform { saw: on, present: true, ..s.bass }, ..s }
    }
}

/// The state after the host writes `value` (rounded to a whole number) to parameter `id`;
/// `output_count` is the number of MIDI outputs, "None" included. A switch is on when the
/// value is at least 1. Ids that the part does not have are ignored.
pub open spec fn spec_apply_value(s: StateView, id: u32, value: i64, output_count: usize) -> StateView {
    if (id as int) < s.count() {
        continuous_write(s, id as int, value)
    } else if id == CHANNEL_PARAMETER_ID {
        channel_write(s, value)
    } else if id == MIDI_OUTPUT_PARAMETER_ID {
        output_write(s, value, output_count)
    } else if id == WHOLE_MODE_PARAMETER_ID && s.part is Chord {
        whole_mode_write(s, value >= 1)
    } else if s.part.spec_supports_oscillator_switches() {
        switch_write(s, id, value)
    } else if id == BASS_WAVEFORM_PARAMETER_ID && s.part is Bass {
        bass_write(s, value >= 1)
    } else {
        s
    }
}

/// The state after the host modulates continuous parameter `id` by `amount`: the parameter
/// becomes pending when the amount differs from its current modulation. Other ids are
/// ignored.
pub open spec fn spec_apply_modulation(s: StateView, id: u32, amount: ModulationAmount) -> StateView {
    if (id as int) < s.count() {
        if s.modulations[id as int] != amount {
            StateView {
                modulations: s.modulations.update(id as int, amount),
                dirty: s.dirty.update(id as int, true),
                ..s
            }
        } else {
            s
        }
    } else {
        s
    }
}

/// The change of kind `kind` is pending again.
pub open spec fn spec_retry(s: StateView, kind: DirtyKind) -> StateView {
    StateView {
        whole_mode: WholeModeSetting { dirty: s.whole_mode.dirty || kind is WholeMode, ..s.whole_mode },
        oscillator: OscillatorSwitches { dirty: s.oscillator.dirty || kind is Oscillator, ..s.oscillator },
        dynamics: DynamicsSwitches { dirty: s.dynamics.dirty || kind is Dynamics, ..s.dynamics },
        secondary: ModeSwitches { dirty: s.secondary.dirty || kind is Secondary, ..s.secondary },
        bass: BassWaveform { dirty: s.bass.dirty || kind is BassWaveform, ..s.bass },
        dirty: match kind {
            DirtyKind::Parameter(index) => s.dirty.update(index as int, true),
            _ => s.dirty,
        },
        ..s
    }
}

/// The SysEx tone-parameter write for a part on user channel `channel`.
pub open spec fn sysex_message(channel: u8, parameter: u8, value: u8) -> Seq<u8> {
    seq![0xf0u8, 0x41u8, 0x32u8, (channel - 1) as u8, parameter, value, 0xf7u8]
}

/// The Control Change message for a part on user channel `channel`.
pub open spec fn control_message(channel: u8, controller: u8, value: u8) -> Seq<u8> {
    seq![(0xb0 + channel - 1) as u8, controller, value]
}

/// The value sent for a continuous parameter: the stored value plus the modulation offset,
/// limited to 0..=127.
pub open spec fn effective_value(value: u8, modulation: ModulationAmount) -> u8 {
    clamp(value + modulation.offset, 0, 127) as u8
}

/// The first pending continuous parameter in round-robin order from `start`, looking at the
/// offsets `k..n`.
pub open spec fn first_dirty(dirty: Seq<bool>, start: int, n: int, k: int) -> Option<int>
    decreases n - k,
{
    if k >= n || n <= 0 {
        None
    } else if dirty[(start + k) % n] {
        Some((start + k) % n)
    } else {
        first_dirty(dirty, start, n, k + 1)
    }
}

/// The pending switch group that goes first, if any: Whole Mode, then the oscillator,
/// dynamics and mode switches, then the Bass waveform. A group counts only for a part that
/// has it.
pub open spec fn next_group(s: StateView) -> Option<DirtyKind> {
    let osc = s.part.spec_supports_oscillator_switches();
    if s.part is Chord && s.whole_mode.dirty {
        Some(DirtyKind::WholeMode)
    } else if osc && s.oscillator.dirty {
        Some(DirtyKind::Oscillator)
    } else if osc && s.dynamics.dirty {
        Some(DirtyKind::Dynamics)
    } else if osc && s.secondary.dirty {
        Some(DirtyKind::Secondary)
    } else if s.part is Bass && s.bass.dirty {
        Some(DirtyKind::BassWaveform)
    } else {
        None
    }
}

/// The message that carries the current setting behind `kind`: CC 121 (0 for four voices,
/// 127 for six) for the Whole Mode, the complete packed byte of parameter 16, 4 or 17 for a
/// switch group, and the protocol number with the effective value for a continuous
/// parameter.
pub open spec fn message_bytes(s: StateView, kind: DirtyKind) -> Seq<u8> {
    let o = s.oscillator;
    let d = s.dynamics;
    let m = s.secondary;
    match kind {
        DirtyKind::WholeMode => control_message(
            s.channel,
            121,
            if s.whole_mode.enabled {
                127
            } else {
                0
            },
        ),
        DirtyKind::Oscillator => sysex_message(
            s.channel,
            16,
            spec_melody_chord_switches_1(o.range as int, o.pulse, o.saw, o.chorus) as u8,
        ),
        DirtyKind::Dynamics => sysex_message(s.channel, 4, spec_melody_chord_dynamics(d.vcf, d.vca) as u8),
        DirtyKind::Secondary => sysex_message(
            s.channel,
            17,
            spec_melody_chord_switches_2(
                m.pwm_manual,
                m.env_negative,
                m.vca_gate,
                m.hpf,
                s.part is Melody && m.noise,
            ) as u8,
        ),
        DirtyKind::BassWaveform => sysex_message(s.channel, 16, spec_bass_switches_1(s.bass.saw) as u8),
        DirtyKind::Parameter(index) => parameter_message(s, index as int),
    }
}

/// The change the sender takes next: a pending switch group, else the first pending
/// continuous parameter in round-robin order from `next`.
pub open spec fn next_kind(s: StateView, next: usize) -> Option<DirtyKind> {
    match next_group(s) {
        Some(kind) => Some(kind),
        None => match first_dirty(s.dirty, next as int, s.count(), 0) {
            Some(index) => Some(DirtyKind::Parameter(index as usize)),
            None => None,
        },
    }
}

/// The message for continuous parameter `index`: its protocol number and effective value.
pub open spec fn parameter_message(s: StateView, index: int) -> Seq<u8> {
    sysex_message(
        s.channel,
        s.part.spec_parameters()[index].protocol_number,
        effective_value(s.values[index], s.modulations[index]),
    )
}

/// The change of kind `kind` is no longer pending.
pub open spec fn clear_pending(s: StateView, kind: DirtyKind) -> StateView {
    StateView {
        whole_mode: WholeModeSetting { dirty: s.whole_mode.dirty && !(kind is WholeMode), ..s.whole_mode },
        oscillator: OscillatorSwitches { dirty: s.oscillator.dirty && !(kind is Oscillator), ..s.oscillator },
        dynamics: DynamicsSwitches { dirty: s.dynamics.dirty && !(kind is Dynamics), ..s.dynamics },
        secondary: ModeSwitches { dirty: s.secondary.dirty && !(kind is Secondary), ..s.secondary },
        bass: BassWaveform { dirty: s.bass.dirty && !(kind is BassWaveform), ..s.bass },
        dirty: match kind {
            DirtyKind::Parameter(index) => s.dirty.update(index as int, false),
            _ => s.dirty,
        },
        ..s
    }
}

/// The next message the sender takes, the state after taking it, and the next round-robin
/// position, which moves past a taken continuous parameter and stays put otherwise.
pub open spec fn spec_take_next_message(s: StateView, next: usize) -> (
    Option<(Seq<u8>, DirtyKind)>,
    StateView,
    usize,
) {
    match next_kind(s, next) {
        Some(kind) => (
            Some((message_bytes(s, kind), kind)),
            clear_pending(s, kind),
            match kind {
                DirtyKind::Parameter(index) => ((index + 1) % s.count()) as usize,
                _ => next,
            },
        ),
        None => (None, s, next),
    }
}

/// A taken message as bytes and kind.
pub open spec fn pending_view(m: Option<PendingMessage>) -> Option<(Seq<u8>, DirtyKind)> {
    match m {
        Some(message) => Some((message.bytes@, message.kind)),
        None => None,
    }
}

/// A switch is saved as 1 when on and 0 when off.
pub open spec fn flag(b: bool) -> u8 {
    if b {
        1
    } else {
        0
    }
}

/// The four little-endian bytes of `x`.
pub open spec fn le_bytes(x: u32) -> Seq<u8> {
    seq![x as u8, (x >> 8u32) as u8, (x >> 16u32) as u8, (x >> 24u32) as u8]
}

/// The number whose little-endian bytes are `b0..b3`.
pub open spec fn le_u32(b0: u8, b1: u8, b2: u8, b3: u8) -> u32 {
    (b0 as u32) | ((b1 as u32) << 8u32) | ((b2 as u32) << 16u32) | ((b3 as u32) << 24u32)
}

/// Offsets in a saved state of `part`: the end of the version-1 layout (header, channel and
/// continuous values), the oscillator switches, and the dynamics and mode switches.
pub open spec fn v1_size(part: Part) -> int {
    6 + part.spec_parameter_len() as int
}

pub open spec fn switch_offset(part: Part) -> int {
    v1_size(part) + 4 + (if part is Chord {
        1int
    } else {
        0
    })
}

pub open spec fn secondary_offset(part: Part) -> int {
    switch_offset(part) + 5
}

/// The length of a saved state of format `version` for `part`, if the part has that
/// format: 1 has the channel and values, 2 adds the MIDI output id, 3 the Whole Mode (Chord
/// only), 4 the oscillator switches (Melody and Chord only), 5 everything.
pub open spec fn spec_serialized_size(part: Part, version: u8) -> Option<int> {
    let osc = part.spec_supports_oscillator_switches();
    if version == 1 {
        Some(v1_size(part))
    } else if version == 2 {
        Some(v1_size(part) + 4)
    } else if version == 3 && part is Chord {
        Some(v1_size(part) + 5)
    } else if version == 4 && osc {
        Some(switch_offset(part) + 5)
    } else if version == 5 {
        Some(
            if osc {
                secondary_offset(part) + 9
            } else {
                switch_offset(part) + 2
            },
        )
    } else {
        None
    }
}

/// The start of the saved form: "MKS7", the format version 5, the channel and the
/// continuous values.
pub open spec fn saved_head(s: StateView) -> Seq<u8> {
    seq![0x4du8, 0x4bu8, 0x53u8, 0x37u8, 5u8, s.channel] + s.values.take(s.count())
}

/// Byte `k` of the switch bytes of the saved form. For Melody and Chord: the oscillator group
/// (presence, range, pulse, saw, chorus), the dynamics group (presence, VCF, VCA) and the
/// mode group (presence, PWM manual, envelope negative, VCA gate, HPF, noise). For Bass: the
/// waveform presence and saw switch.
pub open spec fn switch_byte(s: StateView, k: int) -> u8 {
    let o = s.oscillator;
    let d = s.dynamics;
    let m = s.secondary;
    if s.part.spec_supports_oscillator_switches() {
        if k == 0 {
            flag(o.present)
        } else if k == 1 {
            o.range
        } else if k == 2 {
            flag(o.pulse)
        } else if k == 3 {
            flag(o.saw)
        } else if k == 4 {
            flag(o.chorus)
        } else if k == 5 {
            flag(d.present)
        } else if k == 6 {
            flag(d.vcf)
        } else if k == 7 {
            flag(d.vca)
        } else if k == 8 {
            flag(m.present)
        } else if k == 9 {
            flag(m.pwm_manual)
        } else if k == 10 {
            flag(m.env_negative)
        } else if k == 11 {
            flag(m.vca_gate)
        } else if k == 12 {
            flag(m.hpf)
        } else {
            flag(m.noise)
        }
    } else if k == 0 {
        flag(s.bass.present)
    } else {
        flag(s.bass.saw)
    }
}

/// The switch bytes of the saved form: 14 for Melody and Chord, 2 for Bass.
pub open spec fn saved_switches(s: StateView) -> Seq<u8> {
    Seq::new(
        if s.part.spec_supports_oscillator_switches() {
            14
        } else {
            2
        },
        |k: int| switch_byte(s, k),
    )
}

/// The end of the saved form: the Whole Mode for Chord, then the switch bytes.
pub open spec fn saved_tail(s: StateView) -> Seq<u8> {
    if s.part is Chord {
        seq![flag(s.whole_mode.enabled)] + saved_switches(s)
    } else {
        saved_switches(s)
    }
}

/// The saved form (format 5) of `s` with the selected output's unique id, which stands in
/// little-endian order between the values and the Whole Mode and switches.
pub open spec fn spec_save(s: StateView, output_id: i32) -> Seq<u8> {
    saved_head(s) + le_bytes(output_id as u32) + saved_tail(s)
}

/// Every byte of `d` in `from..to` is at most `max`.
pub open spec fn bytes_at_most(d: Seq<u8>, from: int, to: int, max: u8) -> bool {
    forall|i: int| from <= i < to ==> #[trigger] d[i] <= max
}

/// Whether `part` can load the saved state `d`: the "MKS7" header, a format the part has,
/// enough bytes for it, a channel in 1..=16, values in 0..=127, and each switch byte 0 or 1
/// (the range 0..=2).
pub open spec fn load_valid(part: Part, d: Seq<u8>) -> bool {
    let osc = part.spec_supports_oscillator_switches();
    let version = d[4];
    let sw = switch_offset(part);
    let sec = secondary_offset(part);
    &&& d.len() >= 5
    &&& d[0] == 0x4d && d[1] == 0x4b && d[2] == 0x53 && d[3] == 0x37
    &&& spec_serialized_size(part, version) is Some
    &&& d.len() >= (match spec_serialized_size(part, version) {
        Some(size) => size,
        None => 0,
    })
    &&& 1 <= d[5] <= 16
    &&& bytes_at_most(d, 6, v1_size(part), 127)
    &&& (part is Chord && version >= 3 ==> d[v1_size(part) + 4] <= 1)
    &&& (osc && version >= 4 ==> d[sw] <= 1 && d[sw + 1] <= 2 && bytes_at_most(d, sw + 2, sw + 5, 1))
    &&& (version == 5 ==> if osc {
        bytes_at_most(d, sec, sec + 9, 1)
    } else {
        bytes_at_most(d, sw, sw + 2, 1)
    })
}

/// The first position from `i` on at which `ids` holds `id`, or 0 ("None") if there is none.
pub open spec fn first_match(ids: Seq<i32>, id: i32, i: int) -> int
    decreases ids.len() - i,
{
    if i >= ids.len() {
        0
    } else if ids[i] == id {
        i
    } else {
        first_match(ids, id, i + 1)
    }
}

/// The MIDI output a saved state selects: the first output after "None" whose unique id is
/// the saved one, or "None" when there is none or the format has no id.
pub open spec fn loaded_output(part: Part, d: Seq<u8>, ids: Seq<i32>) -> int {
    let v1 = v1_size(part);
    if d[4] >= 2 {
        first_match(ids, le_u32(d[v1], d[v1 + 1], d[v1 + 2], d[v1 + 3]) as i32, 1)
    } else {
        0
    }
}

pub open spec fn loaded_oscillator(part: Part, d: Seq<u8>) -> OscillatorSwitches {
    let sw = switch_offset(part);
    if part.spec_supports_oscillator_switches() && d[4] >= 4 {
        OscillatorSwitches {
            present: d[sw] != 0,
            range: d[sw + 1],
            pulse: d[sw + 2] != 0,
            saw: d[sw + 3] != 0,
            chorus: d[sw + 4] != 0,
            dirty: false,
        }
    } else {
        default_oscillator()
    }
}

pub open spec fn loaded_dynamics(part: Part, d: Seq<u8>) -> DynamicsSwitches {
    let sec = secondary_offset(part);
    if part.spec_supports_oscillator_switches() && d[4] == 5 {
        DynamicsSwitches { present: d[sec] != 0, vcf: d[sec + 1] != 0, vca: d[sec + 2] != 0, dirty: false }
    } else {
        default_dynamics()
    }
}

pub open spec fn loaded_secondary(part: Part, d: Seq<u8>) -> ModeSwitches {
    let sec = secondary_offset(part);
    if part.spec_supports_oscillator_switches() && d[4] == 5 {
        ModeSwitches {
            present: d[sec + 3] != 0,
            pwm_manual: d[sec + 4] != 0,
            env_negative: d[sec + 5] != 0,
            vca_gate: d[sec + 6] != 0,
            hpf: d[sec + 7] != 0,
            noise: part is Melody && d[sec + 8] != 0,
            dirty: false,
        }
    } else {
        default_secondary()
    }
}

pub open spec fn loaded_bass(part: Part, d: Seq<u8>) -> BassWaveform {
    let sw = switch_offset(part);
    if part is Bass && d[4] == 5 {
        BassWaveform { present: d[sw] != 0, saw: d[sw + 1] != 0, dirty: false }
    } else {
        default_bass()
    }
}

/// The state after loading the valid saved state `d`, with `ids` the unique ids of the
/// MIDI outputs: the saved settings (the ones the format lacks at their defaults), the
/// continuous parameters unmodulated, the settings authoritative, and every sent setting
/// pending again.
pub open spec fn spec_load(s: StateView, d: Seq<u8>, ids: Seq<i32>) -> StateView {
    let part = s.part;
    let n = s.count();
    let v1 = v1_size(part);
    spec_mark_all_dirty(
        StateView {
            values: Seq::new(15, |i: int| if i < n { d[6 + i] } else { s.values[i] }),
            modulations: Seq::new(15, |i: int| if i < n { zero_modulation() } else { s.modulations[i] }),
            channel: d[5],
            output_index: loaded_output(part, d, ids) as usize,
            whole_mode: WholeModeSetting {
                enabled: part is Chord && d[4] >= 3 && d[v1 + 4] != 0,
                ..s.whole_mode
            },
            oscillator: loaded_oscillator(part, d),
            dynamics: loaded_dynamics(part, d),
            secondary: loaded_secondary(part, d),
            bass: loaded_bass(part, d),
            authoritative: true,
            ..s
        },
    )
}

/// Stepping `offset` places on from `start` reduced modulo `n` lands where stepping on from
/// `start` itself does.
proof fn lemma_round_robin_index(start: int, offset: int, n: int)
    requires
        0 <= start,
        0 <= offset < n,
    ensures
        (start % n + offset) % n == (start + offset) % n,
{
    vstd::arithmetic::div_mod::lemma_small_mod(offset as nat, n as nat);
    vstd::arithmetic::div_mod::lemma_add_mod_noop(start, offset, n);
}

/// The first pending continuous parameter lies among the parameters in use and is pending.
pub proof fn lemma_first_dirty_is_pending(dirty: Seq<bool>, start: int, n: int, k: int)
    requires
        0 <= start,
        0 <= k,
    ensures
        first_dirty(dirty, start, n, k) matches Some(i) ==> 0 <= i < n && dirty[i],
    decreases n - k,
{
    if k < n && n > 0 && !dirty[(start + k) % n] {
        lemma_first_dirty_is_pending(dirty, start, n, k + 1);
    }
}

proof fn lemma_oscillator_write_wf(s: StateView, o: OscillatorSwitches)
    requires
        s.wf(),
        !(s.part is Bass),
        o.range <= 2,
    ensures
        oscillator_write(s, o).wf(),
{
}

proof fn lemma_dynamics_write_wf(s: StateView, d: DynamicsSwitches)
    requires
        s.wf(),
        !(s.part is Bass),
    ensures
        dynamics_write(s, d).wf(),
{
}

proof fn lemma_secondary_write_wf(s: StateView, m: ModeSwitches)
    requires
        s.wf(),
        !(s.part is Bass),
        m.noise ==> s.part is Melody,
    ensures
        secondary_write(s, m).wf(),
{
}

proof fn lemma_switch_write_wf(s: StateView, id: u32, value: i64)
    requires
        s.wf(),
        !(s.part is Bass),
    ensures
        switch_write(s, id, value).wf(),
{
    let on = value >= 1;
    let o = s.oscillator;
    let d = s.dynamics;
    let m = s.secondary;
    if id == RANGE_PARAMETER_ID {
        lemma_oscillator_write_wf(s, OscillatorSwitches { range: clamp(value as int, 0, 2) as u8, ..o });
    } else if id == PULSE_PARAMETER_ID {
        lemma_oscillator_write_wf(s, OscillatorSwitches { pulse: on, ..o });
    } else if id == SAW_PARAMETER_ID {
        lemma_oscillator_write_wf(s, OscillatorSwitches { saw: on, ..o });
    } else if id == CHORUS_PARAMETER_ID {
        lemma_oscillator_write_wf(s, OscillatorSwitches { chorus: on, ..o });
    } else if id == VCF_DYNAMICS_PARAMETER_ID {
        lemma_dynamics_write_wf(s, DynamicsSwitches { vcf: on, ..d });
    } else if id == VCA_DYNAMICS_PARAMETER_ID {
        lemma_dynamics_write_wf(s, DynamicsSwitches { vca: on, ..d });
    } else if id == PWM_SOURCE_PARAMETER_ID {
        lemma_secondary_write_wf(s, ModeSwitches { pwm_manual: on, ..m });
    } else if id == VCA_MODE_PARAMETER_ID {
        lemma_secondary_write_wf(s, ModeSwitches { vca_gate: on, ..m });
    } else if id == ENV_POLARITY_PARAMETER_ID {
        lemma_secondary_write_wf(s, ModeSwitches { env_negative: on, ..m });
    } else if id == HPF_PARAMETER_ID {
        lemma_secondary_write_wf(s, ModeSwitches { hpf: on, ..m });
    } else if id == NOISE_PARAMETER_ID && s.part is Melody {
        lemma_secondary_write_wf(s, ModeSwitches { noise: on, ..m });
    }
}

fn flag_byte(b: bool) -> (r: u8)
    ensures
        r == flag(b),
{
    if b {
        1
    } else {
        0
    }
}

fn push_le_u32(out: &mut Vec<u8>, x: u32)
    ensures
        final(out)@ == old(out)@ + le_bytes(x),
{
    out.push(x as u8);
    out.push((x >> 8u32) as u8);
    out.push((x >> 16u32) as u8);
    out.push((x >> 24u32) as u8);
    assert(final(out)@ =~= old(out)@ + le_bytes(x));
}


fn bytes_are_at_most(data: &[u8], from: usize, to: usize, max: u8) -> (r: bool)
    requires
        from <= to <= data@.len(),
    ensures
        r == bytes_at_most(data@, from as int, to as int, max),
{
    for i in from..to
        invariant
            to <= data@.len(),
            forall|j: int| from <= j < i ==> #[trigger] data@[j] <= max,
    {
        if data[i] > max {
            return false;
        }
    }
    true
}

fn find_output(output_ids: &[i32], id: i32) -> (r: usize)
    ensures
        r == first_match(output_ids@, id, 1),
{
    let len = output_ids.len();
    let mut i: usize = 1;
    while i < len
        invariant
            len == output_ids@.len(),
            1 <= i,
            first_match(output_ids@, id, 1) == first_match(output_ids@, id, i as int),
        decreases len - i,
    {
        if output_ids[i] == id {
            return i;
        }
        i = i + 1;
    }
    0
}

fn bool_to_u64(b: bool) -> (r: u64)
    ensures
        r == bool_value(b),
{
    if b {
        1
    } else {
        0
    }
}

impl State {
    /// A new instance of `part`.
    pub fn new(part: Part) -> (r: State)
        ensures
            r@ == initial_state(part),
            r@.wf(),
    {
        let r = State {
            part,
            values: [0u8; 15],
            modulations: [ModulationAmount::none(); 15],
            dirty: [false; 15],
            channel: part.default_channel() as u8,
            output_index: 0,
            whole_mode: WholeModeSetting { enabled: false, dirty: false },
            oscillator: OscillatorSwitches {
                range: 1,
                pulse: true,
                saw: false,
                chorus: false,
                present: false,
                dirty: false,
            },
            dynamics: DynamicsSwitches { vcf: false, vca: false, present: false, dirty: false },
            secondary: ModeSwitches {
                pwm_manual: false,
                env_negative: false,
                vca_gate: false,
                hpf: false,
                noise: false,
                present: false,
                dirty: false,
            },
            bass: BassWaveform { saw: false, present: false, dirty: false },
            authoritative: false,
        };
        assert(r@.values =~= initial_state(part).values);
        assert(r@.modulations =~= initial_state(part).modulations);
        assert(r@.dirty =~= initial_state(part).dirty);
        r
    }

    /// The part this instance drives.
    pub fn part(&self) -> (r: Part)
        ensures
            r == self@.part,
    {
        self.part
    }

    /// The selected MIDI output (0 is "None").
    pub fn output_index(&self) -> (r: usize)
        ensures
            r == self@.output_index,
    {
        self.output_index
    }

    /// Whether the controller's settings have been edited or loaded, so that they are to be
    /// resent to the hardware.
    pub fn has_authoritative_state(&self) -> (r: bool)
        ensures
            r == self@.authoritative,
    {
        self.authoritative
    }

    /// The value of parameter `id`, or `None` if the part has no such parameter.
    pub fn get_value(&self, id: u32) -> (r: Option<u64>)
        requires
            self@.wf(),
        ensures
            r == spec_get_value(self@, id),
    {
        let osc = self.part.supports_oscillator_switches();
        if (id as usize) < self.part.parameters().len() {
            return Some(self.values[id as usize] as u64);
        }
        if id == CHANNEL_PARAMETER_ID {
            Some(self.channel as u64)
        } else if id == MIDI_OUTPUT_PARAMETER_ID {
            Some(self.output_index as u64)
        } else if id == WHOLE_MODE_PARAMETER_ID && self.part.supports_whole_mode() {
            Some(bool_to_u64(self.whole_mode.enabled))
        } else if id == RANGE_PARAMETER_ID && osc {
            Some(self.oscillator.range as u64)
        } else if id == PULSE_PARAMETER_ID && osc {
            Some(bool_to_u64(self.oscillator.pulse))
        } else if id == SAW_PARAMETER_ID && osc {
            Some(bool_to_u64(self.oscillator.saw))
        } else if id == CHORUS_PARAMETER_ID && osc {
            Some(bool_to_u64(self.oscillator.chorus))
        } else if id == VCF_DYNAMICS_PARAMETER_ID && osc {
            Some(bool_to_u64(self.dynamics.vcf))
        } else if id == VCA_DYNAMICS_PARAMETER_ID && osc {
            Some(bool_to_u64(self.dynamics.vca))
        } else if id == PWM_SOURCE_PARAMETER_ID && osc {
            Some(bool_to_u64(self.secondary.pwm_manual))
        } else if id == VCA_MODE_PARAMETER_ID && osc {
            Some(bool_to_u64(self.secondary.vca_gate))
        } else if id == ENV_POLARITY_PARAMETER_ID && osc {
            Some(bool_to_u64(self.secondary.env_negative))
        } else if id == HPF_PARAMETER_ID && osc {
            Some(bool_to_u64(self.secondary.hpf))
        } else if id == NOISE_PARAMETER_ID && self.part.is_melody() {
            Some(bool_to_u64(self.secondary.noise))
        } else if id == BASS_WAVEFORM_PARAMETER_ID && self.part.is_bass() {
            Some(bool_to_u64(self.bass.saw))
        } else {
            None
        }
    }

    /// Applies a host value for parameter `id`. The host value arrives rounded to a whole
    /// number; `output_count` is the number of MIDI outputs, "None" included.
    pub fn apply_value(&mut self, id: u32, value: i64, output_count: usize)
        requires
            old(self)@.wf(),
        ensures
            final(self)@ == spec_apply_value(old(self)@, id, value, output_count),
            final(self)@.wf(),
    {
        if (id as usize) < self.part.parameters().len() {
            self.write_continuous(id as usize, value);
        } else if id == CHANNEL_PARAMETER_ID {
            self.write_channel(value);
        } else if id == MIDI_OUTPUT_PARAMETER_ID {
            self.write_output(value, output_count);
        } else if id == WHOLE_MODE_PARAMETER_ID && self.part.supports_whole_mode() {
            self.write_whole_mode(value >= 1);
        } else if self.part.supports_oscillator_switches() {
            self.write_switch(id, value);
            proof {
                lemma_switch_write_wf(old(self)@, id, value);
            }
        } else if id == BASS_WAVEFORM_PARAMETER_ID && self.part.is_bass() {
            self.write_bass(value >= 1);
        }
    }

    fn write_continuous(&mut self, index: usize, value: i64)
        requires
            old(self)@.wf(),
            index < old(self)@.count(),
        ensures
            final(self)@ == continuous_write(old(self)@, index as int, value),
            final(self)@.wf(),
    {
        let v: u8 = if value < 0 {
            0
        } else if value > 127 {
            127
        } else {
            value as u8
        };
        if self.values[index] != v {
            let mut values = self.values;
            let mut dirty = self.dirty;
            values[index] = v;
            dirty[index] = true;
            let next = State { values, dirty, authoritative: true, ..*self };
            assert(next@.values =~= old(self)@.values.update(index as int, v));
            assert(next@.dirty =~= old(self)@.dirty.update(index as int, true));
            *self = next;
        }
    }

    fn write_channel(&mut self, value: i64)
        requires
            old(self)@.wf(),
        ensures
            final(self)@ == channel_write(old(self)@, value),
            final(self)@.wf(),
    {
        let channel: u8 = if value < 1 {
            1
        } else if value > 16 {
            16
        } else {
            value as u8
        };
        if self.channel != channel {
            *self = State { channel, authoritative: true, ..*self };
            self.mark_all_dirty();
        }
    }

    fn write_output(&mut self, value: i64, output_count: usize)
        requires
            old(self)@.wf(),
        ensures
            final(self)@ == output_write(old(self)@, value, output_count),
            final(self)@.wf(),
    {
        let last: usize = if output_count == 0 {
            0
        } else {
            output_count - 1
        };
        let output_index: usize = if value < 0 {
            0
        } else if value as u64 > last as u64 {
            last
        } else {
            value as usize
        };
        if self.output_index != output_index {
            *self = State { output_index, ..*self };
            self.mark_all_dirty();
        }
    }

    fn write_whole_mode(&mut self, on: bool)
        requires
            old(self)@.wf(),
            old(self)@.part is Chord,
        ensures
            final(self)@ == whole_mode_write(old(self)@, on),
            final(self)@.wf(),
    {
        if self.whole_mode.enabled != on {
            *self = State {
                whole_mode: WholeModeSetting { enabled: on, dirty: true },
                authoritative: true,
                ..*self
            };
        }
    }

    fn write_switch(&mut self, id: u32, value: i64)
        requires
            old(self)@.wf(),
            !(old(self)@.part is Bass),
        ensures
            final(self)@ == switch_write(old(self)@, id, value),
    {
        let on = value >= 1;
        let o = self.oscillator;
        let d = self.dynamics;
        let m = self.secondary;
        if id == RANGE_PARAMETER_ID {
            let range: u8 = if value < 0 {
                0
            } else if value > 2 {
                2
            } else {
                value as u8
            };
            self.write_oscillator(OscillatorSwitches { range, ..o });
            return;
        } else if id == PULSE_PARAMETER_ID {
            self.write_oscillator(OscillatorSwitches { pulse: on, ..o });
            return;
        } else if id == SAW_PARAMETER_ID {
            self.write_oscillator(OscillatorSwitches { saw: on, ..o });
            return;
        } else if id == CHORUS_PARAMETER_ID {
            self.write_oscillator(OscillatorSwitches { chorus: on, ..o });
            return;
        } else if id == VCF_DYNAMICS_PARAMETER_ID {
            self.write_dynamics(DynamicsSwitches { vcf: on, ..d });
            return;
        } else if id == VCA_DYNAMICS_PARAMETER_ID {
            self.write_dynamics(DynamicsSwitches { vca: on, ..d });
            return;
        } else if id == PWM_SOURCE_PARAMETER_ID {
            self.write_secondary(ModeSwitches { pwm_manual: on, ..m });
            return;
        } else if id == VCA_MODE_PARAMETER_ID {
            self.write_secondary(ModeSwitches { vca_gate: on, ..m });
            return;
        } else if id == ENV_POLARITY_PARAMETER_ID {
            self.write_secondary(ModeSwitches { env_negative: on, ..m });
            return;
        } else if id == HPF_PARAMETER_ID {
            self.write_secondary(ModeSwitches { hpf: on, ..m });
            return;
        } else if id == NOISE_PARAMETER_ID && self.part.is_melody() {
            self.write_secondary(ModeSwitches { noise: on, ..m });
            return;
        }
    }

    fn write_bass(&mut self, on: bool)
        requires
            old(self)@.wf(),
            old(self)@.part is Bass,
        ensures
            final(self)@ == bass_write(old(self)@, on),
            final(self)@.wf(),
    {
        let b = self.bass;
        if b.saw != on {
            *self = State {
                bass: BassWaveform { saw: on, present: b.present, dirty: true },
                authoritative: true,
                ..*self
            };
        } else if !b.present {
            *self = State {
                bass: BassWaveform { saw: on, present: true, dirty: true },
                authoritative: true,
                ..*self
            };
        } else {
            *self = State { bass: BassWaveform { saw: on, present: true, ..b }, ..*self };
        }
    }

    fn write_oscillator(&mut self, o: OscillatorSwitches)
        ensures
            final(self)@ == oscillator_write(old(self)@, o),
    {
        let cur = self.oscillator;
        if o.range != cur.range || o.pulse != cur.pulse || o.saw != cur.saw || o.chorus
            != cur.chorus {
            *self = State {
                oscillator: OscillatorSwitches { present: cur.present, dirty: true, ..o },
                authoritative: true,
                ..*self
            };
        } else if !cur.present {
            *self = State {
                oscillator: OscillatorSwitches { present: true, dirty: true, ..o },
                authoritative: true,
                ..*self
            };
        } else {
            *self = State { oscillator: OscillatorSwitches { present: true, ..o }, ..*self };
        }
    }

    fn write_dynamics(&mut self, d: DynamicsSwitches)
        ensures
            final(self)@ == dynamics_write(old(self)@, d),
    {
        let cur = self.dynamics;
        if d.vcf != cur.vcf || d.vca != cur.vca {
            *self = State {
                dynamics: DynamicsSwitches { present: cur.present, dirty: true, ..d },
                authoritative: true,
                ..*self
            };
        } else if !cur.present {
            *self = State {
                dynamics: DynamicsSwitches { present: true, dirty: true, ..d },
                authoritative: true,
                ..*self
            };
        } else {
            *self = State { dynamics: DynamicsSwitches { present: true, ..d }, ..*self };
        }
    }

    fn write_secondary(&mut self, m: ModeSwitches)
        ensures
            final(self)@ == secondary_write(old(self)@, m),
    {
        let cur = self.secondary;
        if m.pwm_manual != cur.pwm_manual || m.env_negative != cur.env_negative || m.vca_gate
            != cur.vca_gate || m.hpf != cur.hpf || m.noise != cur.noise {
            *self = State {
                secondary: ModeSwitches { present: cur.present, dirty: true, ..m },
                authoritative: true,
                ..*self
            };
        } else if !cur.present {
            *self = State {
                secondary: ModeSwitches { present: true, dirty: true, ..m },
                authoritative: true,
                ..*self
            };
        } else {
            *self = State { secondary: ModeSwitches { present: true, ..m }, ..*self };
        }
    }

    /// Applies a host modulation of continuous parameter `id`; other ids are ignored.
    pub fn apply_modulation(&mut self, id: u32, amount: ModulationAmount)
        requires
            old(self)@.wf(),
        ensures
            final(self)@ == spec_apply_modulation(old(self)@, id, amount),
            final(self)@.wf(),
    {
        if (id as usize) < self.part.parameters().len() {
            let index = id as usize;
            if self.modulations[index] != amount {
                let mut modulations = self.modulations;
                let mut dirty = self.dirty;
                modulations[index] = amount;
                dirty[index] = true;
                let next = State { modulations, dirty, ..*self };
                assert(next@.modulations =~= old(self)@.modulations.update(index as int, amount));
                assert(next@.dirty =~= old(self)@.dirty.update(index as int, true));
                *self = next;
            }
        }
    }

    /// Makes every setting that has been sent before pending again.
    pub fn mark_all_dirty(&mut self)
        requires
            old(self)@.wf(),
        ensures
            final(self)@ == spec_mark_all_dirty(old(self)@),
            final(self)@.wf(),
    {
        let count = self.part.parameters().len();
        let mut dirty = self.dirty;
        for index in 0..count
            invariant
                count == old(self)@.count(),
                count <= 15,
                forall|i: int|
                    0 <= i < 15 ==> #[trigger] dirty@[i] == ((i < index) || old(self)@.dirty[i]),
        {
            dirty[index] = true;
        }
        let osc = self.part.supports_oscillator_switches();
        let next = State {
            dirty,
            whole_mode: WholeModeSetting {
                dirty: self.whole_mode.dirty || self.part.supports_whole_mode(),
                ..self.whole_mode
            },
            oscillator: OscillatorSwitches {
                dirty: self.oscillator.dirty || (osc && self.oscillator.present),
                ..self.oscillator
            },
            dynamics: DynamicsSwitches {
                dirty: self.dynamics.dirty || (osc && self.dynamics.present),
                ..self.dynamics
            },
            secondary: ModeSwitches {
                dirty: self.secondary.dirty || (osc && self.secondary.present),
                ..self.secondary
            },
            bass: BassWaveform {
                dirty: self.bass.dirty || (self.part.is_bass() && self.bass.present),
                ..self.bass
            },
            ..*self
        };
        assert(next@.dirty =~= spec_mark_all_dirty(old(self)@).dirty);
        *self = next;
    }

    /// Whether any change is waiting to be sent.
    pub fn has_dirty(&self) -> (r: bool)
        requires
            self@.wf(),
        ensures
            r == spec_has_dirty(self@),
    {
        if self.whole_mode.dirty || self.oscillator.dirty || self.dynamics.dirty
            || self.secondary.dirty || self.bass.dirty {
            return true;
        }
        let count = self.part.parameters().len();
        for index in 0..count
            invariant
                count == self@.count(),
                count <= 15,
                self@.wf(),
                forall|i: int| 0 <= i < index ==> !#[trigger] self@.dirty[i],
        {
            if self.dirty[index] {
                return true;
            }
        }
        false
    }

    fn clear(&mut self, kind: DirtyKind)
        requires
            old(self)@.wf(),
            kind matches DirtyKind::Parameter(index) ==> index < PARAMETER_SLOTS,
        ensures
            final(self)@ == clear_pending(old(self)@, kind),
            final(self)@.wf(),
    {
        let mut dirty = self.dirty;
        if let DirtyKind::Parameter(index) = kind {
            dirty[index] = false;
        }
        let w = self.whole_mode;
        let o = self.oscillator;
        let d = self.dynamics;
        let m = self.secondary;
        let b = self.bass;
        let next = State {
            dirty,
            whole_mode: WholeModeSetting {
                dirty: w.dirty && !matches!(kind, DirtyKind::WholeMode),
                ..w
            },
            oscillator: OscillatorSwitches {
                dirty: o.dirty && !matches!(kind, DirtyKind::Oscillator),
                ..o
            },
            dynamics: DynamicsSwitches {
                dirty: d.dirty && !matches!(kind, DirtyKind::Dynamics),
                ..d
            },
            secondary: ModeSwitches {
                dirty: m.dirty && !matches!(kind, DirtyKind::Secondary),
                ..m
            },
            bass: BassWaveform { dirty: b.dirty && !matches!(kind, DirtyKind::BassWaveform), ..b },
            ..*self
        };
        assert(next@.dirty =~= clear_pending(old(self)@, kind).dirty);
        *self = next;
    }

    /// Takes the pending switch-group message that goes first, if any.
    fn take_group_message(&mut self) -> (r: Option<PendingMessage>)
        requires
            old(self)@.wf(),
        ensures
            pending_view(r) == (match next_group(old(self)@) {
                Some(kind) => Some((message_bytes(old(self)@, kind), kind)),
                None => None,
            }),
            final(self)@ == (match next_group(old(self)@) {
                Some(kind) => clear_pending(old(self)@, kind),
                None => old(self)@,
            }),
            final(self)@.wf(),
    {
        let channel = self.channel as i32;
        let osc = self.part.supports_oscillator_switches();
        if self.part.supports_whole_mode() && self.whole_mode.dirty {
            let value: i32 = if self.whole_mode.enabled {
                127
            } else {
                0
            };
            let bytes = control_change(channel, 121, value).unwrap();
            assert(bytes@ == control_message(self.channel, 121, value as u8));
            self.clear(DirtyKind::WholeMode);
            return Some(
                PendingMessage {
                    bytes: vstd::slice::slice_to_vec(bytes.as_slice()),
                    kind: DirtyKind::WholeMode,
                },
            );
        }
        if osc && self.oscillator.dirty {
            let o = self.oscillator;
            let byte = melody_chord_switches_1(o.range as i32, o.pulse, o.saw, o.chorus).unwrap();
            let bytes = parameter_change(channel, 16, byte as i32).unwrap();
            self.clear(DirtyKind::Oscillator);
            return Some(
                PendingMessage {
                    bytes: vstd::slice::slice_to_vec(bytes.as_slice()),
                    kind: DirtyKind::Oscillator,
                },
            );
        }
        if osc && self.dynamics.dirty {
            let byte = melody_chord_dynamics(self.dynamics.vcf, self.dynamics.vca);
            let bytes = parameter_change(channel, 4, byte as i32).unwrap();
            self.clear(DirtyKind::Dynamics);
            return Some(
                PendingMessage {
                    bytes: vstd::slice::slice_to_vec(bytes.as_slice()),
                    kind: DirtyKind::Dynamics,
                },
            );
        }
        if osc && self.secondary.dirty {
            let m = self.secondary;
            let byte = melody_chord_switches_2(
                m.pwm_manual,
                m.env_negative,
                m.vca_gate,
                m.hpf,
                self.part.is_melody() && m.noise,
            );
            let bytes = parameter_change(channel, 17, byte as i32).unwrap();
            self.clear(DirtyKind::Secondary);
            return Some(
                PendingMessage {
                    bytes: vstd::slice::slice_to_vec(bytes.as_slice()),
                    kind: DirtyKind::Secondary,
                },
            );
        }
        if self.part.is_bass() && self.bass.dirty {
            let byte = bass_switches_1(self.bass.saw);
            let bytes = parameter_change(channel, 16, byte as i32).unwrap();
            self.clear(DirtyKind::BassWaveform);
            return Some(
                PendingMessage {
                    bytes: vstd::slice::slice_to_vec(bytes.as_slice()),
                    kind: DirtyKind::BassWaveform,
                },
            );
        }
        None
    }

    /// Takes the first pending continuous parameter in round-robin order from
    /// `*next_parameter`, and moves the round-robin past it.
    fn take_parameter_message(&mut self, next_parameter: &mut usize) -> (r: Option<PendingMessage>)
        requires
            old(self)@.wf(),
        ensures
            ({
                let n = old(self)@.count();
                match first_dirty(old(self)@.dirty, *old(next_parameter) as int, n, 0) {
                    Some(index) => {
                        &&& pending_view(r) == Some(
                            (parameter_message(old(self)@, index), DirtyKind::Parameter(index as usize)),
                        )
                        &&& final(self)@ == clear_pending(old(self)@, DirtyKind::Parameter(index as usize))
                        &&& *final(next_parameter) == ((index + 1) % n) as usize
                    },
                    None => {
                        &&& r is None
                        &&& final(self)@ == old(self)@
                        &&& *final(next_parameter) == *old(next_parameter)
                    },
                }
            }),
            final(self)@.wf(),
    {
        let definitions = self.part.parameters();
        let count = definitions.len();
        let start = *next_parameter;
        let base = start % count;
        let ghost s = self@;
        let mut offset: usize = 0;
        while offset < count
            invariant
                self@ == s,
                s == old(self)@,
                s.wf(),
                count == s.count(),
                definitions@ == s.part.spec_parameters(),
                start == *old(next_parameter),
                base == start % count,
                *next_parameter == start,
                offset <= count,
                first_dirty(s.dirty, start as int, count as int, 0) == first_dirty(
                    s.dirty,
                    start as int,
                    count as int,
                    offset as int,
                ),
            decreases count - offset,
        {
            let index = (base + offset) % count;
            proof {
                lemma_round_robin_index(start as int, offset as int, count as int);
            }
            if self.dirty[index] {
                assert(first_dirty(s.dirty, start as int, count as int, offset as int) == Some(
                    index as int,
                ));
                let m = self.modulations[index];
                let sum: i128 = self.values[index] as i128 + m.offset as i128;
                let effective: i32 = if sum < 0 {
                    0
                } else if sum > 127 {
                    127
                } else {
                    sum as i32
                };
                let bytes = parameter_change(
                    self.channel as i32,
                    definitions[index].protocol_number as i32,
                    effective,
                ).unwrap();
                self.clear(DirtyKind::Parameter(index));
                *next_parameter = (index + 1) % count;
                return Some(
                    PendingMessage {
                        bytes: vstd::slice::slice_to_vec(bytes.as_slice()),
                        kind: DirtyKind::Parameter(index),
                    },
                );
            }
            offset = offset + 1;
        }
        None
    }

    /// Takes the next message to send: pending switch groups first, then pending continuous
    /// parameters in round-robin order from `*next_parameter`.
    pub fn take_next_message(&mut self, next_parameter: &mut usize) -> (r: Option<PendingMessage>)
        requires
            old(self)@.wf(),
        ensures
            ({
                let (message, state, next) = spec_take_next_message(old(self)@, *old(next_parameter));
                &&& pending_view(r) == message
                &&& final(self)@ == state
                &&& *final(next_parameter) == next
            }),
            final(self)@.wf(),
    {
        proof {
            lemma_first_dirty_is_pending(old(self)@.dirty, *old(next_parameter) as int, old(self)@.count(), 0);
        }
        let group = self.take_group_message();
        if group.is_some() {
            return group;
        }
        self.take_parameter_message(next_parameter)
    }

    /// Saves the settings (format 5) with the unique id of the selected MIDI output.
    pub fn save(&self, selected_output_unique_id: i32) -> (r: Vec<u8>)
        requires
            self@.wf(),
        ensures
            r@ == spec_save(self@, selected_output_unique_id),
    {
        let mut out = self.saved_values();
        push_le_u32(&mut out, selected_output_unique_id as u32);
        let ghost front = out@;
        let mut tail: Vec<u8> = Vec::new();
        if self.part.supports_whole_mode() {
            tail.push(flag_byte(self.whole_mode.enabled));
        }
        let mut switches = self.saved_switches();
        tail.append(&mut switches);
        assert(tail@ =~= saved_tail(self@));
        out.append(&mut tail);
        assert(out@ =~= spec_save(self@, selected_output_unique_id));
        out
    }

    /// The header, the channel and the continuous values of the saved form.
    fn saved_values(&self) -> (r: Vec<u8>)
        requires
            self@.wf(),
        ensures
            r@ == saved_head(self@),
    {
        let count = self.part.parameters().len();
        let mut out: Vec<u8> = Vec::new();
        out.push(0x4d);
        out.push(0x4b);
        out.push(0x53);
        out.push(0x37);
        out.push(5);
        out.push(self.channel);
        let ghost header = out@;
        assert(header =~= seq![0x4du8, 0x4bu8, 0x53u8, 0x37u8, 5u8, self@.channel]);
        for index in 0..count
            invariant
                count == self@.count(),
                count <= 15,
                self@.wf(),
                header == seq![0x4du8, 0x4bu8, 0x53u8, 0x37u8, 5u8, self@.channel],
                out@ == header + self@.values.take(index as int),
        {
            out.push(self.values[index]);
            assert(self@.values.take(index + 1) =~= self@.values.take(index as int).push(
                self@.values[index as int],
            ));
            assert(out@ =~= header + self@.values.take(index + 1));
        }
        out
    }

    /// The switch bytes that end the saved form: the oscillator, dynamics and mode groups for
    /// Melody and Chord, the waveform switch for Bass.
    fn saved_switches(&self) -> (r: Vec<u8>)
        ensures
            r@ == saved_switches(self@),
    {
        let len: usize = if self.part.supports_oscillator_switches() {
            14
        } else {
            2
        };
        let mut out: Vec<u8> = Vec::new();
        for k in 0..len
            invariant
                len == saved_switches(self@).len(),
                out@ == saved_switches(self@).take(k as int),
        {
            out.push(self.switch_byte(k));
            assert(saved_switches(self@).take(k + 1) =~= saved_switches(self@).take(k as int).push(
                switch_byte(self@, k as int),
            ));
        }
        assert(saved_switches(self@).take(len as int) =~= saved_switches(self@));
        out
    }

    /// Byte `k` of the switch bytes of the saved form.
    fn switch_byte(&self, k: usize) -> (r: u8)
        ensures
            r == switch_byte(self@, k as int),
    {
        let o = self.oscillator;
        let d = self.dynamics;
        let m = self.secondary;
        if self.part.supports_oscillator_switches() {
            match k {
                0 => flag_byte(o.present),
                1 => o.range,
                2 => flag_byte(o.pulse),
                3 => flag_byte(o.saw),
                4 => flag_byte(o.chorus),
                5 => flag_byte(d.present),
                6 => flag_byte(d.vcf),
                7 => flag_byte(d.vca),
                8 => flag_byte(m.present),
                9 => flag_byte(m.pwm_manual),
                10 => flag_byte(m.env_negative),
                11 => flag_byte(m.vca_gate),
                12 => flag_byte(m.hpf),
                _ => flag_byte(m.noise),
            }
        } else if k == 0 {
            flag_byte(self.bass.present)
        } else {
            flag_byte(self.bass.saw)
        }
    }

    /// The length of a saved state of format `version`, if this part has that format.
    pub fn serialized_size(&self, version: u8) -> (r: Option<usize>)
        ensures
            match spec_serialized_size(self@.part, version) {
                Some(size) => r == Some(size as usize),
                None => r is None,
            },
    {
        let count = self.part.parameters().len();
        let v1_size = 6 + count;
        let switch_offset = v1_size + 4 + if self.part.supports_whole_mode() {
            1
        } else {
            0
        };
        let secondary_offset = switch_offset + 5;
        let state_size = if self.part.supports_oscillator_switches() {
            secondary_offset + 9
        } else {
            switch_offset + 2
        };
        if version == 1 {
            Some(v1_size)
        } else if version == 2 {
            Some(v1_size + 4)
        } else if version == 3 && self.part.supports_whole_mode() {
            Some(v1_size + 5)
        } else if version == 4 && self.part.supports_oscillator_switches() {
            Some(switch_offset + 5)
        } else if version == 5 {
            Some(state_size)
        } else {
            None
        }
    }

    /// Whether this part can load the saved state `data`.
    fn can_load(&self, data: &[u8]) -> (r: bool)
        requires
            self@.wf(),
        ensures
            r == load_valid(self@.part, data@),
    {
        if data.len() < 5 || data[0] != 0x4d || data[1] != 0x4b || data[2] != 0x53 || data[3]
            != 0x37 {
            return false;
        }
        let version = data[4];
        let count = self.part.parameters().len();
        let v1_size = 6 + count;
        let switch_offset = v1_size + 4 + if self.part.supports_whole_mode() {
            1
        } else {
            0
        };
        let secondary_offset = switch_offset + 5;
        let osc = self.part.supports_oscillator_switches();
        let size = match self.serialized_size(version) {
            Some(size) => size,
            None => {
                return false;
            },
        };
        if data.len() < size || !(1 <= data[5] && data[5] <= 16) || !bytes_are_at_most(
            data,
            6,
            v1_size,
            127,
        ) {
            return false;
        }
        if self.part.supports_whole_mode() && version >= 3 && data[v1_size + 4] > 1 {
            return false;
        }
        if osc && version >= 4 && (data[switch_offset] > 1 || data[switch_offset + 1] > 2
            || !bytes_are_at_most(data, switch_offset + 2, switch_offset + 5, 1)) {
            return false;
        }
        if version == 5 {
            if osc {
                if !bytes_are_at_most(data, secondary_offset, secondary_offset + 9, 1) {
                    return false;
                }
            } else if !bytes_are_at_most(data, switch_offset, switch_offset + 2, 1) {
                return false;
            }
        }
        true
    }

    fn load_oscillator(&self, data: &[u8]) -> (r: OscillatorSwitches)
        requires
            self@.wf(),
            load_valid(self@.part, data@),
        ensures
            r == loaded_oscillator(self@.part, data@),
    {
        let sw = 6 + self.part.parameters().len() + 4 + if self.part.supports_whole_mode() {
            1
        } else {
            0
        };
        if self.part.supports_oscillator_switches() && data[4] >= 4 {
            OscillatorSwitches {
                present: data[sw] != 0,
                range: data[sw + 1],
                pulse: data[sw + 2] != 0,
                saw: data[sw + 3] != 0,
                chorus: data[sw + 4] != 0,
                dirty: false,
            }
        } else {
            OscillatorSwitches {
                range: 1,
                pulse: true,
                saw: false,
                chorus: false,
                present: false,
                dirty: false,
            }
        }
    }

    fn load_dynamics(&self, data: &[u8]) -> (r: DynamicsSwitches)
        requires
            self@.wf(),
            load_valid(self@.part, data@),
        ensures
            r == loaded_dynamics(self@.part, data@),
    {
        let sec = 6 + self.part.parameters().len() + 4 + if self.part.supports_whole_mode() {
            1
        } else {
            0
        } + 5;
        if self.part.supports_oscillator_switches() && data[4] == 5 {
            DynamicsSwitches {
                present: data[sec] != 0,
                vcf: data[sec + 1] != 0,
                vca: data[sec + 2] != 0,
                dirty: false,
            }
        } else {
            DynamicsSwitches { vcf: false, vca: false, present: false, dirty: false }
        }
    }

    fn load_secondary(&self, data: &[u8]) -> (r: ModeSwitches)
        requires
            self@.wf(),
            load_valid(self@.part, data@),
        ensures
            r == loaded_secondary(self@.part, data@),
    {
        let sec = 6 + self.part.parameters().len() + 4 + if self.part.supports_whole_mode() {
            1
        } else {
            0
        } + 5;
        if self.part.supports_oscillator_switches() && data[4] == 5 {
            ModeSwitches {
                present: data[sec + 3] != 0,
                pwm_manual: data[sec + 4] != 0,
                env_negative: data[sec + 5] != 0,
                vca_gate: data[sec + 6] != 0,
                hpf: data[sec + 7] != 0,
                noise: self.part.is_melody() && data[sec + 8] != 0,
                dirty: false,
            }
        } else {
            ModeSwitches {
                pwm_manual: false,
                env_negative: false,
                vca_gate: false,
                hpf: false,
                noise: false,
                present: false,
                dirty: false,
            }
        }
    }

    fn load_bass(&self, data: &[u8]) -> (r: BassWaveform)
        requires
            self@.wf(),
            load_valid(self@.part, data@),
        ensures
            r == loaded_bass(self@.part, data@),
    {
        let sw = 6 + self.part.parameters().len() + 4 + if self.part.supports_whole_mode() {
            1
        } else {
            0
        };
        if self.part.is_bass() && data[4] == 5 {
            BassWaveform { present: data[sw] != 0, saw: data[sw + 1] != 0, dirty: false }
        } else {
            BassWaveform { saw: false, present: false, dirty: false }
        }
    }

    /// Loads a saved state of any format the part has; `output_ids` are the unique ids of the
    /// MIDI outputs, "None" first. A state the part cannot load is refused and changes
    /// nothing.
    pub fn load(&mut self, data: &[u8], output_ids: &[i32]) -> (r: Result<(), StateError>)
        requires
            old(self)@.wf(),
        ensures
            r is Ok <==> load_valid(old(self)@.part, data@),
            r is Ok ==> final(self)@ == spec_load(old(self)@, data@, output_ids@),
            r is Err ==> final(self)@ == old(self)@,
            final(self)@.wf(),
    {
        if !self.can_load(data) {
            return Err(StateError);
        }
        let count = self.part.parameters().len();
        let v1_size = 6 + count;
        let mut values = self.values;
        let mut modulations = self.modulations;
        for index in 0..count
            invariant
                count == old(self)@.count(),
                count <= 15,
                v1_size == 6 + count,
                load_valid(old(self)@.part, data@),
                forall|i: int|
                    0 <= i < 15 ==> #[trigger] values@[i] == (if i < index {
                        data@[6 + i]
                    } else {
                        old(self)@.values[i]
                    }),
                forall|i: int|
                    0 <= i < 15 ==> #[trigger] modulations@[i] == (if i < index {
                        zero_modulation()
                    } else {
                        old(self)@.modulations[i]
                    }),
        {
            values[index] = data[6 + index];
            modulations[index] = ModulationAmount::none();
        }
        let output_index = if data[4] >= 2 {
            let id = ((data[v1_size] as u32) | ((data[v1_size + 1] as u32) << 8u32) | ((data[v1_size
                + 2] as u32) << 16u32) | ((data[v1_size + 3] as u32) << 24u32)) as i32;
            find_output(output_ids, id)
        } else {
            0
        };
        let whole_mode = WholeModeSetting {
            enabled: self.part.supports_whole_mode() && data[4] >= 3 && data[v1_size + 4] != 0,
            dirty: self.whole_mode.dirty,
        };
        let oscillator = self.load_oscillator(data);
        let dynamics = self.load_dynamics(data);
        let secondary = self.load_secondary(data);
        let bass = self.load_bass(data);
        let next = State {
            values,
            modulations,
            channel: data[5],
            output_index,
            whole_mode,
            oscillator,
            dynamics,
            secondary,
            bass,
            authoritative: true,
            ..*self
        };
        let ghost loaded = StateView {
            values: Seq::new(15, |i: int| if i < count { data@[6 + i] } else { old(self)@.values[i] }),
            modulations: Seq::new(
                15,
                |i: int| if i < count { zero_modulation() } else { old(self)@.modulations[i] },
            ),
            channel: data@[5],
            output_index: loaded_output(old(self)@.part, data@, output_ids@) as usize,
            whole_mode: WholeModeSetting {
                enabled: old(self)@.part is Chord && data@[4] >= 3 && data@[v1_size + 4] != 0,
                ..old(self)@.whole_mode
            },
            oscillator: loaded_oscillator(old(self)@.part, data@),
            dynamics: loaded_dynamics(old(self)@.part, data@),
            secondary: loaded_secondary(old(self)@.part, data@),
            bass: loaded_bass(old(self)@.part, data@),
            authoritative: true,
            ..old(self)@
        };
        assert(next@.values =~= loaded.values);
        assert(next@.modulations =~= loaded.modulations);
        assert(next@ == loaded);
        *self = next;
        self.mark_all_dirty();
        Ok(())
    }

    /// Makes the change that a failed message carried pending again.
    pub fn retry(&mut self, kind: DirtyKind)
        requires
            old(self)@.wf(),
            kind matches DirtyKind::Parameter(index) ==> index < PARAMETER_SLOTS,
        ensures
            final(self)@ == spec_retry(old(self)@, kind),
            final(self)@.wf(),
    {
        let mut dirty = self.dirty;
        if let DirtyKind::Parameter(index) = kind {
            dirty[index] = true;
        }
        let w = self.whole_mode;
        let o = self.oscillator;
        let d = self.dynamics;
        let m = self.secondary;
        let b = self.bass;
        let next = State {
            dirty,
            whole_mode: WholeModeSetting {
                dirty: w.dirty || matches!(kind, DirtyKind::WholeMode),
                ..w
            },
            oscillator: OscillatorSwitches {
                dirty: o.dirty || matches!(kind, DirtyKind::Oscillator),
                ..o
            },
            dynamics: DynamicsSwitches { dirty: d.dirty || matches!(kind, DirtyKind::Dynamics), ..d },
            secondary: ModeSwitches { dirty: m.dirty || matches!(kind, DirtyKind::Secondary), ..m },
            bass: BassWaveform { dirty: b.dirty || matches!(kind, DirtyKind::BassWaveform), ..b },
            ..*self
        };
        assert(next@.dirty =~= spec_retry(old(self)@, kind).dirty);
        *self = next;
    }
}

} // verus!
