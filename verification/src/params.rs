//! What the host is told about the parameters of a part: their descriptions, their text
//! labels, and the remote-control pages that group them.
use crate::midi::{spec_output_count, spec_output_name, MidiBackend};
use crate::model::{
    clamp, Part, BASS_WAVEFORM_PARAMETER_ID, CHANNEL_PARAMETER_ID, CHORUS_PARAMETER_ID,
    ENV_POLARITY_PARAMETER_ID, HPF_PARAMETER_ID, MIDI_OUTPUT_PARAMETER_ID, NOISE_PARAMETER_ID,
    PULSE_PARAMETER_ID, PWM_SOURCE_PARAMETER_ID, RANGE_PARAMETER_ID, SAW_PARAMETER_ID,
    VCA_DYNAMICS_PARAMETER_ID, VCA_MODE_PARAMETER_ID, VCF_DYNAMICS_PARAMETER_ID,
    WHOLE_MODE_PARAMETER_ID,
};
use crate::text::same_text;
use vstd::prelude::*;

verus! {

/// How the host may treat a parameter.
#[derive(Clone, Copy, Debug, PartialEq, Eq, Structural)]
pub struct ParamFlags {
    pub stepped: bool,
    pub is_enum: bool,
    pub automatable: bool,
    pub modulatable: bool,
    pub requires_process: bool,
}

/// The description of one host parameter. Bounds and default are whole numbers.
#[derive(Clone, Copy, Debug, PartialEq, Eq)]
pub struct ParamSpec {
    pub id: u32,
    pub name: &'static str,
    pub module: &'static str,
    pub flags: ParamFlags,
    pub min_value: u64,
    pub max_value: u64,
    pub default_value: u64,
}

/// Continuous parameters are stepped, automatable and modulatable.
pub open spec fn continuous_flags() -> ParamFlags {
    ParamFlags { stepped: true, is_enum: false, automatable: true, modulatable: true, requires_process: true }
}

/// Switches (and the Whole Mode) are stepped, enumerated and automatable.
pub open spec fn switch_flags() -> ParamFlags {
    ParamFlags { stepped: true, is_enum: true, automatable: true, modulatable: false, requires_process: true }
}

/// The channel is stepped and enumerated but not automatable.
pub open spec fn channel_flags() -> ParamFlags {
    ParamFlags { stepped: true, is_enum: true, automatable: false, modulatable: false, requires_process: true }
}

/// The MIDI output is stepped and enumerated only.
pub open spec fn output_flags() -> ParamFlags {
    ParamFlags { stepped: true, is_enum: true, automatable: false, modulatable: false, requires_process: false }
}

/// Switch control `k` of a Melody or Chord part, in host order.
pub open spec fn spec_switch_param(k: int) -> ParamSpec {
    if k == 0 {
        ParamSpec { id: RANGE_PARAMETER_ID, name: "Range", module: "DCO", flags: switch_flags(), min_value: 0, max_value: 2, default_value: 1 }
    } else if k == 1 {
        ParamSpec { id: PULSE_PARAMETER_ID, name: "Pulse", module: "DCO", flags: switch_flags(), min_value: 0, max_value: 1, default_value: 1 }
    } else if k == 2 {
        ParamSpec { id: SAW_PARAMETER_ID, name: "Saw", module: "DCO", flags: switch_flags(), min_value: 0, max_value: 1, default_value: 0 }
    } else if k == 3 {
        ParamSpec { id: CHORUS_PARAMETER_ID, name: "Chorus", module: "DCO / Chorus", flags: switch_flags(), min_value: 0, max_value: 1, default_value: 0 }
    } else if k == 4 {
        ParamSpec { id: VCF_DYNAMICS_PARAMETER_ID, name: "VCF Dynamics", module: "Dynamics", flags: switch_flags(), min_value: 0, max_value: 1, default_value: 0 }
    } else if k == 5 {
        ParamSpec { id: VCA_DYNAMICS_PARAMETER_ID, name: "VCA Dynamics", module: "Dynamics", flags: switch_flags(), min_value: 0, max_value: 1, default_value: 0 }
    } else if k == 6 {
        ParamSpec { id: PWM_SOURCE_PARAMETER_ID, name: "PWM Source", module: "DCO", flags: switch_flags(), min_value: 0, max_value: 1, default_value: 0 }
    } else if k == 7 {
        ParamSpec { id: VCA_MODE_PARAMETER_ID, name: "VCA Mode", module: "VCA", flags: switch_flags(), min_value: 0, max_value: 1, default_value: 0 }
    } else if k == 8 {
        ParamSpec { id: ENV_POLARITY_PARAMETER_ID, name: "VCF ENV Polarity", module: "VCF", flags: switch_flags(), min_value: 0, max_value: 1, default_value: 0 }
    } else if k == 9 {
        ParamSpec { id: HPF_PARAMETER_ID, name: "HPF", module: "VCF", flags: switch_flags(), min_value: 0, max_value: 1, default_value: 0 }
    } else {
        ParamSpec { id: NOISE_PARAMETER_ID, name: "Noise", module: "DCO", flags: switch_flags(), min_value: 0, max_value: 1, default_value: 0 }
    }
}

/// The waveform switch of the Bass part.
pub open spec fn bass_waveform_param() -> ParamSpec {
    ParamSpec {
        id: BASS_WAVEFORM_PARAMETER_ID,
        name: "Waveform",
        module: "DCO",
        flags: switch_flags(),
        min_value: 0,
        max_value: 1,
        default_value: 0,
    }
}

/// The channel parameter of `part`.
pub open spec fn channel_param(part: Part) -> ParamSpec {
    ParamSpec {
        id: CHANNEL_PARAMETER_ID,
        name: match part {
            Part::Melody => "Melody Channel",
            Part::Chord => "Chord Channel",
            Part::Bass => "Bass Channel",
        },
        module: "MIDI",
        flags: channel_flags(),
        min_value: 1,
        max_value: 16,
        default_value: part.spec_default_channel() as u64,
    }
}

/// The MIDI output parameter, ranging over the `output_count` outputs.
pub open spec fn output_param(output_count: usize) -> ParamSpec {
    ParamSpec {
        id: MIDI_OUTPUT_PARAMETER_ID,
        name: "MIDI Output",
        module: "MIDI",
        flags: output_flags(),
        min_value: 0,
        max_value: (if output_count == 0 {
            0
        } else {
            output_count - 1
        }) as u64,
        default_value: 0,
    }
}

/// The Whole Mode parameter of the Chord part.
pub open spec fn whole_mode_param() -> ParamSpec {
    ParamSpec {
        id: WHOLE_MODE_PARAMETER_ID,
        name: "Whole Mode",
        module: "Voice",
        flags: switch_flags(),
        min_value: 0,
        max_value: 1,
        default_value: 0,
    }
}

/// Host parameter `index` of `part`: the continuous parameters, then the switches, then the
/// channel and the MIDI output, then (for Chord) the Whole Mode.
pub open spec fn spec_param_info(part: Part, index: int, output_count: usize) -> Option<ParamSpec> {
    let base = part.spec_parameter_len() as int;
    let switches = part.spec_switch_control_count() as int;
    if 0 <= index < base {
        let d = part.spec_parameters()[index];
        Some(
            ParamSpec {
                id: d.id,
                name: d.name,
                module: d.module,
                flags: continuous_flags(),
                min_value: 0,
                max_value: 127,
                default_value: 0,
            },
        )
    } else if base <= index < base + switches {
        if part is Bass {
            Some(bass_waveform_param())
        } else {
            Some(spec_switch_param(index - base))
        }
    } else if index == base + switches {
        Some(channel_param(part))
    } else if index == base + switches + 1 {
        Some(output_param(output_count))
    } else if index == base + switches + 2 && part is Chord {
        Some(whole_mode_param())
    } else {
        None
    }
}

fn switch_param(k: usize) -> (r: ParamSpec)
    requires
        k <= 10,
    ensures
        r == spec_switch_param(k as int),
{
    match k {
        0 => ParamSpec { id: RANGE_PARAMETER_ID, name: "Range", module: "DCO", flags: switch_flags_value(), min_value: 0, max_value: 2, default_value: 1 },
        1 => ParamSpec { id: PULSE_PARAMETER_ID, name: "Pulse", module: "DCO", flags: switch_flags_value(), min_value: 0, max_value: 1, default_value: 1 },
        2 => ParamSpec { id: SAW_PARAMETER_ID, name: "Saw", module: "DCO", flags: switch_flags_value(), min_value: 0, max_value: 1, default_value: 0 },
        3 => ParamSpec { id: CHORUS_PARAMETER_ID, name: "Chorus", module: "DCO / Chorus", flags: switch_flags_value(), min_value: 0, max_value: 1, default_value: 0 },
        4 => ParamSpec { id: VCF_DYNAMICS_PARAMETER_ID, name: "VCF Dynamics", module: "Dynamics", flags: switch_flags_value(), min_value: 0, max_value: 1, default_value: 0 },
        5 => ParamSpec { id: VCA_DYNAMICS_PARAMETER_ID, name: "VCA Dynamics", module: "Dynamics", flags: switch_flags_value(), min_value: 0, max_value: 1, default_value: 0 },
        6 => ParamSpec { id: PWM_SOURCE_PARAMETER_ID, name: "PWM Source", module: "DCO", flags: switch_flags_value(), min_value: 0, max_value: 1, default_value: 0 },
        7 => ParamSpec { id: VCA_MODE_PARAMETER_ID, name: "VCA Mode", module: "VCA", flags: switch_flags_value(), min_value: 0, max_value: 1, default_value: 0 },
        8 => ParamSpec { id: ENV_POLARITY_PARAMETER_ID, name: "VCF ENV Polarity", module: "VCF", flags: switch_flags_value(), min_value: 0, max_value: 1, default_value: 0 },
        9 => ParamSpec { id: HPF_PARAMETER_ID, name: "HPF", module: "VCF", flags: switch_flags_value(), min_value: 0, max_value: 1, default_value: 0 },
        _ => ParamSpec { id: NOISE_PARAMETER_ID, name: "Noise", module: "DCO", flags: switch_flags_value(), min_value: 0, max_value: 1, default_value: 0 },
    }
}

fn switch_flags_value() -> (r: ParamFlags)
    ensures
        r == switch_flags(),
{
    ParamFlags { stepped: true, is_enum: true, automatable: true, modulatable: false, requires_process: true }
}

/// The description of host parameter `index` of `part`, or `None` past the last one;
/// `output_count` is the number of MIDI outputs, "None" included.
pub fn param_info(part: Part, index: u32, output_count: usize) -> (r: Option<ParamSpec>)
    ensures
        r == spec_param_info(part, index as int, output_count),
{
    let definitions = part.parameters();
    let base = definitions.len();
    let switches = part.switch_control_count();
    let index = index as usize;
    if index < base {
        let d = definitions[index];
        return Some(
            ParamSpec {
                id: d.id,
                name: d.name,
                module: d.module,
                flags: ParamFlags {
                    stepped: true,
                    is_enum: false,
                    automatable: true,
                    modulatable: true,
                    requires_process: true,
                },
                min_value: 0,
                max_value: 127,
                default_value: 0,
            },
        );
    }
    if index < base + switches {
        if part.is_bass() {
            return Some(
                ParamSpec {
                    id: BASS_WAVEFORM_PARAMETER_ID,
                    name: "Waveform",
                    module: "DCO",
                    flags: switch_flags_value(),
                    min_value: 0,
                    max_value: 1,
                    default_value: 0,
                },
            );
        }
        return Some(switch_param(index - base));
    }
    let offset = base + switches;
    if index == offset {
        let name = match part {
            Part::Melody => "Melody Channel",
            Part::Chord => "Chord Channel",
            Part::Bass => "Bass Channel",
        };
        Some(
            ParamSpec {
                id: CHANNEL_PARAMETER_ID,
                name,
                module: "MIDI",
                flags: ParamFlags {
                    stepped: true,
                    is_enum: true,
                    automatable: false,
                    modulatable: false,
                    requires_process: true,
                },
                min_value: 1,
                max_value: 16,
                default_value: part.default_channel() as u64,
            },
        )
    } else if index == offset + 1 {
        let last: usize = if output_count == 0 {
            0
        } else {
            output_count - 1
        };
        Some(
            ParamSpec {
                id: MIDI_OUTPUT_PARAMETER_ID,
                name: "MIDI Output",
                module: "MIDI",
                flags: ParamFlags {
                    stepped: true,
                    is_enum: true,
                    automatable: false,
                    modulatable: false,
                    requires_process: false,
                },
                min_value: 0,
                max_value: last as u64,
                default_value: 0,
            },
        )
    } else if index == offset + 2 && part.supports_whole_mode() {
        Some(
            ParamSpec {
                id: WHOLE_MODE_PARAMETER_ID,
                name: "Whole Mode",
                module: "Voice",
                flags: switch_flags_value(),
                min_value: 0,
                max_value: 1,
                default_value: 0,
            },
        )
    } else {
        None
    }
}

/// A remote-control page: a named group of up to eight parameters.
#[derive(Clone, Copy, Debug, PartialEq, Eq)]
pub struct RemotePage {
    pub section_name: &'static str,
    pub page_id: u32,
    pub page_name: &'static str,
    pub param_ids: [Option<u32>; 8],
    pub is_for_preset: bool,
}

/// The eight slots of a page that lists `values`, empty after them.
pub open spec fn page_slots(values: Seq<u32>) -> Seq<Option<u32>> {
    Seq::new(8, |i: int| if i < values.len() { Some(values[i]) } else { None })
}

/// Bass has three pages, Melody and Chord six.
pub open spec fn spec_remote_page_count(part: Part) -> u32 {
    if part is Bass {
        3
    } else {
        6
    }
}

/// The name and parameters of page `index` of `part`.
pub open spec fn spec_page_contents(part: Part, index: u32) -> (&'static str, Seq<u32>) {
    if part is Bass {
        if index == 0 {
            ("DCO and VCF", seq![0u32, BASS_WAVEFORM_PARAMETER_ID, 1u32, 2u32, 3u32, 4u32])
        } else if index == 1 {
            ("VCA and ENV", seq![5u32, 6u32, 7u32, 8u32, 9u32])
        } else {
            ("MIDI", seq![MIDI_OUTPUT_PARAMETER_ID, CHANNEL_PARAMETER_ID])
        }
    } else if index == 0 {
        ("LFO and DCO", seq![0u32, 1u32, 2u32, 3u32, 14u32])
    } else if index == 1 {
        ("VCF", seq![4u32, 5u32, 6u32, 7u32, 8u32])
    } else if index == 2 {
        ("VCA and ENV", seq![9u32, 10u32, 11u32, 12u32, 13u32])
    } else if index == 3 {
        (
            "DCO Switches",
            if part is Melody {
                seq![
                    RANGE_PARAMETER_ID,
                    PULSE_PARAMETER_ID,
                    SAW_PARAMETER_ID,
                    CHORUS_PARAMETER_ID,
                    PWM_SOURCE_PARAMETER_ID,
                    NOISE_PARAMETER_ID,
                ]
            } else {
                seq![
                    RANGE_PARAMETER_ID,
                    PULSE_PARAMETER_ID,
                    SAW_PARAMETER_ID,
                    CHORUS_PARAMETER_ID,
                    PWM_SOURCE_PARAMETER_ID,
                ]
            },
        )
    } else if index == 4 {
        (
            "Modes and Dynamics",
            seq![
                VCF_DYNAMICS_PARAMETER_ID,
                VCA_DYNAMICS_PARAMETER_ID,
                VCA_MODE_PARAMETER_ID,
                ENV_POLARITY_PARAMETER_ID,
                HPF_PARAMETER_ID,
            ],
        )
    } else {
        (
            "MIDI",
            if part is Chord {
                seq![MIDI_OUTPUT_PARAMETER_ID, CHANNEL_PARAMETER_ID, WHOLE_MODE_PARAMETER_ID]
            } else {
                seq![MIDI_OUTPUT_PARAMETER_ID, CHANNEL_PARAMETER_ID]
            },
        )
    }
}

/// The section every page of `part` belongs to: the part's name.
pub open spec fn section_name(part: Part) -> Seq<char> {
    match part {
        Part::Melody => "Melody"@,
        Part::Chord => "Chord"@,
        Part::Bass => "Bass"@,
    }
}

/// The slots of a remote-control page filled from `values`, in order; at most eight.
pub fn ids(values: &[u32]) -> (r: [Option<u32>; 8])
    ensures
        r@ == page_slots(values@),
{
    let mut result: [Option<u32>; 8] = [None; 8];
    let len = if values.len() < 8 {
        values.len()
    } else {
        8
    };
    for i in 0..len
        invariant
            len <= values@.len(),
            len <= 8,
            forall|j: int|
                0 <= j < 8 ==> #[trigger] result@[j] == (if j < i {
                    Some(values@[j])
                } else {
                    None
                }),
    {
        result[i] = Some(values[i]);
    }
    assert(result@ =~= page_slots(values@));
    result
}

/// The number of remote-control pages of `part`.
pub fn remote_page_count(part: Part) -> (r: u32)
    ensures
        r == spec_remote_page_count(part),
{
    if part.is_bass() {
        3
    } else {
        6
    }
}

/// Remote-control page `index` of `part`, or `None` past the last page. Pages have ids from
/// 200 on, belong to the part's section and are not preset pages.
pub fn remote_page(part: Part, index: u32) -> (r: Option<RemotePage>)
    ensures
        match r {
            Some(page) => {
                &&& index < spec_remote_page_count(part)
                &&& page.section_name@ == section_name(part)
                &&& page.page_id == 200 + index
                &&& page.page_name == spec_page_contents(part, index).0
                &&& page.param_ids@ == page_slots(spec_page_contents(part, index).1)
                &&& !page.is_for_preset
            },
            None => index >= spec_remote_page_count(part),
        },
{
    if index >= remote_page_count(part) {
        return None;
    }
    let (name, param_ids): (&'static str, [Option<u32>; 8]) = if part.is_bass() {
        if index == 0 {
            let values = [0u32, BASS_WAVEFORM_PARAMETER_ID, 1u32, 2u32, 3u32, 4u32];
            assert(values@ =~= spec_page_contents(part, index).1);
            ("DCO and VCF", ids(values.as_slice()))
        } else if index == 1 {
            let values = [5u32, 6u32, 7u32, 8u32, 9u32];
            assert(values@ =~= spec_page_contents(part, index).1);
            ("VCA and ENV", ids(values.as_slice()))
        } else {
            let values = [MIDI_OUTPUT_PARAMETER_ID, CHANNEL_PARAMETER_ID];
            assert(values@ =~= spec_page_contents(part, index).1);
            ("MIDI", ids(values.as_slice()))
        }
    } else if index == 0 {
        let values = [0u32, 1u32, 2u32, 3u32, 14u32];
        assert(values@ =~= spec_page_contents(part, index).1);
        ("LFO and DCO", ids(values.as_slice()))
    } else if index == 1 {
        let values = [4u32, 5u32, 6u32, 7u32, 8u32];
        assert(values@ =~= spec_page_contents(part, index).1);
        ("VCF", ids(values.as_slice()))
    } else if index == 2 {
        let values = [9u32, 10u32, 11u32, 12u32, 13u32];
        assert(values@ =~= spec_page_contents(part, index).1);
        ("VCA and ENV", ids(values.as_slice()))
    } else if index == 3 {
        let values = [
            RANGE_PARAMETER_ID,
            PULSE_PARAMETER_ID,
            SAW_PARAMETER_ID,
            CHORUS_PARAMETER_ID,
            PWM_SOURCE_PARAMETER_ID,
        ];
        let mut page = ids(values.as_slice());
        if part.is_melody() {
            page[5] = Some(NOISE_PARAMETER_ID);
        }
        assert(page@ =~= page_slots(spec_page_contents(part, index).1));
        ("DCO Switches", page)
    } else if index == 4 {
        let values = [
            VCF_DYNAMICS_PARAMETER_ID,
            VCA_DYNAMICS_PARAMETER_ID,
            VCA_MODE_PARAMETER_ID,
            ENV_POLARITY_PARAMETER_ID,
            HPF_PARAMETER_ID,
        ];
        assert(values@ =~= spec_page_contents(part, index).1);
        ("Modes and Dynamics", ids(values.as_slice()))
    } else {
        let values = [MIDI_OUTPUT_PARAMETER_ID, CHANNEL_PARAMETER_ID];
        let mut page = ids(values.as_slice());
        if part.supports_whole_mode() {
            page[2] = Some(WHOLE_MODE_PARAMETER_ID);
        }
        assert(page@ =~= page_slots(spec_page_contents(part, index).1));
        ("MIDI", page)
    };
    Some(
        RemotePage {
            section_name: part.name(),
            page_id: 200 + index,
            page_name: name,
            param_ids,
            is_for_preset: false,
        },
    )
}

/// How a parameter value is shown: a label, the name of a MIDI output, or the number.
#[derive(Clone, Copy, Debug, PartialEq, Eq)]
pub enum ValueText {
    Label(&'static str),
    Output(usize),
    Number(i64),
}

/// Whether `id` is one of the switches of `part` that show "Off" and "On".
pub open spec fn is_on_off_switch(part: Part, id: u32) -> bool {
    ||| part.spec_supports_oscillator_switches() && (id == PULSE_PARAMETER_ID || id
        == SAW_PARAMETER_ID || id == CHORUS_PARAMETER_ID || id == VCF_DYNAMICS_PARAMETER_ID || id
        == VCA_DYNAMICS_PARAMETER_ID || id == HPF_PARAMETER_ID)
    ||| id == NOISE_PARAMETER_ID && part is Melody
}

/// The footage label of a range step.
pub open spec fn range_label(step: int) -> &'static str {
    if step == 0 {
        "16'"
    } else if step == 1 {
        "8'"
    } else {
        "4'"
    }
}

/// How the value `value` (rounded to a whole number) of parameter `id` of `part` is shown, or
/// `None` for an id the part has no text for. A switch is on when the value is at least 1;
/// the range and the MIDI output are limited to their steps.
pub open spec fn spec_value_text(part: Part, output_count: usize, id: u32, value: i64) -> Option<ValueText> {
    let on = value >= 1;
    let osc = part.spec_supports_oscillator_switches();
    if id == MIDI_OUTPUT_PARAMETER_ID {
        Some(ValueText::Output(clamp(value as int, 0, if output_count == 0 { 0 } else { output_count - 1 }) as usize))
    } else if id == WHOLE_MODE_PARAMETER_ID && part is Chord {
        Some(ValueText::Label(if on {
            "6 Voices"
        } else {
            "4 Voices"
        }))
    } else if id == RANGE_PARAMETER_ID && osc {
        Some(ValueText::Label(range_label(clamp(value as int, 0, 2))))
    } else if is_on_off_switch(part, id) {
        Some(ValueText::Label(if on {
            "On"
        } else {
            "Off"
        }))
    } else if id == PWM_SOURCE_PARAMETER_ID && osc {
        Some(ValueText::Label(if on {
            "Manual"
        } else {
            "LFO"
        }))
    } else if id == VCA_MODE_PARAMETER_ID && osc {
        Some(ValueText::Label(if on {
            "Gate"
        } else {
            "ENV"
        }))
    } else if id == ENV_POLARITY_PARAMETER_ID && osc {
        Some(ValueText::Label(if on {
            "Negative"
        } else {
            "Positive"
        }))
    } else if id == BASS_WAVEFORM_PARAMETER_ID && part is Bass {
        Some(ValueText::Label(if on {
            "Saw"
        } else {
            "Pulse"
        }))
    } else if (id as int) < part.spec_parameter_len() || id == CHANNEL_PARAMETER_ID {
        Some(ValueText::Number(value))
    } else {
        None
    }
}

/// The first output from `i` on whose name is `text`, among the ones the host can choose.
pub open spec fn first_output_named(outputs: Seq<(i32, Seq<char>)>, text: Seq<char>, i: int) -> Option<u64>
    decreases spec_output_count(outputs) - i,
{
    if i >= spec_output_count(outputs) || i < 0 {
        None
    } else if spec_output_name(outputs, i) == text {
        Some(i as u64)
    } else {
        first_output_named(outputs, text, i + 1)
    }
}

/// The value that the label `text` stands for, for parameter `id` of `part`: the step of a
/// label that [`value_text`] shows, or the first MIDI output with that name.
pub open spec fn spec_label_value(part: Part, outputs: Seq<(i32, Seq<char>)>, id: u32, text: Seq<char>) -> Option<u64> {
    let osc = part.spec_supports_oscillator_switches();
    if id == MIDI_OUTPUT_PARAMETER_ID {
        first_output_named(outputs, text, 0)
    } else if id == WHOLE_MODE_PARAMETER_ID && part is Chord {
        if text == "4 Voices"@ {
            Some(0)
        } else if text == "6 Voices"@ {
            Some(1)
        } else {
            None
        }
    } else if id == RANGE_PARAMETER_ID && osc {
        if text == "16'"@ {
            Some(0)
        } else if text == "8'"@ {
            Some(1)
        } else if text == "4'"@ {
            Some(2)
        } else {
            None
        }
    } else if is_on_off_switch(part, id) {
        if text == "Off"@ {
            Some(0)
        } else if text == "On"@ {
            Some(1)
        } else {
            None
        }
    } else if id == PWM_SOURCE_PARAMETER_ID && osc {
        if text == "LFO"@ {
            Some(0)
        } else if text == "Manual"@ {
            Some(1)
        } else {
            None
        }
    } else if id == VCA_MODE_PARAMETER_ID && osc {
        if text == "ENV"@ {
            Some(0)
        } else if text == "Gate"@ {
            Some(1)
        } else {
            None
        }
    } else if id == ENV_POLARITY_PARAMETER_ID && osc {
        if text == "Positive"@ {
            Some(0)
        } else if text == "Negative"@ {
            Some(1)
        } else {
            None
        }
    } else if id == BASS_WAVEFORM_PARAMETER_ID && part is Bass {
        if text == "Pulse"@ {
            Some(0)
        } else if text == "Saw"@ {
            Some(1)
        } else {
            None
        }
    } else {
        None
    }
}

/// How the value `value` (rounded to a whole number) of parameter `id` is shown;
/// `output_count` is the number of MIDI outputs, "None" included.
pub fn value_text(part: Part, output_count: usize, id: u32, value: i64) -> (r: Option<ValueText>)
    ensures
        r == spec_value_text(part, output_count, id, value),
{
    let on = value >= 1;
    let osc = part.supports_oscillator_switches();
    let on_off = osc && (id == PULSE_PARAMETER_ID || id == SAW_PARAMETER_ID || id
        == CHORUS_PARAMETER_ID || id == VCF_DYNAMICS_PARAMETER_ID || id == VCA_DYNAMICS_PARAMETER_ID
        || id == HPF_PARAMETER_ID) || id == NOISE_PARAMETER_ID && part.is_melody();
    if id == MIDI_OUTPUT_PARAMETER_ID {
        let last: usize = if output_count == 0 {
            0
        } else {
            output_count - 1
        };
        Some(
            ValueText::Output(
                if value < 0 {
                    0
                } else if value as u64 > last as u64 {
                    last
                } else {
                    value as usize
                },
            ),
        )
    } else if id == WHOLE_MODE_PARAMETER_ID && part.supports_whole_mode() {
        Some(ValueText::Label(if on {
            "6 Voices"
        } else {
            "4 Voices"
        }))
    } else if id == RANGE_PARAMETER_ID && osc {
        let step = if value < 0 {
            0
        } else if value > 2 {
            2
        } else {
            value
        };
        Some(ValueText::Label(if step == 0 {
            "16'"
        } else if step == 1 {
            "8'"
        } else {
            "4'"
        }))
    } else if on_off {
        Some(ValueText::Label(if on {
            "On"
        } else {
            "Off"
        }))
    } else if id == PWM_SOURCE_PARAMETER_ID && osc {
        Some(ValueText::Label(if on {
            "Manual"
        } else {
            "LFO"
        }))
    } else if id == VCA_MODE_PARAMETER_ID && osc {
        Some(ValueText::Label(if on {
            "Gate"
        } else {
            "ENV"
        }))
    } else if id == ENV_POLARITY_PARAMETER_ID && osc {
        Some(ValueText::Label(if on {
            "Negative"
        } else {
            "Positive"
        }))
    } else if id == BASS_WAVEFORM_PARAMETER_ID && part.is_bass() {
        Some(ValueText::Label(if on {
            "Saw"
        } else {
            "Pulse"
        }))
    } else if (id as usize) < part.parameters().len() || id == CHANNEL_PARAMETER_ID {
        Some(ValueText::Number(value))
    } else {
        None
    }
}

/// The value that the label `text` stands for, for parameter `id` of `part`, or `None` if it
/// is no label of that parameter.
pub fn label_value(part: Part, outputs: &MidiBackend, id: u32, text: &str) -> (r: Option<u64>)
    ensures
        r == spec_label_value(part, outputs@, id, text@),
{
    let osc = part.supports_oscillator_switches();
    let on_off = osc && (id == PULSE_PARAMETER_ID || id == SAW_PARAMETER_ID || id
        == CHORUS_PARAMETER_ID || id == VCF_DYNAMICS_PARAMETER_ID || id == VCA_DYNAMICS_PARAMETER_ID
        || id == HPF_PARAMETER_ID) || id == NOISE_PARAMETER_ID && part.is_melody();
    if id == MIDI_OUTPUT_PARAMETER_ID {
        let count = outputs.count();
        let mut i: usize = 0;
        while i < count
            invariant
                id == MIDI_OUTPUT_PARAMETER_ID,
                count == spec_output_count(outputs@),
                first_output_named(outputs@, text@, 0) == first_output_named(outputs@, text@, i as int),
            decreases count - i,
        {
            if same_text(outputs.name(i), text) {
                return Some(i as u64);
            }
            i = i + 1;
        }
        None
    } else if id == WHOLE_MODE_PARAMETER_ID && part.supports_whole_mode() {
        if same_text(text, "4 Voices") {
            Some(0)
        } else if same_text(text, "6 Voices") {
            Some(1)
        } else {
            None
        }
    } else if id == RANGE_PARAMETER_ID && osc {
        if same_text(text, "16'") {
            Some(0)
        } else if same_text(text, "8'") {
            Some(1)
        } else if same_text(text, "4'") {
            Some(2)
        } else {
            None
        }
    } else if on_off {
        if same_text(text, "Off") {
            Some(0)
        } else if same_text(text, "On") {
            Some(1)
        } else {
            None
        }
    } else if id == PWM_SOURCE_PARAMETER_ID && osc {
        if same_text(text, "LFO") {
            Some(0)
        } else if same_text(text, "Manual") {
            Some(1)
        } else {
            None
        }
    } else if id == VCA_MODE_PARAMETER_ID && osc {
        if same_text(text, "ENV") {
            Some(0)
        } else if same_text(text, "Gate") {
            Some(1)
        } else {
            None
        }
    } else if id == ENV_POLARITY_PARAMETER_ID && osc {
        if same_text(text, "Positive") {
            Some(0)
        } else if same_text(text, "Negative") {
            Some(1)
        } else {
            None
        }
    } else if id == BASS_WAVEFORM_PARAMETER_ID && part.is_bass() {
        if same_text(text, "Pulse") {
            Some(0)
        } else if same_text(text, "Saw") {
            Some(1)
        } else {
            None
        }
    } else {
        None
    }
}

/// The smallest and largest value that parameter `id` takes: 1 to 16 for the channel, the
/// outputs there are for the MIDI output, 0 to 2 for the range, 0 to 1 for the switches and
/// the Whole Mode, and 0 to 127 otherwise.
pub open spec fn spec_value_bounds(id: u32, output_count: usize) -> (u64, u64) {
    let min: u64 = if id == CHANNEL_PARAMETER_ID {
        1
    } else {
        0
    };
    let max: u64 = if id == CHANNEL_PARAMETER_ID {
        16
    } else if id == MIDI_OUTPUT_PARAMETER_ID {
        (if output_count == 0 {
            0
        } else {
            output_count - 1
        }) as u64
    } else if id == RANGE_PARAMETER_ID {
        2
    } else if id == WHOLE_MODE_PARAMETER_ID || id == PULSE_PARAMETER_ID || id == SAW_PARAMETER_ID
        || id == CHORUS_PARAMETER_ID || id == VCF_DYNAMICS_PARAMETER_ID || id
        == VCA_DYNAMICS_PARAMETER_ID || id == PWM_SOURCE_PARAMETER_ID || id == VCA_MODE_PARAMETER_ID
        || id == ENV_POLARITY_PARAMETER_ID || id == HPF_PARAMETER_ID || id == NOISE_PARAMETER_ID
        || id == BASS_WAVEFORM_PARAMETER_ID {
        1
    } else {
        127
    };
    (min, max)
}

/// The range a typed value of parameter `id` must lie in.
pub fn value_bounds(id: u32, output_count: usize) -> (r: (u64, u64))
    ensures
        r == spec_value_bounds(id, output_count),
{
    let min: u64 = if id == CHANNEL_PARAMETER_ID {
        1
    } else {
        0
    };
    let max: u64 = if id == CHANNEL_PARAMETER_ID {
        16
    } else if id == MIDI_OUTPUT_PARAMETER_ID {
        (if output_count == 0 {
            0
        } else {
            output_count - 1
        }) as u64
    } else if id == RANGE_PARAMETER_ID {
        2
    } else if id == WHOLE_MODE_PARAMETER_ID || id == PULSE_PARAMETER_ID || id == SAW_PARAMETER_ID
        || id == CHORUS_PARAMETER_ID || id == VCF_DYNAMICS_PARAMETER_ID || id
        == VCA_DYNAMICS_PARAMETER_ID || id == PWM_SOURCE_PARAMETER_ID || id == VCA_MODE_PARAMETER_ID
        || id == ENV_POLARITY_PARAMETER_ID || id == HPF_PARAMETER_ID || id == NOISE_PARAMETER_ID
        || id == BASS_WAVEFORM_PARAMETER_ID {
        1
    } else {
        127
    };
    (min, max)
}

/// The number of plug-ins in the bundle: one per part.
pub const PLUGIN_COUNT: u32 = 3;

/// The part that plug-in `index` of the bundle drives: Melody, Chord, then Bass.
pub open spec fn spec_plugin_part(index: u32) -> Option<Part> {
    if index == 0 {
        Some(Part::Melody)
    } else if index == 1 {
        Some(Part::Chord)
    } else if index == 2 {
        Some(Part::Bass)
    } else {
        None
    }
}

/// The part that plug-in `index` of the bundle drives, or `None` past the last plug-in.
pub fn plugin_part(index: u32) -> (r: Option<Part>)
    ensures
        r == spec_plugin_part(index),
{
    if index == 0 {
        Some(Part::Melody)
    } else if index == 1 {
        Some(Part::Chord)
    } else if index == 2 {
        Some(Part::Bass)
    } else {
        None
    }
}

/// The plug-in id of the controller for `part`.
pub fn plugin_id(part: Part) -> (r: &'static str)
    ensures
        r@ == (match part {
            Part::Melody => "com.marcellkovacs.mks7-clap-controller-melody"@,
            Part::Chord => "com.marcellkovacs.mks7-clap-controller-chord"@,
            Part::Bass => "com.marcellkovacs.mks7-clap-controller-bass"@,
        }),
{
    match part {
        Part::Melody => "com.marcellkovacs.mks7-clap-controller-melody",
        Part::Chord => "com.marcellkovacs.mks7-clap-controller-chord",
        Part::Bass => "com.marcellkovacs.mks7-clap-controller-bass",
    }
}

/// The vendor named in every plug-in descriptor of the bundle.
pub fn plugin_vendor() -> (r: &'static str)
    ensures
        r@ == "Marcell Kovacs"@,
{
    "Marcell Kovacs"
}

/// The version named in every plug-in descriptor of the bundle.
pub fn plugin_version() -> (r: &'static str)
    ensures
        r@ == "0.6.1"@,
{
    "0.6.1"
}

/// The display name of the controller for `part`.
pub fn plugin_name(part: Part) -> (r: &'static str)
    ensures
        r@ == (match part {
            Part::Melody => "MKS-7 Melody Controller"@,
            Part::Chord => "MKS-7 Chord Controller"@,
            Part::Bass => "MKS-7 Bass Controller"@,
        }),
{
    match part {
        Part::Melody => "MKS-7 Melody Controller",
        Part::Chord => "MKS-7 Chord Controller",
        Part::Bass => "MKS-7 Bass Controller",
    }
}

} // verus!
