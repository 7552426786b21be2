use vstd::prelude::*;

verus! {

/// One continuous synthesis parameter of an MKS-7 part: its host-facing id, the parameter
/// number that the SysEx tone-parameter write carries, and its display names.
#[derive(Clone, Copy, Debug, PartialEq, Eq)]
pub struct ParameterDefinition {
    pub id: u32,
    pub protocol_number: u8,
    pub name: &'static str,
    pub module: &'static str,
}

/// The Melody (and Chord) parameter table, in host order.
pub open spec fn melody_table() -> Seq<ParameterDefinition> {
    seq![
        ParameterDefinition { id: 0, protocol_number: 0, name: "LFO Rate", module: "LFO" },
        ParameterDefinition { id: 1, protocol_number: 1, name: "LFO Delay", module: "LFO" },
        ParameterDefinition { id: 2, protocol_number: 2, name: "DCO LFO", module: "DCO" },
        ParameterDefinition { id: 3, protocol_number: 3, name: "DCO PWM", module: "DCO" },
        ParameterDefinition { id: 4, protocol_number: 5, name: "VCF Cutoff", module: "VCF" },
        ParameterDefinition { id: 5, protocol_number: 6, name: "VCF Resonance", module: "VCF" },
        ParameterDefinition { id: 6, protocol_number: 7, name: "VCF ENV", module: "VCF" },
        ParameterDefinition { id: 7, protocol_number: 8, name: "VCF LFO", module: "VCF" },
        ParameterDefinition { id: 8, protocol_number: 9, name: "VCF KYBD", module: "VCF" },
        ParameterDefinition { id: 9, protocol_number: 10, name: "VCA Level", module: "VCA" },
        ParameterDefinition { id: 10, protocol_number: 11, name: "Attack", module: "Envelope" },
        ParameterDefinition { id: 11, protocol_number: 12, name: "Decay", module: "Envelope" },
        ParameterDefinition { id: 12, protocol_number: 13, name: "Sustain", module: "Envelope" },
        ParameterDefinition { id: 13, protocol_number: 14, name: "Release", module: "Envelope" },
        ParameterDefinition { id: 14, protocol_number: 15, name: "Sub Level", module: "DCO" },
    ]
}

/// The Bass parameter table, in host order.
pub open spec fn bass_table() -> Seq<ParameterDefinition> {
    seq![
        ParameterDefinition { id: 0, protocol_number: 3, name: "DCO PWM", module: "DCO" },
        ParameterDefinition { id: 1, protocol_number: 5, name: "VCF Cutoff", module: "VCF" },
        ParameterDefinition { id: 2, protocol_number: 6, name: "VCF Resonance", module: "VCF" },
        ParameterDefinition { id: 3, protocol_number: 7, name: "VCF ENV", module: "VCF" },
        ParameterDefinition { id: 4, protocol_number: 9, name: "VCF KYBD", module: "VCF" },
        ParameterDefinition { id: 5, protocol_number: 10, name: "VCA Level", module: "VCA" },
        ParameterDefinition { id: 6, protocol_number: 11, name: "Attack", module: "Envelope" },
        ParameterDefinition { id: 7, protocol_number: 12, name: "Decay", module: "Envelope" },
        ParameterDefinition { id: 8, protocol_number: 13, name: "Sustain", module: "Envelope" },
        ParameterDefinition { id: 9, protocol_number: 14, name: "Release", module: "Envelope" },
    ]
}

/// The continuous parameters of the Melody part.
pub fn melody_parameters() -> (r: [ParameterDefinition; 15])
    ensures
        r@ == melody_table(),
{
    let r = [
        ParameterDefinition { id: 0, protocol_number: 0, name: "LFO Rate", module: "LFO" },
        ParameterDefinition { id: 1, protocol_number: 1, name: "LFO Delay", module: "LFO" },
        ParameterDefinition { id: 2, protocol_number: 2, name: "DCO LFO", module: "DCO" },
        ParameterDefinition { id: 3, protocol_number: 3, name: "DCO PWM", module: "DCO" },
        ParameterDefinition { id: 4, protocol_number: 5, name: "VCF Cutoff", module: "VCF" },
        ParameterDefinition { id: 5, protocol_number: 6, name: "VCF Resonance", module: "VCF" },
        ParameterDefinition { id: 6, protocol_number: 7, name: "VCF ENV", module: "VCF" },
        ParameterDefinition { id: 7, protocol_number: 8, name: "VCF LFO", module: "VCF" },
        ParameterDefinition { id: 8, protocol_number: 9, name: "VCF KYBD", module: "VCF" },
        ParameterDefinition { id: 9, protocol_number: 10, name: "VCA Level", module: "VCA" },
        ParameterDefinition { id: 10, protocol_number: 11, name: "Attack", module: "Envelope" },
        ParameterDefinition { id: 11, protocol_number: 12, name: "Decay", module: "Envelope" },
        ParameterDefinition { id: 12, protocol_number: 13, name: "Sustain", module: "Envelope" },
        ParameterDefinition { id: 13, protocol_number: 14, name: "Release", module: "Envelope" },
        ParameterDefinition { id: 14, protocol_number: 15, name: "Sub Level", module: "DCO" },
    ];
    assert(r@ =~= melody_table());
    r
}

/// The continuous parameters of the Chord part: the same as Melody's.
pub fn chord_parameters() -> (r: [ParameterDefinition; 15])
    ensures
        r@ == melody_table(),
{
    melody_parameters()
}

/// The continuous parameters of the Bass part.
pub fn bass_parameters() -> (r: [ParameterDefinition; 10])
    ensures
        r@ == bass_table(),
{
    let r = [
        ParameterDefinition { id: 0, protocol_number: 3, name: "DCO PWM", module: "DCO" },
        ParameterDefinition { id: 1, protocol_number: 5, name: "VCF Cutoff", module: "VCF" },
        ParameterDefinition { id: 2, protocol_number: 6, name: "VCF Resonance", module: "VCF" },
        ParameterDefinition { id: 3, protocol_number: 7, name: "VCF ENV", module: "VCF" },
        ParameterDefinition { id: 4, protocol_number: 9, name: "VCF KYBD", module: "VCF" },
        ParameterDefinition { id: 5, protocol_number: 10, name: "VCA Level", module: "VCA" },
        ParameterDefinition { id: 6, protocol_number: 11, name: "Attack", module: "Envelope" },
        ParameterDefinition { id: 7, protocol_number: 12, name: "Decay", module: "Envelope" },
        ParameterDefinition { id: 8, protocol_number: 13, name: "Sustain", module: "Envelope" },
        ParameterDefinition { id: 9, protocol_number: 14, name: "Release", module: "Envelope" },
    ];
    assert(r@ =~= bass_table());
    r
}

/// Errors reported when a field does not fit the MKS-7 message format.
#[derive(Clone, Copy, Debug, PartialEq, Eq, Structural)]
pub enum ProtocolError {
    Channel,
    Parameter,
    Value,
    Controller,
    Range,
}

/// The view of an encoded message: its bytes, or the error.
pub open spec fn message_view<const N: usize>(r: Result<[u8; N], ProtocolError>) -> Result<
    Seq<u8>,
    ProtocolError,
> {
    match r {
        Ok(bytes) => Ok(bytes@),
        Err(e) => Err(e),
    }
}

/// The zero-based basic channel nibble for a user-facing channel, when it is in 1..=16.
pub open spec fn spec_basic_channel(channel: int) -> Result<u8, ProtocolError> {
    if 1 <= channel <= 16 {
        Ok((channel - 1) as u8)
    } else {
        Err(ProtocolError::Channel)
    }
}

/// The tone-parameter SysEx write `F0 41 32 uu pp vv F7`; the parameter number is checked
/// first, then the value, then the channel.
pub open spec fn spec_parameter_change(channel: int, parameter: int, value: int) -> Result<
    Seq<u8>,
    ProtocolError,
> {
    if !(0 <= parameter <= 17) {
        Err(ProtocolError::Parameter)
    } else if !(0 <= value <= 127) {
        Err(ProtocolError::Value)
    } else if !(1 <= channel <= 16) {
        Err(ProtocolError::Channel)
    } else {
        Ok(seq![0xf0u8, 0x41u8, 0x32u8, (channel - 1) as u8, parameter as u8, value as u8, 0xf7u8])
    }
}

/// The Control Change message `Bn cc vv`; the controller is checked first, then the value,
/// then the channel.
pub open spec fn spec_control_change(channel: int, controller: int, value: int) -> Result<
    Seq<u8>,
    ProtocolError,
> {
    if !(0 <= controller <= 127) {
        Err(ProtocolError::Controller)
    } else if !(0 <= value <= 127) {
        Err(ProtocolError::Value)
    } else if !(1 <= channel <= 16) {
        Err(ProtocolError::Channel)
    } else {
        Ok(seq![(0xb0 + (channel - 1)) as u8, controller as u8, value as u8])
    }
}

/// Parameter 16 for Melody and Chord: one-hot range in bits 0-2 (16', 8', 4'), pulse in
/// bit 3, saw in bit 4, and bit 5 set when the chorus is off.
pub open spec fn spec_melody_chord_switches_1(range: int, pulse: bool, saw: bool, chorus: bool) -> int {
    (if range == 0 {
        1int
    } else if range == 1 {
        2int
    } else {
        4int
    }) + (if pulse {
        0x08int
    } else {
        0
    }) + (if saw {
        0x10int
    } else {
        0
    }) + (if chorus {
        0
    } else {
        0x20int
    })
}

/// Parameter 4 for Melody and Chord: VCF dynamics in bit 6, VCA dynamics in bit 5.
pub open spec fn spec_melody_chord_dynamics(vcf: bool, vca: bool) -> int {
    (if vcf {
        0x40int
    } else {
        0
    }) + (if vca {
        0x20int
    } else {
        0
    })
}

/// Parameter 17 for Melody and Chord: PWM manual (bit 0), VCF envelope negative (bit 1),
/// VCA gate (bit 2), HPF off (bit 4, set when the filter is off), noise (bit 5).
pub open spec fn spec_melody_chord_switches_2(
    pwm_manual: bool,
    env_negative: bool,
    vca_gate: bool,
    hpf: bool,
    noise: bool,
) -> int {
    (if pwm_manual {
        0x01int
    } else {
        0
    }) + (if env_negative {
        0x02int
    } else {
        0
    }) + (if vca_gate {
        0x04int
    } else {
        0
    }) + (if hpf {
        0
    } else {
        0x10int
    }) + (if noise {
        0x20int
    } else {
        0
    })
}

/// Parameter 16 for Bass: the saw waveform in bit 4.
pub open spec fn spec_bass_switches_1(saw: bool) -> int {
    if saw {
        0x10
    } else {
        0
    }
}

/// Converts a user-facing MIDI channel (1..=16) to the zero-based nibble used on the wire.
pub fn basic_channel_from_user_channel(channel: i32) -> (r: Result<u8, ProtocolError>)
    ensures
        r == spec_basic_channel(channel as int),
{
    if !(1 <= channel && channel <= 16) {
        return Err(ProtocolError::Channel);
    }
    Ok((channel - 1) as u8)
}

/// Encodes a single tone-parameter write for the part on `channel`.
pub fn parameter_change(channel: i32, parameter: i32, value: i32) -> (r: Result<
    [u8; 7],
    ProtocolError,
>)
    ensures
        message_view(r) == spec_parameter_change(channel as int, parameter as int, value as int),
{
    if !(0 <= parameter && parameter <= 17) {
        return Err(ProtocolError::Parameter);
    }
    if !(0 <= value && value <= 127) {
        return Err(ProtocolError::Value);
    }
    let basic = match basic_channel_from_user_channel(channel) {
        Ok(basic) => basic,
        Err(e) => {
            return Err(e);
        },
    };
    let bytes: [u8; 7] = [0xf0, 0x41, 0x32, basic, parameter as u8, value as u8, 0xf7];
    assert(bytes@ =~= seq![0xf0u8, 0x41u8, 0x32u8, basic, parameter as u8, value as u8, 0xf7u8]);
    Ok(bytes)
}

/// Encodes a Control Change message for the part on `channel`.
pub fn control_change(channel: i32, controller: i32, value: i32) -> (r: Result<
    [u8; 3],
    ProtocolError,
>)
    ensures
        message_view(r) == spec_control_change(channel as int, controller as int, value as int),
{
    if !(0 <= controller && controller <= 127) {
        return Err(ProtocolError::Controller);
    }
    if !(0 <= value && value <= 127) {
        return Err(ProtocolError::Value);
    }
    let basic = match basic_channel_from_user_channel(channel) {
        Ok(basic) => basic,
        Err(e) => {
            return Err(e);
        },
    };
    let status: u8 = 0xb0 + basic;
    let bytes: [u8; 3] = [status, controller as u8, value as u8];
    assert(bytes@ =~= seq![status, controller as u8, value as u8]);
    Ok(bytes)
}

/// Composes the complete oscillator-switch byte (parameter 16) for Melody and Chord.
pub fn melody_chord_switches_1(range: i32, pulse: bool, saw: bool, chorus: bool) -> (r: Result<
    u8,
    ProtocolError,
>)
    ensures
        match r {
            Ok(byte) => 0 <= range <= 2 && byte == spec_melody_chord_switches_1(
                range as int,
                pulse,
                saw,
                chorus,
            ),
            Err(e) => !(0 <= range <= 2) && e == ProtocolError::Range,
        },
{
    if !(0 <= range && range <= 2) {
        return Err(ProtocolError::Range);
    }
    let range_bit: u8 = if range == 0 {
        1
    } else if range == 1 {
        2
    } else {
        4
    };
    let pulse_bit: u8 = if pulse {
        0x08
    } else {
        0
    };
    let saw_bit: u8 = if saw {
        0x10
    } else {
        0
    };
    let chorus_off_bit: u8 = if chorus {
        0
    } else {
        0x20
    };
    Ok(range_bit + pulse_bit + saw_bit + chorus_off_bit)
}

/// Composes the complete dynamics byte (parameter 4) for Melody and Chord.
pub fn melody_chord_dynamics(vcf: bool, vca: bool) -> (r: u8)
    ensures
        r == spec_melody_chord_dynamics(vcf, vca),
{
    let vcf_bit: u8 = if vcf {
        0x40
    } else {
        0
    };
    let vca_bit: u8 = if vca {
        0x20
    } else {
        0
    };
    vcf_bit + vca_bit
}

/// Composes the complete mode-switch byte (parameter 17) for Melody and Chord.
pub fn melody_chord_switches_2(
    pwm_manual: bool,
    env_negative: bool,
    vca_gate: bool,
    hpf: bool,
    noise: bool,
) -> (r: u8)
    ensures
        r == spec_melody_chord_switches_2(pwm_manual, env_negative, vca_gate, hpf, noise),
{
    let pwm_bit: u8 = if pwm_manual {
        0x01
    } else {
        0
    };
    let env_bit: u8 = if env_negative {
        0x02
    } else {
        0
    };
    let gate_bit: u8 = if vca_gate {
        0x04
    } else {
        0
    };
    let hpf_off_bit: u8 = if hpf {
        0
    } else {
        0x10
    };
    let noise_bit: u8 = if noise {
        0x20
    } else {
        0
    };
    pwm_bit + env_bit + gate_bit + hpf_off_bit + noise_bit
}

/// Composes the Bass oscillator byte (parameter 16): only the waveform bit is used.
pub fn bass_switches_1(saw: bool) -> (r: u8)
    ensures
        r == spec_bass_switches_1(saw),
{
    if saw {
        0x10
    } else {
        0
    }
}

} // verus!
