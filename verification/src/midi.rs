//! MIDI wire messages for a triggered rule.

use vstd::prelude::*;
use vstd::string::StringExecFns;
use crate::mapping::{text_of, Mapping, MappingView};
use crate::preset::{
    check_gt1000_preset, check_qc_preset, gt1000_preset_fault, gt1000_preset_select,
    qc_preset_fault, qc_preset_program, send_gt1000_preset, send_qc_preset, PresetFault,
};
use crate::text::{decimal_text, push_decimal, same_text};

verus! {

/// The kinds of MIDI output that a rule can ask for.
#[derive(Clone, Copy, Debug, PartialEq, Eq, Structural)]
pub enum MidiType {
    NoteOn,
    NoteOff,
    Cc,
    Pc,
    QcPreset,
    Gt1000Preset,
}

/// The kind that the text of a rule's `midi_type` names, if any.
pub open spec fn midi_type_named(name: Seq<char>) -> Option<MidiType> {
    if name == "note_on"@ {
        Some(MidiType::NoteOn)
    } else if name == "note_off"@ {
        Some(MidiType::NoteOff)
    } else if name == "cc"@ {
        Some(MidiType::Cc)
    } else if name == "pc"@ {
        Some(MidiType::Pc)
    } else if name == "qc_preset"@ {
        Some(MidiType::QcPreset)
    } else if name == "gt1000_preset"@ {
        Some(MidiType::Gt1000Preset)
    } else {
        None
    }
}

/// The low eight bits of `v`: what is left of a data value on the wire.
pub open spec fn low_byte(v: u32) -> u8 {
    (v % 256) as u8
}

/// The channel bits of a status byte for the 1-based `channel`: one
/// less than its low byte, and 0 where that byte is 0.
pub open spec fn channel_bits(channel: u32) -> u8 {
    if low_byte(channel) == 0 {
        0u8
    } else {
        (low_byte(channel) - 1) as u8
    }
}

/// A status byte: the message kind `base` with the channel bits set.
pub open spec fn status_byte(base: u8, channel: u32) -> u8 {
    base | channel_bits(channel)
}

/// The three messages that select a preset: bank select MSB, bank
/// select LSB, program change.
pub open spec fn preset_messages(channel: u32, msb: u8, lsb: u8, program: u8) -> Seq<Seq<u8>> {
    seq![
        seq![status_byte(0xB0, channel), 0u8, msb],
        seq![status_byte(0xB0, channel), 32u8, lsb],
        seq![status_byte(0xC0, channel), program],
    ]
}

/// The value of an optional field, and 0 where it is absent.
pub open spec fn or_zero(v: Option<u32>) -> u32 {
    match v {
        Some(x) => x,
        None => 0,
    }
}

/// The messages of a rule of kind `kind`, in the order in which they
/// are to be written. A rule that lacks a field that its kind needs,
/// or whose preset identifier selects nothing, has none.
pub open spec fn messages_of_kind(kind: MidiType, m: MappingView) -> Seq<Seq<u8>> {
    match kind {
        MidiType::NoteOn => match (m.midi_note, m.midi_velocity, m.midi_channel) {
            (Some(note), Some(velocity), Some(channel)) => seq![
                seq![status_byte(0x90, channel), low_byte(note), low_byte(velocity)],
            ],
            _ => Seq::empty(),
        },
        MidiType::NoteOff => match (m.midi_note, m.midi_velocity, m.midi_channel) {
            (Some(note), Some(velocity), Some(channel)) => seq![
                seq![status_byte(0x80, channel), low_byte(note), low_byte(velocity)],
            ],
            _ => Seq::empty(),
        },
        MidiType::Cc => match (m.midi_controller, m.midi_channel) {
            (Some(controller), Some(channel)) => seq![
                seq![
                    status_byte(0xB0, channel),
                    low_byte(controller),
                    low_byte(or_zero(m.midi_value)),
                ],
            ],
            _ => Seq::empty(),
        },
        MidiType::Pc => match m.midi_channel {
            Some(channel) => seq![
                seq![status_byte(0xC0, channel), low_byte(or_zero(m.midi_value))],
            ],
            None => Seq::empty(),
        },
        MidiType::QcPreset => match (m.qc_preset_id, m.setlist, m.midi_channel) {
            (Some(id), Some(setlist), Some(channel)) => match qc_preset_program(id) {
                Some(program) => preset_messages(channel, 0, low_byte(setlist), low_byte(program)),
                None => Seq::empty(),
            },
            _ => Seq::empty(),
        },
        MidiType::Gt1000Preset => match (m.gt1000_preset_id, m.midi_channel) {
            (Some(id), Some(channel)) => match gt1000_preset_select(id) {
                Some((msb, lsb, program)) => preset_messages(
                    channel,
                    low_byte(msb),
                    low_byte(lsb),
                    low_byte(program),
                ),
                None => Seq::empty(),
            },
            _ => Seq::empty(),
        },
    }
}

/// The MIDI messages that the rule `m` asks for; none where it names
/// no kind or a kind that is not known.
pub open spec fn midi_messages(m: MappingView) -> Seq<Seq<u8>> {
    match m.midi_type {
        Some(name) => match midi_type_named(name) {
            Some(kind) => messages_of_kind(kind, m),
            None => Seq::empty(),
        },
        None => Seq::empty(),
    }
}

/// The preset identifier of a rule that has all that its preset kind
/// needs, and whose identifier selects nothing, with the kind and the
/// reason.
pub open spec fn rejected_preset(m: MappingView) -> Option<(MidiType, Seq<char>, PresetFault)> {
    match m.midi_type {
        Some(name) => match midi_type_named(name) {
            Some(MidiType::QcPreset) => match (m.qc_preset_id, m.setlist, m.midi_channel) {
                (Some(id), Some(_), Some(_)) => match qc_preset_fault(id) {
                    Some(fault) => Some((MidiType::QcPreset, id, fault)),
                    None => None,
                },
                _ => None,
            },
            Some(MidiType::Gt1000Preset) => match (m.gt1000_preset_id, m.midi_channel) {
                (Some(id), Some(_)) => match gt1000_preset_fault(id) {
                    Some(fault) => Some((MidiType::Gt1000Preset, id, fault)),
                    None => None,
                },
                _ => None,
            },
            _ => None,
        },
        None => None,
    }
}

/// The line that tells of a preset identifier that was not accepted:
/// it names the identifier and says what was expected, and differs
/// between a wrong shape and a number out of range.
pub open spec fn rejection_text(kind: MidiType, id: Seq<char>, fault: PresetFault) -> Seq<char> {
    match (kind, fault) {
        (MidiType::Gt1000Preset, PresetFault::Malformed) => "Invalid GT-1000 preset format: "@ + id
            + ". Expected format like 'U01-1' or 'P50-5'."@,
        (MidiType::Gt1000Preset, PresetFault::OutOfRange) => "Invalid GT-1000 preset value: "@ + id
            + ". Bank must be 1-50, patch 1-5."@,
        (_, PresetFault::Malformed) => "Invalid Quad Cortex preset format: "@ + id
            + ". Expected format like '1A', '12D', etc."@,
        (_, PresetFault::OutOfRange) => "Invalid Quad Cortex preset value: "@ + id
            + ". Bank must be 1-32."@,
    }
}

/// The line about the preset identifier of `m` that was not accepted,
/// if there is such an identifier.
pub open spec fn rejection_line(m: MappingView) -> Option<Seq<char>> {
    match rejected_preset(m) {
        Some((kind, id, fault)) => Some(rejection_text(kind, id, fault)),
        None => None,
    }
}

/// The line that tells of a Quad Cortex preset that is sent.
pub open spec fn qc_sending_text(setlist: u32, id: Seq<char>, program: u32, channel: u32) -> Seq<
    char,
> {
    "Sending QC Preset: Setlist "@ + decimal_text(setlist as nat) + ", Preset "@ + id
        + " -> PC: "@ + decimal_text(program as nat) + " @ Ch: "@ + decimal_text(channel as nat)
}

/// The line that tells of a GT-1000 preset that is sent.
pub open spec fn gt1000_sending_text(id: Seq<char>, select: (u32, u32, u32), channel: u32) -> Seq<
    char,
> {
    "Sending GT-1000 Preset: "@ + id + " -> Bank MSB: "@ + decimal_text(select.0 as nat)
        + ", Bank LSB: "@ + decimal_text(select.1 as nat) + ", PC: "@ + decimal_text(
        select.2 as nat,
    ) + " @ Ch: "@ + decimal_text(channel as nat)
}

/// The line about the preset that the rule `m` selects, if it is of a
/// preset kind, has all that the kind needs, and its identifier
/// selects a preset.
pub open spec fn sending_line(m: MappingView) -> Option<Seq<char>> {
    match m.midi_type {
        Some(name) => match midi_type_named(name) {
            Some(MidiType::QcPreset) => match (m.qc_preset_id, m.setlist, m.midi_channel) {
                (Some(id), Some(setlist), Some(channel)) => match qc_preset_program(id) {
                    Some(program) => Some(qc_sending_text(setlist, id, program, channel)),
                    None => None,
                },
                _ => None,
            },
            Some(MidiType::Gt1000Preset) => match (m.gt1000_preset_id, m.midi_channel) {
                (Some(id), Some(channel)) => match gt1000_preset_select(id) {
                    Some(select) => Some(gt1000_sending_text(id, select, channel)),
                    None => None,
                },
                _ => None,
            },
            _ => None,
        },
        None => None,
    }
}

/// The line about the preset of the rule `m`: that it is sent, or why
/// it is not.
pub open spec fn preset_line(m: MappingView) -> Option<Seq<char>> {
    match rejection_line(m) {
        Some(line) => Some(line),
        None => sending_line(m),
    }
}

/// The bytes of a list of messages.
pub open spec fn messages_view(messages: Seq<Vec<u8>>) -> Seq<Seq<u8>> {
    messages.map_values(|b: Vec<u8>| b@)
}

/// For a channel from 1 to 16 the status byte holds the message kind
/// in its high four bits and the channel, counted from zero, in its
/// low four.
pub proof fn lemma_status_byte_packs_channel(base: u8, channel: u32)
    requires
        1 <= channel <= 16,
        base & 0x0F == 0,
    ensures
        status_byte(base, channel) == base + (channel - 1),
        status_byte(base, channel) & 0xF0 == base,
        status_byte(base, channel) & 0x0F == channel - 1,
{
    let c = channel_bits(channel);
    assert(c == channel - 1);
    assert(base | c == base + c && (base | c) & 0xF0 == base && (base | c) & 0x0F == c)
        by (bit_vector)
        requires
            c <= 15,
            base & 0x0F == 0,
    ;
}

/// A data value that fits a byte goes on the wire as it is.
pub proof fn lemma_low_byte_keeps_small(v: u32)
    requires
        v <= 255,
    ensures
        low_byte(v) == v,
{
}

/// Reads the name of a kind of MIDI output.
pub fn parse_midi_type(name: &str) -> (r: Option<MidiType>)
    ensures
        r == midi_type_named(name@),
{
    if same_text(name, "note_on") {
        Some(MidiType::NoteOn)
    } else if same_text(name, "note_off") {
        Some(MidiType::NoteOff)
    } else if same_text(name, "cc") {
        Some(MidiType::Cc)
    } else if same_text(name, "pc") {
        Some(MidiType::Pc)
    } else if same_text(name, "qc_preset") {
        Some(MidiType::QcPreset)
    } else if same_text(name, "gt1000_preset") {
        Some(MidiType::Gt1000Preset)
    } else {
        None
    }
}

fn data_byte(v: u32) -> (r: u8)
    ensures
        r == low_byte(v),
{
    (v % 256) as u8
}

/// The status byte of kind `base` for the 1-based `channel`.
pub fn status(base: u8, channel: u32) -> (r: u8)
    ensures
        r == status_byte(base, channel),
{
    base | data_byte(channel).saturating_sub(1)
}

fn select_preset(channel: u32, msb: u8, lsb: u8, program: u8) -> (r: Vec<Vec<u8>>)
    ensures
        messages_view(r@) == preset_messages(channel, msb, lsb, program),
{
    let cc0_msg: Vec<u8> = vec![status(0xB0, channel), 0, msb];
    let cc32_msg: Vec<u8> = vec![status(0xB0, channel), 32, lsb];
    let pc_msg: Vec<u8> = vec![status(0xC0, channel), program];
    let r: Vec<Vec<u8>> = vec![cc0_msg, cc32_msg, pc_msg];
    assert(messages_view(r@) =~= preset_messages(channel, msb, lsb, program));
    r
}

fn one_message(msg: Vec<u8>) -> (r: Vec<Vec<u8>>)
    ensures
        messages_view(r@) == seq![msg@],
{
    let r: Vec<Vec<u8>> = vec![msg];
    assert(messages_view(r@) =~= seq![msg@]);
    r
}

fn no_message() -> (r: Vec<Vec<u8>>)
    ensures
        messages_view(r@) == Seq::<Seq<u8>>::empty(),
{
    let r: Vec<Vec<u8>> = Vec::new();
    assert(messages_view(r@) =~= Seq::<Seq<u8>>::empty());
    r
}

fn messages_for(kind: MidiType, found_map: &Mapping) -> (r: Vec<Vec<u8>>)
    ensures
        messages_view(r@) == messages_of_kind(kind, found_map@),
{
    match kind {
        MidiType::NoteOn => match (found_map.midi_note, found_map.midi_velocity, found_map.midi_channel) {
            (Some(note), Some(velocity), Some(channel)) => {
                let msg: Vec<u8> = vec![status(0x90, channel), data_byte(note), data_byte(velocity)];
                assert(msg@ =~= seq![status_byte(0x90, channel), low_byte(note), low_byte(velocity)]);
                one_message(msg)
            },
            _ => no_message(),
        },
        MidiType::NoteOff => match (found_map.midi_note, found_map.midi_velocity, found_map.midi_channel) {
            (Some(note), Some(velocity), Some(channel)) => {
                let msg: Vec<u8> = vec![status(0x80, channel), data_byte(note), data_byte(velocity)];
                assert(msg@ =~= seq![status_byte(0x80, channel), low_byte(note), low_byte(velocity)]);
                one_message(msg)
            },
            _ => no_message(),
        },
        MidiType::Cc => match (found_map.midi_controller, found_map.midi_channel) {
            (Some(controller), Some(channel)) => {
                let value: u32 = match found_map.midi_value {
                    Some(v) => v,
                    None => 0,
                };
                let msg: Vec<u8> = vec![status(0xB0, channel), data_byte(controller), data_byte(value)];
                assert(msg@ =~= seq![
                    status_byte(0xB0, channel),
                    low_byte(controller),
                    low_byte(or_zero(found_map.midi_value)),
                ]);
                one_message(msg)
            },
            _ => no_message(),
        },
        MidiType::Pc => match found_map.midi_channel {
            Some(channel) => {
                let value: u32 = match found_map.midi_value {
                    Some(v) => v,
                    None => 0,
                };
                let msg: Vec<u8> = vec![status(0xC0, channel), data_byte(value)];
                assert(msg@ =~= seq![
                    status_byte(0xC0, channel),
                    low_byte(or_zero(found_map.midi_value)),
                ]);
                one_message(msg)
            },
            None => no_message(),
        },
        MidiType::QcPreset => match (&found_map.qc_preset_id, found_map.setlist, found_map.midi_channel) {
            (Some(preset_id), Some(setlist), Some(channel)) => {
                match send_qc_preset(preset_id, &setlist, &channel) {
                    Some(program) => select_preset(
                        channel,
                        0,
                        data_byte(setlist),
                        data_byte(program),
                    ),
                    None => no_message(),
                }
            },
            _ => no_message(),
        },
        MidiType::Gt1000Preset => match (&found_map.gt1000_preset_id, found_map.midi_channel) {
            (Some(preset_id), Some(channel)) => {
                match send_gt1000_preset(preset_id, &channel) {
                    Some((bank_msb, bank_lsb, pgm)) => select_preset(
                        channel,
                        data_byte(bank_msb),
                        data_byte(bank_lsb),
                        data_byte(pgm),
                    ),
                    None => no_message(),
                }
            },
            _ => no_message(),
        },
    }
}

/// The MIDI messages that the triggered rule `found_map` asks for, in
/// the order in which they are to be written to the output. A rule
/// that lacks a field that its kind needs is skipped: it has no
/// message, and that is no error.
pub fn handle_midi_message(found_map: &Mapping) -> (r: Vec<Vec<u8>>)
    ensures
        messages_view(r@) == midi_messages(found_map@),
{
    match &found_map.midi_type {
        Some(name) => match parse_midi_type(name.as_str()) {
            Some(kind) => messages_for(kind, found_map),
            None => no_message(),
        },
        None => no_message(),
    }
}

fn rejection_message(kind: MidiType, id: &str, fault: PresetFault) -> (r: String)
    ensures
        r@ == rejection_text(kind, id@, fault),
{
    match (kind, fault) {
        (MidiType::Gt1000Preset, PresetFault::Malformed) => String::from_str(
            "Invalid GT-1000 preset format: ",
        ).concat(id).concat(". Expected format like 'U01-1' or 'P50-5'."),
        (MidiType::Gt1000Preset, PresetFault::OutOfRange) => String::from_str(
            "Invalid GT-1000 preset value: ",
        ).concat(id).concat(". Bank must be 1-50, patch 1-5."),
        (_, PresetFault::Malformed) => String::from_str(
            "Invalid Quad Cortex preset format: ",
        ).concat(id).concat(". Expected format like '1A', '12D', etc."),
        (_, PresetFault::OutOfRange) => String::from_str(
            "Invalid Quad Cortex preset value: ",
        ).concat(id).concat(". Bank must be 1-32."),
    }
}

/// Says in one line why the preset identifier of `found_map` was not
/// accepted; `None` where the rule is of no preset kind, lacks a field
/// that its kind needs, or has an identifier that selects a preset.
pub fn preset_rejection(found_map: &Mapping) -> (r: Option<String>)
    ensures
        text_of(r) == rejection_line(found_map@),
{
    let kind = match &found_map.midi_type {
        Some(name) => match parse_midi_type(name.as_str()) {
            Some(kind) => kind,
            None => { return None; },
        },
        None => { return None; },
    };
    match kind {
        MidiType::QcPreset => match (&found_map.qc_preset_id, found_map.setlist, found_map.midi_channel) {
            (Some(id), Some(_), Some(_)) => match check_qc_preset(id.as_str()) {
                Some(fault) => Some(rejection_message(kind, id.as_str(), fault)),
                None => None,
            },
            _ => None,
        },
        MidiType::Gt1000Preset => match (&found_map.gt1000_preset_id, found_map.midi_channel) {
            (Some(id), Some(_)) => match check_gt1000_preset(id.as_str()) {
                Some(fault) => Some(rejection_message(kind, id.as_str(), fault)),
                None => None,
            },
            _ => None,
        },
        _ => None,
    }
}

fn qc_sending_message(setlist: u32, id: &str, program: u32, channel: u32) -> (r: String)
    ensures
        r@ == qc_sending_text(setlist, id@, program, channel),
{
    let mut r = String::from_str("Sending QC Preset: Setlist ");
    push_decimal(&mut r, setlist);
    r.append(", Preset ");
    r.append(id);
    r.append(" -> PC: ");
    push_decimal(&mut r, program);
    r.append(" @ Ch: ");
    push_decimal(&mut r, channel);
    r
}

fn gt1000_sending_message(id: &str, select: (u32, u32, u32), channel: u32) -> (r: String)
    ensures
        r@ == gt1000_sending_text(id@, select, channel),
{
    let mut r = String::from_str("Sending GT-1000 Preset: ");
    r.append(id);
    r.append(" -> Bank MSB: ");
    push_decimal(&mut r, select.0);
    r.append(", Bank LSB: ");
    push_decimal(&mut r, select.1);
    r.append(", PC: ");
    push_decimal(&mut r, select.2);
    r.append(" @ Ch: ");
    push_decimal(&mut r, channel);
    r
}

/// Says in one line which preset `found_map` selects; `None` where the
/// rule is of no preset kind, lacks a field that its kind needs, or
/// has an identifier that selects nothing.
pub fn preset_announcement(found_map: &Mapping) -> (r: Option<String>)
    ensures
        text_of(r) == sending_line(found_map@),
{
    let kind = match &found_map.midi_type {
        Some(name) => match parse_midi_type(name.as_str()) {
            Some(kind) => kind,
            None => { return None; },
        },
        None => { return None; },
    };
    match kind {
        MidiType::QcPreset => match (&found_map.qc_preset_id, found_map.setlist, found_map.midi_channel) {
            (Some(id), Some(setlist), Some(channel)) => match send_qc_preset(id, &setlist, &channel) {
                Some(program) => Some(qc_sending_message(setlist, id.as_str(), program, channel)),
                None => None,
            },
            _ => None,
        },
        MidiType::Gt1000Preset => match (&found_map.gt1000_preset_id, found_map.midi_channel) {
            (Some(id), Some(channel)) => match send_gt1000_preset(id, &channel) {
                Some(select) => Some(gt1000_sending_message(id.as_str(), select, channel)),
                None => None,
            },
            _ => None,
        },
        _ => None,
    }
}

/// The line about the preset of `found_map`: that it is sent, or why
/// it is not.
pub fn preset_note(found_map: &Mapping) -> (r: Option<String>)
    ensures
        text_of(r) == preset_line(found_map@),
{
    match preset_rejection(found_map) {
        Some(line) => Some(line),
        None => preset_announcement(found_map),
    }
}

} // verus!
