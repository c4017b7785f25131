use odisc::mapping::Mapping;
use odisc::midi::{
    handle_midi_message, parse_midi_type, preset_announcement, preset_note, preset_rejection, status,
    MidiType,
};

fn rule(midi_type: &str) -> Mapping {
    Mapping {
        osc_in_address: "/in".to_string(),
        osc_in_args: None,
        osc_out_address: None,
        osc_out_args: None,
        midi_channel: None,
        midi_type: Some(midi_type.to_string()),
        midi_note: None,
        midi_velocity: None,
        midi_controller: None,
        midi_value: None,
        qc_preset_id: None,
        gt1000_preset_id: None,
        setlist: None,
        _comment: None,
    }
}

#[test]
fn note_on_bytes() {
    let m = Mapping { midi_channel: Some(1), midi_note: Some(60), midi_velocity: Some(100), ..rule("note_on") };
    assert_eq!(handle_midi_message(&m), vec![vec![0x90, 60, 100]]);
    let m = Mapping { midi_channel: Some(16), midi_note: Some(127), midi_velocity: Some(0), ..rule("note_on") };
    assert_eq!(handle_midi_message(&m), vec![vec![0x9F, 127, 0]]);
}

#[test]
fn note_off_bytes() {
    let m = Mapping { midi_channel: Some(3), midi_note: Some(61), midi_velocity: Some(64), ..rule("note_off") };
    assert_eq!(handle_midi_message(&m), vec![vec![0x82, 61, 64]]);
}

#[test]
fn control_change_bytes() {
    let m = Mapping { midi_channel: Some(10), midi_controller: Some(7), midi_value: Some(99), ..rule("cc") };
    assert_eq!(handle_midi_message(&m), vec![vec![0xB9, 7, 99]]);
}

#[test]
fn control_change_value_defaults_to_zero() {
    let m = Mapping { midi_channel: Some(2), midi_controller: Some(64), ..rule("cc") };
    assert_eq!(handle_midi_message(&m), vec![vec![0xB1, 64, 0]]);
}

#[test]
fn program_change_bytes() {
    let m = Mapping { midi_channel: Some(5), midi_value: Some(42), ..rule("pc") };
    assert_eq!(handle_midi_message(&m), vec![vec![0xC4, 42]]);
    let m = Mapping { midi_channel: Some(5), ..rule("pc") };
    assert_eq!(handle_midi_message(&m), vec![vec![0xC4, 0]]);
}

#[test]
fn quad_cortex_preset_sequence() {
    let m = Mapping {
        midi_channel: Some(2),
        qc_preset_id: Some("12D".to_string()),
        setlist: Some(3),
        ..rule("qc_preset")
    };
    assert_eq!(handle_midi_message(&m), vec![vec![0xB1, 0, 0], vec![0xB1, 32, 3], vec![0xC1, 91]]);
    let m = Mapping {
        midi_channel: Some(1),
        qc_preset_id: Some("32H".to_string()),
        setlist: Some(0),
        ..rule("qc_preset")
    };
    assert_eq!(handle_midi_message(&m), vec![vec![0xB0, 0, 0], vec![0xB0, 32, 0], vec![0xC0, 255]]);
}

#[test]
fn quad_cortex_setlist_is_truncated() {
    let m = Mapping {
        midi_channel: Some(1),
        qc_preset_id: Some("1A".to_string()),
        setlist: Some(258),
        ..rule("qc_preset")
    };
    assert_eq!(handle_midi_message(&m), vec![vec![0xB0, 0, 0], vec![0xB0, 32, 2], vec![0xC0, 0]]);
}

#[test]
fn gt1000_preset_sequence() {
    let m = Mapping { midi_channel: Some(1), gt1000_preset_id: Some("U01-1".to_string()), ..rule("gt1000_preset") };
    assert_eq!(handle_midi_message(&m), vec![vec![0xB0, 0, 0], vec![0xB0, 32, 0], vec![0xC0, 0]]);
    let m = Mapping { midi_channel: Some(4), gt1000_preset_id: Some("P50-5".to_string()), ..rule("gt1000_preset") };
    assert_eq!(handle_midi_message(&m), vec![vec![0xB3, 0, 0], vec![0xB3, 32, 99], vec![0xC3, 4]]);
}

#[test]
fn missing_fields_are_skipped() {
    let none: Vec<Vec<u8>> = Vec::new();
    assert_eq!(handle_midi_message(&Mapping { midi_note: Some(1), midi_velocity: Some(1), ..rule("note_on") }), none);
    assert_eq!(handle_midi_message(&Mapping { midi_channel: Some(1), midi_velocity: Some(1), ..rule("note_on") }), none);
    assert_eq!(handle_midi_message(&Mapping { midi_channel: Some(1), midi_note: Some(1), ..rule("note_off") }), none);
    assert_eq!(handle_midi_message(&Mapping { midi_channel: Some(1), ..rule("cc") }), none);
    assert_eq!(handle_midi_message(&Mapping { midi_controller: Some(1), ..rule("cc") }), none);
    assert_eq!(handle_midi_message(&Mapping { midi_value: Some(1), ..rule("pc") }), none);
    assert_eq!(handle_midi_message(&Mapping { midi_channel: Some(1), setlist: Some(1), ..rule("qc_preset") }), none);
    assert_eq!(handle_midi_message(&Mapping { midi_channel: Some(1), qc_preset_id: Some("1A".to_string()), ..rule("qc_preset") }), none);
    assert_eq!(handle_midi_message(&Mapping { setlist: Some(1), qc_preset_id: Some("1A".to_string()), ..rule("qc_preset") }), none);
    assert_eq!(handle_midi_message(&Mapping { midi_channel: Some(1), ..rule("gt1000_preset") }), none);
    assert_eq!(handle_midi_message(&Mapping { gt1000_preset_id: Some("U01-1".to_string()), ..rule("gt1000_preset") }), none);
}

#[test]
fn unknown_or_absent_kind_has_no_message() {
    let none: Vec<Vec<u8>> = Vec::new();
    let full = Mapping { midi_channel: Some(1), midi_note: Some(1), midi_velocity: Some(1), ..rule("Note_On") };
    assert_eq!(handle_midi_message(&full), none);
    let full = Mapping { midi_type: None, midi_channel: Some(1), midi_note: Some(1), midi_velocity: Some(1), ..rule("") };
    assert_eq!(handle_midi_message(&full), none);
}

#[test]
fn invalid_preset_sends_nothing() {
    let none: Vec<Vec<u8>> = Vec::new();
    let m = Mapping { midi_channel: Some(1), qc_preset_id: Some("33A".to_string()), setlist: Some(1), ..rule("qc_preset") };
    assert_eq!(handle_midi_message(&m), none);
    let m = Mapping { midi_channel: Some(1), qc_preset_id: Some("bad".to_string()), setlist: Some(1), ..rule("qc_preset") };
    assert_eq!(handle_midi_message(&m), none);
    let m = Mapping { midi_channel: Some(1), gt1000_preset_id: Some("U99-1".to_string()), ..rule("gt1000_preset") };
    assert_eq!(handle_midi_message(&m), none);
}

#[test]
fn channel_is_one_based_and_saturates() {
    assert_eq!(status(0x90, 1), 0x90);
    assert_eq!(status(0x90, 16), 0x9F);
    assert_eq!(status(0x90, 0), 0x90);
    assert_eq!(status(0xB0, 9), 0xB8);
    assert_eq!(status(0xC0, 256), 0xC0);
    assert_eq!(status(0x80, 257), 0x80);
    assert_eq!(status(0x80, 258), 0x81);
}

#[test]
fn data_values_keep_their_low_byte() {
    let m = Mapping { midi_channel: Some(1), midi_note: Some(256 + 60), midi_velocity: Some(512 + 7), ..rule("note_on") };
    assert_eq!(handle_midi_message(&m), vec![vec![0x90, 60, 7]]);
}

#[test]
fn kinds_by_name() {
    assert_eq!(parse_midi_type("note_on"), Some(MidiType::NoteOn));
    assert_eq!(parse_midi_type("note_off"), Some(MidiType::NoteOff));
    assert_eq!(parse_midi_type("cc"), Some(MidiType::Cc));
    assert_eq!(parse_midi_type("pc"), Some(MidiType::Pc));
    assert_eq!(parse_midi_type("qc_preset"), Some(MidiType::QcPreset));
    assert_eq!(parse_midi_type("gt1000_preset"), Some(MidiType::Gt1000Preset));
    assert_eq!(parse_midi_type("NOTE_ON"), None);
    assert_eq!(parse_midi_type(""), None);
    assert_eq!(parse_midi_type("note"), None);
}

#[test]
fn rejected_presets_are_told_apart() {
    let m = Mapping { midi_channel: Some(1), qc_preset_id: Some("x".to_string()), setlist: Some(1), ..rule("qc_preset") };
    assert_eq!(
        preset_rejection(&m),
        Some("Invalid Quad Cortex preset format: x. Expected format like '1A', '12D', etc.".to_string())
    );
    let m = Mapping { midi_channel: Some(1), qc_preset_id: Some("33A".to_string()), setlist: Some(1), ..rule("qc_preset") };
    assert_eq!(
        preset_rejection(&m),
        Some("Invalid Quad Cortex preset value: 33A. Bank must be 1-32.".to_string())
    );
    let m = Mapping { midi_channel: Some(1), gt1000_preset_id: Some("Q1-1".to_string()), ..rule("gt1000_preset") };
    assert_eq!(
        preset_rejection(&m),
        Some("Invalid GT-1000 preset format: Q1-1. Expected format like 'U01-1' or 'P50-5'.".to_string())
    );
    let m = Mapping { midi_channel: Some(1), gt1000_preset_id: Some("U99-1".to_string()), ..rule("gt1000_preset") };
    assert_eq!(
        preset_rejection(&m),
        Some("Invalid GT-1000 preset value: U99-1. Bank must be 1-50, patch 1-5.".to_string())
    );
}

#[test]
fn nothing_is_said_of_accepted_or_skipped_presets() {
    let m = Mapping { midi_channel: Some(1), qc_preset_id: Some("1A".to_string()), setlist: Some(1), ..rule("qc_preset") };
    assert_eq!(preset_rejection(&m), None);
    let m = Mapping { qc_preset_id: Some("bad".to_string()), setlist: Some(1), ..rule("qc_preset") };
    assert_eq!(preset_rejection(&m), None);
    let m = Mapping { midi_channel: Some(1), midi_note: Some(1), midi_velocity: Some(1), ..rule("note_on") };
    assert_eq!(preset_rejection(&m), None);
    let m = Mapping { midi_type: None, ..rule("") };
    assert_eq!(preset_rejection(&m), None);
}

#[test]
fn sent_presets_are_announced() {
    let m = Mapping { midi_channel: Some(2), qc_preset_id: Some("12D".to_string()), setlist: Some(3), ..rule("qc_preset") };
    let line = "Sending QC Preset: Setlist 3, Preset 12D -> PC: 91 @ Ch: 2";
    assert_eq!(preset_announcement(&m), Some(line.to_string()));
    assert_eq!(preset_note(&m), Some(line.to_string()));
    let m = Mapping { midi_channel: Some(16), gt1000_preset_id: Some("P50-5".to_string()), ..rule("gt1000_preset") };
    let line = "Sending GT-1000 Preset: P50-5 -> Bank MSB: 0, Bank LSB: 99, PC: 4 @ Ch: 16";
    assert_eq!(preset_announcement(&m), Some(line.to_string()));
    assert_eq!(preset_note(&m), Some(line.to_string()));
}

#[test]
fn rejected_or_skipped_presets_are_not_announced() {
    let m = Mapping { midi_channel: Some(2), qc_preset_id: Some("33A".to_string()), setlist: Some(3), ..rule("qc_preset") };
    assert_eq!(preset_announcement(&m), None);
    assert_eq!(preset_note(&m), Some("Invalid Quad Cortex preset value: 33A. Bank must be 1-32.".to_string()));
    let m = Mapping { qc_preset_id: Some("1A".to_string()), setlist: Some(3), ..rule("qc_preset") };
    assert_eq!(preset_announcement(&m), None);
    assert_eq!(preset_note(&m), None);
    let m = Mapping { midi_channel: Some(1), midi_value: Some(1), ..rule("pc") };
    assert_eq!(preset_announcement(&m), None);
    assert_eq!(preset_note(&m), None);
}
