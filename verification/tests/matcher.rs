use odisc::mapping::Mapping;
use odisc::matcher::{is_match, match_mappings};
use odisc::osc::{OscArg, OscMessage};

fn rule(address: &str, args: Option<&str>, comment: &str) -> Mapping {
    Mapping {
        osc_in_address: address.to_string(),
        osc_in_args: args.map(|a| a.to_string()),
        osc_out_address: None,
        osc_out_args: None,
        midi_channel: None,
        midi_type: None,
        midi_note: None,
        midi_velocity: None,
        midi_controller: None,
        midi_value: None,
        qc_preset_id: None,
        gt1000_preset_id: None,
        setlist: None,
        _comment: Some(comment.to_string()),
    }
}

fn message(address: &str, args: Vec<OscArg>) -> OscMessage {
    OscMessage { addr: address.to_string(), args }
}

fn comments(found: &[Mapping]) -> Vec<String> {
    found.iter().map(|m| m._comment.clone().unwrap()).collect()
}

fn table() -> Vec<Mapping> {
    vec![
        rule("/scene", None, "any"),
        rule("/scene", Some("a"), "a"),
        rule("/other", None, "other"),
        rule("/scene", Some(""), "empty"),
        rule("/scene", Some("b"), "b"),
        rule("/scene", Some("a"), "a again"),
    ]
}

#[test]
fn all_matches_fire_in_table_order() {
    let found = match_mappings(&table(), &message("/scene", vec![OscArg::Text("a".to_string())]));
    assert_eq!(comments(&found), vec!["any", "a", "empty", "a again"]);
}

#[test]
fn one_match() {
    let found = match_mappings(&table(), &message("/other", vec![]));
    assert_eq!(comments(&found), vec!["other"]);
}

#[test]
fn no_match_is_an_empty_result() {
    assert!(match_mappings(&table(), &message("/nothing", vec![])).is_empty());
    assert!(match_mappings(&[], &message("/scene", vec![])).is_empty());
}

#[test]
fn wildcard_rules_take_any_arguments() {
    let args = vec![OscArg::Int(1), OscArg::Float(0x3FC00000), OscArg::Other];
    let found = match_mappings(&table(), &message("/scene", args));
    assert_eq!(comments(&found), vec!["any", "empty"]);
    let found = match_mappings(&table(), &message("/scene", vec![]));
    assert_eq!(comments(&found), vec!["any", "empty"]);
}

#[test]
fn expected_text_needs_exactly_one_string_argument() {
    let m = rule("/scene", Some("a"), "a");
    assert!(is_match(&m, &message("/scene", vec![OscArg::Text("a".to_string())])));
    assert!(!is_match(&m, &message("/scene", vec![])));
    assert!(!is_match(&m, &message("/scene", vec![OscArg::Text("b".to_string())])));
    assert!(!is_match(&m, &message("/scene", vec![OscArg::Text("A".to_string())])));
    assert!(!is_match(&m, &message("/scene", vec![OscArg::Text("a".to_string()), OscArg::Text("a".to_string())])));
    assert!(!is_match(&m, &message("/scene", vec![OscArg::Text("a".to_string()), OscArg::Int(1)])));
    assert!(!is_match(&m, &message("/scene", vec![OscArg::Int(1)])));
    assert!(!is_match(&m, &message("/scene", vec![OscArg::Float(0)])));
    assert!(!is_match(&m, &message("/scene", vec![OscArg::Other])));
}

#[test]
fn addresses_are_compared_exactly() {
    let m = rule("/scene", None, "any");
    assert!(is_match(&m, &message("/scene", vec![])));
    assert!(!is_match(&m, &message("/Scene", vec![])));
    assert!(!is_match(&m, &message("/scene/", vec![])));
    assert!(!is_match(&m, &message("/scen", vec![])));
    assert!(!is_match(&m, &message("/*", vec![])));
    let wild = rule("/*", None, "star");
    assert!(!is_match(&wild, &message("/scene", vec![])));
}

#[test]
fn matched_rules_are_whole_copies() {
    let mut full = rule("/scene", None, "full");
    full.osc_out_address = Some("/out".to_string());
    full.osc_out_args = Some("1 two".to_string());
    full.midi_channel = Some(3);
    full.midi_type = Some("cc".to_string());
    full.midi_note = Some(4);
    full.midi_velocity = Some(5);
    full.midi_controller = Some(6);
    full.midi_value = Some(7);
    full.qc_preset_id = Some("1A".to_string());
    full.gt1000_preset_id = Some("U01-1".to_string());
    full.setlist = Some(8);
    let found = match_mappings(&[full], &message("/scene", vec![]));
    assert_eq!(found.len(), 1);
    let m = &found[0];
    assert_eq!(m.osc_in_address, "/scene");
    assert_eq!(m.osc_out_address.as_deref(), Some("/out"));
    assert_eq!(m.osc_out_args.as_deref(), Some("1 two"));
    assert_eq!(m.midi_channel, Some(3));
    assert_eq!(m.midi_type.as_deref(), Some("cc"));
    assert_eq!(m.midi_note, Some(4));
    assert_eq!(m.midi_velocity, Some(5));
    assert_eq!(m.midi_controller, Some(6));
    assert_eq!(m.midi_value, Some(7));
    assert_eq!(m.qc_preset_id.as_deref(), Some("1A"));
    assert_eq!(m.gt1000_preset_id.as_deref(), Some("U01-1"));
    assert_eq!(m.setlist, Some(8));
    assert_eq!(m._comment.as_deref(), Some("full"));
}
