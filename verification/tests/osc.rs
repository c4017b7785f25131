use odisc::osc::{
    address_datagram, classify_token, incoming_osc_handler, outbound_port, outgoing_osc_handler,
    parse_out_args, DecodeError, OscArg, OscPacket, OutArg, OutboundError, MAX_DATAGRAM,
};
use rosc::{OscBundle, OscMessage, OscTime, OscType};

fn decode_message(bytes: &[u8]) -> (String, Vec<OscArg>) {
    match incoming_osc_handler(bytes) {
        Ok(OscPacket::Message(m)) => (m.addr, m.args),
        other => panic!("no message: {:?}", other),
    }
}

fn shape(args: &[OscArg]) -> Vec<String> {
    args.iter().map(|a| format!("{:?}", a)).collect()
}

fn out_shape(args: &[OutArg]) -> Vec<String> {
    args.iter().map(|a| format!("{:?}", a)).collect()
}

#[test]
fn encoded_message_has_the_osc_layout() {
    let d = outgoing_osc_handler("/a", Some("1.5 hi"), "127.0.0.1", &7001).unwrap();
    let mut expected = b"/a\0\0,fs\0".to_vec();
    expected.extend_from_slice(&[0x3F, 0xC0, 0, 0]);
    expected.extend_from_slice(b"hi\0\0");
    assert_eq!(d.payload, expected);
    assert_eq!(d.host, "127.0.0.1");
    assert_eq!(d.port, 7001);
}

#[test]
fn message_without_arguments() {
    for args in [None, Some(""), Some("   "), Some("\t\n")] {
        let d = outgoing_osc_handler("/ping", args, "host", &9000).unwrap();
        assert_eq!(d.payload, b"/ping\0\0\0,\0\0\0".to_vec());
    }
}

#[test]
fn encode_then_decode_gives_the_message_back() {
    let d = outgoing_osc_handler("/mixer/ch/1", Some("0.25 mute -3 1e2 name"), "h", &1).unwrap();
    let (addr, args) = decode_message(&d.payload);
    assert_eq!(addr, "/mixer/ch/1");
    assert_eq!(args.len(), 5);
    let floats: Vec<Option<f32>> = args
        .iter()
        .map(|a| match a {
            OscArg::Float(bits) => Some(f32::from_bits(*bits)),
            _ => None,
        })
        .collect();
    assert_eq!(floats, vec![Some(0.25), None, Some(-3.0), Some(100.0), None]);
    assert_eq!(shape(&args)[1], "Text(\"mute\")");
    assert_eq!(shape(&args)[4], "Text(\"name\")");
}

#[test]
fn tokens_that_read_as_numbers_become_numbers() {
    let args = parse_out_args("1 -2.5 .5 5. 1e3 inf NaN +7 x 1a 0x10 1,5 -");
    assert_eq!(
        out_shape(&args),
        vec![
            "Number(\"1\")",
            "Number(\"-2.5\")",
            "Number(\".5\")",
            "Number(\"5.\")",
            "Number(\"1e3\")",
            "Number(\"inf\")",
            "Number(\"NaN\")",
            "Number(\"+7\")",
            "Text(\"x\")",
            "Text(\"1a\")",
            "Text(\"0x10\")",
            "Text(\"1,5\")",
            "Text(\"-\")",
        ]
    );
}

#[test]
fn tokens_are_classified_as_std_parses_them() {
    let text = "1 -2.5 .5 5. 1e3 1e 1e+ e1 . inf -inf infinity nan +7 x 1a 0x10 1_0 ١ 1.2.3 --1";
    let args = parse_out_args(text);
    let expected: Vec<String> = text
        .split_whitespace()
        .map(|t| if t.parse::<f32>().is_ok() { format!("Number({:?})", t) } else { format!("Text({:?})", t) })
        .collect();
    assert_eq!(out_shape(&args), expected);
}

#[test]
fn more_arguments_than_fit_in_place() {
    let args = parse_out_args("1 2 3 4 5 6 7 8 9 10 eleven 12");
    assert_eq!(args.len(), 12);
    assert_eq!(out_shape(&args)[0], "Number(\"1\")");
    assert_eq!(out_shape(&args)[8], "Number(\"9\")");
    assert_eq!(out_shape(&args)[10], "Text(\"eleven\")");
    assert_eq!(out_shape(&args)[11], "Number(\"12\")");
}

#[test]
fn no_arguments_from_blank_text() {
    assert!(parse_out_args("").is_empty());
    assert!(parse_out_args(" \t ").is_empty());
}

#[test]
fn classify_keeps_the_token() {
    assert_eq!(format!("{:?}", classify_token("1.5".to_string(), true)), "Number(\"1.5\")");
    assert_eq!(format!("{:?}", classify_token("1.5".to_string(), false)), "Text(\"1.5\")");
}

#[test]
fn synth_fx_goes_to_the_next_port() {
    assert_eq!(outbound_port("/synth/fx/reverb", 7001), Some(7002));
    assert_eq!(outbound_port("synth/fx", 0), Some(1));
    assert_eq!(outbound_port("/a/synth/fx", 65534), Some(65535));
    let d = outgoing_osc_handler("/synth/fx/1", None, "10.0.0.2", &7001).unwrap();
    assert_eq!(d.port, 7002);
    assert_eq!(d.host, "10.0.0.2");
}

#[test]
fn other_addresses_keep_the_port() {
    assert_eq!(outbound_port("/synth/f", 7001), Some(7001));
    assert_eq!(outbound_port("/synth/FX", 7001), Some(7001));
    assert_eq!(outbound_port("/mixer", 65535), Some(65535));
    assert_eq!(outbound_port("", 7001), Some(7001));
    let d = outgoing_osc_handler("/mixer", None, "10.0.0.2", &7001).unwrap();
    assert_eq!(d.port, 7001);
}

#[test]
fn no_port_after_the_last() {
    assert_eq!(outbound_port("/synth/fx", 65535), None);
    assert_eq!(outgoing_osc_handler("/synth/fx", None, "h", &65535).unwrap_err(), OutboundError::NoSuchPort);
    assert_eq!(address_datagram("/synth/fx", "h", 65535, vec![1]).unwrap_err(), OutboundError::NoSuchPort);
}

#[test]
fn addressed_datagram_keeps_its_payload() {
    let d = address_datagram("/x", "host", 9, vec![1, 2, 3]).unwrap();
    assert_eq!((d.host.as_str(), d.port, d.payload), ("host", 9, vec![1, 2, 3]));
    let d = address_datagram("/synth/fx", "host", 9, vec![4]).unwrap();
    assert_eq!((d.host.as_str(), d.port, d.payload), ("host", 10, vec![4]));
}

#[test]
fn decodes_a_message_with_typed_arguments() {
    let packet = rosc::OscPacket::Message(OscMessage {
        addr: "/scene/1".to_string(),
        args: vec![
            OscType::String("go".to_string()),
            OscType::Float(1.5),
            OscType::Int(-7),
            OscType::Bool(true),
            OscType::Long(9),
        ],
    });
    let bytes = rosc::encoder::encode(&packet).unwrap();
    let (addr, args) = decode_message(&bytes);
    assert_eq!(addr, "/scene/1");
    assert_eq!(
        shape(&args),
        vec!["Text(\"go\")", "Float(1069547520)", "Int(-7)", "Other", "Other"]
    );
}

#[test]
fn decodes_a_message_without_arguments() {
    let (addr, args) = decode_message(b"/ping\0\0\0,\0\0\0");
    assert_eq!(addr, "/ping");
    assert!(args.is_empty());
}

#[test]
fn a_bundle_is_recognised() {
    let bundle = rosc::OscPacket::Bundle(OscBundle {
        timetag: OscTime { seconds: 1, fractional: 2 },
        content: vec![rosc::OscPacket::Message(OscMessage { addr: "/a".to_string(), args: vec![] })],
    });
    let bytes = rosc::encoder::encode(&bundle).unwrap();
    assert!(matches!(incoming_osc_handler(&bytes), Ok(OscPacket::Bundle)));
}

#[test]
fn malformed_bytes_give_an_error() {
    for bytes in [&b""[..], &b"\0\0\0\0"[..], &b"hello"[..], &b"/unterminated"[..], &b"/a\0\0,f\0\0\x01"[..], &[0xFF, 0xFE, 0, 0][..]] {
        assert!(matches!(incoming_osc_handler(bytes), Err(DecodeError::Malformed(_))), "{:?}", bytes);
    }
}

#[test]
fn malformed_error_says_what_was_found() {
    match incoming_osc_handler(b"") {
        Err(DecodeError::Malformed(text)) => assert!(!text.is_empty()),
        other => panic!("{:?}", other),
    }
}

#[test]
fn oversized_datagram_is_not_decoded() {
    let mut bytes = b"/ping\0\0\0,\0\0\0".to_vec();
    bytes.resize(MAX_DATAGRAM + 1, 0);
    assert!(matches!(incoming_osc_handler(&bytes), Err(DecodeError::Oversized)));
    bytes.truncate(MAX_DATAGRAM);
    assert!(matches!(incoming_osc_handler(&bytes), Ok(OscPacket::Message(_))));
}
