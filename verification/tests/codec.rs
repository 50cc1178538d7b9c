//! Protocol codec: parsing, rendering, and status decoding.

use hydrobot::codec::{
    SerialCommand, SerialCommandResult, Status, PH_CONNECTED, STATUS_KNOWN_BITS, TDS_CONNECTED,
};

#[test]
fn parse_filtered_reading_with_status() {
    let r = SerialCommandResult::parse_line(b"ok G1 TDS1 512.5 STATUS 5\n");
    let expected = SerialCommandResult::G1 {
        tds_1: Some(512500),
        ph_1: None,
        t_1: None,
        status: Some(Status { bits: TDS_CONNECTED | PH_CONNECTED }),
    };
    assert_eq!(r, Some((expected, true)));
}

#[test]
fn parse_failed_valve_reply() {
    let r = SerialCommandResult::parse_line(b"err S0 OFF\n");
    assert_eq!(r, Some((SerialCommandResult::S0 { on: Some(false) }, false)));
}

#[test]
fn parse_valve_on_reply() {
    let r = SerialCommandResult::parse_line(b"ok S0 ON\n");
    assert_eq!(r, Some((SerialCommandResult::S0 { on: Some(true) }, true)));
}

#[test]
fn parse_aux_actuator_reply() {
    let r = SerialCommandResult::parse_line(b"ok S1 ON\n");
    assert_eq!(r, Some((SerialCommandResult::S1 { on: Some(true) }, true)));
}

#[test]
fn parse_is_whitespace_and_case_tolerant() {
    let r = SerialCommandResult::parse_line(b"  Ok   g1   tds1  42  \r\n");
    let expected =
        SerialCommandResult::G1 { tds_1: Some(42000), ph_1: None, t_1: None, status: None };
    assert_eq!(r, Some((expected, true)));
}

#[test]
fn parse_all_reading_keys_in_any_order() {
    let r = SerialCommandResult::parse_line(b"ok G1 T1 21.5 PH1 6.8 TDS1 512.5 STATUS 13\n");
    let expected = SerialCommandResult::G1 {
        tds_1: Some(512500),
        ph_1: Some(6800),
        t_1: Some(21500),
        status: Status::from_bits(13),
    };
    assert_eq!(r, Some((expected, true)));
    assert!(Status::from_bits(13).is_some());
}

#[test]
fn parse_raw_read_reply() {
    let r = SerialCommandResult::parse_line(b"ok G0 TDS1 100\n");
    let expected =
        SerialCommandResult::G0 { tds_1: Some(100000), ph_1: None, t_1: None, status: None };
    assert_eq!(r, Some((expected, true)));
}

#[test]
fn parse_rejects_malformed_lines() {
    // status token missing
    assert_eq!(SerialCommandResult::parse_line(b""), None);
    assert_eq!(SerialCommandResult::parse_line(b"   \n"), None);
    // opcode missing
    assert_eq!(SerialCommandResult::parse_line(b"ok\n"), None);
    // opcode unrecognised
    assert_eq!(SerialCommandResult::parse_line(b"ok Z9 1 2\n"), None);
    // unknown key inside a read body
    assert_eq!(SerialCommandResult::parse_line(b"ok G1 BOGUS 5\n"), None);
    // key without a value
    assert_eq!(SerialCommandResult::parse_line(b"ok G1 TDS1\n"), None);
    // unparsable reading
    assert_eq!(SerialCommandResult::parse_line(b"ok G1 TDS1 abc\n"), None);
    assert_eq!(SerialCommandResult::parse_line(b"ok G1 TDS1 1.2345\n"), None);
    // unparsable status word
    assert_eq!(SerialCommandResult::parse_line(b"ok G1 STATUS 99999999999\n"), None);
    assert_eq!(SerialCommandResult::parse_line(b"ok G1 STATUS -5\n"), None);
}

#[test]
fn parse_reading_number_forms() {
    let line = |tok: &str| {
        let mut l = b"ok G1 TDS1 ".to_vec();
        l.extend_from_slice(tok.as_bytes());
        l.push(b'\n');
        l
    };
    let tds = |r: Option<(SerialCommandResult, bool)>| match r {
        Some((SerialCommandResult::G1 { tds_1, .. }, true)) => tds_1,
        _ => panic!("expected a successful filtered reply"),
    };
    assert_eq!(tds(SerialCommandResult::parse_line(&line("512.5"))), Some(512500));
    assert_eq!(tds(SerialCommandResult::parse_line(&line("+1.5"))), Some(1500));
    assert_eq!(tds(SerialCommandResult::parse_line(&line("-0.25"))), Some(-250));
    assert_eq!(tds(SerialCommandResult::parse_line(&line(".5"))), Some(500));
    assert_eq!(tds(SerialCommandResult::parse_line(&line("5."))), Some(5000));
    assert_eq!(tds(SerialCommandResult::parse_line(&line("0"))), Some(0));
    assert_eq!(SerialCommandResult::parse_line(&line(".")), None);
    assert_eq!(SerialCommandResult::parse_line(&line("-")), None);
    assert_eq!(SerialCommandResult::parse_line(&line("1.2.3")), None);
}

#[test]
fn parse_keeps_status_none_on_unknown_bits() {
    // unknown bits reject the status field but not the line
    let r = SerialCommandResult::parse_line(b"ok G1 STATUS 32768\n");
    let expected = SerialCommandResult::G1 { tds_1: None, ph_1: None, t_1: None, status: None };
    assert_eq!(r, Some((expected, true)));
}

#[test]
fn status_decoding_totality() {
    // every set bit known: accepted and kept verbatim
    assert_eq!(Status::from_bits(0), Some(Status { bits: 0 }));
    assert_eq!(Status::from_bits(5), Some(Status { bits: 5 }));
    assert_eq!(Status::from_bits(STATUS_KNOWN_BITS), Some(Status { bits: STATUS_KNOWN_BITS }));
    // any unknown bit: the whole field is rejected
    assert_eq!(Status::from_bits(1 << 15), None);
    assert_eq!(Status::from_bits(STATUS_KNOWN_BITS | (1 << 31)), None);
    assert_eq!(Status::from_bits(2), None);
}

#[test]
fn render_commands() {
    assert_eq!(SerialCommand::G0.render(), b"G0\n".to_vec());
    assert_eq!(SerialCommand::G1.render(), b"G1\n".to_vec());
    assert_eq!(SerialCommand::S0 { on: true }.render(), b"S0 ON\n".to_vec());
    assert_eq!(SerialCommand::S0 { on: false }.render(), b"S0 OFF\n".to_vec());
}

#[test]
fn render_then_parse_round_trip() {
    for (cmd, expected) in [
        (SerialCommand::G1, SerialCommandResult::G1 {
            tds_1: None,
            ph_1: None,
            t_1: None,
            status: None,
        }),
        (SerialCommand::G0, SerialCommandResult::G0 {
            tds_1: None,
            ph_1: None,
            t_1: None,
            status: None,
        }),
        (SerialCommand::S0 { on: true }, SerialCommandResult::S0 { on: Some(true) }),
        (SerialCommand::S0 { on: false }, SerialCommandResult::S0 { on: Some(false) }),
    ] {
        let mut line = b"ok ".to_vec();
        line.extend_from_slice(&cmd.render());
        assert_eq!(SerialCommandResult::parse_line(&line), Some((expected, true)));
    }
}
