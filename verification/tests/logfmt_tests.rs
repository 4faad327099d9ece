use snowbridge_smoketest::event::EventLog;
use snowbridge_smoketest::logfmt::{event_log_lines, hex_string};

#[test]
fn hex_renders_lowercase_two_digits_per_byte() {
    assert_eq!(hex_string(&vec![]), "");
    assert_eq!(hex_string(&vec![0x00]), "00");
    assert_eq!(hex_string(&vec![0xAB, 0x0F, 0x10]), "ab0f10");
    assert_eq!(hex_string(&vec![0xDE, 0xAD, 0xBE, 0xEF]), "deadbeef");
}

#[test]
fn hex_agrees_with_the_encoder_it_relies_on() {
    let bytes: Vec<u8> = (0u16..=255).map(|b| b as u8).collect();
    assert_eq!(hex_string(&bytes), hex::encode(&bytes));
}

#[test]
fn event_log_lines_render_the_fixture() {
    let log = EventLog {
        address: vec![0x12, 0x34],
        topics: vec![vec![0xAA, 0xBB], vec![0xCC]],
        data: vec![0x01, 0x02, 0x03],
    };
    let lines = event_log_lines(&log);
    let expected: Vec<String> = vec![
        "Log {".to_string(),
        "\taddress: hex!(\"1234\").into(),".to_string(),
        "\ttopics: vec![".to_string(),
        "\t\thex!(\"aabb\").into(),".to_string(),
        "\t\thex!(\"cc\").into(),".to_string(),
        "\t],".to_string(),
        "\tdata: hex!(\"010203\").into(),".to_string(),
        "}".to_string(),
    ];
    assert_eq!(lines, expected);
}

#[test]
fn event_log_lines_without_topics() {
    let log = EventLog { address: vec![], topics: vec![], data: vec![] };
    let lines = event_log_lines(&log);
    let expected: Vec<String> = vec![
        "Log {".to_string(),
        "\taddress: hex!(\"\").into(),".to_string(),
        "\ttopics: vec![".to_string(),
        "\t],".to_string(),
        "\tdata: hex!(\"\").into(),".to_string(),
        "}".to_string(),
    ];
    assert_eq!(lines, expected);
}
