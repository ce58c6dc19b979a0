use gluesql_core::executor::{Payload, PayloadVariable};
use gluesql_java::json::{push_json_string, push_usize};
use gluesql_java::payload::{convert_payload, JavaPayload};

#[test]
fn string_literals_are_escaped() {
    let mut out = String::new();
    push_json_string(&mut out, "plain");
    assert_eq!(out, "\"plain\"");

    let mut out = String::new();
    push_json_string(&mut out, "a\"b\\c");
    assert_eq!(out, "\"a\\\"b\\\\c\"");

    let mut out = String::new();
    push_json_string(&mut out, "tab\tnl\ncr\r");
    assert_eq!(out, "\"tab\\tnl\\ncr\\r\"");

    let mut out = String::new();
    push_json_string(&mut out, "\u{8}\u{c}\u{1}\u{1f}");
    assert_eq!(out, "\"\\b\\f\\u0001\\u001f\"");

    let mut out = String::new();
    push_json_string(&mut out, "");
    assert_eq!(out, "\"\"");
}

#[test]
fn numbers_are_rendered_in_decimal() {
    let cases: Vec<(usize, &str)> = vec![
        (0, "0"),
        (7, "7"),
        (10, "10"),
        (255, "255"),
        (12345, "12345"),
        (18446744073709551615, "18446744073709551615"),
    ];
    for (n, expected) in cases {
        let mut out = String::new();
        push_usize(&mut out, n);
        assert_eq!(out, expected);
    }
}

#[test]
fn projector_emits_one_tagged_record_per_payload() {
    let payloads = vec![
        JavaPayload { payload: Payload::Create },
        JavaPayload { payload: Payload::Insert(2) },
        JavaPayload { payload: Payload::AlterTable },
    ];
    let out = convert_payload(payloads).expect("projection");
    let expected = String::from("[{\"type\":\"Create\",\"result\":\"Success\"},{\"type\":\"Insert\",\"inserted_rows\":2},{\"type\":\"AlterTable\",\"result\":\"Success\"}]");
    assert_eq!(out, expected);
}

#[test]
fn projector_emits_empty_array_for_no_payloads() {
    let out = convert_payload(Vec::new()).expect("projection");
    assert_eq!(out, "[]");
}

#[test]
fn projector_renders_show_variable_version() {
    let payloads = vec![JavaPayload {
        payload: Payload::ShowVariable(PayloadVariable::Version(String::from("1.0"))),
    }];
    let out = convert_payload(payloads).expect("projection");
    assert_eq!(
        out,
        "[{\"type\":\"ShowVariable\",\"variable\":{\"Version\":\"1.0\"}}]"
    );
}

#[test]
fn projector_escapes_labels() {
    let payloads = vec![JavaPayload {
        payload: Payload::Select {
            labels: vec![String::from("a\"b")],
            rows: Vec::new(),
        },
    }];
    let out = convert_payload(payloads).expect("projection");
    assert_eq!(
        out,
        "[{\"type\":\"Select\",\"labels\":[\"a\\\"b\"],\"rows\":[]}]"
    );
}
