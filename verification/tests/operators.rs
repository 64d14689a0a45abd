use gpubsub_consumer::input::Input;
use gpubsub_consumer::op::file::event_line;
use gpubsub_consumer::op::generic::Generic;
use gpubsub_consumer::op::json::{parsed, rendered, Parser, Renderer};
use gpubsub_consumer::op::offramp::Offramp;
use gpubsub_consumer::op::route::{Config, Op};
use gpubsub_consumer::output::{DebugBucket, Output};
use gpubsub_consumer::pipeline::{
    ConfValue, EventData, EventResult, EventValue, OpError, ValueType,
};

fn raw(bytes: &[u8]) -> EventData {
    EventData { value: EventValue::Raw(bytes.to_vec()) }
}

fn route_config() -> Config {
    Config {
        var: "tier".to_string(),
        vals: vec![
            ConfValue::String("gold".to_string()),
            ConfValue::Number(7),
            ConfValue::String("silver".to_string()),
            ConfValue::Null,
            ConfValue::Bool(true),
            ConfValue::String("gold".to_string()),
        ],
    }
}

#[test]
fn fire_and_forget_is_an_option() {
    assert!(Input::new("fire-and-forget").is_fire_and_forget());
    assert!(!Input::new("").is_fire_and_forget());
    assert!(!Input::new("fire-and-forget ").is_fire_and_forget());
    assert!(!Input::new("Fire-and-forget").is_fire_and_forget());
}

#[test]
fn the_parser_reads_a_document() {
    let mut parser = Parser::create(&ConfValue::Null).expect("a parser");
    match parser.on_event(raw(b"{\"a\": [1, true, null]}")) {
        EventResult::Next(EventData { value: EventValue::JSON(doc) }) => {
            let a = doc.get("a").expect("the key");
            assert_eq!(a.get(0).and_then(|n| n.as_i64()), Some(1));
            assert_eq!(a.get(1).and_then(|b| b.as_bool()), Some(true));
            assert!(a.get(2).expect("the third").is_null());
        }
        other => panic!("unexpected: {:?}", other),
    }
}

#[test]
fn the_parser_fails_on_what_is_no_document() {
    let mut parser = Parser::create(&ConfValue::Null).expect("a parser");
    assert!(matches!(parser.on_event(raw(b"{\"a\": ")), EventResult::Error(OpError::Json(_))));
}

#[test]
fn the_parser_refuses_a_document() {
    let mut parser = Parser::create(&ConfValue::Null).expect("a parser");
    let event = EventData { value: EventValue::JSON(serde_json::Value::Null) };
    match parser.on_event(event) {
        EventResult::Error(OpError::Type(op, got, wanted)) => {
            assert_eq!(op, "parse::json");
            assert_eq!(got, ValueType::JSON);
            assert_eq!(wanted, ValueType::Raw);
        }
        other => panic!("unexpected: {:?}", other),
    }
}

#[test]
fn the_renderer_writes_a_document() {
    let mut renderer = Renderer::create(&ConfValue::Null).expect("a renderer");
    let doc: serde_json::Value =
        serde_json::from_slice(b" { \"a\" : [ 1 , true ] } ").expect("a document");
    match renderer.on_event(EventData { value: EventValue::JSON(doc) }) {
        EventResult::Next(EventData { value: EventValue::Raw(bytes) }) => {
            assert_eq!(bytes, b"{\"a\":[1,true]}".to_vec())
        }
        other => panic!("unexpected: {:?}", other),
    }
}

#[test]
fn the_renderer_refuses_raw_bytes() {
    let mut renderer = Renderer::create(&ConfValue::Null).expect("a renderer");
    match renderer.on_event(raw(b"{}")) {
        EventResult::Error(OpError::Type(op, got, wanted)) => {
            assert_eq!(op, "render::json");
            assert_eq!(got, ValueType::Raw);
            assert_eq!(wanted, ValueType::JSON);
        }
        other => panic!("unexpected: {:?}", other),
    }
}

#[test]
fn the_kind_of_a_payload() {
    assert_eq!(raw(b"").value.t(), ValueType::Raw);
    assert_eq!(EventValue::JSON(serde_json::Value::Null).t(), ValueType::JSON);
}

#[test]
fn outputs_are_numbered_from_three_over_the_strings() {
    let op = Op::create(route_config()).expect("an operator");
    assert_eq!(op.route("silver"), Some(4));
    assert_eq!(op.route("bronze"), None);
    assert_eq!(op.route("7"), None);
    assert_eq!(op.route(""), None);
}

#[test]
fn the_last_of_two_equal_strings_decides() {
    let op = Op::create(route_config()).expect("an operator");
    assert_eq!(op.route("gold"), Some(5));
}

#[test]
fn an_event_leaves_by_the_output_of_its_value() {
    let mut op = Op::create(route_config()).expect("an operator");
    match op.on_event(raw(b"e"), Some("silver")) {
        EventResult::NextID(4, EventData { value: EventValue::Raw(bytes) }) => {
            assert_eq!(bytes, b"e".to_vec())
        }
        other => panic!("unexpected: {:?}", other),
    }
    assert!(matches!(op.on_event(raw(b"e"), Some("lead")), EventResult::Next(_)));
    assert!(matches!(op.on_event(raw(b"e"), None), EventResult::Next(_)));
}

#[test]
fn without_values_every_event_goes_on() {
    let mut op = Op::create(Config { var: "v".to_string(), vals: vec![] }).expect("an operator");
    assert_eq!(op.route("gold"), None);
    assert!(matches!(op.on_event(raw(b"e"), Some("gold")), EventResult::Next(_)));
}

#[test]
fn generic_operators_go_by_name() {
    assert!(matches!(Generic::create("copy", None), Ok(Generic::Copy)));
    assert!(matches!(Generic::create("count", None), Ok(Generic::Count)));
    match Generic::create("route", Some(route_config())) {
        Ok(Generic::Route(op)) => assert_eq!(op.route("gold"), Some(5)),
        other => panic!("unexpected: {:?}", other),
    }
    assert!(matches!(Generic::create("route", None), Err(OpError::BadOptions(_))));
}

#[test]
fn an_unknown_generic_operator_is_refused() {
    match Generic::create("shuffle", None) {
        Err(OpError::UnknownOp(group, name)) => {
            assert_eq!(group, "op");
            assert_eq!(name, "shuffle");
        }
        other => panic!("unexpected: {:?}", other),
    }
}

#[test]
fn offramps_go_by_name() {
    assert!(matches!(Offramp::create("debug"), Ok(Offramp::Debug)));
    assert!(matches!(Offramp::create("elastic"), Ok(Offramp::Elastic)));
    assert!(matches!(Offramp::create("file"), Ok(Offramp::File)));
    assert!(matches!(Offramp::create("gcs"), Ok(Offramp::GCS)));
    assert!(matches!(Offramp::create("influx"), Ok(Offramp::Influx)));
    assert!(matches!(Offramp::create("kafka"), Ok(Offramp::Kafka)));
    assert!(matches!(Offramp::create("null"), Ok(Offramp::Null)));
    assert!(matches!(Offramp::create("stdout"), Ok(Offramp::Stdout)));
    assert!(matches!(Offramp::create("gpub"), Ok(Offramp::Gpub)));
}

#[test]
fn an_unknown_offramp_is_refused() {
    match Offramp::create("carrier-pigeon") {
        Err(OpError::UnknownOp(group, name)) => {
            assert_eq!(group, "offramp");
            assert_eq!(name, "carrier-pigeon");
        }
        other => panic!("unexpected: {:?}", other),
    }
}

#[test]
fn the_file_gets_the_payload_and_a_line_end() {
    assert_eq!(event_line(&raw(b"abc")).expect("a line"), b"abc\n".to_vec());
    assert_eq!(event_line(&raw(b"")).expect("a line"), b"\n".to_vec());
}

#[test]
fn the_file_refuses_a_document() {
    let event = EventData { value: EventValue::JSON(serde_json::Value::Null) };
    match event_line(&event) {
        Err(OpError::Type(op, got, wanted)) => {
            assert_eq!(op, "offramp::file");
            assert_eq!(got, ValueType::JSON);
            assert_eq!(wanted, ValueType::Raw);
        }
        other => panic!("unexpected: {:?}", other),
    }
}

#[test]
fn the_debug_output_counts_by_classification() {
    let mut output = Output::new("", 0);
    assert!(output.send("a", false, 1).is_none());
    assert!(output.send("b", true, 2).is_none());
    assert!(output.send("a", false, 3).is_none());
    assert!(output.send("a", true, 4).is_none());
    let report = output.send("c", false, 1_000_000_001).expect("a report is due");
    assert_eq!(report.pass, 2);
    assert_eq!(report.drop, 2);
    assert_eq!(
        report.rows,
        vec![
            ("a".to_string(), DebugBucket { pass: 2, drop: 1 }),
            ("b".to_string(), DebugBucket { pass: 0, drop: 1 }),
        ]
    );
    // The message that found the report due counts in the new interval.
    let report = output.send("c", true, 2_000_000_002).expect("a report is due");
    assert_eq!(report.pass, 1);
    assert_eq!(report.drop, 0);
    assert_eq!(report.rows, vec![("c".to_string(), DebugBucket { pass: 1, drop: 0 })]);
}

#[test]
fn the_debug_output_reports_only_after_more_than_a_second() {
    let mut output = Output::new("ignored", 10);
    assert!(output.send("a", false, 1_000_000_010).is_none());
    assert!(output.send("a", false, 5).is_none());
    assert!(output.send("a", false, 1_000_000_011).is_some());
}

#[test]
fn a_read_document_goes_on_and_a_failure_ends_the_event() {
    assert!(matches!(
        parsed(Ok(serde_json::Value::Bool(true))),
        EventResult::Next(EventData { value: EventValue::JSON(serde_json::Value::Bool(true)) })
    ));
    let failure = serde_json::from_slice::<serde_json::Value>(b"{").expect_err("no document");
    assert!(matches!(parsed(Err(failure)), EventResult::Error(OpError::Json(_))));
    match rendered(Ok(vec![1, 2])) {
        EventResult::Next(EventData { value: EventValue::Raw(bytes) }) => {
            assert_eq!(bytes, vec![1u8, 2])
        }
        other => panic!("unexpected: {:?}", other),
    }
    let failure = serde_json::from_slice::<serde_json::Value>(b"[").expect_err("no document");
    assert!(matches!(rendered(Err(failure)), EventResult::Error(OpError::Json(_))));
}

#[test]
fn a_type_error_names_the_operator_and_both_kinds() {
    match gpubsub_consumer::pipeline::type_error("here", ValueType::Raw, ValueType::JSON) {
        OpError::Type(op, got, wanted) => {
            assert_eq!(op, "here");
            assert_eq!(got, ValueType::Raw);
            assert_eq!(wanted, ValueType::JSON);
        }
        other => panic!("unexpected: {:?}", other),
    }
}

#[test]
fn the_debug_output_keeps_its_totals() {
    let mut output = Output::new("", 7);
    assert_eq!(output.totals(), (0, 0));
    output.send("a", false, 8);
    output.send("a", true, 9);
    output.send("b", true, 9);
    assert_eq!(output.totals(), (1, 2));
}
