use cargo_subunit::json_parser::{parse_event, ParseError, TestEvent};

#[test]
fn test_parse_suite_started() {
    let line = r#"{"type":"suite","event":"started","test_count":3}"#;
    let event = parse_event(line).unwrap();
    assert!(event.is_none());
}

#[test]
fn test_parse_test_started() {
    let line = r#"{"type":"test","event":"started","name":"my_test"}"#;
    let event = parse_event(line).unwrap().unwrap();
    match event {
        TestEvent::Started { name } => assert_eq!(name, "my_test"),
        _ => panic!("Expected Started event"),
    }
}

#[test]
fn test_parse_test_passed() {
    let line = r#"{"type":"test","event":"ok","name":"my_test","exec_time":0.001}"#;
    let event = parse_event(line).unwrap().unwrap();
    match event {
        TestEvent::Passed { name, duration } => {
            assert_eq!(name, "my_test");
            assert_eq!(duration, Some("0.001".to_string()));
        }
        _ => panic!("Expected Passed event"),
    }
}

#[test]
fn test_parse_test_failed() {
    let line = r#"{"type":"test","event":"failed","name":"my_test","exec_time":0.002,"stdout":"output","stderr":"error"}"#;
    let event = parse_event(line).unwrap().unwrap();
    match event {
        TestEvent::Failed {
            name,
            duration,
            stdout,
            stderr,
        } => {
            assert_eq!(name, "my_test");
            assert_eq!(duration, Some("0.002".to_string()));
            assert_eq!(stdout, Some("output".to_string()));
            assert_eq!(stderr, Some("error".to_string()));
        }
        _ => panic!("Expected Failed event"),
    }
}

#[test]
fn test_parse_test_ignored() {
    let line = r#"{"type":"test","event":"ignored","name":"my_test"}"#;
    let event = parse_event(line).unwrap().unwrap();
    match event {
        TestEvent::Ignored { name } => assert_eq!(name, "my_test"),
        _ => panic!("Expected Ignored event"),
    }
}

#[test]
fn test_parse_test_timeout() {
    let line = r#"{"type":"test","event":"timeout","name":"my_test","exec_time":61.0}"#;
    let event = parse_event(line).unwrap().unwrap();
    match event {
        TestEvent::Timeout { name, duration } => {
            assert_eq!(name, "my_test");
            assert_eq!(duration, Some("61.0".to_string()));
        }
        _ => panic!("Expected Timeout event"),
    }
}

#[test]
fn test_parse_unknown_kind_is_no_event() {
    let line = r#"{"type":"test","event":"leaked","name":"my_test"}"#;
    let event = parse_event(line).unwrap();
    assert!(event.is_none());
}

#[test]
fn test_parse_suite_without_event_field_is_error() {
    let line = r#"{"type":"suite","test_count":3}"#;
    assert_eq!(parse_event(line), Err(ParseError));
}

#[test]
fn test_parse_not_json_is_error() {
    assert_eq!(parse_event("running 3 tests"), Err(ParseError));
    assert_eq!(parse_event(""), Err(ParseError));
    assert_eq!(parse_event("[1,2,3]"), Err(ParseError));
}

#[test]
fn test_parse_missing_name_is_error() {
    let line = r#"{"type":"test","event":"started"}"#;
    assert_eq!(parse_event(line), Err(ParseError));
}

#[test]
fn test_parse_missing_type_is_error() {
    let line = r#"{"event":"started","name":"my_test"}"#;
    assert_eq!(parse_event(line), Err(ParseError));
}

#[test]
fn test_parse_unknown_type_is_error() {
    let line = r#"{"type":"bench","event":"started","name":"my_test"}"#;
    assert_eq!(parse_event(line), Err(ParseError));
}

#[test]
fn test_parse_ill_typed_optional_field_is_error() {
    let line = r#"{"type":"test","event":"failed","name":"my_test","stdout":5}"#;
    assert_eq!(parse_event(line), Err(ParseError));
    let line = r#"{"type":"test","event":"ok","name":"my_test","exec_time":"fast"}"#;
    assert_eq!(parse_event(line), Err(ParseError));
}

#[test]
fn test_parse_fields_absent_are_none() {
    let line = r#"{"type":"test","event":"failed","name":"my_test"}"#;
    let event = parse_event(line).unwrap().unwrap();
    match event {
        TestEvent::Failed {
            name,
            duration,
            stdout,
            stderr,
        } => {
            assert_eq!(name, "my_test");
            assert_eq!(duration, None);
            assert_eq!(stdout, None);
            assert_eq!(stderr, None);
        }
        _ => panic!("Expected Failed event"),
    }
}
