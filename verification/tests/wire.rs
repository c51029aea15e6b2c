use apalis_board::entry::{
    Entry, EntryType, LineEntry, LogEntry, LogLevel, ResultEntry, Span,
};
use apalis_board::json::{get_member, JsonValue};
use apalis_board::wire::{level_from_text, parse, ParseError};

fn span(task_id: &str, attempt: i64) -> Span {
    Span { attempt, task_id: task_id.to_string(), name: "task".to_string() }
}

fn entry_with(span: Option<Span>, level: LogLevel, entry_type: Option<EntryType>) -> LogEntry {
    LogEntry {
        span,
        level,
        timestamp: "2024-05-01T10:00:00.000000Z".to_string(),
        target: "worker::email".to_string(),
        entry: Entry { message: Some("sending \"mail\"\n".to_string()), entry_type },
    }
}

fn result_entry() -> EntryType {
    EntryType::Result(ResultEntry { done_in: "5ms".to_string(), result: "ok".to_string() })
}

fn line_entry() -> EntryType {
    EntryType::Line(LineEntry {
        log_target: "sqlx::query".to_string(),
        log_module_path: "sqlx::query".to_string(),
        log_file: "src/query.rs".to_string(),
        log_line: 42,
    })
}

#[test]
fn wire_text_has_the_documented_members_in_order() {
    let entry = LogEntry {
        span: Some(Span { attempt: 2, task_id: "A".to_string(), name: "job".to_string() }),
        level: LogLevel::Info,
        timestamp: "t0".to_string(),
        target: "worker".to_string(),
        entry: Entry { message: Some("hello".to_string()), entry_type: Some(result_entry()) },
    };
    assert_eq!(
        entry.to_wire(),
        Some(
            "{\"span\":{\"attempt\":2,\"taskId\":\"A\",\"name\":\"job\"},\"level\":\"INFO\",\
             \"timestamp\":\"t0\",\"target\":\"worker\",\
             \"fields\":{\"message\":\"hello\",\"done_in\":\"5ms\",\"result\":\"ok\"}}"
                .to_string()
        )
    );
}

#[test]
fn wire_text_of_a_process_level_line() {
    let entry = LogEntry {
        span: None,
        level: LogLevel::Warn,
        timestamp: "t1".to_string(),
        target: "main".to_string(),
        entry: Entry { message: None, entry_type: Some(line_entry()) },
    };
    assert_eq!(
        entry.to_wire(),
        Some(
            "{\"span\":null,\"level\":\"WARN\",\"timestamp\":\"t1\",\"target\":\"main\",\
             \"fields\":{\"message\":null,\"log.target\":\"sqlx::query\",\
             \"log.module_path\":\"sqlx::query\",\"log.file\":\"src/query.rs\",\"log.line\":42}}"
                .to_string()
        )
    );
}

#[test]
fn round_trip_through_text_for_every_level_and_shape() {
    let levels =
        [LogLevel::Info, LogLevel::Warn, LogLevel::Error, LogLevel::Debug, LogLevel::Trace];
    for level in levels {
        for with_span in [false, true] {
            for shape in 0..3 {
                let entry_type = match shape {
                    0 => None,
                    1 => Some(result_entry()),
                    _ => Some(line_entry()),
                };
                let span = if with_span { Some(span("task-1", -3)) } else { None };
                let entry = entry_with(span, level, entry_type);
                let text = entry.to_wire().unwrap();
                assert_eq!(parse(text.as_bytes()), Ok(entry));
            }
        }
    }
}

#[test]
fn round_trip_through_the_tree() {
    let entry = entry_with(Some(span("7", i64::MAX)), LogLevel::Error, Some(line_entry()));
    assert_eq!(LogEntry::from_json(&entry.to_json()), Some(entry.clone()));
    let plain = entry_with(None, LogLevel::Trace, None);
    assert_eq!(LogEntry::from_json(&plain.to_json()), Some(plain.clone()));
    assert_eq!(LogEntry::from_json(&LogEntry::default().to_json()), Some(LogEntry::default()));
}

#[test]
fn parse_reads_a_record_of_the_logging_facility() {
    let record = b"{\"timestamp\":\"2024-05-01T10:00:00Z\",\"level\":\"INFO\",\
        \"fields\":{\"message\":\"done\",\"done_in\":\"12ms\",\"result\":\"Ok(())\"},\
        \"target\":\"apalis\",\"span\":{\"attempt\":1,\"taskId\":\"01HX\",\"name\":\"task\"},\
        \"spans\":[{\"name\":\"task\"}],\"threadId\":3}\n";
    let entry = parse(record).unwrap();
    assert_eq!(entry.level, LogLevel::Info);
    assert_eq!(entry.timestamp, "2024-05-01T10:00:00Z");
    assert_eq!(entry.target, "apalis");
    assert_eq!(
        entry.span,
        Some(Span { attempt: 1, task_id: "01HX".to_string(), name: "task".to_string() })
    );
    assert_eq!(entry.entry.message, Some("done".to_string()));
    assert_eq!(
        entry.entry.entry_type,
        Some(EntryType::Result(ResultEntry {
            done_in: "12ms".to_string(),
            result: "Ok(())".to_string()
        }))
    );
}

#[test]
fn a_complete_result_wins_over_a_source_location() {
    let record = b"{\"level\":\"DEBUG\",\"timestamp\":\"t\",\"target\":\"x\",\
        \"fields\":{\"log.target\":\"a\",\"log.module_path\":\"b\",\"log.file\":\"c\",\
        \"log.line\":1,\"done_in\":\"1s\",\"result\":\"r\"}}";
    let entry = parse(record).unwrap();
    assert_eq!(entry.span, None);
    assert_eq!(entry.entry.message, None);
    assert_eq!(
        entry.entry.entry_type,
        Some(EntryType::Result(ResultEntry { done_in: "1s".to_string(), result: "r".to_string() }))
    );
}

#[test]
fn an_incomplete_result_or_location_is_neither() {
    let record = b"{\"level\":\"TRACE\",\"timestamp\":\"t\",\"target\":\"x\",\"span\":null,\
        \"fields\":{\"message\":\"m\",\"done_in\":\"1s\",\"log.file\":\"c\",\"log.line\":1.5}}";
    let entry = parse(record).unwrap();
    assert_eq!(entry.level, LogLevel::Trace);
    assert_eq!(entry.entry.entry_type, None);
    assert_eq!(entry.entry.message, Some("m".to_string()));
}

#[test]
fn parse_rejects_what_is_not_json() {
    assert_eq!(parse(b"not json at all"), Err(ParseError::Syntax));
    assert_eq!(parse(b""), Err(ParseError::Syntax));
    assert_eq!(parse(b"{\"level\":\"INFO\""), Err(ParseError::Syntax));
    assert_eq!(parse(&[0xff, 0xfe, 0x00]), Err(ParseError::Syntax));
}

#[test]
fn parse_rejects_json_that_is_no_entry() {
    assert_eq!(parse(b"42"), Err(ParseError::Shape));
    assert_eq!(parse(b"[]"), Err(ParseError::Shape));
    assert_eq!(parse(b"{}"), Err(ParseError::Shape));
    // no level
    assert_eq!(
        parse(b"{\"timestamp\":\"t\",\"target\":\"x\",\"fields\":{}}"),
        Err(ParseError::Shape)
    );
    // a level that is not one of the five
    assert_eq!(
        parse(b"{\"level\":\"info\",\"timestamp\":\"t\",\"target\":\"x\",\"fields\":{}}"),
        Err(ParseError::Shape)
    );
    // a span without its task
    assert_eq!(
        parse(
            b"{\"level\":\"INFO\",\"timestamp\":\"t\",\"target\":\"x\",\"fields\":{},\
              \"span\":{\"attempt\":1,\"name\":\"n\"}}"
        ),
        Err(ParseError::Shape)
    );
    // a message that is not a string
    assert_eq!(
        parse(b"{\"level\":\"INFO\",\"timestamp\":\"t\",\"target\":\"x\",\"fields\":{\"message\":1}}"),
        Err(ParseError::Shape)
    );
    // an attempt that is not an integer of 64 bits
    assert_eq!(
        parse(
            b"{\"level\":\"INFO\",\"timestamp\":\"t\",\"target\":\"x\",\"fields\":{},\
              \"span\":{\"attempt\":18446744073709551615,\"taskId\":\"a\",\"name\":\"n\"}}"
        ),
        Err(ParseError::Shape)
    );
}

#[test]
fn the_smallest_entry() {
    let entry =
        parse(b"{\"level\":\"ERROR\",\"timestamp\":\"\",\"target\":\"\",\"fields\":{}}").unwrap();
    assert_eq!(
        entry,
        LogEntry {
            span: None,
            level: LogLevel::Error,
            timestamp: String::new(),
            target: String::new(),
            entry: Entry { message: None, entry_type: None },
        }
    );
}

#[test]
fn level_names() {
    assert_eq!(LogLevel::Info.as_wire(), "INFO");
    assert_eq!(LogLevel::Warn.as_wire(), "WARN");
    assert_eq!(LogLevel::Error.as_wire(), "ERROR");
    assert_eq!(LogLevel::Debug.as_wire(), "DEBUG");
    assert_eq!(LogLevel::Trace.as_wire(), "TRACE");
    assert_eq!(level_from_text("INFO"), Some(LogLevel::Info));
    assert_eq!(level_from_text("TRACE"), Some(LogLevel::Trace));
    assert_eq!(level_from_text("Info"), None);
    assert_eq!(level_from_text(""), None);
    assert_eq!(LogLevel::default(), LogLevel::Debug);
}

#[test]
fn the_first_member_with_a_key_is_found() {
    let members = vec![
        ("a".to_string(), JsonValue::Int(1)),
        ("b".to_string(), JsonValue::Null),
        ("a".to_string(), JsonValue::Int(2)),
    ];
    assert_eq!(get_member(&members, "a"), Some(&JsonValue::Int(1)));
    assert_eq!(get_member(&members, "b"), Some(&JsonValue::Null));
    assert_eq!(get_member(&members, "c"), None);
}

#[test]
fn task_membership() {
    let of_a = entry_with(Some(span("A", 1)), LogLevel::Info, None);
    let plain = entry_with(None, LogLevel::Info, None);
    assert!(of_a.is_task_entry());
    assert!(of_a.belongs_to_task("A"));
    assert!(!of_a.belongs_to_task("B"));
    assert!(!plain.is_task_entry());
    assert!(!plain.belongs_to_task("A"));
    assert!(!plain.belongs_to_task(""));
}

#[test]
fn wire_text_is_json_that_others_read_the_same_way() {
    let entry = entry_with(Some(span("task \u{1F600} \\ \"x\"", 7)), LogLevel::Debug, Some(line_entry()));
    let text = entry.to_wire().unwrap();
    assert!(!text.contains('\n'));
    let value: serde_json::Value = serde_json::from_str(&text).unwrap();
    assert_eq!(value["level"], "DEBUG");
    assert_eq!(value["span"]["taskId"], "task \u{1F600} \\ \"x\"");
    assert_eq!(value["span"]["attempt"], 7);
    assert_eq!(value["fields"]["message"], "sending \"mail\"\n");
    assert_eq!(value["fields"]["log.line"], 42);
    assert_eq!(value["fields"]["log.module_path"], "sqlx::query");
    assert_eq!(parse(text.as_bytes()), Ok(entry));
}

#[test]
fn numbers_that_are_no_integers_pass_through_the_tree() {
    let tree = JsonValue::Object(vec![
        ("level".to_string(), JsonValue::Str("INFO".to_string())),
        ("timestamp".to_string(), JsonValue::Str("t".to_string())),
        ("target".to_string(), JsonValue::Str("x".to_string())),
        ("fields".to_string(), JsonValue::Object(vec![])),
        ("extra".to_string(), JsonValue::Array(vec![JsonValue::Bool(true), JsonValue::Number("1.5".to_string())])),
    ]);
    let entry = LogEntry::from_json(&tree).unwrap();
    assert_eq!(entry.level, LogLevel::Info);
    assert_eq!(entry.span, None);
    let not_an_entry = JsonValue::Object(vec![
        ("level".to_string(), JsonValue::Int(1)),
        ("timestamp".to_string(), JsonValue::Str("t".to_string())),
        ("target".to_string(), JsonValue::Str("x".to_string())),
        ("fields".to_string(), JsonValue::Object(vec![])),
    ]);
    assert_eq!(LogEntry::from_json(&not_an_entry), None);
    assert_eq!(LogEntry::from_json(&JsonValue::Null), None);
    assert_eq!(Span::from_json(&JsonValue::Array(vec![])), None);
    assert_eq!(Entry::from_json(&JsonValue::Str("x".to_string())), None);
}
