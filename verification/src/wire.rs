//! The wire format of a log entry: one JSON object per entry.
//!
//! ```text
//! {"span":{"attempt":1,"taskId":"42","name":"task"},"level":"INFO",
//!  "timestamp":"...","target":"...","fields":{"message":"...", ...}}
//! ```
//!
//! `span` may be `null` or absent. `fields` holds the message and, beside
//! it, either the two members of a task result (`done_in`, `result`), the
//! four of a source location (`log.target`, `log.module_path`, `log.file`,
//! `log.line`), or neither. Members that the format does not name are
//! ignored.
use vstd::prelude::*;
use vstd::string::StringExecFns;
use crate::entry::{
    Entry, EntryType, EntryTypeView, EntryView, LineEntry, LineEntryView, LogEntry, LogEntryView,
    LogLevel, ResultEntry, ResultEntryView, Span, SpanView,
};
use crate::json::{
    decode, encode, get_member, json_decoded, json_encoded, lemma_object_model, member,
    members_model, JsonModel, JsonValue,
};
use crate::text::same_text;

verus! {

/// Why a written record is not a log entry.
#[derive(Clone, Copy, Debug, PartialEq, Eq, Structural)]
pub enum ParseError {
    /// The bytes are not one JSON document.
    Syntax,
    /// The document does not have the shape of a log entry.
    Shape,
}

/// The wire name of a level.
pub open spec fn level_text(level: LogLevel) -> Seq<char> {
    match level {
        LogLevel::Info => "INFO"@,
        LogLevel::Warn => "WARN"@,
        LogLevel::Error => "ERROR"@,
        LogLevel::Debug => "DEBUG"@,
        LogLevel::Trace => "TRACE"@,
    }
}

/// The level that a wire name stands for.
pub open spec fn level_of_text(text: Seq<char>) -> Option<LogLevel> {
    if text == "INFO"@ {
        Some(LogLevel::Info)
    } else if text == "WARN"@ {
        Some(LogLevel::Warn)
    } else if text == "ERROR"@ {
        Some(LogLevel::Error)
    } else if text == "DEBUG"@ {
        Some(LogLevel::Debug)
    } else if text == "TRACE"@ {
        Some(LogLevel::Trace)
    } else {
        None
    }
}

/// A member that must be a string.
pub open spec fn text_of(value: Option<JsonModel>) -> Option<Seq<char>> {
    match value {
        Some(JsonModel::Str(text)) => Some(text),
        _ => None,
    }
}

/// A member that must be an integer.
pub open spec fn int_of(value: Option<JsonModel>) -> Option<i64> {
    match value {
        Some(JsonModel::Int(i)) => Some(i),
        _ => None,
    }
}

/// A member that may be absent or `null` and must otherwise be a string.
/// The outer `None` says that it is something else.
pub open spec fn optional_text_of(value: Option<JsonModel>) -> Option<Option<Seq<char>>> {
    match value {
        None => Some(None),
        Some(JsonModel::Null) => Some(None),
        Some(JsonModel::Str(text)) => Some(Some(text)),
        _ => None,
    }
}

/// The span that a document holds.
pub open spec fn span_of_json(tree: JsonModel) -> Option<SpanView> {
    match tree {
        JsonModel::Object(m) => {
            let attempt = int_of(member(m, "attempt"@));
            let task_id = text_of(member(m, "taskId"@));
            let name = text_of(member(m, "name"@));
            if attempt is Some && task_id is Some && name is Some {
                Some(
                    SpanView {
                        attempt: attempt->Some_0,
                        task_id: task_id->Some_0,
                        name: name->Some_0,
                    },
                )
            } else {
                None
            }
        },
        _ => None,
    }
}

/// A span member that may be absent or `null`. The outer `None` says that
/// it is present and not a span.
pub open spec fn optional_span_of(value: Option<JsonModel>) -> Option<Option<SpanView>> {
    match value {
        None => Some(None),
        Some(JsonModel::Null) => Some(None),
        Some(tree) => match span_of_json(tree) {
            Some(span) => Some(Some(span)),
            None => None,
        },
    }
}

/// The task result among the members of `fields`.
pub open spec fn result_of_members(m: Seq<(Seq<char>, JsonModel)>) -> Option<ResultEntryView> {
    let done_in = text_of(member(m, "done_in"@));
    let result = text_of(member(m, "result"@));
    if done_in is Some && result is Some {
        Some(ResultEntryView { done_in: done_in->Some_0, result: result->Some_0 })
    } else {
        None
    }
}

/// The source location among the members of `fields`.
pub open spec fn line_of_members(m: Seq<(Seq<char>, JsonModel)>) -> Option<LineEntryView> {
    let target = text_of(member(m, "log.target"@));
    let module = text_of(member(m, "log.module_path"@));
    let file = text_of(member(m, "log.file"@));
    let line = int_of(member(m, "log.line"@));
    if target is Some && module is Some && file is Some && line is Some {
        Some(
            LineEntryView {
                log_target: target->Some_0,
                log_module_path: module->Some_0,
                log_file: file->Some_0,
                log_line: line->Some_0,
            },
        )
    } else {
        None
    }
}

/// What the members of `fields` hold beside the message: a complete task
/// result wins over a complete source location, and anything less is
/// nothing.
pub open spec fn entry_type_of_members(m: Seq<(Seq<char>, JsonModel)>) -> Option<EntryTypeView> {
    match result_of_members(m) {
        Some(result) => Some(EntryTypeView::Result(result)),
        None => match line_of_members(m) {
            Some(line) => Some(EntryTypeView::Line(line)),
            None => None,
        },
    }
}

/// The message payload that a `fields` document holds.
pub open spec fn payload_of_json(tree: JsonModel) -> Option<EntryView> {
    match tree {
        JsonModel::Object(m) => match optional_text_of(member(m, "message"@)) {
            Some(message) => Some(EntryView { message, entry_type: entry_type_of_members(m) }),
            None => None,
        },
        _ => None,
    }
}

/// The log entry that a document holds, or `None` where the document does
/// not have the shape of one.
pub open spec fn entry_of_json(tree: JsonModel) -> Option<LogEntryView> {
    match tree {
        JsonModel::Object(m) => {
            let span = optional_span_of(member(m, "span"@));
            let level = match text_of(member(m, "level"@)) {
                Some(text) => level_of_text(text),
                None => None,
            };
            let timestamp = text_of(member(m, "timestamp"@));
            let target = text_of(member(m, "target"@));
            let entry = match member(m, "fields"@) {
                Some(fields) => payload_of_json(fields),
                None => None,
            };
            if span is Some && level is Some && timestamp is Some && target is Some
                && entry is Some {
                Some(
                    LogEntryView {
                        span: span->Some_0,
                        level: level->Some_0,
                        timestamp: timestamp->Some_0,
                        target: target->Some_0,
                        entry: entry->Some_0,
                    },
                )
            } else {
                None
            }
        },
        _ => None,
    }
}

/// The document of a span.
pub open spec fn json_of_span(span: SpanView) -> JsonModel {
    JsonModel::Object(
        seq![
            ("attempt"@, JsonModel::Int(span.attempt)),
            ("taskId"@, JsonModel::Str(span.task_id)),
            ("name"@, JsonModel::Str(span.name)),
        ],
    )
}

/// The members that follow the message in `fields`.
pub open spec fn members_of_entry_type(entry_type: Option<EntryTypeView>) -> Seq<
    (Seq<char>, JsonModel),
> {
    match entry_type {
        None => Seq::empty(),
        Some(EntryTypeView::Result(r)) => seq![
            ("done_in"@, JsonModel::Str(r.done_in)),
            ("result"@, JsonModel::Str(r.result)),
        ],
        Some(EntryTypeView::Line(l)) => seq![
            ("log.target"@, JsonModel::Str(l.log_target)),
            ("log.module_path"@, JsonModel::Str(l.log_module_path)),
            ("log.file"@, JsonModel::Str(l.log_file)),
            ("log.line"@, JsonModel::Int(l.log_line)),
        ],
    }
}

/// The `fields` document of a message payload.
pub open spec fn json_of_payload(entry: EntryView) -> JsonModel {
    JsonModel::Object(
        seq![
            (
                "message"@,
                match entry.message {
                    Some(text) => JsonModel::Str(text),
                    None => JsonModel::Null,
                },
            ),
        ] + members_of_entry_type(entry.entry_type),
    )
}

/// The document of a log entry: its five members in the order `span`,
/// `level`, `timestamp`, `target`, `fields`.
pub open spec fn json_of_entry(entry: LogEntryView) -> JsonModel {
    JsonModel::Object(
        seq![
            (
                "span"@,
                match entry.span {
                    Some(span) => json_of_span(span),
                    None => JsonModel::Null,
                },
            ),
            ("level"@, JsonModel::Str(level_text(entry.level))),
            ("timestamp"@, JsonModel::Str(entry.timestamp)),
            ("target"@, JsonModel::Str(entry.target)),
            ("fields"@, json_of_payload(entry.entry)),
        ],
    )
}

/// What parsing a written record yields.
pub open spec fn parsed(bytes: Seq<u8>) -> Result<LogEntryView, ParseError> {
    match json_decoded(bytes) {
        None => Err(ParseError::Syntax),
        Some(tree) => match entry_of_json(tree) {
            Some(entry) => Ok(entry),
            None => Err(ParseError::Shape),
        },
    }
}

/// The level that a wire name stands for.
pub fn level_from_text(text: &str) -> (level: Option<LogLevel>)
    ensures
        level == level_of_text(text@),
{
    if same_text(text, "INFO") {
        Some(LogLevel::Info)
    } else if same_text(text, "WARN") {
        Some(LogLevel::Warn)
    } else if same_text(text, "ERROR") {
        Some(LogLevel::Error)
    } else if same_text(text, "DEBUG") {
        Some(LogLevel::Debug)
    } else if same_text(text, "TRACE") {
        Some(LogLevel::Trace)
    } else {
        None
    }
}

/// The member `key`, where it is a string.
fn text_member(members: &Vec<(String, JsonValue)>, key: &str) -> (text: Option<String>)
    ensures
        text_of(member(members_model(members@), key@)) == match text {
            Some(t) => Some(t@),
            None => None,
        },
{
    match get_member(members, key) {
        Some(value) => match value {
            JsonValue::Str(text) => Some(text.clone()),
            _ => None,
        },
        None => None,
    }
}

/// The member `key`, where it is an integer.
fn int_member(members: &Vec<(String, JsonValue)>, key: &str) -> (number: Option<i64>)
    ensures
        int_of(member(members_model(members@), key@)) == number,
{
    match get_member(members, key) {
        Some(value) => match value {
            JsonValue::Int(i) => Some(*i),
            _ => None,
        },
        None => None,
    }
}

/// The member `key`, where it is a string, `null` or absent; `None` where
/// it is anything else.
fn optional_text_member(members: &Vec<(String, JsonValue)>, key: &str) -> (text: Option<
    Option<String>,
>)
    ensures
        optional_text_of(member(members_model(members@), key@)) == match text {
            Some(Some(t)) => Some(Some(t@)),
            Some(None) => Some(None),
            None => None,
        },
{
    match get_member(members, key) {
        Some(value) => match value {
            JsonValue::Null => Some(None),
            JsonValue::Str(text) => Some(Some(text.clone())),
            _ => None,
        },
        None => Some(None),
    }
}

impl Span {
    /// Reads a span from its document.
    pub fn from_json(tree: &JsonValue) -> (span: Option<Span>)
        ensures
            span_of_json(tree@) == match span {
                Some(s) => Some(s@),
                None => None,
            },
    {
        match tree {
            JsonValue::Object(members) => {
                proof {
                    lemma_object_model(*members);
                }
                let attempt = int_member(members, "attempt");
                let task_id = text_member(members, "taskId");
                let name = text_member(members, "name");
                match (attempt, task_id, name) {
                    (Some(attempt), Some(task_id), Some(name)) => Some(
                        Span { attempt, task_id, name },
                    ),
                    _ => None,
                }
            },
            _ => None,
        }
    }

    /// Writes the span as a document.
    pub fn to_json(&self) -> (tree: JsonValue)
        ensures
            tree@ == json_of_span(self@),
    {
        let mut members: Vec<(String, JsonValue)> = Vec::new();
        members.push((String::from_str("attempt"), JsonValue::Int(self.attempt)));
        members.push((String::from_str("taskId"), JsonValue::Str(self.task_id.clone())));
        members.push((String::from_str("name"), JsonValue::Str(self.name.clone())));
        proof {
            lemma_object_model(members);
            assert(members_model(members@) =~= json_of_span(self@)->Object_0);
        }
        JsonValue::Object(members)
    }
}

impl EntryType {
    /// Reads what the members of `fields` hold beside the message.
    pub fn from_members(members: &Vec<(String, JsonValue)>) -> (entry_type: Option<EntryType>)
        ensures
            entry_type_of_members(members_model(members@)) == match entry_type {
                Some(t) => Some(t@),
                None => None,
            },
    {
        let done_in = text_member(members, "done_in");
        let result = text_member(members, "result");
        match (done_in, result) {
            (Some(done_in), Some(result)) => {
                return Some(EntryType::Result(ResultEntry { done_in, result }));
            },
            _ => {},
        }
        let target = text_member(members, "log.target");
        let module = text_member(members, "log.module_path");
        let file = text_member(members, "log.file");
        let line = int_member(members, "log.line");
        match (target, module, file, line) {
            (Some(log_target), Some(log_module_path), Some(log_file), Some(log_line)) => Some(
                EntryType::Line(LineEntry { log_target, log_module_path, log_file, log_line }),
            ),
            _ => None,
        }
    }
}

impl Entry {
    /// Reads a message payload from a `fields` document.
    pub fn from_json(tree: &JsonValue) -> (entry: Option<Entry>)
        ensures
            payload_of_json(tree@) == match entry {
                Some(e) => Some(e@),
                None => None,
            },
    {
        match tree {
            JsonValue::Object(members) => {
                proof {
                    lemma_object_model(*members);
                }
                match optional_text_member(members, "message") {
                    Some(message) => {
                        let entry_type = EntryType::from_members(members);
                        Some(Entry { message, entry_type })
                    },
                    None => None,
                }
            },
            _ => None,
        }
    }

    /// Writes the message payload as a `fields` document.
    pub fn to_json(&self) -> (tree: JsonValue)
        ensures
            tree@ == json_of_payload(self@),
    {
        let mut members: Vec<(String, JsonValue)> = Vec::new();
        let message = match &self.message {
            Some(text) => JsonValue::Str(text.clone()),
            None => JsonValue::Null,
        };
        members.push((String::from_str("message"), message));
        match &self.entry_type {
            None => {},
            Some(EntryType::Result(r)) => {
                members.push((String::from_str("done_in"), JsonValue::Str(r.done_in.clone())));
                members.push((String::from_str("result"), JsonValue::Str(r.result.clone())));
            },
            Some(EntryType::Line(l)) => {
                members.push(
                    (String::from_str("log.target"), JsonValue::Str(l.log_target.clone())),
                );
                members.push(
                    (
                        String::from_str("log.module_path"),
                        JsonValue::Str(l.log_module_path.clone()),
                    ),
                );
                members.push((String::from_str("log.file"), JsonValue::Str(l.log_file.clone())));
                members.push((String::from_str("log.line"), JsonValue::Int(l.log_line)));
            },
        }
        proof {
            lemma_object_model(members);
            assert(members_model(members@) =~= json_of_payload(self@)->Object_0);
        }
        JsonValue::Object(members)
    }
}

impl LogLevel {
    /// The wire name of the level.
    pub fn as_wire(&self) -> (text: &'static str)
        ensures
            text@ == level_text(*self),
    {
        match self {
            LogLevel::Info => "INFO",
            LogLevel::Warn => "WARN",
            LogLevel::Error => "ERROR",
            LogLevel::Debug => "DEBUG",
            LogLevel::Trace => "TRACE",
        }
    }
}

impl LogEntry {
    /// Reads a log entry from its document. The result is `None` exactly
    /// where the document does not have the shape of an entry.
    pub fn from_json(tree: &JsonValue) -> (entry: Option<LogEntry>)
        ensures
            entry_of_json(tree@) == match entry {
                Some(e) => Some(e@),
                None => None,
            },
    {
        match tree {
            JsonValue::Object(members) => {
                proof {
                    lemma_object_model(*members);
                }
                let span = match get_member(members, "span") {
                    None => Some(None),
                    Some(value) => match value {
                        JsonValue::Null => Some(None),
                        _ => match Span::from_json(value) {
                            Some(span) => Some(Some(span)),
                            None => None,
                        },
                    },
                };
                let level = match text_member(members, "level") {
                    Some(text) => level_from_text(text.as_str()),
                    None => None,
                };
                let timestamp = text_member(members, "timestamp");
                let target = text_member(members, "target");
                let entry = match get_member(members, "fields") {
                    Some(fields) => Entry::from_json(fields),
                    None => None,
                };
                match (span, level, timestamp, target, entry) {
                    (Some(span), Some(level), Some(timestamp), Some(target), Some(entry)) => Some(
                        LogEntry { span, level, timestamp, target, entry },
                    ),
                    _ => None,
                }
            },
            _ => None,
        }
    }

    /// Writes the entry as its document.
    pub fn to_json(&self) -> (tree: JsonValue)
        ensures
            tree@ == json_of_entry(self@),
    {
        let mut members: Vec<(String, JsonValue)> = Vec::new();
        let span = match &self.span {
            Some(span) => span.to_json(),
            None => JsonValue::Null,
        };
        members.push((String::from_str("span"), span));
        members.push(
            (String::from_str("level"), JsonValue::Str(String::from_str(self.level.as_wire()))),
        );
        members.push((String::from_str("timestamp"), JsonValue::Str(self.timestamp.clone())));
        members.push((String::from_str("target"), JsonValue::Str(self.target.clone())));
        members.push((String::from_str("fields"), self.entry.to_json()));
        proof {
            lemma_object_model(members);
            assert(members_model(members@) =~= json_of_entry(self@)->Object_0);
        }
        JsonValue::Object(members)
    }

    /// The JSON text of the entry as it goes over the wire, or `None` where
    /// the writer gave up.
    pub fn to_wire(&self) -> (text: Option<String>)
        ensures
            json_encoded(json_of_entry(self@)) == match text {
                Some(t) => Some(t@),
                None => None,
            },
    {
        let tree = self.to_json();
        encode(&tree)
    }
}

/// Parses one written record. The record must be a single JSON object with
/// the shape of a log entry; surrounding whitespace is the parser's matter.
pub fn parse(bytes: &[u8]) -> (entry: Result<LogEntry, ParseError>)
    ensures
        parsed(bytes@) == match entry {
            Ok(e) => Ok::<LogEntryView, ParseError>(e@),
            Err(error) => Err(error),
        },
{
    match decode(bytes) {
        None => Err(ParseError::Syntax),
        Some(tree) => match LogEntry::from_json(&tree) {
            Some(entry) => Ok(entry),
            None => Err(ParseError::Shape),
        },
    }
}

/// A key that stands at place `i` among the members, and at no earlier
/// place, is found with the value at place `i`.
pub proof fn lemma_member_found(m: Seq<(Seq<char>, JsonModel)>, key: Seq<char>, i: int)
    requires
        0 <= i < m.len(),
        m[i].0 == key,
        forall|j: int| 0 <= j < i ==> m[j].0 != key,
    ensures
        member(m, key) == Some(m[i].1),
    decreases i,
{
    if i > 0 {
        let rest = m.drop_first();
        assert(rest[i - 1] == m[i]);
        assert forall|j: int| 0 <= j < i - 1 implies rest[j].0 != key by {
            assert(rest[j] == m[j + 1]);
        }
        lemma_member_found(rest, key, i - 1);
    }
}

/// A key that stands nowhere among the members is not found.
pub proof fn lemma_member_missing(m: Seq<(Seq<char>, JsonModel)>, key: Seq<char>)
    requires
        forall|j: int| 0 <= j < m.len() ==> m[j].0 != key,
    ensures
        member(m, key) is None,
    decreases m.len(),
{
    if m.len() > 0 {
        let rest = m.drop_first();
        assert forall|j: int| 0 <= j < rest.len() implies rest[j].0 != key by {
            assert(rest[j] == m[j + 1]);
        }
        lemma_member_missing(rest, key);
    }
}

/// Every level is read back from its wire name.
pub proof fn lemma_level_round_trip(level: LogLevel)
    ensures
        level_of_text(level_text(level)) == Some(level),
{
    reveal_strlit("INFO");
    reveal_strlit("WARN");
    reveal_strlit("ERROR");
    reveal_strlit("DEBUG");
    reveal_strlit("TRACE");
    assert("INFO"@[0] != "WARN"@[0]);
    assert("ERROR"@[0] != "DEBUG"@[0]);
    assert("ERROR"@[0] != "TRACE"@[0]);
    assert("DEBUG"@[0] != "TRACE"@[0]);
}

/// Every span is read back from its document.
pub proof fn lemma_span_round_trip(span: SpanView)
    ensures
        span_of_json(json_of_span(span)) == Some(span),
{
    reveal_strlit("attempt");
    reveal_strlit("taskId");
    reveal_strlit("name");
    let m = json_of_span(span)->Object_0;
    assert(m[0].0 == "attempt"@ && m[1].0 == "taskId"@ && m[2].0 == "name"@);
    assert("attempt"@.len() == 7 && "taskId"@.len() == 6 && "name"@.len() == 4);
    lemma_member_found(m, "attempt"@, 0);
    lemma_member_found(m, "taskId"@, 1);
    lemma_member_found(m, "name"@, 2);
}

/// Every message payload is read back from its `fields` document, with the
/// same message and the same task result, source location or neither.
pub proof fn lemma_payload_round_trip(entry: EntryView)
    ensures
        payload_of_json(json_of_payload(entry)) == Some(entry),
{
    reveal_strlit("message");
    reveal_strlit("done_in");
    reveal_strlit("result");
    reveal_strlit("log.target");
    reveal_strlit("log.module_path");
    reveal_strlit("log.file");
    reveal_strlit("log.line");
    assert("message"@[0] != "done_in"@[0]);
    assert("log.file"@[4] != "log.line"@[4]);
    let m = json_of_payload(entry)->Object_0;
    assert("message"@.len() == 7 && "done_in"@.len() == 7 && "result"@.len() == 6);
    assert("log.target"@.len() == 10 && "log.module_path"@.len() == 15);
    assert("log.file"@.len() == 8 && "log.line"@.len() == 8);
    assert(m[0].0 == "message"@);
    lemma_member_found(m, "message"@, 0);
    match entry.entry_type {
        None => {
            assert(m.len() == 1);
            lemma_member_missing(m, "done_in"@);
            lemma_member_missing(m, "log.target"@);
        },
        Some(EntryTypeView::Result(r)) => {
            assert(m.len() == 3);
            assert(m[1].0 == "done_in"@ && m[2].0 == "result"@);
            lemma_member_found(m, "done_in"@, 1);
            lemma_member_found(m, "result"@, 2);
        },
        Some(EntryTypeView::Line(l)) => {
            assert(m.len() == 5);
            assert(m[1].0 == "log.target"@ && m[2].0 == "log.module_path"@);
            assert(m[3].0 == "log.file"@ && m[4].0 == "log.line"@);
            lemma_member_missing(m, "done_in"@);
            lemma_member_found(m, "log.target"@, 1);
            lemma_member_found(m, "log.module_path"@, 2);
            lemma_member_found(m, "log.file"@, 3);
            lemma_member_found(m, "log.line"@, 4);
        },
    }
}

/// Round trip: the document written for a log entry is read back as that
/// entry, equal in every field, whatever its level, with or without a span,
/// and with a task result, a source location or neither.
pub proof fn lemma_entry_round_trip(entry: LogEntryView)
    ensures
        entry_of_json(json_of_entry(entry)) == Some(entry),
{
    reveal_strlit("span");
    reveal_strlit("level");
    reveal_strlit("timestamp");
    reveal_strlit("target");
    reveal_strlit("fields");
    assert("target"@[0] != "fields"@[0]);
    let m = json_of_entry(entry)->Object_0;
    assert(m[0].0 == "span"@ && m[1].0 == "level"@ && m[2].0 == "timestamp"@);
    assert(m[3].0 == "target"@ && m[4].0 == "fields"@);
    assert("span"@.len() == 4 && "level"@.len() == 5 && "timestamp"@.len() == 9);
    assert("target"@.len() == 6 && "fields"@.len() == 6);
    lemma_member_found(m, "span"@, 0);
    lemma_member_found(m, "level"@, 1);
    lemma_member_found(m, "timestamp"@, 2);
    lemma_member_found(m, "target"@, 3);
    lemma_member_found(m, "fields"@, 4);
    lemma_level_round_trip(entry.level);
    lemma_payload_round_trip(entry.entry);
    if entry.span is Some {
        lemma_span_round_trip(entry.span->Some_0);
    }
}

} // verus!
