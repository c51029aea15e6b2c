//! The structured record that flows through the pipeline.
use vstd::prelude::*;
use vstd::string::StringExecFns;

verus! {

/// Severity of a log entry.
#[derive(Clone, Copy, Debug, PartialEq, Eq, Hash, Structural)]
pub enum LogLevel {
    /// General information.
    Info,
    /// A potential issue.
    Warn,
    /// A serious issue.
    Error,
    /// Detailed debugging information.
    Debug,
    /// Detailed tracing information.
    Trace,
}

impl Default for LogLevel {
    fn default() -> (level: Self)
        ensures
            level == LogLevel::Debug,
    {
        LogLevel::Debug
    }
}

/// Correlation of an entry with one execution of a background task.
#[derive(Debug, PartialEq)]
pub struct Span {
    /// The retry attempt during which the entry was produced.
    pub attempt: i64,
    /// The identifier of the task.
    pub task_id: String,
    /// The name of the span.
    pub name: String,
}

/// Mathematical model of a [`Span`].
pub ghost struct SpanView {
    pub attempt: i64,
    pub task_id: Seq<char>,
    pub name: Seq<char>,
}

impl View for Span {
    type V = SpanView;

    open spec fn view(&self) -> SpanView {
        SpanView { attempt: self.attempt, task_id: self.task_id@, name: self.name@ }
    }
}

impl Clone for Span {
    fn clone(&self) -> (copy: Self)
        ensures
            copy == *self,
    {
        Span { attempt: self.attempt, task_id: self.task_id.clone(), name: self.name.clone() }
    }
}

impl Default for Span {
    fn default() -> (span: Self)
        ensures
            span@ == (SpanView { attempt: 0, task_id: Seq::empty(), name: Seq::empty() }),
    {
        Span { attempt: 0, task_id: String::new(), name: String::new() }
    }
}

/// The outcome of a finished task, attached to the entry that reports it.
#[derive(Debug, PartialEq)]
pub struct ResultEntry {
    /// How long the task took.
    pub done_in: String,
    /// What the task returned.
    pub result: String,
}

/// Mathematical model of a [`ResultEntry`].
pub ghost struct ResultEntryView {
    pub done_in: Seq<char>,
    pub result: Seq<char>,
}

impl View for ResultEntry {
    type V = ResultEntryView;

    open spec fn view(&self) -> ResultEntryView {
        ResultEntryView { done_in: self.done_in@, result: self.result@ }
    }
}

impl Clone for ResultEntry {
    fn clone(&self) -> (copy: Self)
        ensures
            copy == *self,
    {
        ResultEntry { done_in: self.done_in.clone(), result: self.result.clone() }
    }
}

impl Default for ResultEntry {
    fn default() -> (entry: Self)
        ensures
            entry@ == (ResultEntryView { done_in: Seq::empty(), result: Seq::empty() }),
    {
        ResultEntry { done_in: String::new(), result: String::new() }
    }
}

/// Source location of a forwarded log line.
#[derive(Debug, PartialEq)]
pub struct LineEntry {
    /// The log target.
    pub log_target: String,
    /// The module path of the call site.
    pub log_module_path: String,
    /// The file of the call site.
    pub log_file: String,
    /// The line of the call site.
    pub log_line: i64,
}

/// Mathematical model of a [`LineEntry`].
pub ghost struct LineEntryView {
    pub log_target: Seq<char>,
    pub log_module_path: Seq<char>,
    pub log_file: Seq<char>,
    pub log_line: i64,
}

impl View for LineEntry {
    type V = LineEntryView;

    open spec fn view(&self) -> LineEntryView {
        LineEntryView {
            log_target: self.log_target@,
            log_module_path: self.log_module_path@,
            log_file: self.log_file@,
            log_line: self.log_line,
        }
    }
}

impl Clone for LineEntry {
    fn clone(&self) -> (copy: Self)
        ensures
            copy == *self,
    {
        LineEntry {
            log_target: self.log_target.clone(),
            log_module_path: self.log_module_path.clone(),
            log_file: self.log_file.clone(),
            log_line: self.log_line,
        }
    }
}

impl Default for LineEntry {
    fn default() -> (entry: Self)
        ensures
            entry@ == (LineEntryView {
                log_target: Seq::empty(),
                log_module_path: Seq::empty(),
                log_file: Seq::empty(),
                log_line: 0,
            }),
    {
        LineEntry {
            log_target: String::new(),
            log_module_path: String::new(),
            log_file: String::new(),
            log_line: 0,
        }
    }
}

/// What an entry carries besides its message: a task result or a source
/// location. Being a sum type, a value never holds both.
#[derive(Debug, PartialEq)]
pub enum EntryType {
    /// A task result.
    Result(ResultEntry),
    /// A source location.
    Line(LineEntry),
}

/// Mathematical model of an [`EntryType`].
pub ghost enum EntryTypeView {
    Result(ResultEntryView),
    Line(LineEntryView),
}

impl View for EntryType {
    type V = EntryTypeView;

    open spec fn view(&self) -> EntryTypeView {
        match self {
            EntryType::Result(r) => EntryTypeView::Result(r@),
            EntryType::Line(l) => EntryTypeView::Line(l@),
        }
    }
}

impl Clone for EntryType {
    fn clone(&self) -> (copy: Self)
        ensures
            copy == *self,
    {
        match self {
            EntryType::Result(r) => EntryType::Result(r.clone()),
            EntryType::Line(l) => EntryType::Line(l.clone()),
        }
    }
}

/// The message payload of a log entry.
#[derive(Debug, PartialEq)]
pub struct Entry {
    /// The log message.
    pub message: Option<String>,
    /// The task result or source location, if the entry has one.
    pub entry_type: Option<EntryType>,
}

/// Mathematical model of an [`Entry`].
pub ghost struct EntryView {
    pub message: Option<Seq<char>>,
    pub entry_type: Option<EntryTypeView>,
}

impl View for Entry {
    type V = EntryView;

    open spec fn view(&self) -> EntryView {
        EntryView {
            message: match self.message {
                Some(m) => Some(m@),
                None => None,
            },
            entry_type: match self.entry_type {
                Some(t) => Some(t@),
                None => None,
            },
        }
    }
}

impl Clone for Entry {
    fn clone(&self) -> (copy: Self)
        ensures
            copy == *self,
    {
        let message = match &self.message {
            Some(m) => Some(m.clone()),
            None => None,
        };
        let entry_type = match &self.entry_type {
            Some(t) => Some(t.clone()),
            None => None,
        };
        Entry { message, entry_type }
    }
}

impl Default for Entry {
    fn default() -> (entry: Self)
        ensures
            entry@ == (EntryView { message: None, entry_type: None }),
    {
        Entry { message: None, entry_type: None }
    }
}

/// One structured unit of observability data produced by the host process.
#[derive(Debug, PartialEq)]
pub struct LogEntry {
    /// The task execution the entry belongs to; `None` for a process-level line.
    pub span: Option<Span>,
    /// The severity of the entry.
    pub level: LogLevel,
    /// The timestamp as the producer wrote it; never reparsed.
    pub timestamp: String,
    /// The subsystem that produced the entry.
    pub target: String,
    /// The message payload.
    pub entry: Entry,
}

/// Mathematical model of a [`LogEntry`].
pub ghost struct LogEntryView {
    pub span: Option<SpanView>,
    pub level: LogLevel,
    pub timestamp: Seq<char>,
    pub target: Seq<char>,
    pub entry: EntryView,
}

impl View for LogEntry {
    type V = LogEntryView;

    open spec fn view(&self) -> LogEntryView {
        LogEntryView {
            span: match self.span {
                Some(s) => Some(s@),
                None => None,
            },
            level: self.level,
            timestamp: self.timestamp@,
            target: self.target@,
            entry: self.entry@,
        }
    }
}

impl Clone for LogEntry {
    fn clone(&self) -> (copy: Self)
        ensures
            copy == *self,
    {
        let span = match &self.span {
            Some(s) => Some(s.clone()),
            None => None,
        };
        LogEntry {
            span,
            level: self.level,
            timestamp: self.timestamp.clone(),
            target: self.target.clone(),
            entry: self.entry.clone(),
        }
    }
}

impl Default for LogEntry {
    fn default() -> (entry: Self)
        ensures
            entry@ == (LogEntryView {
                span: None,
                level: LogLevel::Debug,
                timestamp: Seq::empty(),
                target: Seq::empty(),
                entry: EntryView { message: None, entry_type: None },
            }),
    {
        LogEntry {
            span: None,
            level: LogLevel::Debug,
            timestamp: String::new(),
            target: String::new(),
            entry: Entry { message: None, entry_type: None },
        }
    }
}

impl LogEntry {
    /// Whether the entry is attributed to a task execution. Process-level
    /// lines, which carry no span, are not.
    pub fn is_task_entry(&self) -> (task: bool)
        ensures
            task == (self@.span is Some),
    {
        self.span.is_some()
    }

    /// Whether the entry was produced by the task `task_id`. An entry without
    /// a span belongs to no task.
    pub fn belongs_to_task(&self, task_id: &str) -> (belongs: bool)
        ensures
            belongs == (self@.span is Some && self@.span->Some_0.task_id == task_id@),
    {
        match &self.span {
            Some(span) => crate::text::same_text(span.task_id.as_str(), task_id),
            None => false,
        }
    }
}

/// What can go wrong when the API talks to a queue backend.
#[derive(Debug, PartialEq)]
pub enum ApiError {
    /// Task arguments could not be encoded or decoded.
    CodecError(String),
    /// The backend failed.
    BackendError(String),
}

/// The message of an API error.
pub open spec fn api_error_text(error: ApiError) -> Seq<char> {
    match error {
        ApiError::CodecError(detail) => "Codec error: "@ + detail@,
        ApiError::BackendError(detail) => "Backend error: "@ + detail@,
    }
}

impl ApiError {
    /// The message of the error: what failed, then the detail.
    pub fn message(&self) -> (text: String)
        ensures
            text@ == api_error_text(*self),
    {
        match self {
            ApiError::CodecError(detail) => {
                let mut text = String::from_str("Codec error: ");
                text.append(detail.as_str());
                text
            },
            ApiError::BackendError(detail) => {
                let mut text = String::from_str("Backend error: ");
                text.append(detail.as_str());
                text
            },
        }
    }
}

} // verus!
