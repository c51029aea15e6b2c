//! The decisions of a stream endpoint.
//!
//! An endpoint serves one connection: it reads its subscription, keeps the
//! entries that its feed admits, frames each as a server-sent event, and
//! sends a keep-alive when the connection has been silent for too long. The
//! caller owns the connection and the clock and reports what happened; the
//! endpoint answers with what to do.
use vstd::prelude::*;
use vstd::string::StringExecFns;
use crate::entry::{LogEntry, LogEntryView};
use crate::json::json_encoded;
use crate::text::same_text;
use crate::wire::json_of_entry;

verus! {

/// Which entries a connection wants.
#[derive(Debug, PartialEq)]
pub enum Feed {
    /// Every entry.
    Raw,
    /// Every entry that belongs to a task: the dashboard-wide feed.
    Tasks,
    /// The entries of one task.
    Task(String),
}

/// Mathematical model of a [`Feed`].
pub ghost enum FeedView {
    Raw,
    Tasks,
    Task(Seq<char>),
}

impl View for Feed {
    type V = FeedView;

    open spec fn view(&self) -> FeedView {
        match self {
            Feed::Raw => FeedView::Raw,
            Feed::Tasks => FeedView::Tasks,
            Feed::Task(id) => FeedView::Task(id@),
        }
    }
}

/// Whether a feed admits an entry. An entry without a span belongs to no
/// task, so only the raw feed admits it.
pub open spec fn admits(feed: FeedView, entry: LogEntryView) -> bool {
    match feed {
        FeedView::Raw => true,
        FeedView::Tasks => entry.span is Some,
        FeedView::Task(id) => entry.span is Some && entry.span->Some_0.task_id == id,
    }
}

/// Entries with and without a span are disjoint categories: what a task's
/// feed admits the dashboard-wide feed admits too, and an entry without a
/// span is admitted by the raw feed alone.
pub proof fn lemma_task_feeds_need_a_span(entry: LogEntryView, id: Seq<char>)
    ensures
        admits(FeedView::Task(id), entry) ==> admits(FeedView::Tasks, entry),
        entry.span is None ==> !admits(FeedView::Tasks, entry) && !admits(
            FeedView::Task(id),
            entry,
        ),
        admits(FeedView::Raw, entry),
{
}

/// The frame of one event: a `data:` line with the text, and a blank line.
pub open spec fn data_frame(text: Seq<char>) -> Seq<char> {
    "data: "@ + text + "\n\n"@
}

/// The frame that stands for an entry that could not be written as JSON.
pub open spec fn error_frame() -> Seq<char> {
    "event: error\ndata: serialization failed\n\n"@
}

/// The keep-alive frame: a comment line, which carries no payload.
pub open spec fn keep_alive_frame() -> Seq<char> {
    ": keep-alive\n\n"@
}

/// The frame of an entry.
pub open spec fn frame_of(entry: LogEntryView) -> Seq<char> {
    match json_encoded(json_of_entry(entry)) {
        Some(text) => data_frame(text),
        None => error_frame(),
    }
}

/// Frames an already written entry, or the failure to write it.
pub fn frame_text(text: Option<String>) -> (frame: String)
    ensures
        frame@ == match text {
            Some(t) => data_frame(t@),
            None => error_frame(),
        },
{
    match text {
        Some(text) => {
            let mut frame = String::from_str("data: ");
            frame.append(text.as_str());
            frame.append("\n\n");
            frame
        },
        None => String::from_str("event: error\ndata: serialization failed\n\n"),
    }
}

/// Frames an entry as one server-sent event. An entry that cannot be
/// written yields an error event in its place.
pub fn frame_entry(entry: &LogEntry) -> (frame: String)
    ensures
        frame@ == frame_of(entry@),
{
    frame_text(entry.to_wire())
}

impl Feed {
    /// Whether the feed admits the entry.
    pub fn admits(&self, entry: &LogEntry) -> (admitted: bool)
        ensures
            admitted == admits(self@, entry@),
    {
        match self {
            Feed::Raw => true,
            Feed::Tasks => entry.is_task_entry(),
            Feed::Task(id) => entry.belongs_to_task(id.as_str()),
        }
    }
}

/// What the caller reports to the endpoint.
#[derive(Debug, PartialEq)]
pub enum StreamEvent {
    /// The subscription yielded an entry.
    Entry(LogEntry),
    /// The subscription has ended: the broadcaster is gone.
    Ended,
    /// So many seconds have passed since the last report.
    Elapsed(u64),
}

/// What the endpoint tells the caller to do.
#[derive(Debug, PartialEq)]
pub enum StreamAction {
    /// Send this frame.
    Emit(String),
    /// Send nothing and go on waiting.
    Wait,
    /// End the response and release the subscription.
    Finish,
}

/// The state of one connection.
#[derive(Debug, PartialEq)]
pub struct StreamEndpoint {
    feed: Feed,
    interval: u64,
    idle: u64,
}

/// Mathematical model of a [`StreamEndpoint`].
pub ghost struct StreamEndpointView {
    /// Which entries the connection wants.
    pub feed: FeedView,
    /// After how many silent seconds a keep-alive is due.
    pub interval: u64,
    /// For how many seconds the connection has been silent.
    pub idle: u64,
}

impl View for StreamEndpoint {
    type V = StreamEndpointView;

    closed spec fn view(&self) -> StreamEndpointView {
        StreamEndpointView { feed: self.feed@, interval: self.interval, idle: self.idle }
    }
}

/// The silent time after `elapsed` more seconds, capped at the largest
/// number of seconds that can be counted.
pub open spec fn silent_for(idle: u64, elapsed: u64) -> u64 {
    if idle + elapsed > u64::MAX {
        u64::MAX
    } else {
        (idle + elapsed) as u64
    }
}

/// The silent time after an event.
pub open spec fn idle_after(state: StreamEndpointView, event: StreamEvent) -> u64 {
    match event {
        StreamEvent::Entry(entry) => if admits(state.feed, entry@) {
            0
        } else {
            state.idle
        },
        StreamEvent::Ended => state.idle,
        StreamEvent::Elapsed(elapsed) => if silent_for(state.idle, elapsed) >= state.interval {
            0
        } else {
            silent_for(state.idle, elapsed)
        },
    }
}

/// What an event calls for: `Some` frame to send, `None` to wait. The end of
/// the subscription is told apart by `ends`.
pub open spec fn frame_after(state: StreamEndpointView, event: StreamEvent) -> Option<Seq<char>> {
    match event {
        StreamEvent::Entry(entry) => if admits(state.feed, entry@) {
            Some(frame_of(entry@))
        } else {
            None
        },
        StreamEvent::Ended => None,
        StreamEvent::Elapsed(elapsed) => if silent_for(state.idle, elapsed) >= state.interval {
            Some(keep_alive_frame())
        } else {
            None
        },
    }
}

/// Whether an action is the one that `frame_after` calls for.
pub open spec fn action_matches(action: StreamAction, event: StreamEvent, frame: Option<Seq<char>>) -> bool {
    match action {
        StreamAction::Finish => event is Ended,
        StreamAction::Wait => !(event is Ended) && frame is None,
        StreamAction::Emit(text) => !(event is Ended) && frame == Some(text@),
    }
}

impl StreamEndpoint {
    /// Whether the silent time is below the keep-alive interval.
    pub open spec fn wf(&self) -> bool {
        self@.idle < self@.interval
    }

    /// An endpoint for a connection that has just been opened. The interval
    /// is in seconds and must not be zero.
    pub fn new(feed: Feed, interval: u64) -> (endpoint: Option<StreamEndpoint>)
        ensures
            interval == 0 ==> endpoint is None,
            interval > 0 ==> endpoint is Some && endpoint->Some_0.wf() && endpoint->Some_0@ == (
            StreamEndpointView { feed: feed@, interval, idle: 0 }),
    {
        if interval == 0 {
            None
        } else {
            Some(StreamEndpoint { feed, interval, idle: 0 })
        }
    }

    /// The feed of the connection.
    pub fn feed(&self) -> (feed: &Feed)
        ensures
            feed@ == self@.feed,
    {
        &self.feed
    }

    /// Decides what to do about an event. An admitted entry is sent as its
    /// frame; silence that has lasted for the interval is broken by a
    /// keep-alive; the response ends only when the subscription has ended.
    /// The silent time stays below the interval from the moment the endpoint
    /// is made.
    pub fn step(&mut self, event: StreamEvent) -> (action: StreamAction)
        ensures
            old(self).wf() ==> final(self).wf(),
            final(self)@.feed == old(self)@.feed,
            final(self)@.interval == old(self)@.interval,
            final(self)@.idle == idle_after(old(self)@, event),
            action_matches(action, event, frame_after(old(self)@, event)),
    {
        match event {
            StreamEvent::Entry(entry) => {
                if self.feed.admits(&entry) {
                    self.idle = 0;
                    StreamAction::Emit(frame_entry(&entry))
                } else {
                    StreamAction::Wait
                }
            },
            StreamEvent::Ended => StreamAction::Finish,
            StreamEvent::Elapsed(elapsed) => {
                let silent = if elapsed > u64::MAX - self.idle {
                    u64::MAX
                } else {
                    self.idle + elapsed
                };
                if silent >= self.interval {
                    self.idle = 0;
                    StreamAction::Emit(String::from_str(": keep-alive\n\n"))
                } else {
                    self.idle = silent;
                    StreamAction::Wait
                }
            },
        }
    }
}

/// Keep-alive: once the silence has lasted for the interval, the event that
/// reports it is answered with a keep-alive frame, and no report of elapsed
/// time or of an entry ever ends the response.
pub proof fn lemma_silence_is_broken(state: StreamEndpointView, event: StreamEvent, action: StreamAction)
    requires
        action_matches(action, event, frame_after(state, event)),
    ensures
        (event is Elapsed && state.idle + event->Elapsed_0 >= state.interval) ==> (action is Emit
            && action->Emit_0@ == keep_alive_frame()),
        !(event is Ended) ==> !(action is Finish),
{
}

} // verus!
