use apalis_board::broadcaster::{
    first_failure, ChannelError, Client, Delivery, Received, TracingBroadcaster, QUEUE_CAPACITY,
};
use apalis_board::entry::{Entry, LogEntry, LogLevel, Span};
use apalis_board::sse::{Broadcaster, ReceivedFrame, FRAME_QUEUE_CAPACITY};
use apalis_board::stream::{frame_entry, frame_text, Feed, StreamAction, StreamEndpoint, StreamEvent};
use apalis_board::subscriber::{publish_record, SinkReport, TracingSubscriber};
use apalis_board::wire::ParseError;

fn entry(n: i64, task: Option<&str>) -> LogEntry {
    LogEntry {
        span: task.map(|id| Span { attempt: n, task_id: id.to_string(), name: "job".to_string() }),
        level: LogLevel::Info,
        timestamp: format!("t{}", n),
        target: "worker".to_string(),
        entry: Entry { message: Some(format!("entry {}", n)), entry_type: None },
    }
}

fn drain(client: &mut Client) -> Vec<LogEntry> {
    let mut out = Vec::new();
    loop {
        match client.try_next() {
            Received::Entry(e) => out.push(e),
            _ => return out,
        }
    }
}

#[test]
fn publishing_without_subscribers_does_nothing() {
    let mut b = TracingBroadcaster::new();
    assert_eq!(b.client_count(), 0);
    assert_eq!(b.send(&entry(1, None)), Vec::<Delivery>::new());
    assert_eq!(b.client_count(), 0);
    assert_eq!(TracingBroadcaster::default().client_count(), 0);
}

#[test]
fn every_subscriber_gets_each_entry_once_and_in_order() {
    let mut b = TracingBroadcaster::new();
    let mut clients: Vec<Client> = (0..4).map(|_| b.new_client()).collect();
    assert_eq!(b.client_count(), 4);
    for n in 1..=3 {
        assert_eq!(b.send(&entry(n, Some("A"))), vec![Delivery::Delivered; 4]);
    }
    assert_eq!(b.client_count(), 4);
    for client in clients.iter_mut() {
        assert_eq!(
            drain(client),
            vec![entry(1, Some("A")), entry(2, Some("A")), entry(3, Some("A"))]
        );
        assert_eq!(client.try_next(), Received::Empty);
    }
}

#[test]
fn a_late_subscriber_sees_only_what_is_published_after_it_joined() {
    let mut b = TracingBroadcaster::new();
    let mut early = b.new_client();
    b.send(&entry(1, None));
    let mut late = b.new_client();
    b.send(&entry(2, None));
    assert_eq!(drain(&mut early), vec![entry(1, None), entry(2, None)]);
    assert_eq!(drain(&mut late), vec![entry(2, None)]);
}

#[test]
fn a_full_queue_is_dropped_and_holds_nobody_up() {
    let mut b = TracingBroadcaster::new();
    let mut slow = b.new_client();
    let mut delivered_to_slow = 0usize;
    // nobody reads `slow`; a fresh reader joins for each round and is read at once
    loop {
        let mut quick = b.new_client();
        let n = delivered_to_slow as i64;
        let report = b.send(&entry(n, None));
        assert_eq!(report.len(), 2);
        assert_eq!(report[1], Delivery::Delivered);
        assert_eq!(drain(&mut quick), vec![entry(n, None)]);
        drop(quick);
        if report[0] != Delivery::Delivered {
            assert_eq!(report[0], Delivery::Full);
            assert_eq!(first_failure(&report), Some(ChannelError::Full));
            // the slow subscriber is gone, the quick one stays
            assert_eq!(b.client_count(), 1);
            break;
        }
        delivered_to_slow += 1;
        // prune the quick reader of this round
        let pruned = b.send(&entry(-1, None));
        assert_eq!(pruned.len(), 2);
        if pruned[0] != Delivery::Delivered {
            assert_eq!(pruned[0], Delivery::Full);
            break;
        }
        delivered_to_slow += 1;
        assert_ne!(pruned[1], Delivery::Delivered);
        assert_eq!(b.client_count(), 1);
        assert!(delivered_to_slow <= 4 * QUEUE_CAPACITY);
    }
    assert!(delivered_to_slow >= QUEUE_CAPACITY);
    // what had been delivered is still there to read, in order
    let got = drain(&mut slow);
    assert_eq!(got.len(), delivered_to_slow);
    assert_eq!(got[0], entry(0, None));
    assert_eq!(slow.try_next(), Received::Closed);
}

#[test]
fn a_dropped_subscriber_is_pruned_by_the_next_publication() {
    let mut b = TracingBroadcaster::new();
    let first = b.new_client();
    let mut second = b.new_client();
    let third = b.new_client();
    drop(first);
    drop(third);
    assert_eq!(b.client_count(), 3);
    let report = b.send(&entry(1, None));
    assert_eq!(report.len(), 3);
    assert_eq!(report, vec![Delivery::Closed, Delivery::Delivered, Delivery::Closed]);
    assert_eq!(first_failure(&report), None);
    assert_eq!(b.client_count(), 1);
    assert_eq!(drain(&mut second), vec![entry(1, None)]);
    assert_eq!(b.send(&entry(2, None)), vec![Delivery::Delivered]);
    assert_eq!(drain(&mut second), vec![entry(2, None)]);
}

#[test]
fn a_subscription_ends_when_the_broadcaster_is_gone() {
    let mut b = TracingBroadcaster::new();
    let mut client = b.new_client();
    b.send(&entry(1, None));
    drop(b);
    assert_eq!(client.try_next(), Received::Entry(entry(1, None)));
    assert_eq!(client.try_next(), Received::Closed);
    assert_eq!(client.try_next(), Received::Closed);
}

#[test]
fn the_end_of_the_queue_is_no_error() {
    assert_eq!(Client::item(None), None);
    assert_eq!(Client::item(Some(entry(1, None))), Some(Ok(entry(1, None))));
}

#[test]
fn first_failure_skips_deliveries_and_closed_queues() {
    assert_eq!(first_failure(&vec![]), None);
    assert_eq!(first_failure(&vec![Delivery::Delivered, Delivery::Closed]), None);
    assert_eq!(
        first_failure(&vec![Delivery::Closed, Delivery::Disconnected, Delivery::Full]),
        Some(ChannelError::Disconnected)
    );
    assert_eq!(
        first_failure(&vec![Delivery::Delivered, Delivery::Full, Delivery::Disconnected]),
        Some(ChannelError::Full)
    );
}

#[test]
fn filter_correctness() {
    let mut b = TracingBroadcaster::new();
    let mut for_task = b.new_client();
    let mut dashboard = b.new_client();
    let mut raw = b.new_client();
    let published = vec![
        entry(1, Some("A")),
        entry(2, None),
        entry(3, Some("A")),
        entry(4, None),
        entry(5, Some("A")),
    ];
    for e in published.iter() {
        b.send(e);
    }
    let task_feed = Feed::Task("A".to_string());
    let picked: Vec<LogEntry> =
        drain(&mut for_task).into_iter().filter(|e| task_feed.admits(e)).collect();
    assert_eq!(picked, vec![entry(1, Some("A")), entry(3, Some("A")), entry(5, Some("A"))]);
    let picked: Vec<LogEntry> =
        drain(&mut dashboard).into_iter().filter(|e| Feed::Tasks.admits(e)).collect();
    assert_eq!(picked, vec![entry(1, Some("A")), entry(3, Some("A")), entry(5, Some("A"))]);
    let picked: Vec<LogEntry> = drain(&mut raw).into_iter().filter(|e| Feed::Raw.admits(e)).collect();
    assert_eq!(picked, published);
    assert!(!Feed::Task("B".to_string()).admits(&entry(1, Some("A"))));
    assert!(!Feed::Task("".to_string()).admits(&entry(2, None)));
}

#[test]
fn writing_what_is_not_json_counts_as_written_and_publishes_nothing() {
    let shared = TracingBroadcaster::create();
    let mut client = shared.lock().unwrap().new_client();
    let mut sink = TracingSubscriber::new(&shared);
    let record = b"plain text, not a record\n";
    let written = sink.write(record);
    assert_eq!(written.len, record.len());
    assert_eq!(written.report, SinkReport::Malformed(ParseError::Syntax));
    let written = sink.write(b"{\"level\":\"INFO\"}");
    assert_eq!(written.len, 16);
    assert_eq!(written.report, SinkReport::Malformed(ParseError::Shape));
    assert_eq!(client.try_next(), Received::Empty);
    assert_eq!(shared.lock().unwrap().client_count(), 1);
    sink.flush();
}

#[test]
fn writing_a_record_publishes_it_to_every_clone_s_subscribers() {
    let sink = TracingSubscriber::new_inner(TracingBroadcaster::new());
    let mut client = sink.get_broadcaster().lock().unwrap().new_client();
    let mut writer = sink.clone();
    let e = entry(9, Some("A"));
    let mut record = e.to_wire().unwrap().into_bytes();
    record.push(b'\n');
    let written = writer.write(&record);
    assert_eq!(written.len, record.len());
    assert_eq!(written.report, SinkReport::Published(vec![Delivery::Delivered]));
    assert_eq!(client.try_next(), Received::Entry(e));
    assert_eq!(client.try_next(), Received::Empty);
}

#[test]
fn a_busy_registry_drops_the_record_without_waiting() {
    let shared = TracingBroadcaster::create();
    let mut client = shared.lock().unwrap().new_client();
    let mut sink = TracingSubscriber::new(&shared);
    let record = entry(1, None).to_wire().unwrap();
    {
        let _held = shared.lock().unwrap();
        let written = sink.write(record.as_bytes());
        assert_eq!(written.len, record.len());
        assert_eq!(written.report, SinkReport::Busy);
    }
    assert_eq!(client.try_next(), Received::Empty);
    let written = sink.write(record.as_bytes());
    assert_eq!(written.report, SinkReport::Published(vec![Delivery::Delivered]));
    assert_eq!(client.try_next(), Received::Entry(entry(1, None)));
}

#[test]
fn publishing_a_record_on_a_held_broadcaster() {
    let mut b = TracingBroadcaster::new();
    let mut client = b.new_client();
    assert_eq!(publish_record(&mut b, b"oops"), Err(ParseError::Syntax));
    assert_eq!(publish_record(&mut b, b"[1]"), Err(ParseError::Shape));
    assert_eq!(b.client_count(), 1);
    assert_eq!(client.try_next(), Received::Empty);
    let text = entry(3, Some("A")).to_wire().unwrap();
    assert_eq!(publish_record(&mut b, text.as_bytes()), Ok(vec![Delivery::Delivered]));
    assert_eq!(client.try_next(), Received::Entry(entry(3, Some("A"))));
}

#[test]
fn frames() {
    assert_eq!(frame_text(Some("{}".to_string())), "data: {}\n\n");
    assert_eq!(frame_text(None), "event: error\ndata: serialization failed\n\n");
    let e = entry(1, Some("A"));
    assert_eq!(frame_entry(&e), format!("data: {}\n\n", e.to_wire().unwrap()));
    assert_eq!(
        frame_entry(&e),
        "data: {\"span\":{\"attempt\":1,\"taskId\":\"A\",\"name\":\"job\"},\"level\":\"INFO\",\
         \"timestamp\":\"t1\",\"target\":\"worker\",\"fields\":{\"message\":\"entry 1\"}}\n\n"
    );
}

#[test]
fn an_idle_connection_gets_keep_alives_and_is_never_ended() {
    assert_eq!(StreamEndpoint::new(Feed::Tasks, 0), None);
    let mut endpoint = StreamEndpoint::new(Feed::Tasks, 60).unwrap();
    assert_eq!(endpoint.feed(), &Feed::Tasks);
    assert_eq!(endpoint.step(StreamEvent::Elapsed(59)), StreamAction::Wait);
    assert_eq!(
        endpoint.step(StreamEvent::Elapsed(1)),
        StreamAction::Emit(": keep-alive\n\n".to_string())
    );
    assert_eq!(endpoint.step(StreamEvent::Elapsed(30)), StreamAction::Wait);
    assert_eq!(endpoint.step(StreamEvent::Elapsed(29)), StreamAction::Wait);
    assert_eq!(
        endpoint.step(StreamEvent::Elapsed(u64::MAX)),
        StreamAction::Emit(": keep-alive\n\n".to_string())
    );
    for _ in 0..5 {
        assert_eq!(
            endpoint.step(StreamEvent::Elapsed(60)),
            StreamAction::Emit(": keep-alive\n\n".to_string())
        );
    }
}

#[test]
fn an_endpoint_frames_admitted_entries_and_ends_with_its_subscription() {
    let mut endpoint = StreamEndpoint::new(Feed::Task("A".to_string()), 10).unwrap();
    assert_eq!(endpoint.step(StreamEvent::Elapsed(9)), StreamAction::Wait);
    // an entry that is not admitted sends nothing and does not break the silence
    assert_eq!(endpoint.step(StreamEvent::Entry(entry(1, None))), StreamAction::Wait);
    assert_eq!(endpoint.step(StreamEvent::Entry(entry(2, Some("B")))), StreamAction::Wait);
    assert_eq!(
        endpoint.step(StreamEvent::Elapsed(1)),
        StreamAction::Emit(": keep-alive\n\n".to_string())
    );
    assert_eq!(endpoint.step(StreamEvent::Elapsed(9)), StreamAction::Wait);
    let e = entry(3, Some("A"));
    assert_eq!(
        endpoint.step(StreamEvent::Entry(e.clone())),
        StreamAction::Emit(frame_entry(&e))
    );
    // the frame broke the silence
    assert_eq!(endpoint.step(StreamEvent::Elapsed(9)), StreamAction::Wait);
    assert_eq!(endpoint.step(StreamEvent::Ended), StreamAction::Finish);
}

#[test]
fn frames_are_greeted_sent_and_swept() {
    let mut b = Broadcaster::new();
    assert_eq!(Broadcaster::default().client_count(), 0);
    let mut first = b.new_client();
    let second = b.new_client();
    assert_eq!(b.client_count(), 2);
    assert_eq!(first.try_next(), ReceivedFrame::Frame(b"data: connected\n\n".to_vec()));
    assert_eq!(first.try_next(), ReceivedFrame::Empty);
    assert_eq!(b.send("hello"), vec![Delivery::Delivered, Delivery::Delivered]);
    assert_eq!(first.try_next(), ReceivedFrame::Frame(b"data: hello\n\n".to_vec()));
    drop(second);
    // the sweep probes every queue and drops the abandoned one
    let report = b.remove_stale_clients();
    assert_eq!(report, vec![Delivery::Delivered, Delivery::Disconnected]);
    assert_eq!(b.client_count(), 1);
    assert_eq!(first.try_next(), ReceivedFrame::Frame(b"data: ping\n\n".to_vec()));
    // a subscriber that never reads is dropped once its queue is full
    let mut sent = 0usize;
    loop {
        let report = b.send("x");
        assert_eq!(report.len(), 1);
        if report[0] != Delivery::Delivered {
            assert_eq!(report[0], Delivery::Full);
            break;
        }
        sent += 1;
        assert!(sent <= 4 * FRAME_QUEUE_CAPACITY);
    }
    assert!(sent >= FRAME_QUEUE_CAPACITY);
    assert_eq!(b.client_count(), 0);
    assert_eq!(b.send("y"), Vec::<Delivery>::new());
    assert_eq!(b.remove_stale_clients(), Vec::<Delivery>::new());
    let shared = Broadcaster::create();
    let mut client = shared.lock().unwrap().new_client();
    assert_eq!(shared.lock().unwrap().remove_stale_clients(), vec![Delivery::Delivered]);
    assert_eq!(client.try_next(), ReceivedFrame::Frame(b"data: connected\n\n".to_vec()));
    assert_eq!(client.try_next(), ReceivedFrame::Frame(b"data: ping\n\n".to_vec()));
    drop(shared);
    assert_eq!(client.try_next(), ReceivedFrame::Closed);
}

#[test]
fn a_created_broadcaster_starts_without_subscribers() {
    let shared = TracingBroadcaster::create();
    assert_eq!(shared.lock().unwrap().client_count(), 0);
    assert_eq!(shared.lock().unwrap().send(&entry(1, None)), Vec::<Delivery>::new());
    let frames = Broadcaster::create();
    assert_eq!(frames.lock().unwrap().client_count(), 0);
    assert_eq!(frames.lock().unwrap().send("x"), Vec::<Delivery>::new());
}

#[test]
fn a_sink_keeps_the_subscribers_of_the_broadcaster_it_takes() {
    let mut b = TracingBroadcaster::new();
    let mut first = b.new_client();
    let mut second = b.new_client();
    let mut sink = TracingSubscriber::new_inner(b);
    assert_eq!(sink.get_broadcaster().lock().unwrap().client_count(), 2);
    let e = entry(4, Some("A"));
    let record = e.to_wire().unwrap();
    assert_eq!(
        sink.write(record.as_bytes()).report,
        SinkReport::Published(vec![Delivery::Delivered, Delivery::Delivered])
    );
    assert_eq!(first.try_next(), Received::Entry(e.clone()));
    assert_eq!(second.try_next(), Received::Entry(e));
}

#[test]
fn an_ended_subscription_stays_ended() {
    let mut b = TracingBroadcaster::new();
    let mut client = b.new_client();
    assert_eq!(client.try_next(), Received::Empty);
    assert_eq!(client.try_next(), Received::Empty);
    b.send(&entry(1, None));
    b.send(&entry(2, None));
    drop(b);
    assert_eq!(client.try_next(), Received::Entry(entry(1, None)));
    assert_eq!(client.try_next(), Received::Entry(entry(2, None)));
    for _ in 0..3 {
        assert_eq!(client.try_next(), Received::Closed);
    }
    let mut frames = Broadcaster::new();
    let mut reader = frames.new_client();
    drop(frames);
    assert_eq!(reader.try_next(), ReceivedFrame::Frame(b"data: connected\n\n".to_vec()));
    for _ in 0..3 {
        assert_eq!(reader.try_next(), ReceivedFrame::Closed);
    }
}
