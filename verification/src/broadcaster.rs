//! Fan-out of log entries to every live subscriber.
//!
//! Each subscriber owns the consuming end of a bounded queue; the
//! broadcaster keeps the producing ends. Publishing never waits: an entry is
//! offered to each queue once, and a subscriber whose queue is found closed
//! or refuses the entry is dropped from the registry.
use vstd::prelude::*;
use futures::channel::mpsc::{channel, Receiver, Sender, TryRecvError};
use crate::entry::{LogEntry, LogEntryView};

verus! {

/// The producing end of a bounded queue.
#[verifier::external_type_specification]
#[verifier::external_body]
#[verifier::reject_recursive_types(T)]
pub struct ExSender<T>(Sender<T>);

/// The consuming end of a bounded queue.
#[verifier::external_type_specification]
#[verifier::external_body]
#[verifier::reject_recursive_types(T)]
pub struct ExReceiver<T>(Receiver<T>);

/// The entries that a producing end has put on its queue so far, oldest
/// first.
pub uninterp spec fn accepted(tx: Sender<LogEntry>) -> Seq<LogEntryView>;

/// The entries that a consuming end has taken off its queue so far, oldest
/// first.
pub uninterp spec fn taken(rx: Receiver<LogEntry>) -> Seq<LogEntryView>;

/// Whether a consuming end has reported the end of its queue.
pub uninterp spec fn ended(rx: Receiver<LogEntry>) -> bool;

/// How many entries a subscriber's queue buffers before it refuses more.
pub const QUEUE_CAPACITY: usize = 100;

/// Why a queue did not take an entry.
#[derive(Clone, Copy, Debug, PartialEq, Eq, Structural)]
pub enum ChannelError {
    /// The queue is at capacity.
    Full,
    /// The consuming end is gone.
    Disconnected,
}

/// What became of one subscriber during one publication.
#[derive(Clone, Copy, Debug, PartialEq, Eq, Structural)]
pub enum Delivery {
    /// The entry was put on the subscriber's queue; the subscriber stays.
    Delivered,
    /// The queue was found closed before anything was offered; the
    /// subscriber was dropped.
    Closed,
    /// The queue refused the entry because it is at capacity; the
    /// subscriber was dropped.
    Full,
    /// The queue refused the entry because its consuming end is gone; the
    /// subscriber was dropped.
    Disconnected,
}

/// Calls `futures::channel::mpsc::channel`. Trusted: nothing has passed
/// through either end of a fresh queue, and its consuming end has not
/// reported an end. The bound on `buffer` is the one the call asserts.
#[verifier::external_body]
fn open_channel(buffer: usize) -> (ends: (Sender<LogEntry>, Receiver<LogEntry>))
    requires
        buffer < usize::MAX / 4,
    ensures
        accepted(ends.0) == Seq::<LogEntryView>::empty(),
        taken(ends.1) == Seq::<LogEntryView>::empty(),
        !ended(ends.1),
{
    channel(buffer)
}

/// Calls `Sender::is_closed`. The answer depends on what the consuming side
/// has done, so nothing is claimed of it.
#[verifier::external_body]
pub(crate) fn is_closed<T>(tx: &Sender<T>) -> (closed: bool) {
    tx.is_closed()
}

/// Calls `Sender::try_send`, which never waits. Trusted: on success the
/// entry is the newest on the queue; on failure the queue is as it was, and
/// the error tells a full queue from a departed consumer.
#[verifier::external_body]
fn try_send(tx: &mut Sender<LogEntry>, entry: LogEntry) -> (sent: Result<(), ChannelError>)
    ensures
        sent is Ok ==> accepted(*final(tx)) == accepted(*old(tx)).push(entry@),
        sent is Err ==> accepted(*final(tx)) == accepted(*old(tx)),
{
    match tx.try_send(entry) {
        Ok(()) => Ok(()),
        Err(e) => if e.is_full() {
            Err(ChannelError::Full)
        } else {
            Err(ChannelError::Disconnected)
        },
    }
}

/// What a publication records for a subscriber, given whether its queue was
/// found closed and, if it was not, what the queue answered to the offer.
pub open spec fn delivery_of(closed: bool, sent: Result<(), ChannelError>) -> Delivery {
    if closed {
        Delivery::Closed
    } else {
        match sent {
            Ok(_) => Delivery::Delivered,
            Err(ChannelError::Full) => Delivery::Full,
            Err(ChannelError::Disconnected) => Delivery::Disconnected,
        }
    }
}

/// Classifies one subscriber's part in a publication.
pub fn classify(closed: bool, sent: Result<(), ChannelError>) -> (delivery: Delivery)
    ensures
        delivery == delivery_of(closed, sent),
{
    if closed {
        Delivery::Closed
    } else {
        match sent {
            Ok(_) => Delivery::Delivered,
            Err(ChannelError::Full) => Delivery::Full,
            Err(ChannelError::Disconnected) => Delivery::Disconnected,
        }
    }
}

/// The per-subscriber histories after a publication of `msg`, given the
/// histories before it and what became of each subscriber: the subscribers
/// with a delivery remain, in their order, each with `msg` as its newest
/// entry; all others are gone.
pub open spec fn after_send<T>(before: Seq<Seq<T>>, report: Seq<Delivery>, msg: T) -> Seq<Seq<T>>
    decreases report.len(),
{
    if report.len() == 0 || before.len() == 0 {
        Seq::empty()
    } else {
        let rest = after_send(before.drop_last(), report.drop_last(), msg);
        if report.last() == Delivery::Delivered {
            rest.push(before.last().push(msg))
        } else {
            rest
        }
    }
}

/// How many subscribers of a report received the entry.
pub open spec fn delivered_count(report: Seq<Delivery>) -> nat
    decreases report.len(),
{
    if report.len() == 0 {
        0
    } else {
        delivered_count(report.drop_last()) + if report.last() == Delivery::Delivered {
            1nat
        } else {
            0nat
        }
    }
}

/// The first failed offer of a report, if any offer failed. A queue found
/// closed was offered nothing and is no failure.
pub open spec fn first_failure_of(report: Seq<Delivery>) -> Option<ChannelError>
    decreases report.len(),
{
    if report.len() == 0 {
        None
    } else if report[0] == Delivery::Full {
        Some(ChannelError::Full)
    } else if report[0] == Delivery::Disconnected {
        Some(ChannelError::Disconnected)
    } else {
        first_failure_of(report.drop_first())
    }
}

/// One step of a publication. So far the subscribers `before[..done.len()]`
/// have been served, with the outcomes `done`, and `here` holds their
/// histories after it, followed by the histories of those not yet served.
/// Serving the next one, at place `i` of `here`, with `outcome` gives
/// `next`: the history at `i` has the entry appended on a delivery, and is
/// removed otherwise.
pub proof fn lemma_offer_step<T>(
    before: Seq<Seq<T>>,
    done: Seq<Delivery>,
    here: Seq<Seq<T>>,
    next: Seq<Seq<T>>,
    i: int,
    outcome: Delivery,
    msg: T,
)
    requires
        0 <= i < here.len(),
        done.len() + (here.len() - i) == before.len(),
        here.subrange(0, i) == after_send(before.subrange(0, done.len() as int), done, msg),
        here.subrange(i, here.len() as int) == before.subrange(
            done.len() as int,
            before.len() as int,
        ),
        outcome == Delivery::Delivered ==> next == here.update(i, here[i].push(msg)),
        outcome != Delivery::Delivered ==> next == here.remove(i),
    ensures
        ({
            let served = if outcome == Delivery::Delivered {
                i + 1
            } else {
                i
            };
            &&& next.subrange(0, served) == after_send(
                before.subrange(0, done.len() as int + 1),
                done.push(outcome),
                msg,
            )
            &&& next.subrange(served, next.len() as int) == before.subrange(
                done.len() as int + 1,
                before.len() as int,
            )
        }),
{
    let j = done.len() as int;
    let head = before.subrange(0, j + 1);
    let tail = here.subrange(i, here.len() as int);
    assert(head.drop_last() =~= before.subrange(0, j));
    assert(head.last() == before[j]);
    assert(done.push(outcome).drop_last() =~= done);
    assert(here[i] == tail[0]);
    assert forall|k: int| i < k < here.len() implies #[trigger] here[k] == before[j + k - i] by {
        assert(here[k] == tail[k - i]);
    }
    if outcome == Delivery::Delivered {
        assert(next.subrange(0, i + 1) =~= here.subrange(0, i).push(before[j].push(msg)));
        assert(next.subrange(i + 1, next.len() as int) =~= before.subrange(
            j + 1,
            before.len() as int,
        ));
    } else {
        assert(next.subrange(0, i) =~= here.subrange(0, i));
        assert(next.subrange(i, next.len() as int) =~= before.subrange(
            j + 1,
            before.len() as int,
        ));
    }
}

/// Every subscriber without a delivery is gone after a publication: as many
/// remain as received the entry. In particular a subscriber whose queue was
/// found closed is pruned by the publication itself.
pub proof fn lemma_failed_subscribers_are_pruned<T>(before: Seq<Seq<T>>, report: Seq<Delivery>, msg: T)
    requires
        report.len() == before.len(),
    ensures
        after_send(before, report, msg).len() == delivered_count(report),
    decreases report.len(),
{
    if report.len() > 0 {
        lemma_failed_subscribers_are_pruned(before.drop_last(), report.drop_last(), msg);
    }
}

/// A subscriber that received the entry has it as its newest entry after the
/// publication, whatever became of the other subscribers: a full or closed
/// queue elsewhere in the registry takes nothing from it. Its place after
/// the publication is the number of deliveries before it.
pub proof fn lemma_delivery_is_isolated<T>(
    before: Seq<Seq<T>>,
    report: Seq<Delivery>,
    msg: T,
    i: int,
)
    requires
        report.len() == before.len(),
        0 <= i < report.len(),
        report[i] == Delivery::Delivered,
    ensures
        delivered_count(report.subrange(0, i)) < after_send(before, report, msg).len(),
        after_send(before, report, msg)[delivered_count(report.subrange(0, i)) as int]
            == before[i].push(msg),
    decreases report.len(),
{
    let n = report.len() as int;
    let rest = after_send(before.drop_last(), report.drop_last(), msg);
    lemma_failed_subscribers_are_pruned(before.drop_last(), report.drop_last(), msg);
    if i == n - 1 {
        assert(report.drop_last() =~= report.subrange(0, i));
    } else {
        lemma_delivery_is_isolated(before.drop_last(), report.drop_last(), msg, i);
        assert(report.drop_last().subrange(0, i) =~= report.subrange(0, i));
    }
}

/// Fan-out is complete: when every subscriber received the entry, all of
/// them remain, in their order, and each has the entry exactly once more,
/// as the newest of its queue.
pub proof fn lemma_fan_out_is_complete<T>(before: Seq<Seq<T>>, report: Seq<Delivery>, msg: T)
    requires
        report.len() == before.len(),
        forall|i: int| 0 <= i < report.len() ==> report[i] == Delivery::Delivered,
    ensures
        after_send(before, report, msg).len() == before.len(),
        forall|i: int|
            0 <= i < before.len() ==> #[trigger] after_send(before, report, msg)[i] == before[i].push(
                msg,
            ),
    decreases report.len(),
{
    if report.len() > 0 {
        lemma_fan_out_is_complete(before.drop_last(), report.drop_last(), msg);
    }
}

/// Order: after two publications that reached every subscriber, every
/// subscriber has both entries at the end of its queue, the one published
/// first before the one published second.
pub proof fn lemma_publications_keep_order<T>(
    before: Seq<Seq<T>>,
    first_report: Seq<Delivery>,
    first: T,
    second_report: Seq<Delivery>,
    second: T,
)
    requires
        first_report.len() == before.len(),
        second_report.len() == before.len(),
        forall|i: int| 0 <= i < before.len() ==> first_report[i] == Delivery::Delivered,
        forall|i: int| 0 <= i < before.len() ==> second_report[i] == Delivery::Delivered,
    ensures
        after_send(after_send(before, first_report, first), second_report, second).len()
            == before.len(),
        forall|i: int|
            0 <= i < before.len() ==> #[trigger] after_send(
                after_send(before, first_report, first),
                second_report,
                second,
            )[i] == before[i].push(first).push(second),
{
    let between = after_send(before, first_report, first);
    lemma_fan_out_is_complete(before, first_report, first);
    lemma_fan_out_is_complete(between, second_report, second);
}

/// The first failed offer of a publication, for callers that want to log it.
pub fn first_failure(report: &Vec<Delivery>) -> (failure: Option<ChannelError>)
    ensures
        failure == first_failure_of(report@),
{
    let mut i: usize = 0;
    assert(report@.subrange(0, report@.len() as int) =~= report@);
    while i < report.len()
        invariant
            i <= report.len(),
            first_failure_of(report@) == first_failure_of(report@.subrange(i as int, report@.len() as int)),
        decreases report.len() - i,
    {
        let ghost rest = report@.subrange(i as int, report@.len() as int);
        assert(rest[0] == report@[i as int]);
        assert(rest.drop_first() == report@.subrange(i + 1, report@.len() as int));
        match report[i] {
            Delivery::Full => {
                return Some(ChannelError::Full);
            },
            Delivery::Disconnected => {
                return Some(ChannelError::Disconnected);
            },
            _ => {},
        }
        i += 1;
    }
    None
}

/// The registry of subscribers.
///
/// Its view lists, for each registered subscriber in order of registration,
/// the entries delivered to that subscriber's queue so far, oldest first.
pub struct TracingBroadcaster {
    clients: Vec<Sender<LogEntry>>,
}

impl View for TracingBroadcaster {
    type V = Seq<Seq<LogEntryView>>;

    closed spec fn view(&self) -> Seq<Seq<LogEntryView>> {
        Seq::new(self.clients@.len(), |k: int| accepted(self.clients@[k]))
    }
}

/// One subscriber's handle: the consuming end of its queue. It yields the
/// entries in the order they were published and ends for good once the
/// producing end is gone; a new handle comes only from a new registration.
pub struct Client(pub Receiver<LogEntry>);

/// What one look at a subscriber's queue found.
#[derive(Debug, PartialEq)]
pub enum Received {
    /// The oldest waiting entry, now taken off the queue.
    Entry(LogEntry),
    /// Nothing is waiting, but the producing end is still there.
    Empty,
    /// Nothing is waiting and nothing will come.
    Closed,
}

/// Calls `Receiver::try_recv`, which never waits. Trusted: an entry handed
/// out is the newest that this end has taken; otherwise this end has taken
/// what it had taken before. An end that has once reported the end of its
/// queue reports it ever after, and has reported it exactly if it reports it
/// now.
#[verifier::external_body]
fn try_recv(rx: &mut Receiver<LogEntry>) -> (got: Received)
    ensures
        got matches Received::Entry(e) ==> taken(*final(rx)) == taken(*old(rx)).push(e@),
        !(got is Entry) ==> taken(*final(rx)) == taken(*old(rx)),
        ended(*old(rx)) ==> got is Closed,
        ended(*final(rx)) == (got is Closed),
{
    match rx.try_recv() {
        Ok(entry) => Received::Entry(entry),
        Err(TryRecvError::Empty) => Received::Empty,
        Err(TryRecvError::Closed) => Received::Closed,
    }
}

impl Client {
    /// Takes the oldest waiting entry off the queue, if there is one, without
    /// waiting for one. The sequence cannot be restarted: once the end of the
    /// queue has been reported, every later look reports it again.
    pub fn try_next(&mut self) -> (got: Received)
        ensures
            got matches Received::Entry(e) ==> taken(final(self).0) == taken(old(self).0).push(e@),
            !(got is Entry) ==> taken(final(self).0) == taken(old(self).0),
            ended(old(self).0) ==> got is Closed,
            ended(final(self).0) == (got is Closed),
    {
        try_recv(&mut self.0)
    }

    /// Turns what the queue yielded to a poll into an item of the
    /// subscriber's sequence: an entry is a success, and the end of the
    /// queue is the end of the sequence, never an error.
    pub fn item(polled: Option<LogEntry>) -> (item: Option<Result<LogEntry, ChannelError>>)
        ensures
            item == match polled {
                Some(entry) => Some(Ok::<LogEntry, ChannelError>(entry)),
                None => None,
            },
    {
        match polled {
            Some(entry) => Some(Ok(entry)),
            None => None,
        }
    }
}

impl Default for TracingBroadcaster {
    fn default() -> (broadcaster: Self)
        ensures
            broadcaster@.len() == 0,
    {
        Self::new()
    }
}

impl TracingBroadcaster {
    /// A broadcaster without subscribers.
    pub fn new() -> (broadcaster: Self)
        ensures
            broadcaster@.len() == 0,
    {
        TracingBroadcaster { clients: Vec::new() }
    }

    /// How many subscribers are registered.
    pub fn client_count(&self) -> (count: usize)
        ensures
            count == self@.len(),
    {
        self.clients.len()
    }

    /// Registers a subscriber with an empty queue of `QUEUE_CAPACITY`
    /// entries and hands out its consuming end. The subscribers registered
    /// before are untouched.
    pub fn new_client(&mut self) -> (client: Client)
        ensures
            final(self)@ == old(self)@.push(Seq::empty()),
            taken(client.0) == Seq::<LogEntryView>::empty(),
            !ended(client.0),
    {
        let (tx, rx) = open_channel(QUEUE_CAPACITY);
        self.clients.push(tx);
        assert(self@ =~= old(self)@.push(Seq::empty()));
        Client(rx)
    }

    /// Offers `msg` to every subscriber, once and without waiting, and
    /// reports what became of each, in registry order. A subscriber keeps its
    /// place exactly if the entry was put on its queue; one whose queue was
    /// found closed, was full or had lost its consumer is dropped, and the
    /// remaining subscribers are served all the same.
    pub fn send(&mut self, msg: &LogEntry) -> (report: Vec<Delivery>)
        ensures
            report@.len() == old(self)@.len(),
            final(self)@ == after_send(old(self)@, report@, msg@),
    {
        let ghost before = self@;
        let mut report: Vec<Delivery> = Vec::new();
        let mut i: usize = 0;
        proof {
            assert(self@.subrange(0, 0) =~= after_send(before.subrange(0, 0), report@, msg@));
            assert(self@.subrange(0, self@.len() as int) =~= before);
        }
        while i < self.clients.len()
            invariant
                i <= self.clients.len(),
                self@.len() == self.clients.len(),
                report@.len() + (self.clients.len() - i) == before.len(),
                self@.subrange(0, i as int) == after_send(
                    before.subrange(0, report@.len() as int),
                    report@,
                    msg@,
                ),
                self@.subrange(i as int, self@.len() as int) == before.subrange(
                    report@.len() as int,
                    before.len() as int,
                ),
            decreases self.clients.len() - i,
        {
            let ghost here = self@;
            let closed = is_closed(&self.clients[i]);
            let sent = if closed {
                Ok(())
            } else {
                try_send(&mut self.clients[i], msg.clone())
            };
            let outcome = classify(closed, sent);
            if outcome != Delivery::Delivered {
                let _ = self.clients.remove(i);
            }
            proof {
                if outcome == Delivery::Delivered {
                    assert(self@ =~= here.update(i as int, here[i as int].push(msg@)));
                } else {
                    assert(self@ =~= here.remove(i as int));
                }
                lemma_offer_step(before, report@, here, self@, i as int, outcome, msg@);
            }
            report.push(outcome);
            if outcome == Delivery::Delivered {
                i += 1;
            }
        }
        proof {
            assert(self@.subrange(0, i as int) =~= self@);
            assert(before.subrange(0, report@.len() as int) =~= before);
        }
        report
    }
}

} // verus!
