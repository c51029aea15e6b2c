//! Fan-out of ready-made event frames, with a sweep for abandoned
//! subscribers.
//!
//! This broadcaster sends text rather than entries: each message goes out
//! as one `data:` frame. Its queues are short, and a subscriber that no
//! longer takes a frame is dropped, by a publication or by a sweep that a
//! timer of the host drives.
use vstd::prelude::*;
use vstd::string::StringExecFns;
use std::sync::{Arc, Mutex};
use bytes::Bytes;
use futures::channel::mpsc::{channel, Receiver, Sender, TryRecvError};
use crate::broadcaster::{
    after_send, classify, is_closed, lemma_offer_step, ChannelError, Delivery,
};
use crate::stream::data_frame;

verus! {

/// A buffer of bytes that is cheap to share.
#[verifier::external_type_specification]
#[verifier::external_body]
pub struct ExBytes(Bytes);

/// The frames that a producing end has put on its queue so far, oldest
/// first, each as the text it was made from.
pub uninterp spec fn accepted_frames(tx: Sender<Bytes>) -> Seq<Seq<char>>;

/// The frames that a consuming end has taken off its queue so far, oldest
/// first, each as its bytes.
pub uninterp spec fn taken_frames(rx: Receiver<Bytes>) -> Seq<Seq<u8>>;

/// Whether a consuming end has reported the end of its queue.
pub uninterp spec fn ended_frames(rx: Receiver<Bytes>) -> bool;

/// What a lock held when it was made: the histories of the subscribers of
/// the broadcaster that it was made with. What it holds later is up to its
/// holders and has no name.
pub uninterp spec fn first_held_frames(lock: Mutex<Broadcaster>) -> Seq<Seq<Seq<char>>>;

/// How many frames a subscriber's queue buffers before it refuses more.
pub const FRAME_QUEUE_CAPACITY: usize = 5;

/// The frame that greets a new subscriber.
pub open spec fn greeting_frame() -> Seq<char> {
    data_frame("connected"@)
}

/// The frame that probes whether a subscriber still listens.
pub open spec fn ping_frame() -> Seq<char> {
    data_frame("ping"@)
}

/// Calls `futures::channel::mpsc::channel`. Trusted: nothing has passed
/// through either end of a fresh queue, and its consuming end has not
/// reported an end. The bound on `buffer` is the one the call asserts.
#[verifier::external_body]
fn open_channel(buffer: usize) -> (ends: (Sender<Bytes>, Receiver<Bytes>))
    requires
        buffer < usize::MAX / 4,
    ensures
        accepted_frames(ends.0) == Seq::<Seq<char>>::empty(),
        taken_frames(ends.1) == Seq::<Seq<u8>>::empty(),
        !ended_frames(ends.1),
{
    channel(buffer)
}

/// Calls `Mutex::new`. Trusted: the lock is made with the broadcaster
/// given.
#[verifier::external_body]
fn new_mutex(broadcaster: Broadcaster) -> (lock: Mutex<Broadcaster>)
    ensures
        first_held_frames(lock) == broadcaster@,
{
    Mutex::new(broadcaster)
}

/// Calls `Sender::try_send` with the bytes of the text, made by
/// `Bytes::copy_from_slice`. Trusted: on success the frame is the newest on
/// the queue; on failure the queue is as it was, and the error tells a full
/// queue from a departed consumer.
#[verifier::external_body]
fn try_send(tx: &mut Sender<Bytes>, frame: &str) -> (sent: Result<(), ChannelError>)
    ensures
        sent is Ok ==> accepted_frames(*final(tx)) == accepted_frames(*old(tx)).push(frame@),
        sent is Err ==> accepted_frames(*final(tx)) == accepted_frames(*old(tx)),
{
    match tx.try_send(Bytes::copy_from_slice(frame.as_bytes())) {
        Ok(()) => Ok(()),
        Err(e) => if e.is_full() {
            Err(ChannelError::Full)
        } else {
            Err(ChannelError::Disconnected)
        },
    }
}

/// What one look at a subscriber's queue found.
#[derive(Debug, PartialEq)]
pub enum ReceivedFrame {
    /// The bytes of the oldest waiting frame, now taken off the queue.
    Frame(Vec<u8>),
    /// Nothing is waiting, but the producing end is still there.
    Empty,
    /// Nothing is waiting and nothing will come.
    Closed,
}

/// Calls `Receiver::try_recv`, which never waits, and copies the bytes of a
/// frame out. Trusted: a frame handed out is the newest that this end has
/// taken; otherwise this end has taken what it had taken before. An end
/// that has once reported the end of its queue reports it ever after, and
/// has reported it exactly if it reports it now.
#[verifier::external_body]
fn try_recv(rx: &mut Receiver<Bytes>) -> (got: ReceivedFrame)
    ensures
        got matches ReceivedFrame::Frame(bytes) ==> taken_frames(*final(rx)) == taken_frames(
            *old(rx),
        ).push(bytes@),
        !(got is Frame) ==> taken_frames(*final(rx)) == taken_frames(*old(rx)),
        ended_frames(*old(rx)) ==> got is Closed,
        ended_frames(*final(rx)) == (got is Closed),
{
    match rx.try_recv() {
        Ok(frame) => ReceivedFrame::Frame(frame.to_vec()),
        Err(TryRecvError::Empty) => ReceivedFrame::Empty,
        Err(TryRecvError::Closed) => ReceivedFrame::Closed,
    }
}

/// The registry of the subscribers that take frames.
///
/// Its view lists, for each registered subscriber in order of registration,
/// the frames delivered to that subscriber's queue so far, oldest first.
pub struct Broadcaster {
    clients: Vec<Sender<Bytes>>,
}

impl View for Broadcaster {
    type V = Seq<Seq<Seq<char>>>;

    closed spec fn view(&self) -> Seq<Seq<Seq<char>>> {
        Seq::new(self.clients@.len(), |k: int| accepted_frames(self.clients@[k]))
    }
}

/// One subscriber's handle: the consuming end of its queue.
pub struct Client(pub Receiver<Bytes>);

impl Client {
    /// Takes the oldest waiting frame off the queue, if there is one,
    /// without waiting for one. The sequence cannot be restarted: once the
    /// end of the queue has been reported, every later look reports it
    /// again.
    pub fn try_next(&mut self) -> (got: ReceivedFrame)
        ensures
            got matches ReceivedFrame::Frame(bytes) ==> taken_frames(final(self).0) == taken_frames(
                old(self).0,
            ).push(bytes@),
            !(got is Frame) ==> taken_frames(final(self).0) == taken_frames(old(self).0),
            ended_frames(old(self).0) ==> got is Closed,
            ended_frames(final(self).0) == (got is Closed),
    {
        try_recv(&mut self.0)
    }

    /// Turns what the queue yielded to a poll into an item of the
    /// subscriber's sequence: a frame is a success, and the end of the queue
    /// is the end of the sequence, never an error.
    pub fn item(polled: Option<Bytes>) -> (item: Option<Result<Bytes, ChannelError>>)
        ensures
            item == match polled {
                Some(frame) => Some(Ok::<Bytes, ChannelError>(frame)),
                None => None,
            },
    {
        match polled {
            Some(frame) => Some(Ok(frame)),
            None => None,
        }
    }
}

impl Default for Broadcaster {
    fn default() -> (broadcaster: Self)
        ensures
            broadcaster@.len() == 0,
    {
        Self::new()
    }
}

impl Broadcaster {
    /// A broadcaster without subscribers, behind a new lock, ready to be
    /// shared by the publishers, the connection handlers and the sweep.
    pub fn create() -> (shared: Arc<Mutex<Broadcaster>>)
        ensures
            first_held_frames(*shared) == Seq::<Seq<Seq<char>>>::empty(),
    {
        let broadcaster = Broadcaster::new();
        assert(broadcaster@ =~= Seq::<Seq<Seq<char>>>::empty());
        Arc::new(new_mutex(broadcaster))
    }

    /// A broadcaster without subscribers.
    pub fn new() -> (broadcaster: Self)
        ensures
            broadcaster@.len() == 0,
    {
        Broadcaster { clients: Vec::new() }
    }

    /// How many subscribers are registered.
    pub fn client_count(&self) -> (count: usize)
        ensures
            count == self@.len(),
    {
        self.clients.len()
    }

    /// Registers a subscriber with a queue of `FRAME_QUEUE_CAPACITY` frames
    /// and greets it. The subscriber is registered whether or not its queue
    /// took the greeting; the subscribers registered before are untouched.
    pub fn new_client(&mut self) -> (client: Client)
        ensures
            final(self)@.len() == old(self)@.len() + 1,
            final(self)@.drop_last() == old(self)@,
            final(self)@.last() == seq![greeting_frame()] || final(self)@.last() == Seq::<
                Seq<char>,
            >::empty(),
            taken_frames(client.0) == Seq::<Seq<u8>>::empty(),
            !ended_frames(client.0),
    {
        let (mut tx, rx) = open_channel(FRAME_QUEUE_CAPACITY);
        let _ = try_send(&mut tx, "data: connected\n\n");
        proof {
            frame_literals();
            assert(Seq::<Seq<char>>::empty().push(greeting_frame()) =~= seq![greeting_frame()]);
        }
        self.clients.push(tx);
        assert(self@.drop_last() =~= old(self)@);
        Client(rx)
    }

    /// Offers `frame` to every subscriber, once and without waiting. With
    /// `skip_closed`, a queue found closed is offered nothing.
    fn offer(&mut self, frame: &str, skip_closed: bool) -> (report: Vec<Delivery>)
        ensures
            report@.len() == old(self)@.len(),
            final(self)@ == after_send(old(self)@, report@, frame@),
            !skip_closed ==> forall|k: int| 0 <= k < report@.len() ==> report@[k] != Delivery::Closed,
    {
        let ghost before = self@;
        let mut report: Vec<Delivery> = Vec::new();
        let mut i: usize = 0;
        proof {
            assert(self@.subrange(0, 0) =~= after_send(before.subrange(0, 0), report@, frame@));
            assert(self@.subrange(0, self@.len() as int) =~= before);
        }
        while i < self.clients.len()
            invariant
                i <= self.clients.len(),
                self@.len() == self.clients.len(),
                report@.len() + (self.clients.len() - i) == before.len(),
                self@.subrange(0, i as int) == after_send(
                    before.subrange(0, report@.len() as int),
                    report@,
                    frame@,
                ),
                self@.subrange(i as int, self@.len() as int) == before.subrange(
                    report@.len() as int,
                    before.len() as int,
                ),
                !skip_closed ==> forall|k: int|
                    0 <= k < report@.len() ==> report@[k] != Delivery::Closed,
            decreases self.clients.len() - i,
        {
            let ghost here = self@;
            let closed = skip_closed && is_closed(&self.clients[i]);
            let sent = if closed {
                Ok(())
            } else {
                try_send(&mut self.clients[i], frame)
            };
            let outcome = classify(closed, sent);
            if outcome != Delivery::Delivered {
                let _ = self.clients.remove(i);
            }
            proof {
                if outcome == Delivery::Delivered {
                    assert(self@ =~= here.update(i as int, here[i as int].push(frame@)));
                } else {
                    assert(self@ =~= here.remove(i as int));
                }
                lemma_offer_step(before, report@, here, self@, i as int, outcome, frame@);
            }
            report.push(outcome);
            if outcome == Delivery::Delivered {
                i += 1;
            }
        }
        proof {
            assert(self@.subrange(0, i as int) =~= self@);
            assert(before.subrange(0, report@.len() as int) =~= before);
        }
        report
    }

    /// Sends `msg` as one `data:` frame to every subscriber, once and
    /// without waiting, and reports what became of each. A subscriber keeps
    /// its place exactly if the frame was put on its queue.
    pub fn send(&mut self, msg: &str) -> (report: Vec<Delivery>)
        ensures
            report@.len() == old(self)@.len(),
            final(self)@ == after_send(old(self)@, report@, data_frame(msg@)),
    {
        let mut frame = String::from_str("data: ");
        frame.append(msg);
        frame.append("\n\n");
        self.offer(frame.as_str(), true)
    }

    /// Probes every subscriber with a ping frame and drops those whose
    /// queue does not take it. Every queue is probed, so no subscriber is
    /// reported as found closed: the ones that stay have the ping as their
    /// newest frame.
    pub fn remove_stale_clients(&mut self) -> (report: Vec<Delivery>)
        ensures
            report@.len() == old(self)@.len(),
            final(self)@ == after_send(old(self)@, report@, ping_frame()),
            forall|k: int| 0 <= k < report@.len() ==> report@[k] != Delivery::Closed,
    {
        proof {
            frame_literals();
        }
        self.offer("data: ping\n\n", false)
    }
}

/// The two fixed frames, written out.
proof fn frame_literals()
    ensures
        "data: ping\n\n"@ == ping_frame(),
        "data: connected\n\n"@ == greeting_frame(),
{
    reveal_strlit("data: ping\n\n");
    reveal_strlit("data: connected\n\n");
    reveal_strlit("data: ");
    reveal_strlit("ping");
    reveal_strlit("connected");
    reveal_strlit("\n\n");
    assert("data: ping\n\n"@ =~= ping_frame());
    assert("data: connected\n\n"@ =~= greeting_frame());
}

} // verus!
