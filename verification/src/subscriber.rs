//! The bridge from a logging facility's write sink to the broadcaster.
//!
//! The facility hands over one formatted record per write. The record is
//! parsed and published; whatever goes wrong on the way is reported beside
//! the byte count and never fails the write, so that logging can neither
//! stall nor break the operation that logged.
use vstd::prelude::*;
use std::sync::{Arc, Mutex, MutexGuard};
use crate::broadcaster::{after_send, Delivery, TracingBroadcaster};
use crate::entry::LogEntryView;
use crate::wire::{parse, parsed, ParseError};

verus! {

/// A mutual-exclusion lock of the standard library.
#[verifier::external_type_specification]
#[verifier::external_body]
#[verifier::reject_recursive_types(T)]
pub struct ExMutex<T: ?Sized>(Mutex<T>);

/// The proof of holding such a lock.
#[verifier::external_type_specification]
#[verifier::external_body]
#[verifier::reject_recursive_types(T)]
pub struct ExMutexGuard<'a, T: ?Sized + 'a>(MutexGuard<'a, T>);

/// What a lock held when it was made: the histories of the subscribers of
/// the broadcaster that it was made with. What it holds later is up to its
/// holders and has no name.
pub uninterp spec fn first_held(lock: Mutex<TracingBroadcaster>) -> Seq<Seq<LogEntryView>>;

/// Calls `Mutex::new`. Trusted: the lock is made with the broadcaster
/// given.
#[verifier::external_body]
fn new_mutex(broadcaster: TracingBroadcaster) -> (lock: Mutex<TracingBroadcaster>)
    ensures
        first_held(lock) == broadcaster@,
{
    Mutex::new(broadcaster)
}

/// Calls `Arc::clone`. Trusted: the new handle points at the same value.
#[verifier::external_body]
fn share(shared: &Arc<Mutex<TracingBroadcaster>>) -> (handle: Arc<Mutex<TracingBroadcaster>>)
    ensures
        handle == *shared,
{
    Arc::clone(shared)
}

/// Calls `Mutex::try_lock`, which never waits. A lock that is held
/// elsewhere, or poisoned, yields `None`; which it will be depends on the
/// other holders, so nothing is claimed of it.
#[verifier::external_body]
fn try_lock<'a>(lock: &'a Mutex<TracingBroadcaster>) -> (guard: Option<
    MutexGuard<'a, TracingBroadcaster>,
>) {
    match lock.try_lock() {
        Ok(guard) => Some(guard),
        Err(_) => None,
    }
}

/// Borrows the value that a held lock protects, through `DerefMut`. What
/// the value is depends on the earlier holders, so nothing is claimed of it.
#[verifier::external_body]
fn locked<'a, 'b>(guard: &'b mut MutexGuard<'a, TracingBroadcaster>) -> (broadcaster: &'b mut TracingBroadcaster) {
    &mut *guard
}

/// What became of one written record.
#[derive(Debug, PartialEq)]
pub enum SinkReport {
    /// The record was an entry and was offered to the subscribers; the
    /// report says what became of each.
    Published(Vec<Delivery>),
    /// The record was not an entry; nothing was published.
    Malformed(ParseError),
    /// The registry was in use; the entry was dropped rather than waited
    /// for.
    Busy,
}

/// What a write returns: the bytes consumed, and what became of the record.
#[derive(Debug, PartialEq)]
pub struct Written {
    /// The number of bytes consumed, always the length of the record.
    pub len: usize,
    /// What became of the record.
    pub report: SinkReport,
}

/// Parses a record and publishes it on a broadcaster that the caller holds.
/// A record that is not an entry leaves the registry and every queue as they
/// were; an entry is offered to every subscriber as `send` does.
pub fn publish_record(broadcaster: &mut TracingBroadcaster, record: &[u8]) -> (outcome: Result<
    Vec<Delivery>,
    ParseError,
>)
    ensures
        match parsed(record@) {
            Err(error) => outcome == Err::<Vec<Delivery>, ParseError>(error)
                && final(broadcaster)@ == old(broadcaster)@,
            Ok(entry) => outcome is Ok
                && outcome->Ok_0@.len() == old(broadcaster)@.len()
                && final(broadcaster)@ == after_send(old(broadcaster)@, outcome->Ok_0@, entry),
        },
{
    match parse(record) {
        Err(error) => Err(error),
        Ok(entry) => Ok(broadcaster.send(&entry)),
    }
}

impl TracingBroadcaster {
    /// A broadcaster without subscribers, behind a new lock, ready to be
    /// shared by the sink and by every connection handler.
    pub fn create() -> (shared: Arc<Mutex<TracingBroadcaster>>)
        ensures
            first_held(*shared) == Seq::<Seq<LogEntryView>>::empty(),
    {
        let broadcaster = TracingBroadcaster::new();
        assert(broadcaster@ =~= Seq::<Seq<LogEntryView>>::empty());
        Arc::new(new_mutex(broadcaster))
    }
}

/// A write sink that publishes what is written to it. Clones share one
/// broadcaster.
pub struct TracingSubscriber {
    broadcaster: Arc<Mutex<TracingBroadcaster>>,
}

impl Clone for TracingSubscriber {
    fn clone(&self) -> (copy: Self)
        ensures
            copy.shared() == self.shared(),
    {
        TracingSubscriber { broadcaster: share(&self.broadcaster) }
    }
}

impl TracingSubscriber {
    /// The shared broadcaster that the sink publishes to.
    pub closed spec fn shared(&self) -> Arc<Mutex<TracingBroadcaster>> {
        self.broadcaster
    }

    /// A sink for a broadcaster that is already shared.
    pub fn new(broadcaster: &Arc<Mutex<TracingBroadcaster>>) -> (sink: Self)
        ensures
            sink.shared() == *broadcaster,
    {
        TracingSubscriber { broadcaster: share(broadcaster) }
    }

    /// A sink that takes a broadcaster into shared ownership: it publishes
    /// to a new lock made with that broadcaster, subscribers and all.
    pub fn new_inner(broadcaster: TracingBroadcaster) -> (sink: Self)
        ensures
            first_held(*sink.shared()) == broadcaster@,
    {
        TracingSubscriber { broadcaster: Arc::new(new_mutex(broadcaster)) }
    }

    /// The shared broadcaster, for registering subscribers.
    pub fn get_broadcaster(&self) -> (shared: &Arc<Mutex<TracingBroadcaster>>)
        ensures
            *shared == self.shared(),
    {
        &self.broadcaster
    }

    /// Takes one written record. All of it counts as written, whatever
    /// becomes of it. A record that is not an entry is reported as malformed
    /// and the registry is not touched; an entry is published unless the
    /// registry is in use, in which case it is dropped at once.
    pub fn write(&mut self, buf: &[u8]) -> (written: Written)
        ensures
            written.len == buf@.len(),
            final(self).shared() == old(self).shared(),
            match parsed(buf@) {
                Err(error) => written.report == SinkReport::Malformed(error),
                Ok(_) => written.report is Busy || (written.report is Published),
            },
    {
        let len = buf.len();
        let report = match parse(buf) {
            Err(error) => SinkReport::Malformed(error),
            Ok(entry) => match try_lock(&self.broadcaster) {
                None => SinkReport::Busy,
                Some(mut guard) => {
                    let broadcaster = locked(&mut guard);
                    SinkReport::Published(broadcaster.send(&entry))
                },
            },
        };
        Written { len, report }
    }

    /// Flushing has nothing to do: a record is published as it is written.
    pub fn flush(&mut self)
        ensures
            final(self).shared() == old(self).shared(),
    {
    }
}

} // verus!
