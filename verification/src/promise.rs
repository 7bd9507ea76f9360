use vstd::prelude::*;

use crate::channel::RecvAttempt;
use crate::channel::SendAttempt;
use crate::channel::SettlementChannel;
use crate::error::closed_reason;
use crate::error::PromiseError;
use crate::outcome::PromiseResult;

verus! {

/// What one settlement attempt on a promise reports.
#[derive(Debug)]
pub enum SettleAttempt<T> {
    /// The outcome was enqueued: exactly one settlement is now available
    /// to future polls.
    Settled,
    /// The single slot still holds an undrained outcome. The payload is
    /// handed back so the caller can yield to its scheduler and attempt
    /// the settlement again once a poll drains the slot.
    Blocked(T),
    /// The receiving side is gone: the settlement can never be delivered.
    Refused(PromiseError),
}

/// What one poll of a promise reports.
#[derive(Debug)]
pub enum PromisePoll<T> {
    /// The buffered outcome; this poll drained it, so it is unavailable
    /// to every other poll.
    Ready(PromiseResult<T>),
    /// No outcome is buffered. The caller should ask its scheduler for
    /// another turn and poll again: absence of data is never an error.
    Pending,
}

/// A single-resolution, multi-observer signal: a producer settles it with
/// a success or failure payload, and consumers await the settlement.
///
/// This value models the state that every cloned handle of one promise
/// shares: the settlement channel, whose handle counts record how many
/// clones are alive. Each clone holds one send handle and one share of
/// the receive handle, so all clones observe the same sequence of
/// settlements, and a settlement consumed by one clone's poll is
/// unavailable to any other clone's subsequent poll.
pub struct Promise<T> {
    /// The channel shared by every clone of this promise.
    pub channel: SettlementChannel<T>,
}

impl<T> Promise<T> {
    /// A fresh promise: a new channel with an empty slot, held by a
    /// single handle. No settlement has occurred yet.
    pub fn new() -> (p: Promise<T>)
        ensures
            p.channel.slot is None,
            p.channel.senders == 1,
            p.channel.receivers == 1,
    {
        Promise { channel: SettlementChannel::new() }
    }

    /// Clone a live handle: the new handle shares the same channel, so it
    /// observes the same settlements; no new channel is created.
    pub fn clone_handle(&mut self)
        requires
            old(self).channel.send_open(),
            old(self).channel.recv_open(),
            old(self).channel.senders < usize::MAX,
            old(self).channel.receivers < usize::MAX,
        ensures
            final(self).channel.senders == old(self).channel.senders + 1,
            final(self).channel.receivers == old(self).channel.receivers + 1,
            final(self).channel.slot == old(self).channel.slot,
    {
        self.channel.clone_sender();
        self.channel.clone_receiver();
    }

    /// Drop a live handle. When the last one goes, both sides of the
    /// channel close and its resources are released.
    pub fn drop_handle(&mut self)
        requires
            old(self).channel.send_open(),
            old(self).channel.recv_open(),
        ensures
            final(self).channel.senders == old(self).channel.senders - 1,
            final(self).channel.receivers == old(self).channel.receivers - 1,
            final(self).channel.slot == old(self).channel.slot,
    {
        self.channel.drop_sender();
        self.channel.drop_receiver();
    }

    /// One attempt to settle the promise with the success outcome
    /// `Resolved(value)`.
    ///
    /// The attempt enqueues the outcome exactly when a receive handle is
    /// alive and the slot is free; it reports `Blocked` when the slot is
    /// occupied, so the caller can yield and retry; and it fails with
    /// `PromiseResolve` exactly when the receiving side is gone.
    pub fn resolve(&mut self, value: T) -> (r: SettleAttempt<T>)
        requires
            old(self).channel.send_open(),
        ensures
            final(self).channel == old(self).channel.after_send(PromiseResult::Resolved(value)),
            !old(self).channel.recv_open() ==> (r matches SettleAttempt::Refused(e)
                && (e matches PromiseError::PromiseResolve(s) && s@ == closed_reason())),
            old(self).channel.recv_open() && old(self).channel.occupied() ==> (
                r matches SettleAttempt::Blocked(w) && w == value),
            old(self).channel.recv_open() && !old(self).channel.occupied() ==>
                r is Settled,
    {
        match self.channel.try_send(PromiseResult::Resolved(value)) {
            SendAttempt::Sent => SettleAttempt::Settled,
            SendAttempt::Full(outcome) => match outcome {
                PromiseResult::Resolved(v) => SettleAttempt::Blocked(v),
                PromiseResult::Rejected(v) => SettleAttempt::Blocked(v),
            },
            SendAttempt::Closed(_) => SettleAttempt::Refused(
                PromiseError::PromiseResolve("channel closed".to_owned()),
            ),
        }
    }

    /// One attempt to settle the promise with the failure outcome
    /// `Rejected(value)`.
    ///
    /// Identical to `resolve` but for the tag of the enqueued outcome and
    /// the error kind, `PromiseReject`, on a closed channel.
    pub fn reject(&mut self, value: T) -> (r: SettleAttempt<T>)
        requires
            old(self).channel.send_open(),
        ensures
            final(self).channel == old(self).channel.after_send(PromiseResult::Rejected(value)),
            !old(self).channel.recv_open() ==> (r matches SettleAttempt::Refused(e)
                && (e matches PromiseError::PromiseReject(s) && s@ == closed_reason())),
            old(self).channel.recv_open() && old(self).channel.occupied() ==> (
                r matches SettleAttempt::Blocked(w) && w == value),
            old(self).channel.recv_open() && !old(self).channel.occupied() ==>
                r is Settled,
    {
        match self.channel.try_send(PromiseResult::Rejected(value)) {
            SendAttempt::Sent => SettleAttempt::Settled,
            SendAttempt::Full(outcome) => match outcome {
                PromiseResult::Resolved(v) => SettleAttempt::Blocked(v),
                PromiseResult::Rejected(v) => SettleAttempt::Blocked(v),
            },
            SendAttempt::Closed(_) => SettleAttempt::Refused(
                PromiseError::PromiseReject("channel closed".to_owned()),
            ),
        }
    }

    /// One poll through a live handle: a non-blocking receive attempt.
    ///
    /// If an outcome is buffered, this poll drains it and completes with
    /// it; every other clone's later poll then finds the slot empty. If
    /// nothing is buffered, the poll reports `Pending` and leaves the
    /// state untouched, however often it is repeated.
    pub fn poll(&mut self) -> (r: PromisePoll<T>)
        requires
            old(self).channel.recv_open(),
        ensures
            final(self).channel == old(self).channel.after_recv(),
            old(self).channel.occupied() ==> (r matches PromisePoll::Ready(out)
                && old(self).channel.slot == Some(out)),
            !old(self).channel.occupied() ==> r is Pending && *final(self) == *old(self),
    {
        match self.channel.try_recv() {
            RecvAttempt::Received(outcome) => PromisePoll::Ready(outcome),
            RecvAttempt::Empty => PromisePoll::Pending,
            RecvAttempt::Disconnected => PromisePoll::Pending,
        }
    }
}

} // verus!
