use vstd::prelude::*;

use crate::outcome::PromiseResult;

verus! {

/// What a non-blocking send attempt reports.
#[derive(Debug)]
pub enum SendAttempt<T> {
    /// The outcome was placed into the slot and is now available to a receive.
    Sent,
    /// The slot still holds an undrained outcome. The outcome is handed
    /// back so the producer can suspend and try again once the slot is
    /// freed by a receive.
    Full(PromiseResult<T>),
    /// Every receive handle is gone: the outcome can never be delivered.
    /// It is handed back to the producer.
    Closed(PromiseResult<T>),
}

/// What a non-blocking receive attempt reports.
#[derive(Debug)]
pub enum RecvAttempt<T> {
    /// The buffered outcome, removed from the slot by this attempt.
    Received(PromiseResult<T>),
    /// The slot is empty, but a send handle is still alive, so an outcome
    /// may yet arrive.
    Empty,
    /// The slot is empty and every send handle is gone: no outcome can
    /// ever arrive again.
    Disconnected,
}

/// A FIFO, bounded hand-off queue with room for exactly one in-flight
/// outcome at a time.
///
/// This value models the state that every handle of one channel shares:
/// the single buffer slot together with the number of live send handles
/// and live receive handles. An operation on the channel stands for that
/// operation performed through one of the live handles.
pub struct SettlementChannel<T> {
    /// The single buffer slot; at most one outcome is in flight.
    pub slot: Option<PromiseResult<T>>,
    /// How many send handles are alive. Once it reaches zero, receive
    /// attempts on an empty slot observe permanent emptiness.
    pub senders: usize,
    /// How many receive handles are alive. Once it reaches zero, send
    /// attempts fail.
    pub receivers: usize,
}

impl<T> SettlementChannel<T> {
    /// At least one send handle is alive.
    pub open spec fn send_open(self) -> bool {
        self.senders > 0
    }

    /// At least one receive handle is alive.
    pub open spec fn recv_open(self) -> bool {
        self.receivers > 0
    }

    /// The slot holds an undrained outcome.
    pub open spec fn occupied(self) -> bool {
        self.slot is Some
    }

    /// What a send attempt of `outcome` reports on this state.
    pub open spec fn send_view(self, outcome: PromiseResult<T>) -> SendAttempt<T> {
        if !self.recv_open() {
            SendAttempt::Closed(outcome)
        } else if self.occupied() {
            SendAttempt::Full(outcome)
        } else {
            SendAttempt::Sent
        }
    }

    /// The state after a send attempt of `outcome`: the slot is filled
    /// exactly when the attempt reports `Sent`.
    pub open spec fn after_send(self, outcome: PromiseResult<T>) -> SettlementChannel<T> {
        if self.recv_open() && !self.occupied() {
            SettlementChannel { slot: Some(outcome), ..self }
        } else {
            self
        }
    }

    /// What a receive attempt reports on this state.
    pub open spec fn recv_view(self) -> RecvAttempt<T> {
        match self.slot {
            Some(outcome) => RecvAttempt::Received(outcome),
            None => if self.send_open() {
                RecvAttempt::Empty
            } else {
                RecvAttempt::Disconnected
            },
        }
    }

    /// The state after a receive attempt: the slot is empty, whether the
    /// attempt drained it or found it already empty.
    pub open spec fn after_recv(self) -> SettlementChannel<T> {
        SettlementChannel { slot: None, ..self }
    }

    /// The state after `n` receive attempts in a row, with no send in
    /// between.
    pub open spec fn after_polls(self, n: nat) -> SettlementChannel<T>
        decreases n,
    {
        if n == 0 {
            self
        } else {
            self.after_recv().after_polls((n - 1) as nat)
        }
    }

    /// A fresh channel: empty slot, one send handle, one receive handle.
    pub fn new() -> (c: SettlementChannel<T>)
        ensures
            c.slot is None,
            c.senders == 1,
            c.receivers == 1,
    {
        SettlementChannel { slot: None, senders: 1, receivers: 1 }
    }

    /// A non-blocking send through a live send handle.
    ///
    /// Outcomes are delivered in send order: with a single slot, a send
    /// succeeds exactly when the previous outcome has been drained and a
    /// receive handle is still alive.
    pub fn try_send(&mut self, outcome: PromiseResult<T>) -> (r: SendAttempt<T>)
        requires
            old(self).send_open(),
        ensures
            r == old(self).send_view(outcome),
            *final(self) == old(self).after_send(outcome),
    {
        if self.receivers == 0 {
            SendAttempt::Closed(outcome)
        } else if self.slot.is_some() {
            SendAttempt::Full(outcome)
        } else {
            self.slot = Some(outcome);
            SendAttempt::Sent
        }
    }

    /// A non-blocking receive through a live receive handle.
    ///
    /// Drains the buffered outcome if there is one; otherwise reports
    /// whether an outcome may still arrive.
    pub fn try_recv(&mut self) -> (r: RecvAttempt<T>)
        requires
            old(self).recv_open(),
        ensures
            r == old(self).recv_view(),
            *final(self) == old(self).after_recv(),
    {
        match self.slot.take() {
            Some(outcome) => RecvAttempt::Received(outcome),
            None => {
                if self.senders == 0 {
                    RecvAttempt::Disconnected
                } else {
                    RecvAttempt::Empty
                }
            },
        }
    }

    /// Clone a live send handle.
    pub fn clone_sender(&mut self)
        requires
            old(self).send_open(),
            old(self).senders < usize::MAX,
        ensures
            final(self).senders == old(self).senders + 1,
            final(self).receivers == old(self).receivers,
            final(self).slot == old(self).slot,
    {
        self.senders = self.senders + 1;
    }

    /// Drop a live send handle. When the last one goes, the sending side
    /// is closed and receives on an empty slot observe `Disconnected`.
    pub fn drop_sender(&mut self)
        requires
            old(self).send_open(),
        ensures
            final(self).senders == old(self).senders - 1,
            final(self).receivers == old(self).receivers,
            final(self).slot == old(self).slot,
    {
        self.senders = self.senders - 1;
    }

    /// Clone a live receive handle.
    pub fn clone_receiver(&mut self)
        requires
            old(self).recv_open(),
            old(self).receivers < usize::MAX,
        ensures
            final(self).receivers == old(self).receivers + 1,
            final(self).senders == old(self).senders,
            final(self).slot == old(self).slot,
    {
        self.receivers = self.receivers + 1;
    }

    /// Drop a live receive handle. When the last one goes, the receiving
    /// side is closed and every later send fails.
    pub fn drop_receiver(&mut self)
        requires
            old(self).recv_open(),
        ensures
            final(self).receivers == old(self).receivers - 1,
            final(self).senders == old(self).senders,
            final(self).slot == old(self).slot,
    {
        self.receivers = self.receivers - 1;
    }
}

} // verus!
