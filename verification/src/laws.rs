use vstd::prelude::*;

use crate::channel::RecvAttempt;
use crate::channel::SendAttempt;
use crate::channel::SettlementChannel;
use crate::outcome::PromiseResult;

verus! {

/// On a channel whose slot is empty, receive attempts change nothing:
/// however many polls are made, the state stays as it is.
proof fn lemma_polls_fix_empty<T>(ch: SettlementChannel<T>, n: nat)
    requires
        !ch.occupied(),
    ensures
        ch.after_polls(n) == ch,
    decreases n,
{
    if n > 0 {
        assert(ch.after_recv() == ch);
        lemma_polls_fix_empty(ch, (n - 1) as nat);
    }
}

/// Single delivery: after a settlement with `Resolved(v)` is enqueued on a
/// free slot, the one receive attempt that drains the slot observes exactly
/// `Resolved(v)`, and no later receive attempt, however often repeated and
/// by whichever clone, observes an outcome again until a new send occurs.
pub proof fn lemma_single_delivery<T>(ch: SettlementChannel<T>, v: T)
    requires
        ch.recv_open(),
        !ch.occupied(),
    ensures
        ch.send_view(PromiseResult::Resolved(v)) is Sent,
        ch.after_send(PromiseResult::Resolved(v)).recv_view()
            == RecvAttempt::Received(PromiseResult::Resolved(v)),
        forall|n: nat| #![auto]
            !(ch.after_send(PromiseResult::Resolved(v)).after_recv().after_polls(n).recv_view()
                is Received),
{
    let drained = ch.after_send(PromiseResult::Resolved(v)).after_recv();
    assert forall|n: nat| #![auto] !(drained.after_polls(n).recv_view() is Received) by {
        lemma_polls_fix_empty(drained, n);
    }
}

/// FIFO across sequential settlements: with `Resolved(v1)` enqueued first,
/// an attempt to enqueue `Rejected(v2)` cannot complete before a receive
/// drains the slot; the first receive observes `Resolved(v1)`, and only a
/// subsequent receive, after the second send lands, observes `Rejected(v2)`
/// — never the reverse order.
pub proof fn lemma_fifo_order<T>(ch: SettlementChannel<T>, v1: T, v2: T)
    requires
        ch.recv_open(),
        !ch.occupied(),
    ensures
        ch.send_view(PromiseResult::Resolved(v1)) is Sent,
        ch.after_send(PromiseResult::Resolved(v1)).send_view(PromiseResult::Rejected(v2))
            matches SendAttempt::Full(w) && w == PromiseResult::Rejected(v2),
        ch.after_send(PromiseResult::Resolved(v1)).recv_view()
            == RecvAttempt::Received(PromiseResult::Resolved(v1)),
        ch.after_send(PromiseResult::Resolved(v1)).after_recv().send_view(
            PromiseResult::Rejected(v2)) is Sent,
        ch.after_send(PromiseResult::Resolved(v1)).after_recv().after_send(
            PromiseResult::Rejected(v2)).recv_view()
            == RecvAttempt::Received(PromiseResult::Rejected(v2)),
{
}

/// Backpressure: while the slot holds an undrained outcome, a second send
/// attempt does not complete — it reports `Full`, hands the outcome back,
/// and leaves the channel unchanged — and it completes as soon as a
/// receive drains the slot.
pub proof fn lemma_backpressure<T>(
    ch: SettlementChannel<T>,
    first: PromiseResult<T>,
    second: PromiseResult<T>,
)
    requires
        ch.recv_open(),
        !ch.occupied(),
    ensures
        ch.send_view(first) is Sent,
        ch.after_send(first).send_view(second) matches SendAttempt::Full(w) && w == second,
        ch.after_send(first).after_send(second) == ch.after_send(first),
        ch.after_send(first).after_recv().send_view(second) is Sent,
{
}

/// Closed-channel failure: once every receive handle is gone, a send
/// attempt fails — it reports `Closed` with the outcome handed back, and
/// the channel is left unchanged — rather than completing or waiting.
pub proof fn lemma_closed_channel<T>(ch: SettlementChannel<T>, outcome: PromiseResult<T>)
    requires
        !ch.recv_open(),
    ensures
        ch.send_view(outcome) matches SendAttempt::Closed(w) && w == outcome,
        ch.after_send(outcome) == ch,
{
}

/// Exhaustion: once the slot is empty, receive attempts by any clone stay
/// fruitless for as long as no new send occurs — each of the `n` repeated
/// polls finds the slot empty and leaves the channel exactly as it was.
pub proof fn lemma_exhaustion<T>(ch: SettlementChannel<T>, n: nat)
    requires
        !ch.occupied(),
    ensures
        ch.after_polls(n) == ch,
        forall|i: nat| #![auto] !(ch.after_polls(i).recv_view() is Received),
{
    lemma_polls_fix_empty(ch, n);
    assert forall|i: nat| #![auto] !(ch.after_polls(i).recv_view() is Received) by {
        lemma_polls_fix_empty(ch, i);
    }
}

} // verus!
