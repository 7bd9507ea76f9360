use promise::PromiseError;
use promise::PromisePoll;
use promise::PromiseResult;
use promise::Promise;
use promise::RecvAttempt;
use promise::SendAttempt;
use promise::SettleAttempt;
use promise::SettlementChannel;

/// The round trip of the cooperative protocol: a producer clone resolves
/// and then rejects with the same payload, a consumer clone awaits twice
/// and observes the two settlements in order.
#[test]
fn test() {
    let mut promise = Promise::<String>::new();
    promise.clone_handle();
    let send_data = "111";

    // The producer clone settles twice. The second settlement finds the
    // single slot occupied and must wait for a poll to drain it.
    match promise.resolve(send_data.to_string()) {
        SettleAttempt::Settled => {}
        _ => panic!("error"),
    }
    let held_back = match promise.reject(send_data.to_string()) {
        SettleAttempt::Blocked(value) => value,
        _ => panic!("error"),
    };

    // The consumer clone's first await yields the first settlement.
    if let PromisePoll::Ready(PromiseResult::Resolved(value)) = promise.poll() {
        assert_eq!(value, send_data);
    } else {
        panic!("error");
    }

    // The slot is free again: the producer's reject now lands, and the
    // consumer's second await yields it.
    match promise.reject(held_back) {
        SettleAttempt::Settled => {}
        _ => panic!("error"),
    }
    if let PromisePoll::Ready(PromiseResult::Rejected(value)) = promise.poll() {
        assert_eq!(value, send_data);
    } else {
        panic!("error");
    }
}

/// Single delivery: one resolve makes exactly one poll ready; every later
/// poll stays pending while nothing new is sent.
#[test]
fn single_delivery() {
    let mut promise = Promise::<u64>::new();
    assert!(matches!(promise.resolve(7), SettleAttempt::Settled));
    match promise.poll() {
        PromisePoll::Ready(PromiseResult::Resolved(value)) => assert_eq!(value, 7),
        _ => panic!("expected the resolved outcome"),
    }
    for _ in 0..100 {
        assert!(matches!(promise.poll(), PromisePoll::Pending));
    }
}

/// FIFO across sequential settlements: a resolve followed by a reject is
/// observed as `Resolved` first and `Rejected` second, never the reverse.
#[test]
fn fifo_order() {
    let mut promise = Promise::<&str>::new();
    assert!(matches!(promise.resolve("first"), SettleAttempt::Settled));
    assert!(matches!(promise.reject("second"), SettleAttempt::Blocked("second")));
    match promise.poll() {
        PromisePoll::Ready(PromiseResult::Resolved(value)) => assert_eq!(value, "first"),
        _ => panic!("expected the first settlement"),
    }
    assert!(matches!(promise.reject("second"), SettleAttempt::Settled));
    match promise.poll() {
        PromisePoll::Ready(PromiseResult::Rejected(value)) => assert_eq!(value, "second"),
        _ => panic!("expected the second settlement"),
    }
}

/// Backpressure: while the slot holds an undrained outcome, no further
/// settlement completes, whichever tag it carries; a drain frees the slot.
#[test]
fn backpressure() {
    let mut promise = Promise::<u64>::new();
    assert!(matches!(promise.resolve(1), SettleAttempt::Settled));
    assert!(matches!(promise.reject(2), SettleAttempt::Blocked(2)));
    assert!(matches!(promise.resolve(3), SettleAttempt::Blocked(3)));
    assert!(matches!(promise.poll(), PromisePoll::Ready(PromiseResult::Resolved(1))));
    assert!(matches!(promise.reject(2), SettleAttempt::Settled));
}

/// Closed-channel failure on resolve: with every receive handle gone, the
/// attempt is refused with `PromiseResolve` and the reason the channel
/// reports, instead of waiting forever.
#[test]
fn resolve_on_closed_channel() {
    let mut promise = Promise::<u64>::new();
    promise.channel.drop_receiver();
    match promise.resolve(1) {
        SettleAttempt::Refused(PromiseError::PromiseResolve(reason)) => {
            assert_eq!(reason, "channel closed");
        }
        _ => panic!("expected the resolve to be refused"),
    }
}

/// Closed-channel failure on reject: same condition, `PromiseReject` kind.
#[test]
fn reject_on_closed_channel() {
    let mut promise = Promise::<u64>::new();
    promise.channel.drop_receiver();
    match promise.reject(1) {
        SettleAttempt::Refused(PromiseError::PromiseReject(reason)) => {
            assert_eq!(reason, "channel closed");
        }
        _ => panic!("expected the reject to be refused"),
    }
}

/// Exhaustion: after the single buffered outcome is drained, repeated
/// polls stay pending with no false ready.
#[test]
fn exhaustion_after_drain() {
    let mut promise = Promise::<&str>::new();
    assert!(matches!(promise.resolve("only"), SettleAttempt::Settled));
    assert!(matches!(
        promise.poll(),
        PromisePoll::Ready(PromiseResult::Resolved("only"))
    ));
    for _ in 0..100 {
        assert!(matches!(promise.poll(), PromisePoll::Pending));
    }
}

/// Cloning shares the channel: a settlement made before the clone is
/// still the one the clone's poll observes, and handle counts grow and
/// shrink together.
#[test]
fn clone_shares_the_channel() {
    let mut promise = Promise::<u64>::new();
    assert!(matches!(promise.resolve(42), SettleAttempt::Settled));
    promise.clone_handle();
    assert_eq!(promise.channel.senders, 2);
    assert_eq!(promise.channel.receivers, 2);
    assert!(matches!(promise.poll(), PromisePoll::Ready(PromiseResult::Resolved(42))));
    promise.drop_handle();
    assert_eq!(promise.channel.senders, 1);
    assert_eq!(promise.channel.receivers, 1);
}

/// The channel reports `Full` to a second send and hands the outcome back.
#[test]
fn channel_full_send() {
    let mut channel = SettlementChannel::<u64>::new();
    assert!(matches!(
        channel.try_send(PromiseResult::Resolved(1)),
        SendAttempt::Sent
    ));
    assert!(matches!(
        channel.try_send(PromiseResult::Rejected(2)),
        SendAttempt::Full(PromiseResult::Rejected(2))
    ));
}

/// The channel reports `Closed` once every receive handle is gone, even
/// though the slot is free.
#[test]
fn channel_closed_send() {
    let mut channel = SettlementChannel::<u64>::new();
    channel.drop_receiver();
    assert!(matches!(
        channel.try_send(PromiseResult::Resolved(1)),
        SendAttempt::Closed(PromiseResult::Resolved(1))
    ));
}

/// An empty slot reads `Empty` while a sender lives, and `Disconnected`
/// once the last send handle is gone — but a buffered outcome is still
/// drained first.
#[test]
fn channel_disconnect_after_drain() {
    let mut channel = SettlementChannel::<u64>::new();
    assert!(matches!(channel.try_recv(), RecvAttempt::Empty));
    assert!(matches!(
        channel.try_send(PromiseResult::Rejected(9)),
        SendAttempt::Sent
    ));
    channel.drop_sender();
    assert!(matches!(
        channel.try_recv(),
        RecvAttempt::Received(PromiseResult::Rejected(9))
    ));
    assert!(matches!(channel.try_recv(), RecvAttempt::Disconnected));
}
