use vstd::prelude::*;

verus! {

/// The failure taxonomy of a settlement attempt.
///
/// `PromiseResolve` reports that a `Resolved` outcome could not be delivered
/// because the receiving side of the channel no longer exists; `PromiseReject`
/// reports the same for a `Rejected` outcome. `Unknown` is reserved for
/// conditions not otherwise classified; no operation of this library
/// produces it.
#[derive(Debug)]
pub enum PromiseError {
    PromiseResolve(String),
    PromiseReject(String),
    Unknown,
}

/// The reason attached to a settlement failure: the channel's receiving
/// side has been torn down.
pub open spec fn closed_reason() -> Seq<char> {
    "channel closed"@
}

} // verus!
