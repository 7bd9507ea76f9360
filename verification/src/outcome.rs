use vstd::prelude::*;

verus! {

/// The tagged result of a settlement.
///
/// A producer settles a promise exactly once per send, declaring either
/// success (`Resolved`) or failure (`Rejected`). Both variants carry a
/// payload of the same type: the type system does not distinguish error
/// shape from success shape, and callers encode any distinction inside `T`.
#[derive(Debug)]
pub enum PromiseResult<T> {
    Resolved(T),
    Rejected(T),
}

} // verus!
