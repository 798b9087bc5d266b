//! The contract state: a single unsigned counter.

use vstd::prelude::*;

verus! {

/// The whole state of the counter contract. It is created with `counter = 0`
/// at the start of an invocation and may be replaced wholesale by a
/// caller-supplied state before dispatch.
#[derive(Clone, Copy, PartialEq, Eq, Structural, Debug)]
pub struct ContractState {
    pub counter: u64,
}

impl ContractState {
    /// The state a fresh invocation starts from.
    pub fn initial() -> (s: ContractState)
        ensures
            s.counter == 0,
    {
        ContractState { counter: 0 }
    }
}

} // verus!
