//! The decisions of waiting for a transaction's result: answer at once when
//! the result is known, else watch wallet events until the transaction is
//! finalized or the optional timeout fires.

use vstd::prelude::*;

use crate::ids::bytes32_eq;

verus! {

/// What the waiter sees next.
#[derive(Clone, Copy, Debug, PartialEq, Eq)]
pub enum WaitEvent {
    /// A transaction with hash `hash` was finalized.
    TransactionFinalized { hash: [u8; 32] },
    /// Any other wallet event.
    Other,
    /// The timeout fired.
    TimedOut,
}

/// What the waiter does next.
#[derive(Clone, Copy, Debug, PartialEq, Eq, Structural)]
pub enum WaitStep {
    /// Answer with the transaction's result.
    Finalized,
    /// Keep waiting.
    Continue,
    /// Answer that no result came in time.
    TimedOut,
}

/// The first step: a transaction whose result is already stored needs no
/// waiting.
pub fn wait_start(has_result: bool) -> (r: WaitStep)
    ensures
        r == if has_result {
            WaitStep::Finalized
        } else {
            WaitStep::Continue
        },
{
    if has_result {
        WaitStep::Finalized
    } else {
        WaitStep::Continue
    }
}

/// The step after `event` while waiting for transaction `requested`: its
/// own finalization ends the wait, the timeout ends it without a result,
/// and anything else is ignored.
pub fn wait_step(requested: &[u8; 32], event: &WaitEvent) -> (r: WaitStep)
    ensures
        r == match *event {
            WaitEvent::TransactionFinalized { hash } => if hash == *requested {
                WaitStep::Finalized
            } else {
                WaitStep::Continue
            },
            WaitEvent::Other => WaitStep::Continue,
            WaitEvent::TimedOut => WaitStep::TimedOut,
        },
{
    match event {
        WaitEvent::TransactionFinalized { hash } => {
            if bytes32_eq(hash, requested) {
                WaitStep::Finalized
            } else {
                WaitStep::Continue
            }
        },
        WaitEvent::Other => WaitStep::Continue,
        WaitEvent::TimedOut => WaitStep::TimedOut,
    }
}

} // verus!
