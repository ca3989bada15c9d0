//! How a consensus message leaves the node: messages a node addresses to
//! itself for its own contract go through the in-process loopback channel,
//! everything else over the network.

use vstd::prelude::*;

use crate::ids::{bytes32_eq, PublicKey};

verus! {

/// The channel a message takes.
#[derive(Clone, Copy, Debug, PartialEq, Eq, Structural)]
pub enum Route {
    Loopback,
    Network,
}

/// The route of a message from `from` to `to` about contract
/// `message_contract`, sent by a node serving `own_contract`.
pub fn route_for(from: &PublicKey, to: &PublicKey, message_contract: &[u8; 32], own_contract: &[u8; 32]) -> (r:
    Route)
    ensures
        r == if *from == *to && *message_contract == *own_contract {
            Route::Loopback
        } else {
            Route::Network
        },
{
    if *from == *to && bytes32_eq(message_contract, own_contract) {
        Route::Loopback
    } else {
        Route::Network
    }
}

/// The route to each committee member, in order, for a broadcast from `from`.
pub fn broadcast_routes(
    from: &PublicKey,
    committee: &Vec<PublicKey>,
    message_contract: &[u8; 32],
    own_contract: &[u8; 32],
) -> (r: Vec<(PublicKey, Route)>)
    ensures
        r@.len() == committee@.len(),
        forall|i: int|
            0 <= i < committee@.len() ==> (#[trigger] r@[i]).0 == committee@[i] && r@[i].1 == if *from
                == committee@[i] && *message_contract == *own_contract {
                Route::Loopback
            } else {
                Route::Network
            },
{
    let mut r: Vec<(PublicKey, Route)> = Vec::new();
    let mut i: usize = 0;
    while i < committee.len()
        invariant
            i <= committee@.len(),
            r@.len() == i,
            forall|k: int|
                0 <= k < i ==> (#[trigger] r@[k]).0 == committee@[k] && r@[k].1 == if *from == committee@[k]
                    && *message_contract == *own_contract {
                    Route::Loopback
                } else {
                    Route::Network
                },
        decreases committee.len() - i,
    {
        let member = committee[i];
        r.push((member, route_for(from, &member, message_contract, own_contract)));
        i = i + 1;
    }
    r
}

} // verus!
