//! The contract between the bus and a kind of channel.
use vstd::prelude::*;
use crate::storage::{acquired, Policy, Storage};

pub mod barrier;
pub mod combinators;
pub mod lifeline;
pub mod subscription;

verus! {

/// A channel's (sender, receiver) pair: how the bus constructs it and hands its halves out.
pub trait Channel: Sized {
    /// The sender half of the channel.
    type Tx: Storage;

    /// The receiver half of the channel.
    type Rx: Storage;

    /// Whether a new receiver can be derived from the sender once the stored one has left.
    spec fn resubscribes() -> bool;

    /// Constructs a new pair. A bounded channel uses the capacity.
    fn channel(capacity: usize) -> (pair: (Self::Tx, Self::Rx));

    /// The capacity that is used where none was configured.
    fn default_capacity() -> (capacity: usize);

    /// Clones the stored sender, or takes it if this endpoint is handed out once.
    fn clone_tx(tx: &mut Option<Self::Tx>) -> (out: Option<Self::Tx>)
        ensures
            match *old(tx) {
                Some(value) => {
                    &&& acquired(value.policy(), *old(tx), *final(tx), out)
                    &&& value.policy() == Policy::Clone ==> (out matches Some(copy)
                        && value.copied(&copy))
                },
                None => *final(tx) is None && out is None,
            },
    {
        Self::Tx::take_or_clone(tx)
    }

    /// Clones the stored receiver, or takes it if this endpoint is handed out once.
    /// The sender is at hand for the kinds that create receivers from it.
    fn clone_rx(rx: &mut Option<Self::Rx>, tx: Option<&Self::Tx>) -> (out: Option<Self::Rx>)
        ensures
            match *old(rx) {
                Some(value) => {
                    &&& acquired(value.policy(), *old(rx), *final(rx), out)
                    &&& value.policy() == Policy::Clone ==> (out matches Some(copy)
                        && value.copied(&copy))
                },
                None => *final(rx) is None && (out is Some <==> (tx is Some
                    && Self::resubscribes())),
            },
    ;
}

} // verus!
