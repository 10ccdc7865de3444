//! How a value kept on the bus is handed out: taken once, or cloned for every caller.
use vstd::prelude::*;

verus! {

/// Whether acquiring an endpoint or resource removes it from its slot or copies it.
#[derive(Clone, Copy, Debug, PartialEq, Eq, Structural)]
pub enum Policy {
    /// The value is copied for the caller and stays in its slot.
    Clone,
    /// The value is moved to the caller; the slot is left without it.
    Take,
}

/// The relation between an optional value before an acquisition under `policy`, the same
/// place afterwards, and what the caller received.
///
/// Nothing comes out of nothing. A `Take` value moves to the caller and leaves the place empty.
/// A `Clone` value stays where it is and the caller receives a value as well.
pub open spec fn acquired<T>(
    policy: Policy,
    before: Option<T>,
    after: Option<T>,
    out: Option<T>,
) -> bool {
    match before {
        None => after is None && out is None,
        Some(_) => match policy {
            Policy::Take => after is None && out == before,
            Policy::Clone => after == before && out is Some,
        },
    }
}

/// A resource or channel endpoint which can be stored on the bus, and the way it leaves it.
pub trait Storage: Sized {
    /// The policy this value is handed out under.
    spec fn policy(&self) -> Policy;

    /// Whether `copy` is a copy of this value, as a caller receives it under `Clone`: for
    /// a channel endpoint, a handle on the same channel. A type that says nothing else
    /// takes every value for a copy.
    open spec fn copied(&self, copy: &Self) -> bool {
        true
    }

    /// Clones the stored value if it is handed out by `Clone`, otherwise takes it.
    fn take_or_clone(res: &mut Option<Self>) -> (out: Option<Self>)
        ensures
            match *old(res) {
                Some(value) => {
                    &&& acquired(value.policy(), *old(res), *final(res), out)
                    &&& value.policy() == Policy::Clone ==> (out matches Some(copy)
                        && value.copied(&copy))
                },
                None => *final(res) is None && out is None,
            },
    ;

    /// Clones the value in the slot, which keeps it.
    fn clone_slot(res: &mut Option<Self>) -> (out: Option<Self>) where Self: Clone
        ensures
            *final(res) == *old(res),
            match (*old(res), out) {
                (Some(value), Some(copy)) => cloned(value, copy),
                (None, None) => true,
                _ => false,
            },
    {
        match res {
            Some(value) => Some(value.clone()),
            None => None,
        }
    }

    /// Takes the value out of the slot, or returns `None` if it is already gone.
    fn take_slot(res: &mut Option<Self>) -> (out: Option<Self>)
        ensures
            *final(res) is None,
            out == *old(res),
    {
        res.take()
    }
}

} // verus!
