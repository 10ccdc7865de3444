//! A receiver that passes on the messages of two receivers, whichever comes first.
use vstd::prelude::*;
use std::marker::PhantomData;

verus! {

/// A receiver of the messages of `r1` and `r2`. The two take turns in being asked first.
pub struct MergeReceiver<R1, R2, T> {
    r1: R1,
    r2: R2,
    r1_first: bool,
    _t: PhantomData<T>,
}

impl<R1, R2, T> MergeReceiver<R1, R2, T> {
    /// The two receivers.
    pub closed spec fn receivers(&self) -> (R1, R2) {
        (self.r1, self.r2)
    }

    /// Whether the first receiver was the one asked first, the last time.
    pub closed spec fn r1_first(&self) -> bool {
        self.r1_first
    }

    /// Merges `r1` and `r2`. The second one is asked first, the first time.
    pub fn new(r1: R1, r2: R2) -> (receiver: Self)
        ensures
            receiver.receivers() == (r1, r2),
            receiver.r1_first(),
    {
        MergeReceiver { r1, r2, r1_first: true, _t: PhantomData }
    }

    /// Starts a new round: the receiver that was asked second the last time is asked first
    /// now. Returns whether that is the first receiver, and both receivers to ask.
    pub fn turn(&mut self) -> (out: (bool, &mut R1, &mut R2))
        ensures
            out.0 == !old(self).r1_first(),
            final(self).r1_first() == out.0,
            (*out.1, *out.2) == old(self).receivers(),
            final(self).receivers() == (*final(out.1), *final(out.2)),
    {
        self.r1_first = !self.r1_first;
        (self.r1_first, &mut self.r1, &mut self.r2)
    }
}

} // verus!
