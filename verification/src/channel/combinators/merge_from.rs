//! A receiver that passes on the messages of two receivers, whichever comes first, and
//! converts the messages of the second one.
use vstd::prelude::*;
use vstd::std_specs::convert::FromSpec;
use std::marker::PhantomData;

verus! {

/// A receiver of the messages `T` of `r1` and of the messages `T2` of `r2`, converted to
/// `T`. The two take turns in being asked first.
pub struct MergeFromReceiver<R1, R2, T, T2> {
    r1: R1,
    r2: R2,
    r1_first: bool,
    _t: PhantomData<T>,
    _t2: PhantomData<T2>,
}

impl<R1, R2, T, T2> MergeFromReceiver<R1, R2, T, T2> where T: From<T2> {
    /// The two receivers.
    pub closed spec fn receivers(&self) -> (R1, R2) {
        (self.r1, self.r2)
    }

    /// Whether the first receiver was the one asked first, the last time.
    pub closed spec fn r1_first(&self) -> bool {
        self.r1_first
    }

    /// Merges `r1` and `r2`. The second one is asked first, the first time.
    pub fn new(r1: R1, r2: R2) -> (receiver: Self)
        ensures
            receiver.receivers() == (r1, r2),
            receiver.r1_first(),
    {
        MergeFromReceiver { r1, r2, r1_first: true, _t: PhantomData, _t2: PhantomData }
    }

    /// Starts a new round: the receiver that was asked second the last time is asked first
    /// now. Returns whether that is the first receiver, and both receivers to ask.
    pub fn turn(&mut self) -> (out: (bool, &mut R1, &mut R2))
        ensures
            out.0 == !old(self).r1_first(),
            final(self).r1_first() == out.0,
            (*out.1, *out.2) == old(self).receivers(),
            final(self).receivers() == (*final(out.1), *final(out.2)),
    {
        self.r1_first = !self.r1_first;
        (self.r1_first, &mut self.r1, &mut self.r2)
    }

    /// Converts `received`, an answer of the second receiver, to an answer of this one.
    pub fn convert(received: Option<T2>) -> (out: Option<T>)
        ensures
            match received {
                None => out is None,
                Some(message) => out matches Some(converted) && call_ensures(
                    T::from,
                    (message,),
                    converted,
                ),
            },
            T::obeys_from_spec() ==> out == match received {
                Some(message) => Some(T::from_spec(message)),
                None => None,
            },
    {
        match received {
            Some(message) => Some(T::from(message)),
            None => None,
        }
    }
}

} // verus!
