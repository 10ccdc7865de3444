//! A receiver that passes on the messages of another one, each changed by a function.
use vstd::prelude::*;
use std::marker::PhantomData;

verus! {

/// A receiver of the messages of `inner`, each one changed by `map`.
pub struct MapReceiver<R, T, T2, F> {
    inner: R,
    map: F,
    _t: PhantomData<T>,
    _t2: PhantomData<T2>,
}

impl<R, T, T2, F> MapReceiver<R, T, T2, F> where F: Fn(T) -> T2 {
    /// The receiver whose messages are changed.
    pub closed spec fn spec_inner(&self) -> R {
        self.inner
    }

    /// The function that changes a message.
    pub closed spec fn spec_map(&self) -> F {
        self.map
    }

    /// Changes the messages of `inner` by `map`.
    pub fn new(inner: R, map: F) -> (receiver: Self)
        ensures
            receiver.spec_inner() == inner,
            receiver.spec_map() == map,
    {
        MapReceiver { inner, map, _t: PhantomData, _t2: PhantomData }
    }

    /// The receiver whose messages are changed, to be asked for its next message.
    pub fn inner_mut(&mut self) -> (inner: &mut R)
        ensures
            *inner == old(self).spec_inner(),
            final(self).spec_inner() == *final(inner),
            final(self).spec_map() == old(self).spec_map(),
    {
        &mut self.inner
    }

    /// Changes `received`, the answer of the inner receiver: a message is passed through the
    /// function, and the end of the inner receiver is the end of this one.
    pub fn apply(&self, received: Option<T>) -> (out: Option<T2>)
        requires
            received matches Some(message) ==> call_requires(self.spec_map(), (message,)),
        ensures
            match received {
                None => out is None,
                Some(message) => out matches Some(changed) && call_ensures(
                    self.spec_map(),
                    (message,),
                    changed,
                ),
            },
    {
        match received {
            Some(message) => Some((self.map)(message)),
            None => None,
        }
    }
}

} // verus!
