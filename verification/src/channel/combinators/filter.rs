//! A receiver that passes on the messages which a predicate accepts.
use vstd::prelude::*;
use std::marker::PhantomData;

verus! {

/// What becomes of one answer of the inner receiver.
pub enum Filtered<T> {
    /// The message was accepted, and is the next one of this receiver.
    Accepted(T),
    /// The message was refused: the inner receiver is asked again.
    Refused,
    /// The inner receiver has closed, and so has this one.
    Closed,
}

/// A receiver of the messages of `inner` that `filter` accepts.
pub struct FilterReceiver<R, T, Filter> {
    inner: R,
    filter: Filter,
    _t: PhantomData<T>,
}

impl<R, T, Filter> FilterReceiver<R, T, Filter> where Filter: Fn(&T) -> bool {
    /// The receiver that is filtered.
    pub closed spec fn spec_inner(&self) -> R {
        self.inner
    }

    /// The predicate that accepts or refuses a message.
    pub closed spec fn spec_filter(&self) -> Filter {
        self.filter
    }

    /// Filters the messages of `inner` by `filter`.
    pub fn new(inner: R, filter: Filter) -> (receiver: Self)
        ensures
            receiver.spec_inner() == inner,
            receiver.spec_filter() == filter,
    {
        FilterReceiver { inner, filter, _t: PhantomData }
    }

    /// The receiver that is filtered, to be asked for its next message.
    pub fn inner_mut(&mut self) -> (inner: &mut R)
        ensures
            *inner == old(self).spec_inner(),
            final(self).spec_inner() == *final(inner),
            final(self).spec_filter() == old(self).spec_filter(),
    {
        &mut self.inner
    }

    /// Decides what becomes of `received`, the answer of the inner receiver: a message is
    /// passed on if the predicate accepts it and dropped if not, and the end of the inner
    /// receiver is the end of this one.
    pub fn accept(&self, received: Option<T>) -> (out: Filtered<T>)
        requires
            received matches Some(message) ==> call_requires(self.spec_filter(), (&message,)),
        ensures
            match received {
                None => out is Closed,
                Some(message) => match out {
                    Filtered::Accepted(passed) => passed == message && call_ensures(
                        self.spec_filter(),
                        (&message,),
                        true,
                    ),
                    Filtered::Refused => call_ensures(self.spec_filter(), (&message,), false),
                    Filtered::Closed => false,
                },
            },
    {
        match received {
            Some(message) => {
                if (self.filter)(&message) {
                    Filtered::Accepted(message)
                } else {
                    Filtered::Refused
                }
            },
            None => Filtered::Closed,
        }
    }
}

} // verus!
