//! The wrapper around a receiver that was taken from the bus.
use vstd::prelude::*;
use std::marker::PhantomData;

verus! {

/// A receiver of messages `T` that wraps the channel's own receiver `R`, and can be asked to
/// log what it receives.
#[derive(Debug)]
pub struct LifelineReceiver<T, R> {
    inner: R,
    log: bool,
    _t: PhantomData<T>,
}

impl<T, R> LifelineReceiver<T, R> {
    /// The wrapped receiver.
    pub closed spec fn spec_inner(&self) -> R {
        self.inner
    }

    /// Whether received messages are logged.
    pub closed spec fn logs(&self) -> bool {
        self.log
    }

    /// Wraps `inner`, without logging.
    pub fn new(inner: R) -> (receiver: Self)
        ensures
            receiver.spec_inner() == inner,
            !receiver.logs(),
    {
        LifelineReceiver { inner, log: false, _t: PhantomData }
    }

    /// Enables logging for the messages received from the channel.
    pub fn log(self) -> (receiver: Self)
        ensures
            receiver.spec_inner() == self.spec_inner(),
            receiver.logs(),
    {
        let mut receiver = self;
        receiver.log = true;
        receiver
    }

    /// Whether received messages are logged.
    pub fn is_logged(&self) -> (log: bool)
        ensures
            log == self.logs(),
    {
        self.log
    }

    /// The wrapped receiver.
    pub fn inner(&self) -> (inner: &R)
        ensures
            *inner == self.spec_inner(),
    {
        &self.inner
    }

    /// The wrapped receiver, to be changed in place.
    pub fn inner_mut(&mut self) -> (inner: &mut R)
        ensures
            *inner == old(self).spec_inner(),
            final(self).spec_inner() == *final(inner),
            final(self).logs() == old(self).logs(),
    {
        &mut self.inner
    }

    /// Unwraps the receiver.
    pub fn into_inner(self) -> (inner: R)
        ensures
            inner == self.spec_inner(),
    {
        self.inner
    }
}

impl<T, R: Clone> Clone for LifelineReceiver<T, R> {
    /// Wraps a clone of the wrapped receiver, with the same logging.
    fn clone(&self) -> (copy: Self)
        ensures
            cloned(self.spec_inner(), copy.spec_inner()),
            copy.logs() == self.logs(),
    {
        LifelineReceiver { inner: self.inner.clone(), log: self.log, _t: PhantomData }
    }
}

} // verus!
