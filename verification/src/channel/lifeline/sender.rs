//! The wrapper around a sender that was taken from the bus.
use vstd::prelude::*;
use std::marker::PhantomData;

verus! {

/// A sender of messages `T` that wraps the channel's own sender `S`, and can be asked to
/// log what it sends.
#[derive(Debug)]
pub struct LifelineSender<T, S> {
    inner: S,
    log: bool,
    _t: PhantomData<T>,
}

impl<T, S> LifelineSender<T, S> {
    /// The wrapped sender.
    pub closed spec fn spec_inner(&self) -> S {
        self.inner
    }

    /// Whether sent messages are logged.
    pub closed spec fn logs(&self) -> bool {
        self.log
    }

    /// Wraps `inner`, without logging.
    pub fn new(inner: S) -> (sender: Self)
        ensures
            sender.spec_inner() == inner,
            !sender.logs(),
    {
        LifelineSender { inner, log: false, _t: PhantomData }
    }

    /// Enables logging for the messages sent over the channel.
    pub fn log(self) -> (sender: Self)
        ensures
            sender.spec_inner() == self.spec_inner(),
            sender.logs(),
    {
        let mut sender = self;
        sender.log = true;
        sender
    }

    /// Whether sent messages are logged.
    pub fn is_logged(&self) -> (log: bool)
        ensures
            log == self.logs(),
    {
        self.log
    }

    /// The wrapped sender.
    pub fn inner(&self) -> (inner: &S)
        ensures
            *inner == self.spec_inner(),
    {
        &self.inner
    }

    /// The wrapped sender, to be changed in place.
    pub fn inner_mut(&mut self) -> (inner: &mut S)
        ensures
            *inner == old(self).spec_inner(),
            final(self).spec_inner() == *final(inner),
            final(self).logs() == old(self).logs(),
    {
        &mut self.inner
    }

    /// Unwraps the sender.
    pub fn into_inner(self) -> (inner: S)
        ensures
            inner == self.spec_inner(),
    {
        self.inner
    }
}

impl<T, S: Clone> Clone for LifelineSender<T, S> {
    /// Wraps a clone of the wrapped sender, with the same logging.
    fn clone(&self) -> (copy: Self)
        ensures
            cloned(self.spec_inner(), copy.spec_inner()),
            copy.logs() == self.logs(),
    {
        LifelineSender { inner: self.inner.clone(), log: self.log, _t: PhantomData }
    }
}

} // verus!
