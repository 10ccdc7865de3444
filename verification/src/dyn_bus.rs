//! The bus that keeps its endpoints and resources in a [`DynBusStorage`].
use vstd::prelude::*;
use crate::bus::{message_identity, Bus, Identity, Message, Resource};
use crate::channel::lifeline::receiver::LifelineReceiver;
use crate::channel::lifeline::sender::LifelineSender;
use crate::channel::Channel;
use crate::error::{shortened, AlreadyLinkedError, TakeChannelError, TakeResourceError};
use crate::storage::Storage;

pub mod laws;
pub mod slot;
pub mod storage;

pub use slot::{BusSlot, SlotState};
pub use storage::{DynBusState, DynBusStorage};

verus! {

/// A bus whose endpoints and resources are kept in a [`DynBusStorage`]. Such a bus is a
/// [`Bus`], and endpoints that were constructed by hand can be stored on it.
pub trait DynBus: Sized {
    /// The senders that the bus keeps.
    type Tx: Storage;

    /// The receivers that the bus keeps.
    type Rx: Storage;

    /// The resources that the bus keeps.
    type Resource: Storage;

    /// The registry of the bus.
    spec fn spec_storage(&self) -> &DynBusStorage<Self::Tx, Self::Rx, Self::Resource>;

    /// The registry of the bus.
    fn storage(&self) -> (storage: &DynBusStorage<Self::Tx, Self::Rx, Self::Resource>)
        ensures
            storage == self.spec_storage(),
    ;

    /// The registry of the bus, to be changed in place.
    fn storage_mut(&mut self) -> (storage: &mut DynBusStorage<Self::Tx, Self::Rx, Self::Resource>)
        ensures
            *storage == *old(self).spec_storage(),
            *final(self).spec_storage() == *final(storage),
    ;

    /// Stores a receiver that was constructed by hand, for the message `Msg`. This is
    /// refused if the channel of `Msg` is linked.
    fn store_rx<Msg: Message<Self>>(&mut self, rx: Self::Rx) -> (out: Result<
        (),
        AlreadyLinkedError,
    >)
        requires
            old(self).spec_storage()@.wf(),
        ensures
            final(self).spec_storage()@.wf(),
            stored(
                *old(self).spec_storage(),
                message_identity::<Self, Msg>(),
                Some(rx),
                None,
                *final(self).spec_storage(),
                out,
            ),
    {
        self.storage_mut().store_channel(Identity::new(Msg::ID, Msg::NAME), Some(rx), None)
    }

    /// Stores a sender that was constructed by hand, for the message `Msg`. This is refused
    /// if the channel of `Msg` is linked.
    fn store_tx<Msg: Message<Self>>(&mut self, tx: Self::Tx) -> (out: Result<
        (),
        AlreadyLinkedError,
    >)
        requires
            old(self).spec_storage()@.wf(),
        ensures
            final(self).spec_storage()@.wf(),
            stored(
                *old(self).spec_storage(),
                message_identity::<Self, Msg>(),
                None,
                Some(tx),
                *final(self).spec_storage(),
                out,
            ),
    {
        self.storage_mut().store_channel(Identity::new(Msg::ID, Msg::NAME), None, Some(tx))
    }

    /// Stores a pair that was constructed by hand, for the message `Msg`. This is refused if
    /// the channel of `Msg` is linked.
    fn store_channel<Msg: Message<Self>>(&mut self, rx: Self::Rx, tx: Self::Tx) -> (out: Result<
        (),
        AlreadyLinkedError,
    >)
        requires
            old(self).spec_storage()@.wf(),
        ensures
            final(self).spec_storage()@.wf(),
            stored(
                *old(self).spec_storage(),
                message_identity::<Self, Msg>(),
                Some(rx),
                Some(tx),
                *final(self).spec_storage(),
                out,
            ),
    {
        self.storage_mut().store_channel(Identity::new(Msg::ID, Msg::NAME), Some(rx), Some(tx))
    }

    /// Stores the resource `Res` on the bus, in place of the one that was stored before.
    fn store_resource<Res: Resource<Self>>(&mut self, resource: Self::Resource)
        ensures
            final(self).spec_storage().name() == old(self).spec_storage().name(),
            final(self).spec_storage()@ == old(self).spec_storage()@.with_resource(
                Res::ID,
                SlotState::Present(resource),
            ),
    {
        self.storage_mut().store_resource(Identity::new(Res::ID, Res::NAME), resource)
    }
}

/// What storing the halves `rx` and `tx` for `msg` does to a registry: with at least one
/// half, an unlinked channel is linked with the given halves in its slots, and a linked one
/// is left alone and the call refused.
pub open spec fn stored<Tx, Rx, Res>(
    pre: DynBusStorage<Tx, Rx, Res>,
    msg: Identity,
    rx: Option<Rx>,
    tx: Option<Tx>,
    post: DynBusStorage<Tx, Rx, Res>,
    out: Result<(), AlreadyLinkedError>,
) -> bool {
    &&& post.name() == pre.name()
    &&& match out {
        Ok(()) => if rx is None && tx is None {
            post@ == pre@
        } else {
            &&& !pre@.linked(msg.id)
            &&& post@ == pre@.with_channel(msg.id, SlotState::of(tx), SlotState::of(rx))
        },
        Err(error) => {
            &&& rx is Some || tx is Some
            &&& pre@.linked(msg.id)
            &&& post@ == pre@
            &&& error.bus@ == shortened(pre.name())
            &&& error.message@ == shortened(msg.name@)
        },
    }
}

impl<T: DynBus> Bus for T {
    type Tx = <T as DynBus>::Tx;

    type Rx = <T as DynBus>::Rx;

    type Resource = <T as DynBus>::Resource;

    open spec fn state(&self) -> DynBusState<Self::Tx, Self::Rx, Self::Resource> {
        self.spec_storage()@
    }

    open spec fn name(&self) -> Seq<char> {
        self.spec_storage().name()
    }

    fn capacity<Msg: Message<Self>>(&mut self, capacity: usize) -> (out: Result<
        (),
        AlreadyLinkedError,
    >) {
        self.storage_mut().capacity(Identity::new(Msg::ID, Msg::NAME), capacity)
    }

    fn rx<Msg>(&mut self) -> (out: Result<LifelineReceiver<Msg, Self::Rx>, TakeChannelError>) where
        Msg: Message<Self>,
        Msg::Channel: Channel<Tx = Self::Tx, Rx = Self::Rx>,
    {
        match self.storage_mut().clone_rx::<Msg::Channel>(Identity::new(Msg::ID, Msg::NAME)) {
            Ok(rx) => Ok(LifelineReceiver::new(rx)),
            Err(error) => Err(error),
        }
    }

    fn tx<Msg>(&mut self) -> (out: Result<LifelineSender<Msg, Self::Tx>, TakeChannelError>) where
        Msg: Message<Self>,
        Msg::Channel: Channel<Tx = Self::Tx, Rx = Self::Rx>,
    {
        match self.storage_mut().clone_tx::<Msg::Channel>(Identity::new(Msg::ID, Msg::NAME)) {
            Ok(tx) => Ok(LifelineSender::new(tx)),
            Err(error) => Err(error),
        }
    }

    fn resource<Res: Resource<Self>>(&mut self) -> (out: Result<
        Self::Resource,
        TakeResourceError,
    >) {
        self.storage_mut().clone_resource(Identity::new(Res::ID, Res::NAME))
    }
}

} // verus!
