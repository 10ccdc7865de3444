//! The bus: identities, the messages and resources that are attached to a bus, and what a
//! bus hands out.
use vstd::prelude::*;
use vstd::string::*;
use crate::channel::lifeline::receiver::LifelineReceiver;
use crate::channel::lifeline::sender::LifelineSender;
use crate::channel::Channel;
use crate::dyn_bus::storage::{resource_acquired, rx_cloned, tx_cloned, DynBusState};
use crate::error::{shortened, AlreadyLinkedError, TakeChannelError, TakeResourceError};
use crate::storage::Storage;

verus! {

/// The key that addresses one channel or one resource of a bus, with the name it is
/// reported under.
#[derive(Clone, Copy, Debug)]
pub struct Identity {
    /// The key: two identities with the same number address the same slot.
    pub id: u64,
    /// The full name of the message or resource type, as errors describe it.
    pub name: &'static str,
}

impl Identity {
    /// The identity `id`, reported as `name`.
    pub fn new(id: u64, name: &'static str) -> (identity: Self)
        ensures
            identity.id == id,
            identity.name == name,
    {
        Identity { id, name }
    }
}

/// The identity of the message `Msg` on the bus `B`.
pub open spec fn message_identity<B, Msg: Message<B>>() -> Identity {
    Identity { id: Msg::ID, name: Msg::NAME }
}

/// The identity of the resource `Res` on the bus `B`.
pub open spec fn resource_identity<B, Res: Resource<B>>() -> Identity {
    Identity { id: Res::ID, name: Res::NAME }
}

/// The sender half, the receiver half, or both halves of a channel.
#[derive(Clone, Copy, Debug, PartialEq, Eq, Structural)]
pub enum Link {
    /// The sender half of the channel.
    Tx,
    /// The receiver half of the channel.
    Rx,
    /// Both the sender and the receiver.
    Both,
}

impl Link {
    /// The text a link is written as.
    pub open spec fn name(self) -> Seq<char> {
        match self {
            Link::Tx => "Tx"@,
            Link::Rx => "Rx"@,
            Link::Both => "Both"@,
        }
    }

    /// Writes the link as text: `Tx`, `Rx` or `Both`.
    pub fn to_string(&self) -> (out: String)
        ensures
            out@ == self.name(),
    {
        match self {
            Link::Tx => String::from_str("Tx"),
            Link::Rx => String::from_str("Rx"),
            Link::Both => String::from_str("Both"),
        }
    }
}

/// Attaches a channel to the bus `B`, carrying `Self` as a message: the kind of the channel,
/// and the identity of its slots.
pub trait Message<B>: Sized {
    /// The kind of channel that carries this message.
    type Channel: Channel;

    /// The key of the slots of this message on the bus.
    const ID: u64;

    /// The full name of the message type, as errors describe it.
    const NAME: &'static str;
}

/// Attaches a resource to the bus `B`, under the identity of its slot.
pub trait Resource<B>: Sized {
    /// The key of the slot of this resource on the bus.
    const ID: u64;

    /// The full name of the resource type, as errors describe it.
    const NAME: &'static str;
}

/// Stores and distributes channel endpoints and resources.
pub trait Bus: Sized {
    /// The senders that the bus keeps.
    type Tx: Storage;

    /// The receivers that the bus keeps.
    type Rx: Storage;

    /// The resources that the bus keeps.
    type Resource: Storage;

    /// The state of the registry of the bus.
    spec fn state(&self) -> DynBusState<Self::Tx, Self::Rx, Self::Resource>;

    /// The full name of the bus, as errors describe it.
    spec fn name(&self) -> Seq<char>;

    /// Configures the capacity of the channel of `Msg`. This is refused once the channel is
    /// linked, by an earlier call of `rx` or `tx` or by a stored endpoint.
    fn capacity<Msg: Message<Self>>(&mut self, capacity: usize) -> (out: Result<
        (),
        AlreadyLinkedError,
    >)
        ensures
            final(self).name() == old(self).name(),
            final(self).state().wf() == old(self).state().wf(),
            old(self).state().precedes(final(self).state()),
            match out {
                Ok(()) => {
                    &&& !old(self).state().linked(Msg::ID)
                    &&& final(self).state() == old(self).state().with_capacity(
                        Msg::ID,
                        capacity,
                    )
                },
                Err(error) => {
                    &&& old(self).state().linked(Msg::ID)
                    &&& final(self).state() == old(self).state()
                    &&& error.bus@ == shortened(old(self).name())
                    &&& error.message@ == shortened(Msg::NAME@)
                },
            },
    ;

    /// Takes or clones the receiver of `Msg`, after linking its channel if need be.
    fn rx<Msg>(&mut self) -> (out: Result<LifelineReceiver<Msg, Self::Rx>, TakeChannelError>) where
        Msg: Message<Self>,
        Msg::Channel: Channel<Tx = Self::Tx, Rx = Self::Rx>,

        requires
            old(self).state().wf(),
        ensures
            final(self).name() == old(self).name(),
            final(self).state().wf(),
            old(self).state().precedes(final(self).state()),
            rx_cloned::<Msg::Channel, Self::Resource>(
                old(self).state(),
                old(self).name(),
                message_identity::<Self, Msg>(),
                final(self).state(),
                match out {
                    Ok(receiver) => Ok(receiver.spec_inner()),
                    Err(error) => Err(error),
                },
            ),
            out matches Ok(receiver) ==> !receiver.logs(),
    ;

    /// Takes or clones the sender of `Msg`, after linking its channel if need be.
    fn tx<Msg>(&mut self) -> (out: Result<LifelineSender<Msg, Self::Tx>, TakeChannelError>) where
        Msg: Message<Self>,
        Msg::Channel: Channel<Tx = Self::Tx, Rx = Self::Rx>,

        requires
            old(self).state().wf(),
        ensures
            final(self).name() == old(self).name(),
            final(self).state().wf(),
            old(self).state().precedes(final(self).state()),
            tx_cloned::<Msg::Channel, Self::Resource>(
                old(self).state(),
                old(self).name(),
                message_identity::<Self, Msg>(),
                final(self).state(),
                match out {
                    Ok(sender) => Ok(sender.spec_inner()),
                    Err(error) => Err(error),
                },
            ),
            out matches Ok(sender) ==> !sender.logs(),
    ;

    /// Takes or clones the resource `Res`.
    fn resource<Res: Resource<Self>>(&mut self) -> (out: Result<
        Self::Resource,
        TakeResourceError,
    >)
        ensures
            final(self).name() == old(self).name(),
            final(self).state().wf() == old(self).state().wf(),
            old(self).state().precedes(final(self).state()),
            resource_acquired(
                old(self).state(),
                old(self).name(),
                resource_identity::<Self, Res>(),
                final(self).state(),
                out,
            ),
    ;
}

} // verus!
