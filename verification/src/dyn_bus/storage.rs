//! The registry of a bus: which channels are linked, with which capacity, and the slots of
//! their endpoints and of the resources.
use vstd::prelude::*;
use std::collections::{HashMap, HashSet};
use crate::bus::{Identity, Link};
use crate::channel::Channel;
use crate::dyn_bus::slot::{slot_acquired, slot_rx_acquired, BusSlot, SlotState};
use crate::error::{shortened, AlreadyLinkedError, TakeChannelError, TakeResourceError};
use crate::storage::Storage;

verus! {

broadcast use vstd::std_specs::hash::group_hash_axioms;

/// The state of a registry:
/// - `channels`, the identities whose channel has been linked;
/// - `capacity`, the configured capacity of a channel, by identity;
/// - `tx`, the sender slot of a channel, by identity;
/// - `rx`, the receiver slot of a channel, by identity;
/// - `resources`, the slot of a resource, by identity.
#[verifier::ext_equal]
pub struct DynBusState<Tx, Rx, Res> {
    pub channels: Set<u64>,
    pub capacity: Map<u64, usize>,
    pub tx: Map<u64, SlotState<Tx>>,
    pub rx: Map<u64, SlotState<Rx>>,
    pub resources: Map<u64, SlotState<Res>>,
}

impl<Tx, Rx, Res> DynBusState<Tx, Rx, Res> {
    /// The state of a registry on which nothing has happened.
    pub open spec fn empty() -> Self {
        DynBusState {
            channels: Set::empty(),
            capacity: Map::empty(),
            tx: Map::empty(),
            rx: Map::empty(),
            resources: Map::empty(),
        }
    }

    /// Every linked identity has a sender slot and a receiver slot, and no other has one.
    pub open spec fn wf(self) -> bool {
        &&& self.tx.dom() == self.channels
        &&& self.rx.dom() == self.channels
    }

    /// Whether the channel of `id` has been linked.
    pub open spec fn linked(self, id: u64) -> bool {
        self.channels.contains(id)
    }

    /// The sender slot of `id`; an identity without a slot has nothing stored.
    pub open spec fn tx_slot(self, id: u64) -> SlotState<Tx> {
        if self.tx.contains_key(id) {
            self.tx[id]
        } else {
            SlotState::Empty
        }
    }

    /// The receiver slot of `id`; an identity without a slot has nothing stored.
    pub open spec fn rx_slot(self, id: u64) -> SlotState<Rx> {
        if self.rx.contains_key(id) {
            self.rx[id]
        } else {
            SlotState::Empty
        }
    }

    /// The resource slot of `id`; an identity without a slot has nothing stored.
    pub open spec fn resource_slot(self, id: u64) -> SlotState<Res> {
        if self.resources.contains_key(id) {
            self.resources[id]
        } else {
            SlotState::Empty
        }
    }

    /// Whether `later` can follow this state: a linked channel stays linked and keeps the
    /// capacity it was configured with, or none, and a slot in which something was stored
    /// never counts as empty again.
    pub open spec fn precedes(self, later: Self) -> bool {
        &&& forall|id: u64| self.linked(id) ==> #[trigger] later.linked(id)
        &&& forall|id: u64|
            self.linked(id) ==> (#[trigger] later.capacity.contains_key(id))
                == self.capacity.contains_key(id)
        &&& forall|id: u64|
            self.linked(id) && self.capacity.contains_key(id) ==> (#[trigger] later.capacity[id])
                == self.capacity[id]
        &&& forall|id: u64| !(self.tx_slot(id) is Empty) ==> !(#[trigger] later.tx_slot(id) is Empty)
        &&& forall|id: u64| !(self.rx_slot(id) is Empty) ==> !(#[trigger] later.rx_slot(id) is Empty)
        &&& forall|id: u64|
            !(self.resource_slot(id) is Empty) ==> !(#[trigger] later.resource_slot(id) is Empty)
    }

    /// The state after the capacity of `id` is configured.
    pub open spec fn with_capacity(self, id: u64, capacity: usize) -> Self {
        DynBusState { capacity: self.capacity.insert(id, capacity), ..self }
    }

    /// The state after `id` is linked with the given slots.
    pub open spec fn with_channel(self, id: u64, tx: SlotState<Tx>, rx: SlotState<Rx>) -> Self {
        DynBusState {
            channels: self.channels.insert(id),
            tx: self.tx.insert(id, tx),
            rx: self.rx.insert(id, rx),
            ..self
        }
    }

    /// The state after the sender slot of `id` becomes `slot`.
    pub open spec fn with_tx(self, id: u64, slot: SlotState<Tx>) -> Self {
        DynBusState { tx: self.tx.insert(id, slot), ..self }
    }

    /// The state after the receiver slot of `id` becomes `slot`.
    pub open spec fn with_rx(self, id: u64, slot: SlotState<Rx>) -> Self {
        DynBusState { rx: self.rx.insert(id, slot), ..self }
    }

    /// The state after the resource slot of `id` becomes `slot`.
    pub open spec fn with_resource(self, id: u64, slot: SlotState<Res>) -> Self {
        DynBusState { resources: self.resources.insert(id, slot), ..self }
    }
}

/// The value of a successful result.
pub open spec fn ok_value<T, E>(out: Result<T, E>) -> Option<T> {
    match out {
        Ok(value) => Some(value),
        Err(_) => None,
    }
}

/// Whether `error` is the one owed for the half `link` of `msg` on the bus named `bus`:
/// already taken if the slot is `drained`, partially taken if the half was never stored.
pub open spec fn channel_error(
    error: TakeChannelError,
    drained: bool,
    bus: Seq<char>,
    msg: Identity,
    link: Link,
) -> bool {
    if drained {
        &&& error matches TakeChannelError::AlreadyTaken(e)
        &&& e.bus@ == shortened(bus)
        &&& e.message@ == shortened(msg.name@)
        &&& e.link == link
    } else {
        &&& error matches TakeChannelError::PartialTake(e)
        &&& e.bus@ == shortened(bus)
        &&& e.message@ == shortened(msg.name@)
        &&& e.link == link
    }
}

/// Whether `error` is the one owed for the resource `res` on the bus named `bus`: taken if
/// the slot is `drained`, uninitialized if nothing was ever stored.
pub open spec fn resource_error(
    error: TakeResourceError,
    drained: bool,
    bus: Seq<char>,
    res: Identity,
) -> bool {
    if drained {
        &&& error matches TakeResourceError::Taken(e)
        &&& e.bus@ == shortened(bus)
        &&& e.resource@ == shortened(res.name@)
    } else {
        &&& error matches TakeResourceError::Uninitialized(e)
        &&& e.bus@ == shortened(bus)
        &&& e.resource@ == shortened(res.name@)
    }
}

/// Linking the channel of `id`, of the kind `C`, leads from `pre` to `post`.
///
/// A linked identity is left as it is: nothing is constructed twice. Otherwise one pair is
/// constructed by `C`, with the configured capacity of `id` or else the default capacity of
/// `C`, and both halves are stored.
pub open spec fn links<C: Channel, Res>(
    pre: DynBusState<C::Tx, C::Rx, Res>,
    id: u64,
    post: DynBusState<C::Tx, C::Rx, Res>,
) -> bool {
    if pre.linked(id) {
        post == pre
    } else {
        exists|capacity: usize, tx: C::Tx, rx: C::Rx|
            {
                &&& #[trigger] call_ensures(C::channel, (capacity,), (tx, rx))
                &&& if pre.capacity.contains_key(id) {
                    capacity == pre.capacity[id]
                } else {
                    call_ensures(C::default_capacity, (), capacity)
                }
                &&& post == pre.with_channel(id, SlotState::Present(tx), SlotState::Present(rx))
            }
    }
}

/// Acquiring the sender of `msg` on the bus named `bus` leads from `pre` to `post` with the
/// result `out`: the sender slot changes by [`slot_acquired`], nothing else changes, and an
/// empty slot gives the error that [`channel_error`] describes.
pub open spec fn tx_acquired<Tx: Storage, Rx, Res>(
    pre: DynBusState<Tx, Rx, Res>,
    bus: Seq<char>,
    msg: Identity,
    post: DynBusState<Tx, Rx, Res>,
    out: Result<Tx, TakeChannelError>,
) -> bool {
    &&& slot_acquired(pre.tx_slot(msg.id), post.tx_slot(msg.id), ok_value(out))
    &&& post == pre.with_tx(msg.id, post.tx_slot(msg.id))
    &&& out matches Err(error) ==> channel_error(
        error,
        pre.tx_slot(msg.id) is Drained,
        bus,
        msg,
        Link::Tx,
    )
}

/// Acquiring the receiver of `msg`, of the channel kind `C`, on the bus named `bus` leads
/// from `pre` to `post` with the result `out`: the receiver slot changes by
/// [`slot_rx_acquired`], with the sender at hand if it is stored; nothing else changes, and
/// where no receiver comes out the error is the one that [`channel_error`] describes.
pub open spec fn rx_acquired<C: Channel, Res>(
    pre: DynBusState<C::Tx, C::Rx, Res>,
    bus: Seq<char>,
    msg: Identity,
    post: DynBusState<C::Tx, C::Rx, Res>,
    out: Result<C::Rx, TakeChannelError>,
) -> bool {
    &&& slot_rx_acquired::<C>(
        pre.rx_slot(msg.id),
        pre.tx_slot(msg.id) is Present,
        post.rx_slot(msg.id),
        ok_value(out),
    )
    &&& post == pre.with_rx(msg.id, post.rx_slot(msg.id))
    &&& out matches Err(error) ==> channel_error(
        error,
        pre.rx_slot(msg.id) is Drained,
        bus,
        msg,
        Link::Rx,
    )
}

/// What [`DynBusStorage::clone_tx`] does: it links the channel of `msg`, of the kind `C`,
/// and then acquires its sender.
pub open spec fn tx_cloned<C: Channel, Res>(
    pre: DynBusState<C::Tx, C::Rx, Res>,
    bus: Seq<char>,
    msg: Identity,
    post: DynBusState<C::Tx, C::Rx, Res>,
    out: Result<C::Tx, TakeChannelError>,
) -> bool {
    exists|linked: DynBusState<C::Tx, C::Rx, Res>|
        {
            &&& #[trigger] links::<C, Res>(pre, msg.id, linked)
            &&& tx_acquired(linked, bus, msg, post, out)
        }
}

/// What [`DynBusStorage::clone_rx`] does: it links the channel of `msg`, of the kind `C`,
/// and then acquires its receiver.
pub open spec fn rx_cloned<C: Channel, Res>(
    pre: DynBusState<C::Tx, C::Rx, Res>,
    bus: Seq<char>,
    msg: Identity,
    post: DynBusState<C::Tx, C::Rx, Res>,
    out: Result<C::Rx, TakeChannelError>,
) -> bool {
    exists|linked: DynBusState<C::Tx, C::Rx, Res>|
        {
            &&& #[trigger] links::<C, Res>(pre, msg.id, linked)
            &&& rx_acquired::<C, Res>(linked, bus, msg, post, out)
        }
}

/// Acquiring the resource `res` on the bus named `bus` leads from `pre` to `post` with the
/// result `out`: a stored resource is acquired by [`slot_acquired`]; nothing else changes,
/// and where no resource comes out the error is the one that [`resource_error`] describes.
pub open spec fn resource_acquired<Tx, Rx, Res: Storage>(
    pre: DynBusState<Tx, Rx, Res>,
    bus: Seq<char>,
    res: Identity,
    post: DynBusState<Tx, Rx, Res>,
    out: Result<Res, TakeResourceError>,
) -> bool {
    &&& slot_acquired(pre.resource_slot(res.id), post.resource_slot(res.id), ok_value(out))
    &&& if pre.resources.contains_key(res.id) {
        post == pre.with_resource(res.id, post.resource_slot(res.id))
    } else {
        post == pre
    }
    &&& out matches Err(error) ==> resource_error(
        error,
        pre.resource_slot(res.id) is Drained,
        bus,
        res,
    )
}

/// The registry of a bus, with the slots of senders `Tx`, receivers `Rx` and resources `Res`.
#[derive(Debug)]
pub struct DynBusStorage<Tx, Rx, Res> {
    name: &'static str,
    channels: HashSet<u64>,
    capacity: HashMap<u64, usize>,
    tx: HashMap<u64, BusSlot<Tx>>,
    rx: HashMap<u64, BusSlot<Rx>>,
    resources: HashMap<u64, BusSlot<Res>>,
}

impl<Tx, Rx, Res> View for DynBusStorage<Tx, Rx, Res> {
    type V = DynBusState<Tx, Rx, Res>;

    closed spec fn view(&self) -> DynBusState<Tx, Rx, Res> {
        DynBusState {
            channels: self.channels@,
            capacity: self.capacity@,
            tx: Map::new(|id: u64| self.tx@.contains_key(id), |id: u64| self.tx@[id]@),
            rx: Map::new(|id: u64| self.rx@.contains_key(id), |id: u64| self.rx@[id]@),
            resources: Map::new(
                |id: u64| self.resources@.contains_key(id),
                |id: u64| self.resources@[id]@,
            ),
        }
    }
}

impl<Tx, Rx, Res> Default for DynBusStorage<Tx, Rx, Res> {
    /// The registry of a bus without a name, with nothing linked and nothing stored.
    fn default() -> (storage: Self)
        ensures
            storage@ == DynBusState::<Tx, Rx, Res>::empty(),
            storage@.wf(),
            storage.name() == ""@,
    {
        Self::new("")
    }
}

impl<Tx, Rx, Res> DynBusStorage<Tx, Rx, Res> {
    /// The full name of the bus, as errors describe it.
    pub closed spec fn name(&self) -> Seq<char> {
        self.name@
    }

    /// The registry of the bus called `bus`, with nothing linked and nothing stored.
    pub fn new(bus: &'static str) -> (storage: Self)
        ensures
            storage@ == DynBusState::<Tx, Rx, Res>::empty(),
            storage@.wf(),
            storage.name() == bus@,
    {
        DynBusStorage {
            name: bus,
            channels: HashSet::new(),
            capacity: HashMap::new(),
            tx: HashMap::new(),
            rx: HashMap::new(),
            resources: HashMap::new(),
        }
    }

    /// Links the channel of `msg`: unless it is linked already, constructs the pair of the
    /// kind `Chan` and stores both halves.
    pub fn link_channel<Chan: Channel<Tx = Tx, Rx = Rx>>(&mut self, msg: Identity)
        requires
            old(self)@.wf(),
        ensures
            final(self)@.wf(),
            final(self).name() == old(self).name(),
            final(self)@.linked(msg.id),
            links::<Chan, Res>(old(self)@, msg.id, final(self)@),
            old(self)@.precedes(final(self)@),
    {
        if self.try_lock(msg) {
            let default_capacity = Chan::default_capacity();
            let capacity = match self.capacity.get(&msg.id) {
                Some(configured) => *configured,
                None => default_capacity,
            };
            let (tx, rx) = Chan::channel(capacity);
            self.rx.insert(msg.id, BusSlot::new(Some(rx)));
            self.tx.insert(msg.id, BusSlot::new(Some(tx)));
            self.channels.insert(msg.id);
            assert(self@ =~= old(self)@.with_channel(
                msg.id,
                SlotState::Present(tx),
                SlotState::Present(rx),
            ));
        }
    }

    /// Takes or clones the sender of `msg`, linking the channel first if it is not linked.
    pub fn clone_tx<Chan: Channel<Tx = Tx, Rx = Rx>>(&mut self, msg: Identity) -> (out: Result<
        Tx,
        TakeChannelError,
    >) where Tx: Storage
        requires
            old(self)@.wf(),
        ensures
            final(self)@.wf(),
            final(self).name() == old(self).name(),
            tx_cloned::<Chan, Res>(old(self)@, old(self).name(), msg, final(self)@, out),
            old(self)@.precedes(final(self)@),
    {
        self.link_channel::<Chan>(msg);
        let ghost linked = self@;
        match self.tx.remove(&msg.id) {
            // a linked channel has both its slots
            None => Err(TakeChannelError::partial_take(self.name, msg.name, Link::Tx)),
            Some(mut slot) => {
                let drained = slot.is_drained();
                let taken = slot.clone_tx::<Chan>();
                self.tx.insert(msg.id, slot);
                assert(self@ =~= linked.with_tx(msg.id, slot@));
                match taken {
                    Some(tx) => Ok(tx),
                    None => if drained {
                        Err(TakeChannelError::already_taken(self.name, msg.name, Link::Tx))
                    } else {
                        Err(TakeChannelError::partial_take(self.name, msg.name, Link::Tx))
                    },
                }
            },
        }
    }

    /// Takes or clones the receiver of `msg`, linking the channel first if it is not linked.
    /// The stored sender is at hand for the kinds that derive receivers from it.
    pub fn clone_rx<Chan: Channel<Tx = Tx, Rx = Rx>>(&mut self, msg: Identity) -> (out: Result<
        Rx,
        TakeChannelError,
    >)
        requires
            old(self)@.wf(),
        ensures
            final(self)@.wf(),
            final(self).name() == old(self).name(),
            rx_cloned::<Chan, Res>(old(self)@, old(self).name(), msg, final(self)@, out),
            old(self)@.precedes(final(self)@),
    {
        self.link_channel::<Chan>(msg);
        let ghost linked = self@;
        match self.rx.remove(&msg.id) {
            // a linked channel has both its slots
            None => Err(TakeChannelError::partial_take(self.name, msg.name, Link::Rx)),
            Some(mut slot) => {
                let drained = slot.is_drained();
                let tx = match self.tx.get(&msg.id) {
                    Some(tx_slot) => tx_slot.get_tx(),
                    None => None,
                };
                let taken = slot.clone_rx::<Chan>(tx);
                self.rx.insert(msg.id, slot);
                assert(self@ =~= linked.with_rx(msg.id, slot@));
                match taken {
                    Some(rx) => Ok(rx),
                    None => if drained {
                        Err(TakeChannelError::already_taken(self.name, msg.name, Link::Rx))
                    } else {
                        Err(TakeChannelError::partial_take(self.name, msg.name, Link::Rx))
                    },
                }
            },
        }
    }

    /// Takes or clones the resource `res`.
    pub fn clone_resource(&mut self, res: Identity) -> (out: Result<Res, TakeResourceError>) where
        Res: Storage,

        ensures
            final(self)@.wf() == old(self)@.wf(),
            final(self).name() == old(self).name(),
            resource_acquired(old(self)@, old(self).name(), res, final(self)@, out),
            old(self)@.precedes(final(self)@),
    {
        match self.resources.remove(&res.id) {
            None => {
                assert(self@ =~= old(self)@);
                Err(TakeResourceError::uninitialized(self.name, res.name))
            },
            Some(mut slot) => {
                let drained = slot.is_drained();
                let taken = slot.clone_storage();
                self.resources.insert(res.id, slot);
                assert(self@ =~= old(self)@.with_resource(res.id, slot@));
                match taken {
                    Some(value) => Ok(value),
                    None => if drained {
                        Err(TakeResourceError::taken(self.name, res.name))
                    } else {
                        Err(TakeResourceError::uninitialized(self.name, res.name))
                    },
                }
            },
        }
    }

    /// Stores the resource `res` on the bus, in place of the one that was stored before.
    pub fn store_resource(&mut self, res: Identity, value: Res)
        ensures
            final(self)@.wf() == old(self)@.wf(),
            final(self).name() == old(self).name(),
            final(self)@ == old(self)@.with_resource(res.id, SlotState::Present(value)),
            old(self)@.precedes(final(self)@),
    {
        let mut slot = match self.resources.remove(&res.id) {
            Some(slot) => slot,
            None => BusSlot::empty(),
        };
        slot.put(value);
        self.resources.insert(res.id, slot);
    }

    /// Stores the pair of `msg`, or the one half that is given, and links the channel: a
    /// later call for `msg` is refused. Without a half, nothing happens.
    pub fn store_channel(&mut self, msg: Identity, rx: Option<Rx>, tx: Option<Tx>) -> (out: Result<
        (),
        AlreadyLinkedError,
    >)
        requires
            old(self)@.wf(),
        ensures
            final(self)@.wf(),
            final(self).name() == old(self).name(),
            old(self)@.precedes(final(self)@),
            match out {
                Ok(()) => if rx is None && tx is None {
                    final(self)@ == old(self)@
                } else {
                    &&& !old(self)@.linked(msg.id)
                    &&& final(self)@ == old(self)@.with_channel(
                        msg.id,
                        SlotState::of(tx),
                        SlotState::of(rx),
                    )
                },
                Err(error) => {
                    &&& rx is Some || tx is Some
                    &&& old(self)@.linked(msg.id)
                    &&& final(self)@ == old(self)@
                    &&& error.bus@ == shortened(old(self).name())
                    &&& error.message@ == shortened(msg.name@)
                },
            },
    {
        if rx.is_none() && tx.is_none() {
            return Ok(());
        }
        if self.channels.contains(&msg.id) {
            return Err(AlreadyLinkedError::new(self.name, msg.name));
        }
        self.channels.insert(msg.id);
        self.tx.insert(msg.id, BusSlot::new(tx));
        self.rx.insert(msg.id, BusSlot::new(rx));
        assert(self@ =~= old(self)@.with_channel(msg.id, SlotState::of(tx), SlotState::of(rx)));
        Ok(())
    }

    /// Whether the channel of `msg` still has to be linked.
    pub fn try_lock(&self, msg: Identity) -> (unlinked: bool)
        ensures
            unlinked == !self@.linked(msg.id),
    {
        !self.channels.contains(&msg.id)
    }

    /// Configures the capacity that the channel of `msg` is constructed with.
    /// This is refused once the channel is linked, as the capacity would do nothing.
    pub fn capacity(&mut self, msg: Identity, capacity: usize) -> (out: Result<
        (),
        AlreadyLinkedError,
    >)
        ensures
            final(self)@.wf() == old(self)@.wf(),
            final(self).name() == old(self).name(),
            old(self)@.precedes(final(self)@),
            match out {
                Ok(()) => !old(self)@.linked(msg.id) && final(self)@ == old(self)@.with_capacity(
                    msg.id,
                    capacity,
                ),
                Err(error) => old(self)@.linked(msg.id) && final(self)@ == old(self)@
                    && error.bus@ == shortened(old(self).name()) && error.message@ == shortened(
                    msg.name@,
                ),
            },
    {
        if self.channels.contains(&msg.id) {
            return Err(AlreadyLinkedError::new(self.name, msg.name));
        }
        self.capacity.insert(msg.id, capacity);
        Ok(())
    }
}

} // verus!
