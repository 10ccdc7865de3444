//! The cell that keeps one endpoint or resource of the bus.
use vstd::prelude::*;
use crate::channel::Channel;
use crate::storage::{Policy, Storage};

verus! {

/// What a slot holds, as the bus reasons about it.
pub enum SlotState<T> {
    /// Nothing was ever stored.
    Empty,
    /// The value is stored.
    Present(T),
    /// A value was stored, and has been taken.
    Drained,
}

impl<T> SlotState<T> {
    /// The state of a slot that was made with `value`.
    pub open spec fn of(value: Option<T>) -> Self {
        match value {
            Some(v) => SlotState::Present(v),
            None => SlotState::Empty,
        }
    }

    /// The stored value, if there is one.
    pub open spec fn value(self) -> Option<T> {
        match self {
            SlotState::Present(value) => Some(value),
            _ => None,
        }
    }
}

/// How a slot changes when its value is acquired by the value's own policy: a stored `Take`
/// value moves to the caller and drains the slot, a stored `Clone` value stays and the caller
/// receives a copy of it, and a slot without a value gives nothing and stays as it is.
pub open spec fn slot_acquired<T: Storage>(
    before: SlotState<T>,
    after: SlotState<T>,
    out: Option<T>,
) -> bool {
    match before {
        SlotState::Present(value) => match value.policy() {
            Policy::Take => after is Drained && out == Some(value),
            Policy::Clone => after == before && (out matches Some(copy) && value.copied(&copy)),
        },
        _ => after == before && out is None,
    }
}

/// How a receiver slot changes when a receiver of the channel kind `C` is acquired: a stored
/// receiver is acquired by its own policy; without one, the slot stays as it is and a receiver
/// is produced exactly if `C` derives receivers from the sender and the sender is at hand.
pub open spec fn slot_rx_acquired<C: Channel>(
    before: SlotState<C::Rx>,
    tx_present: bool,
    after: SlotState<C::Rx>,
    out: Option<C::Rx>,
) -> bool {
    match before {
        SlotState::Present(_) => slot_acquired(before, after, out),
        _ => after == before && (out is Some <==> (tx_present && C::resubscribes())),
    }
}

/// A slot of the bus: at most one value, and the memory of whether one has left.
#[derive(Debug)]
pub struct BusSlot<T> {
    value: Option<T>,
    drained: bool,
}

impl<T> View for BusSlot<T> {
    type V = SlotState<T>;

    closed spec fn view(&self) -> SlotState<T> {
        match self.value {
            Some(value) => SlotState::Present(value),
            None => if self.drained {
                SlotState::Drained
            } else {
                SlotState::Empty
            },
        }
    }
}

impl<T> BusSlot<T> {
    /// A slot that holds `value`, or an empty one.
    pub fn new(value: Option<T>) -> (slot: Self)
        ensures
            slot@ == SlotState::of(value),
    {
        BusSlot { value, drained: false }
    }

    /// A slot in which nothing was ever stored.
    pub fn empty() -> (slot: Self)
        ensures
            slot@ is Empty,
    {
        BusSlot { value: None, drained: false }
    }

    /// Whether a value was stored and has been taken.
    pub fn is_drained(&self) -> (drained: bool)
        ensures
            drained == (self@ is Drained),
    {
        self.value.is_none() && self.drained
    }

    /// Stores `value`, in place of what the slot held.
    pub fn put(&mut self, value: T)
        ensures
            final(self)@ == SlotState::Present(value),
    {
        self.value = Some(value);
    }

    /// The stored sender, for the channel kinds that derive receivers from it.
    pub fn get_tx(&self) -> (tx: Option<&T>)
        ensures
            match tx {
                Some(value) => self@ == SlotState::Present(*value),
                None => !(self@ is Present),
            },
    {
        self.value.as_ref()
    }

    /// Acquires a receiver of the channel kind `Chan` from the slot.
    pub fn clone_rx<Chan: Channel<Rx = T>>(&mut self, tx: Option<&Chan::Tx>) -> (out: Option<T>)
        ensures
            slot_rx_acquired::<Chan>(old(self)@, tx is Some, final(self)@, out),
    {
        let held = self.value.is_some();
        let out = Chan::clone_rx(&mut self.value, tx);
        if held && self.value.is_none() {
            self.drained = true;
        }
        out
    }

    /// Acquires a sender of the channel kind `Chan` from the slot.
    pub fn clone_tx<Chan: Channel<Tx = T>>(&mut self) -> (out: Option<T>) where T: Storage
        ensures
            slot_acquired(old(self)@, final(self)@, out),
    {
        let held = self.value.is_some();
        let out = Chan::clone_tx(&mut self.value);
        if held && self.value.is_none() {
            self.drained = true;
        }
        out
    }

    /// Acquires the stored resource from the slot.
    pub fn clone_storage(&mut self) -> (out: Option<T>) where T: Storage
        ensures
            slot_acquired(old(self)@, final(self)@, out),
    {
        let held = self.value.is_some();
        let out = T::take_or_clone(&mut self.value);
        if held && self.value.is_none() {
            self.drained = true;
        }
        out
    }
}

} // verus!
