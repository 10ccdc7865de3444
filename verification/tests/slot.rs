use lifeline::dyn_bus::BusSlot;
use lifeline::{Channel, Policy, Storage};

#[derive(Clone, Debug, PartialEq)]
struct Shared(u32);

#[derive(Debug, PartialEq)]
struct Single(u32);

impl Storage for Shared {
    fn policy(&self) -> Policy {
        Policy::Clone
    }

    fn take_or_clone(res: &mut Option<Self>) -> Option<Self> {
        Self::clone_slot(res)
    }
}

impl Storage for Single {
    fn policy(&self) -> Policy {
        Policy::Take
    }

    fn take_or_clone(res: &mut Option<Self>) -> Option<Self> {
        Self::take_slot(res)
    }
}

/// A kind whose receivers are made from the sender: each is numbered after it.
struct Cast;

impl Channel for Cast {
    type Tx = Shared;
    type Rx = Single;

    fn resubscribes() -> bool {
        true
    }

    fn channel(_capacity: usize) -> (Shared, Single) {
        (Shared(10), Single(10))
    }

    fn default_capacity() -> usize {
        16
    }

    fn clone_rx(rx: &mut Option<Single>, tx: Option<&Shared>) -> Option<Single> {
        rx.take().or_else(|| tx.map(|tx| Single(tx.0 + 1)))
    }
}

struct Queue;

impl Channel for Queue {
    type Tx = Shared;
    type Rx = Single;

    fn resubscribes() -> bool {
        false
    }

    fn channel(capacity: usize) -> (Shared, Single) {
        (Shared(capacity as u32), Single(capacity as u32))
    }

    fn default_capacity() -> usize {
        16
    }

    fn clone_rx(rx: &mut Option<Single>, _tx: Option<&Shared>) -> Option<Single> {
        Single::take_or_clone(rx)
    }
}

#[test]
fn storage_helpers_clone_or_take_the_slot() {
    let mut shared = Some(Shared(1));
    assert_eq!(Shared::clone_slot(&mut shared), Some(Shared(1)));
    assert_eq!(shared, Some(Shared(1)));
    assert_eq!(Shared::take_slot(&mut shared), Some(Shared(1)));
    assert_eq!(shared, None);
    assert_eq!(Shared::clone_slot(&mut shared), None);
    assert_eq!(Shared::take_slot(&mut shared), None);

    let mut single = Some(Single(2));
    assert_eq!(Single::take_or_clone(&mut single), Some(Single(2)));
    assert_eq!(single, None);
    assert_eq!(Single::take_or_clone(&mut single), None);
}

#[test]
fn channel_hands_out_its_sender_by_the_policy_of_the_sender() {
    let mut tx = Some(Shared(3));
    assert_eq!(Queue::clone_tx(&mut tx), Some(Shared(3)));
    assert_eq!(Queue::clone_tx(&mut tx), Some(Shared(3)));
    assert_eq!(tx, Some(Shared(3)));
    let mut none: Option<Shared> = None;
    assert_eq!(Queue::clone_tx(&mut none), None);
}

#[test]
fn an_empty_slot_gives_nothing_and_stays_empty() {
    let mut slot: BusSlot<Single> = BusSlot::empty();
    assert!(!slot.is_drained());
    assert_eq!(slot.get_tx(), None);
    assert_eq!(slot.clone_storage(), None);
    assert!(!slot.is_drained());

    let mut slot: BusSlot<Single> = BusSlot::new(None);
    assert_eq!(slot.clone_rx::<Queue>(None), None);
    assert!(!slot.is_drained());
}

#[test]
fn a_take_value_leaves_a_drained_slot() {
    let mut slot = BusSlot::new(Some(Single(4)));
    assert_eq!(slot.get_tx(), Some(&Single(4)));
    assert_eq!(slot.clone_storage(), Some(Single(4)));
    assert!(slot.is_drained());
    assert_eq!(slot.get_tx(), None);
    assert_eq!(slot.clone_storage(), None);
    assert!(slot.is_drained());

    // a value that is put fills the slot again
    slot.put(Single(5));
    assert!(!slot.is_drained());
    assert_eq!(slot.clone_rx::<Queue>(None), Some(Single(5)));
    assert!(slot.is_drained());
}

#[test]
fn a_clone_value_stays_in_its_slot() {
    let mut slot = BusSlot::new(Some(Shared(6)));
    for _ in 0..3 {
        assert_eq!(slot.clone_tx::<Queue>(), Some(Shared(6)));
        assert!(!slot.is_drained());
    }
    slot.put(Shared(7));
    assert_eq!(slot.clone_storage(), Some(Shared(7)));
    assert_eq!(slot.get_tx(), Some(&Shared(7)));
}

#[test]
fn a_receiver_is_derived_from_the_sender_once_the_stored_one_has_left() {
    let tx = Shared(20);
    let mut slot = BusSlot::new(Some(Single(20)));
    // the stored receiver leaves first
    assert_eq!(slot.clone_rx::<Cast>(Some(&tx)), Some(Single(20)));
    assert!(slot.is_drained());
    // then receivers are made from the sender, for as long as it is at hand
    assert_eq!(slot.clone_rx::<Cast>(Some(&tx)), Some(Single(21)));
    assert_eq!(slot.clone_rx::<Cast>(Some(&tx)), Some(Single(21)));
    assert_eq!(slot.clone_rx::<Cast>(None), None);
    assert!(slot.is_drained());

    // a kind that derives nothing gives nothing, with the sender at hand or not
    assert_eq!(slot.clone_rx::<Queue>(Some(&tx)), None);
}
