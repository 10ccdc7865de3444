//! The state behind a subscription channel: which identifiers are subscribed, and the unique
//! index that each subscription was given.
use vstd::prelude::*;
use vstd::std_specs::hash::obeys_key_model;
use std::collections::HashMap;
use std::hash::Hash;

verus! {

broadcast use vstd::std_specs::hash::group_hash_axioms;

/// Subscribes to, or unsubscribes from, the given identifier.
#[derive(Debug)]
pub enum Subscription<T> {
    Subscribe(T),
    Unsubscribe(T),
}

impl<T: Clone> Clone for Subscription<T> {
    fn clone(&self) -> (copy: Self)
        ensures
            match (*self, copy) {
                (Subscription::Subscribe(id), Subscription::Subscribe(other)) => cloned(id, other),
                (Subscription::Unsubscribe(id), Subscription::Unsubscribe(other)) => cloned(
                    id,
                    other,
                ),
                _ => false,
            },
    {
        match self {
            Subscription::Subscribe(id) => Subscription::Subscribe(id.clone()),
            Subscription::Unsubscribe(id) => Subscription::Unsubscribe(id.clone()),
        }
    }
}

/// The current subscriptions of the channel, each with its index.
#[derive(Debug)]
pub struct SubscriptionState<T> {
    pub subscriptions: HashMap<T, usize>,
}

impl<T> View for SubscriptionState<T> {
    type V = Map<T, usize>;

    open spec fn view(&self) -> Map<T, usize> {
        self.subscriptions@
    }
}

impl<T: Hash + Eq> SubscriptionState<T> {
    /// Whether the channel is subscribed to `id`.
    pub fn contains(&self, id: &T) -> (out: bool)
        ensures
            obeys_key_model::<T>() ==> out == self@.contains_key(*id),
    {
        self.subscriptions.contains_key(id)
    }

    /// The index of the subscription to `id`, or `None` if the channel is not subscribed
    /// to it.
    pub fn get(&self, id: &T) -> (out: Option<usize>)
        ensures
            obeys_key_model::<T>() ==> out == if self@.contains_key(*id) {
                Some(self@[*id])
            } else {
                None
            },
    {
        match self.subscriptions.get(id) {
            Some(index) => Some(*index),
            None => None,
        }
    }
}

impl<T: Clone> Clone for SubscriptionState<T> {
    fn clone(&self) -> (copy: Self)
        ensures
            copy@ == self@,
    {
        SubscriptionState { subscriptions: self.subscriptions.clone() }
    }
}

impl<T> Default for SubscriptionState<T> {
    fn default() -> (state: Self)
        ensures
            state@ == Map::<T, usize>::empty(),
    {
        SubscriptionState { subscriptions: HashMap::new() }
    }
}

/// The receiving side of a subscription channel: the last state that arrived.
#[derive(Debug)]
pub struct Receiver<T> {
    state: SubscriptionState<T>,
}

impl<T> View for Receiver<T> {
    type V = Map<T, usize>;

    closed spec fn view(&self) -> Map<T, usize> {
        self.state@
    }
}

impl<T> Receiver<T> {
    /// A receiver that has seen `state`.
    pub fn new(state: SubscriptionState<T>) -> (receiver: Self)
        ensures
            receiver@ == state@,
    {
        Receiver { state }
    }

    /// Records the state that has arrived.
    pub fn update(&mut self, state: SubscriptionState<T>)
        ensures
            final(self)@ == state@,
    {
        self.state = state;
    }
}

impl<T: Hash + Eq> Receiver<T> {
    /// Whether the channel is, by the last state that arrived, subscribed to `id`.
    pub fn contains(&self, id: &T) -> (out: bool)
        ensures
            obeys_key_model::<T>() ==> out == self@.contains_key(*id),
    {
        self.state.contains(id)
    }

    /// The index of the subscription to `id` by the last state that arrived, or `None` if
    /// the channel is not subscribed to it.
    pub fn get_identifier(&self, id: &T) -> (out: Option<usize>)
        ensures
            obeys_key_model::<T>() ==> out == if self@.contains_key(*id) {
                Some(self@[*id])
            } else {
                None
            },
    {
        self.state.get(id)
    }
}

/// What the update service keeps between two messages.
#[verifier::reject_recursive_types(T)]
pub struct Subscriptions<T> {
    /// The subscriptions, each with its index.
    pub state: Map<T, usize>,
    /// The index that the next new subscription is given.
    pub next_id: usize,
}

impl<T> Subscriptions<T> {
    /// The indexes were given in order: each one in use is below the next one, and no two
    /// subscriptions share one.
    pub open spec fn wf(self) -> bool {
        &&& forall|id: T| #[trigger] self.state.contains_key(id) ==> self.state[id] < self.next_id
        &&& forall|a: T, b: T|
            #![trigger self.state[a], self.state[b]]
            self.state.contains_key(a) && self.state.contains_key(b) && self.state[a]
                == self.state[b] ==> a == b
    }

    /// Whether `msg` changes the subscriptions.
    pub open spec fn changes(self, msg: Subscription<T>) -> bool {
        match msg {
            Subscription::Subscribe(id) => !self.state.contains_key(id),
            Subscription::Unsubscribe(id) => self.state.contains_key(id),
        }
    }

    /// The subscriptions after `msg`: a new subscription is given the next index, a known
    /// one is kept, and an unsubscription removes what is there.
    pub open spec fn apply(self, msg: Subscription<T>) -> Self {
        match msg {
            Subscription::Subscribe(id) => if self.state.contains_key(id) {
                self
            } else {
                Subscriptions {
                    state: self.state.insert(id, self.next_id),
                    next_id: (self.next_id + 1) as usize,
                }
            },
            Subscription::Unsubscribe(id) => Subscriptions {
                state: self.state.remove(id),
                next_id: self.next_id,
            },
        }
    }
}

/// The service that keeps the subscription state up to date, one message at a time.
#[derive(Debug)]
pub struct UpdateService<T> {
    state: SubscriptionState<T>,
    next_id: usize,
}

impl<T> View for UpdateService<T> {
    type V = Subscriptions<T>;

    closed spec fn view(&self) -> Subscriptions<T> {
        Subscriptions { state: self.state@, next_id: self.next_id }
    }
}

impl<T: Hash + Eq> UpdateService<T> {
    /// The service before its first message: no subscriptions, and 0 as the next index.
    pub fn new() -> (service: Self)
        ensures
            service@.state == Map::<T, usize>::empty(),
            service@.next_id == 0,
            service@.wf(),
    {
        UpdateService { state: SubscriptionState::default(), next_id: 0 }
    }

    /// The index that the next new subscription is given.
    pub fn next_id(&self) -> (next: usize)
        ensures
            next == self@.next_id,
    {
        self.next_id
    }

    /// The current subscriptions.
    pub fn state(&self) -> (state: &SubscriptionState<T>)
        ensures
            state@ == self@.state,
    {
        &self.state
    }

    /// Handles one message, and says whether the subscriptions changed, in which case the
    /// new state is to be sent to the receivers.
    pub fn update(&mut self, msg: Subscription<T>) -> (changed: bool)
        requires
            old(self)@.next_id < usize::MAX,
        ensures
            obeys_key_model::<T>() ==> {
                &&& final(self)@ == old(self)@.apply(msg)
                &&& changed == old(self)@.changes(msg)
                &&& old(self)@.wf() ==> final(self)@.wf()
            },
    {
        match msg {
            Subscription::Subscribe(id) => {
                if self.state.subscriptions.contains_key(&id) {
                    return false;
                }
                self.state.subscriptions.insert(id, self.next_id);
                self.next_id = self.next_id + 1;
                true
            },
            Subscription::Unsubscribe(id) => {
                if !self.state.subscriptions.contains_key(&id) {
                    proof {
                        if obeys_key_model::<T>() {
                            assert(self@.state =~= old(self)@.state.remove(id));
                        }
                    }
                    return false;
                }
                self.state.subscriptions.remove(&id);
                true
            },
        }
    }
}

} // verus!
