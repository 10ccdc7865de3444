//! What holds of every sequence of calls on a registry.
use vstd::prelude::*;
use crate::bus::{Identity, Link};
use crate::channel::Channel;
use crate::dyn_bus::slot::SlotState;
use crate::dyn_bus::storage::{links, resource_acquired, rx_cloned, tx_cloned, DynBusState};
use crate::error::{TakeChannelError, TakeResourceError};
use crate::storage::{Policy, Storage};

verus! {

/// Whether the sender of `id` is handed out by `policy`: the stored one if the channel is
/// linked, and otherwise every sender that the kind `C` constructs.
pub open spec fn tx_policy_is<C: Channel, Res>(
    state: DynBusState<C::Tx, C::Rx, Res>,
    id: u64,
    policy: Policy,
) -> bool {
    if state.linked(id) {
        state.tx_slot(id) matches SlotState::Present(tx) && tx.policy() == policy
    } else {
        forall|capacity: usize, tx: C::Tx, rx: C::Rx| #[trigger]
            call_ensures(C::channel, (capacity,), (tx, rx)) ==> tx.policy() == policy
    }
}

/// Whether the receiver of `id` is handed out by `policy`: the stored one if the channel is
/// linked, and otherwise every receiver that the kind `C` constructs.
pub open spec fn rx_policy_is<C: Channel, Res>(
    state: DynBusState<C::Tx, C::Rx, Res>,
    id: u64,
    policy: Policy,
) -> bool {
    if state.linked(id) {
        state.rx_slot(id) matches SlotState::Present(rx) && rx.policy() == policy
    } else {
        forall|capacity: usize, tx: C::Tx, rx: C::Rx| #[trigger]
            call_ensures(C::channel, (capacity,), (tx, rx)) ==> rx.policy() == policy
    }
}

/// Whether receivers of `id` stay available: a `Clone` receiver is stored or will be, or the
/// kind `C` derives receivers from the sender, which is stored or will be.
pub open spec fn rx_shared<C: Channel, Res>(
    state: DynBusState<C::Tx, C::Rx, Res>,
    id: u64,
) -> bool {
    ||| rx_policy_is::<C, Res>(state, id, Policy::Clone)
    ||| C::resubscribes() && (state.linked(id) ==> state.tx_slot(id) is Present)
}

/// Whether `out` is the failure of an endpoint `link` that was already taken.
pub open spec fn channel_taken<T>(out: Result<T, TakeChannelError>, link: Link) -> bool {
    out matches Err(TakeChannelError::AlreadyTaken(error)) && error.link == link
}

/// `states` and `outs` record a run of calls of `clone_tx` for `msg`: call `i` leads from
/// `states[i]` to `states[i + 1]` and returns `outs[i]`.
pub open spec fn tx_run<C: Channel, Res>(
    states: Seq<DynBusState<C::Tx, C::Rx, Res>>,
    bus: Seq<char>,
    msg: Identity,
    outs: Seq<Result<C::Tx, TakeChannelError>>,
) -> bool {
    &&& states.len() == outs.len() + 1
    &&& forall|i: int|
        #![trigger outs[i]]
        0 <= i < outs.len() ==> tx_cloned::<C, Res>(states[i], bus, msg, states[i + 1], outs[i])
}

/// `states` and `outs` record a run of calls of `clone_rx` for `msg`: call `i` leads from
/// `states[i]` to `states[i + 1]` and returns `outs[i]`.
pub open spec fn rx_run<C: Channel, Res>(
    states: Seq<DynBusState<C::Tx, C::Rx, Res>>,
    bus: Seq<char>,
    msg: Identity,
    outs: Seq<Result<C::Rx, TakeChannelError>>,
) -> bool {
    &&& states.len() == outs.len() + 1
    &&& forall|i: int|
        #![trigger outs[i]]
        0 <= i < outs.len() ==> rx_cloned::<C, Res>(states[i], bus, msg, states[i + 1], outs[i])
}

/// `states` and `outs` record a run of calls of `clone_resource` for `res`: call `i` leads
/// from `states[i]` to `states[i + 1]` and returns `outs[i]`.
pub open spec fn resource_run<Tx, Rx, Res: Storage>(
    states: Seq<DynBusState<Tx, Rx, Res>>,
    bus: Seq<char>,
    res: Identity,
    outs: Seq<Result<Res, TakeResourceError>>,
) -> bool {
    &&& states.len() == outs.len() + 1
    &&& forall|i: int|
        #![trigger outs[i]]
        0 <= i < outs.len() ==> resource_acquired(states[i], bus, res, states[i + 1], outs[i])
}

/// What holds between two states that follow each other holds along every run: a state
/// precedes itself, and what precedes a state precedes every state that the state precedes.
/// So a linked channel stays linked with its capacity, and a slot that was filled never
/// counts as empty again, whatever is done to the registry in between.
pub proof fn lemma_precedes_along_a_run<Tx, Rx, Res>(
    first: DynBusState<Tx, Rx, Res>,
    second: DynBusState<Tx, Rx, Res>,
    third: DynBusState<Tx, Rx, Res>,
)
    requires
        first.precedes(second),
        second.precedes(third),
    ensures
        first.precedes(first),
        first.precedes(third),
{
}

/// Construction happens once: linking an identity links it, and linking it again changes
/// nothing, so that every caller finds the pair that the first one stored.
pub proof fn lemma_link_constructs_once<C: Channel, Res>(
    pre: DynBusState<C::Tx, C::Rx, Res>,
    id: u64,
    first: DynBusState<C::Tx, C::Rx, Res>,
    second: DynBusState<C::Tx, C::Rx, Res>,
)
    requires
        links::<C, Res>(pre, id, first),
        links::<C, Res>(first, id, second),
    ensures
        first.linked(id),
        first.tx_slot(id) is Present || pre.linked(id),
        first.rx_slot(id) is Present || pre.linked(id),
        second == first,
{
}

/// A linked channel keeps its capacity: linking neither changes what was configured, nor
/// leaves the identity unlinked, so that a later `capacity` for it is refused.
pub proof fn lemma_link_freezes_capacity<C: Channel, Res>(
    pre: DynBusState<C::Tx, C::Rx, Res>,
    id: u64,
    post: DynBusState<C::Tx, C::Rx, Res>,
)
    requires
        links::<C, Res>(pre, id, post),
    ensures
        post.linked(id),
        post.capacity == pre.capacity,
{
}

/// An acquisition links the channel and leaves every configured capacity as it was, so that
/// a later `capacity` for the identity is refused.
pub proof fn lemma_acquire_freezes_capacity<C: Channel, Res>(
    pre: DynBusState<C::Tx, C::Rx, Res>,
    bus: Seq<char>,
    msg: Identity,
    post: DynBusState<C::Tx, C::Rx, Res>,
    tx: Result<C::Tx, TakeChannelError>,
    rx: Result<C::Rx, TakeChannelError>,
)
    requires
        tx_cloned::<C, Res>(pre, bus, msg, post, tx) || rx_cloned::<C, Res>(pre, bus, msg, post, rx),
    ensures
        post.linked(msg.id),
        post.capacity == pre.capacity,
{
}

/// A sender that is handed out by `Take` is handed out once: the first `clone_tx` returns
/// it, and every later one fails with `AlreadyTaken`.
pub proof fn lemma_tx_take_is_exclusive<C: Channel, Res>(
    states: Seq<DynBusState<C::Tx, C::Rx, Res>>,
    bus: Seq<char>,
    msg: Identity,
    outs: Seq<Result<C::Tx, TakeChannelError>>,
    i: int,
)
    requires
        tx_run::<C, Res>(states, bus, msg, outs),
        tx_policy_is::<C, Res>(states[0], msg.id, Policy::Take),
        0 <= i < outs.len(),
    ensures
        i == 0 ==> outs[i] is Ok,
        i == 0 && states[0].linked(msg.id) ==> outs[i] == Ok::<C::Tx, TakeChannelError>(
            states[0].tx_slot(msg.id)->Present_0,
        ),
        i > 0 ==> channel_taken(outs[i], Link::Tx),
        states[i + 1].linked(msg.id),
        states[i + 1].tx_slot(msg.id) is Drained,
    decreases i,
{
    if i > 0 {
        lemma_tx_take_is_exclusive::<C, Res>(states, bus, msg, outs, i - 1);
    }
    assert(tx_cloned::<C, Res>(states[i], bus, msg, states[i + 1], outs[i]));
}

/// A sender that is handed out by `Clone` stays available: every `clone_tx` succeeds, and
/// what it returns is a copy of the one sender that stays stored.
pub proof fn lemma_tx_clone_is_available<C: Channel, Res>(
    states: Seq<DynBusState<C::Tx, C::Rx, Res>>,
    bus: Seq<char>,
    msg: Identity,
    outs: Seq<Result<C::Tx, TakeChannelError>>,
    i: int,
)
    requires
        tx_run::<C, Res>(states, bus, msg, outs),
        tx_policy_is::<C, Res>(states[0], msg.id, Policy::Clone),
        0 <= i < outs.len(),
    ensures
        states[i + 1].linked(msg.id),
        tx_policy_is::<C, Res>(states[i + 1], msg.id, Policy::Clone),
        states[i + 1].tx_slot(msg.id) == states[1].tx_slot(msg.id),
        outs[i] matches Ok(copy) && states[1].tx_slot(msg.id)->Present_0.copied(&copy),
    decreases i,
{
    if i > 0 {
        lemma_tx_clone_is_available::<C, Res>(states, bus, msg, outs, i - 1);
    }
    assert(tx_cloned::<C, Res>(states[i], bus, msg, states[i + 1], outs[i]));
}

/// A receiver that is handed out by `Take`, of a kind that derives none from the sender, is
/// handed out once: the first `clone_rx` returns it, and every later one fails with
/// `AlreadyTaken`.
pub proof fn lemma_rx_take_is_exclusive<C: Channel, Res>(
    states: Seq<DynBusState<C::Tx, C::Rx, Res>>,
    bus: Seq<char>,
    msg: Identity,
    outs: Seq<Result<C::Rx, TakeChannelError>>,
    i: int,
)
    requires
        rx_run::<C, Res>(states, bus, msg, outs),
        rx_policy_is::<C, Res>(states[0], msg.id, Policy::Take),
        !C::resubscribes(),
        0 <= i < outs.len(),
    ensures
        i == 0 ==> outs[i] is Ok,
        i == 0 && states[0].linked(msg.id) ==> outs[i] == Ok::<C::Rx, TakeChannelError>(
            states[0].rx_slot(msg.id)->Present_0,
        ),
        i > 0 ==> channel_taken(outs[i], Link::Rx),
        states[i + 1].linked(msg.id),
        states[i + 1].rx_slot(msg.id) is Drained,
    decreases i,
{
    if i > 0 {
        lemma_rx_take_is_exclusive::<C, Res>(states, bus, msg, outs, i - 1);
    }
    assert(rx_cloned::<C, Res>(states[i], bus, msg, states[i + 1], outs[i]));
}

/// Receivers that are handed out by `Clone`, or derived from a stored sender, stay
/// available: every `clone_rx` succeeds. Where the receiver is handed out by `Clone`, what
/// is returned is a copy of the one receiver that stays stored.
pub proof fn lemma_rx_clone_is_available<C: Channel, Res>(
    states: Seq<DynBusState<C::Tx, C::Rx, Res>>,
    bus: Seq<char>,
    msg: Identity,
    outs: Seq<Result<C::Rx, TakeChannelError>>,
    i: int,
)
    requires
        rx_run::<C, Res>(states, bus, msg, outs),
        rx_shared::<C, Res>(states[0], msg.id),
        0 <= i < outs.len(),
    ensures
        outs[i] is Ok,
        states[i + 1].linked(msg.id),
        rx_shared::<C, Res>(states[i + 1], msg.id),
        rx_policy_is::<C, Res>(states[0], msg.id, Policy::Clone) ==> {
            &&& rx_policy_is::<C, Res>(states[i + 1], msg.id, Policy::Clone)
            &&& states[i + 1].rx_slot(msg.id) == states[1].rx_slot(msg.id)
            &&& outs[i] matches Ok(copy) && states[1].rx_slot(msg.id)->Present_0.copied(&copy)
        },
    decreases i,
{
    if i > 0 {
        lemma_rx_clone_is_available::<C, Res>(states, bus, msg, outs, i - 1);
    }
    assert(rx_cloned::<C, Res>(states[i], bus, msg, states[i + 1], outs[i]));
}

/// A stored resource that is handed out by `Take` is handed out once: the first
/// `clone_resource` returns it, and every later one fails with `Taken`.
pub proof fn lemma_resource_take_is_exclusive<Tx, Rx, Res: Storage>(
    states: Seq<DynBusState<Tx, Rx, Res>>,
    bus: Seq<char>,
    res: Identity,
    outs: Seq<Result<Res, TakeResourceError>>,
    i: int,
)
    requires
        resource_run(states, bus, res, outs),
        states[0].resource_slot(res.id) matches SlotState::Present(value) && value.policy()
            == Policy::Take,
        0 <= i < outs.len(),
    ensures
        i == 0 ==> outs[i] == Ok::<Res, TakeResourceError>(states[0].resource_slot(res.id)->0),
        i > 0 ==> outs[i] matches Err(TakeResourceError::Taken(_)),
        states[i + 1].resource_slot(res.id) is Drained,
    decreases i,
{
    if i > 0 {
        lemma_resource_take_is_exclusive(states, bus, res, outs, i - 1);
    }
    assert(resource_acquired(states[i], bus, res, states[i + 1], outs[i]));
}

/// A stored resource that is handed out by `Clone` stays available: every `clone_resource`
/// returns a copy of it, and the resource stays stored.
pub proof fn lemma_resource_clone_is_available<Tx, Rx, Res: Storage>(
    states: Seq<DynBusState<Tx, Rx, Res>>,
    bus: Seq<char>,
    res: Identity,
    outs: Seq<Result<Res, TakeResourceError>>,
    i: int,
)
    requires
        resource_run(states, bus, res, outs),
        states[0].resource_slot(res.id) matches SlotState::Present(value) && value.policy()
            == Policy::Clone,
        0 <= i < outs.len(),
    ensures
        outs[i] matches Ok(copy) && states[0].resource_slot(res.id)->Present_0.copied(&copy),
        states[i + 1].resource_slot(res.id) == states[0].resource_slot(res.id),
    decreases i,
{
    if i > 0 {
        lemma_resource_clone_is_available(states, bus, res, outs, i - 1);
    }
    assert(resource_acquired(states[i], bus, res, states[i + 1], outs[i]));
}

} // verus!
