//! What holds of the event manager as a whole, whatever is asked of it and in
//! whatever order.

use crate::action::ActionView;
use crate::env::Store;
use crate::model::{self, EventChanges};
use crate::refusal::Refusal;
use crate::types::{
    CreateEventParamsView, DataKeyView, Error, EventView, TicketTierView, TierConfigView,
};
use vstd::prelude::*;

verus! {

/// A request that may change the contract's entries.
pub enum Request {
    Initialize { ticket_factory: Seq<char> },
    /// The address is the one that the factory answers.
    CreateEvent { params: CreateEventParamsView, ticket_nft_addr: Seq<char> },
    CancelEvent { id: u32 },
    ClaimRefund { claimer: Seq<char>, id: u32 },
    UpdateEvent { id: u32, changes: EventChanges },
    UpdateTicketsSold { id: u32, amount: u128 },
    PurchaseTicket { buyer: Seq<char>, id: u32, tier_index: u32 },
}

/// Whether a request made at a ledger time succeeds.
pub open spec fn accepted(store: Store, now: u64, request: Request) -> bool {
    match request {
        Request::Initialize { .. } => model::initialize_result(store) is Ok,
        Request::CreateEvent { params, .. } => model::creation_error(store, now, params) is None
            && !model::ticket_count_overflows(now, params),
        Request::CancelEvent { id } => model::cancel_result(store, id) is Ok,
        Request::ClaimRefund { claimer, id } => model::refund_refusal(store, claimer, id) is None,
        Request::UpdateEvent { id, changes } => model::update_refusal(
            store,
            now,
            id,
            changes,
        ) is None,
        Request::UpdateTicketsSold { id, amount } => model::sold_result(store, id, amount) is Ok,
        Request::PurchaseTicket { id, tier_index, .. } => model::purchase_refusal(
            store,
            id,
            tier_index,
        ) is None,
    }
}

/// The entries after a request made at a ledger time. The host undoes whatever a
/// request that fails has written.
pub open spec fn after(store: Store, now: u64, request: Request) -> Store {
    if !accepted(store, now, request) {
        store
    } else {
        match request {
            Request::Initialize { ticket_factory } => model::initialized_store(
                store,
                ticket_factory,
            ),
            Request::CreateEvent { params, ticket_nft_addr } => model::created_store(
                store,
                params,
                ticket_nft_addr,
            ),
            Request::CancelEvent { id } => model::canceled_store(store, id),
            Request::ClaimRefund { claimer, id } => store.with_refund(id, claimer),
            Request::UpdateEvent { id, changes } => model::updated_store(store, id, changes),
            Request::UpdateTicketsSold { id, amount } => model::sold_store(store, id, amount),
            Request::PurchaseTicket { buyer, id, tier_index } => model::purchased_store(
                store,
                buyer,
                id,
                tier_index,
            ),
        }
    }
}

/// The entries after a sequence of requests, each made at its ledger time.
pub open spec fn after_all(store: Store, requests: Seq<(u64, Request)>) -> Store
    decreases requests.len(),
{
    if requests.len() == 0 {
        store
    } else {
        let (now, request) = requests.last();
        after(after_all(store, requests.drop_last()), now, request)
    }
}

/// What is asked of the host by a request that succeeds.
pub open spec fn actions_of(
    store: Store,
    now: u64,
    contract: Seq<char>,
    request: Request,
) -> Seq<ActionView> {
    match request {
        Request::Initialize { .. } => model::initialize_actions(store),
        Request::CreateEvent { params, ticket_nft_addr } => model::prepare_actions(
            store,
            now,
            contract,
            params,
        ) + model::record_actions(store.event_count(), params.organizer, ticket_nft_addr),
        Request::CancelEvent { id } => model::cancel_actions(store, id),
        Request::ClaimRefund { claimer, id } => model::refund_actions(store, claimer, id),
        Request::UpdateEvent { id, changes } => model::update_actions(store, now, id, changes),
        Request::UpdateTicketsSold { id, amount } => model::sold_actions(store, id, amount),
        Request::PurchaseTicket { buyer, id, tier_index } => model::purchase_actions(
            store,
            buyer,
            id,
            tier_index,
        ),
    }
}

/// A tier whose price is not negative, that offers a ticket and that has not sold
/// more than it offers.
pub open spec fn tier_in_order(tier: TicketTierView) -> bool {
    &&& tier.price >= 0
    &&& tier.total_quantity > 0
    &&& tier.sold_quantity <= tier.total_quantity
}

/// An event that is stored under its own id, ends after it starts, offers tickets
/// in tiers that are in order, and counts every ticket bought of it.
pub open spec fn event_in_order(store: Store, id: u32) -> bool {
    let event = store.events[id];
    let tiers = store.tiers[id];
    &&& event.id == id
    &&& event.start_date < event.end_date
    &&& event.ticket_price >= 0
    &&& event.total_tickets > 0
    &&& tiers.len() > 0
    &&& forall|i: int| 0 <= i < tiers.len() ==> tier_in_order(#[trigger] tiers[i])
    &&& store.buyers_of(id).len() == model::sold_quantity(tiers)
    &&& model::sold_quantity(tiers) <= event.tickets_sold
}

/// A refund that went to a buyer of an event that is canceled.
pub open spec fn refund_in_order(store: Store, id: u32, claimer: Seq<char>) -> bool {
    &&& store.events.contains_key(id)
    &&& store.events[id].is_canceled
    &&& store.buyers_of(id).contains(claimer)
}

/// What holds of the contract's entries at all times: the events are those with
/// an id below the counter, each of them with its tiers and in order, tickets are
/// bought of them only, and refunds go to buyers of canceled events only. There
/// is no event before there is a factory.
pub open spec fn in_order(store: Store) -> bool {
    &&& store.ticket_factory is None ==> store.event_count() == 0
    &&& forall|id: u32| #[trigger]
        store.events.contains_key(id) <==> id < store.event_count()
    &&& forall|id: u32| #[trigger] store.tiers.contains_key(id) <==> id < store.event_count()
    &&& forall|id: u32| #[trigger] store.buyers.contains_key(id) ==> id < store.event_count()
    &&& forall|id: u32| #[trigger]
        store.events.contains_key(id) ==> event_in_order(store, id)
    &&& forall|id: u32, claimer: Seq<char>| #[trigger]
        store.refunds.contains((id, claimer)) ==> refund_in_order(store, id, claimer)
}

/// What an event keeps from its creation on, and what only grows. Once it is
/// canceled nothing changes but the number of tickets sold that the ticket
/// contract reports.
pub open spec fn event_carried_on(store: Store, next: Store, id: u32) -> bool {
    let before = store.events[id];
    let now = next.events[id];
    &&& next.events.contains_key(id)
    &&& now.id == before.id
    &&& now.organizer == before.organizer
    &&& now.event_type == before.event_type
    &&& now.ticket_nft_addr == before.ticket_nft_addr
    &&& now.payment_token == before.payment_token
    &&& now.tickets_sold >= before.tickets_sold
    &&& before.is_canceled ==> now == (EventView { tickets_sold: now.tickets_sold, ..before })
}

/// What the tiers of an event keep from its creation on, and what only grows.
pub open spec fn tiers_carried_on(store: Store, next: Store, id: u32) -> bool {
    let before = store.tiers[id];
    let now = next.tiers[id];
    &&& next.tiers.contains_key(id)
    &&& now.len() == before.len()
    &&& forall|i: int|
        0 <= i < before.len() ==> (#[trigger] now[i]).sold_quantity >= before[i].sold_quantity
            && now[i] == (TicketTierView { sold_quantity: now[i].sold_quantity, ..before[i] })
    &&& store.events[id].is_canceled ==> now == before
}

/// What the list of buyers of an event keeps: new buyers come last, and none come
/// once it is canceled.
pub open spec fn buyers_carried_on(store: Store, next: Store, id: u32) -> bool {
    &&& store.buyers_of(id).is_prefix_of(next.buyers_of(id))
    &&& store.events[id].is_canceled ==> next.buyers_of(id) == store.buyers_of(id)
}

/// What the contract's entries keep over time: the factory, every event with its
/// tiers and buyers, and every refund.
pub open spec fn carried_on(store: Store, next: Store) -> bool {
    &&& store.ticket_factory is Some ==> next.ticket_factory == store.ticket_factory
    &&& store.event_count() <= next.event_count()
    &&& forall|id: u32| #[trigger]
        store.events.contains_key(id) ==> event_carried_on(store, next, id)
    &&& forall|id: u32| #[trigger]
        store.events.contains_key(id) ==> tiers_carried_on(store, next, id)
    &&& forall|id: u32| #[trigger]
        store.events.contains_key(id) ==> buyers_carried_on(store, next, id)
    &&& store.refunds.subset_of(next.refunds)
}

proof fn lemma_configs_without_error(configs: Seq<TierConfigView>, i: int)
    requires
        model::first_config_error(configs) is None,
        0 <= i < configs.len(),
    ensures
        configs[i].price >= 0,
        configs[i].total_quantity > 0,
    decreases configs.len(),
{
    if i < configs.len() - 1 {
        lemma_configs_without_error(configs.drop_last(), i);
    }
}

proof fn lemma_total_of_tiers(tiers: Seq<TicketTierView>)
    requires
        tiers.len() > 0,
        forall|i: int| 0 <= i < tiers.len() ==> (#[trigger] tiers[i]).total_quantity > 0,
    ensures
        model::total_quantity(tiers) > 0,
{
    assert(tiers[tiers.len() - 1].total_quantity > 0);
}

proof fn lemma_nothing_sold(tiers: Seq<TicketTierView>)
    requires
        forall|i: int| 0 <= i < tiers.len() ==> (#[trigger] tiers[i]).sold_quantity == 0,
    ensures
        model::sold_quantity(tiers) == 0,
    decreases tiers.len(),
{
    if tiers.len() > 0 {
        assert forall|i: int| 0 <= i < tiers.drop_last().len() implies (
        #[trigger] tiers.drop_last()[i]).sold_quantity == 0 by {
            assert(tiers.drop_last()[i] == tiers[i]);
        }
        lemma_nothing_sold(tiers.drop_last());
    }
}

proof fn lemma_sold_of_updated(tiers: Seq<TicketTierView>, i: int, tier: TicketTierView)
    requires
        0 <= i < tiers.len(),
    ensures
        model::sold_quantity(tiers.update(i, tier)) == model::sold_quantity(tiers)
            - tiers[i].sold_quantity + tier.sold_quantity,
    decreases tiers.len(),
{
    if i == tiers.len() - 1 {
        assert(tiers.update(i, tier).drop_last() =~= tiers.drop_last());
    } else {
        assert(tiers.update(i, tier).drop_last() =~= tiers.drop_last().update(i, tier));
        lemma_sold_of_updated(tiers.drop_last(), i, tier);
    }
}

/// A contract of which nothing is stored is in order.
pub proof fn empty_store_is_in_order()
    ensures
        in_order(Store::empty()),
{
}

proof fn lemma_new_event_in_order(
    store: Store,
    now: u64,
    params: CreateEventParamsView,
    ticket_nft_addr: Seq<char>,
)
    requires
        in_order(store),
        accepted(store, now, Request::CreateEvent { params, ticket_nft_addr }),
    ensures
        event_in_order(
            model::created_store(store, params, ticket_nft_addr),
            store.event_count(),
        ),
{
    let tiers = model::resolved_tiers(params);
    assert forall|i: int| 0 <= i < tiers.len() implies tier_in_order(#[trigger] tiers[i])
        && tiers[i].sold_quantity == 0 by {
        if params.tiers.len() > 0 {
            lemma_configs_without_error(params.tiers, i);
        }
    }
    lemma_total_of_tiers(tiers);
    lemma_nothing_sold(tiers);
    assert(tier_in_order(tiers[0]));
}

proof fn lemma_purchased_event_in_order(
    store: Store,
    now: u64,
    buyer: Seq<char>,
    id: u32,
    tier_index: u32,
)
    requires
        in_order(store),
        accepted(store, now, Request::PurchaseTicket { buyer, id, tier_index }),
    ensures
        event_in_order(model::purchased_store(store, buyer, id, tier_index), id),
{
    let tiers = store.tiers[id];
    let tier = tiers[tier_index as int];
    assert(event_in_order(store, id));
    assert(tier_in_order(tier));
    lemma_sold_of_updated(tiers, tier_index as int, model::sold_one(tier));
}

/// Every request leaves the contract's entries in order.
pub proof fn requests_keep_order(store: Store, now: u64, request: Request)
    requires
        in_order(store),
    ensures
        in_order(after(store, now, request)),
{
    let next = after(store, now, request);
    if accepted(store, now, request) {
        match request {
            Request::CreateEvent { params, ticket_nft_addr } => {
                lemma_new_event_in_order(store, now, params, ticket_nft_addr);
            },
            Request::PurchaseTicket { buyer, id, tier_index } => {
                lemma_purchased_event_in_order(store, now, buyer, id, tier_index);
            },
            _ => {},
        }
        assert forall|id: u32| #[trigger] next.events.contains_key(id) implies event_in_order(
            next,
            id,
        ) by {
            if store.events.contains_key(id) {
                assert(event_in_order(store, id));
            }
        }
        assert forall|id: u32, claimer: Seq<char>| #[trigger]
            next.refunds.contains((id, claimer)) implies refund_in_order(next, id, claimer) by {
            if store.refunds.contains((id, claimer)) {
                assert(refund_in_order(store, id, claimer));
            }
        }
    }
}

/// Any sequence of requests leaves entries that are in order in order.
pub proof fn histories_keep_order(store: Store, requests: Seq<(u64, Request)>)
    requires
        in_order(store),
    ensures
        in_order(after_all(store, requests)),
    decreases requests.len(),
{
    if requests.len() > 0 {
        histories_keep_order(store, requests.drop_last());
        let (now, request) = requests.last();
        requests_keep_order(after_all(store, requests.drop_last()), now, request);
    }
}

/// Whatever is asked of a new contract, its entries are in order.
pub proof fn every_history_is_in_order(requests: Seq<(u64, Request)>)
    ensures
        in_order(after_all(Store::empty(), requests)),
{
    empty_store_is_in_order();
    histories_keep_order(Store::empty(), requests);
}

proof fn lemma_request_carries_on(store: Store, now: u64, request: Request)
    requires
        in_order(store),
    ensures
        carried_on(store, after(store, now, request)),
{
    let next = after(store, now, request);
    assert forall|id: u32| #[trigger] store.events.contains_key(id) implies tiers_carried_on(
        store,
        next,
        id,
    ) && buyers_carried_on(store, next, id) by {
        assert(store.tiers.contains_key(id));
    }
}

proof fn lemma_carried_on_twice(first: Store, second: Store, third: Store)
    requires
        in_order(first),
        in_order(second),
        carried_on(first, second),
        carried_on(second, third),
    ensures
        carried_on(first, third),
{
    assert forall|id: u32| #[trigger] first.events.contains_key(id) implies {
        &&& event_carried_on(first, third, id)
        &&& tiers_carried_on(first, third, id)
        &&& buyers_carried_on(first, third, id)
    } by {
        assert(event_carried_on(first, second, id));
        assert(event_carried_on(second, third, id));
        assert(tiers_carried_on(first, second, id));
        assert(tiers_carried_on(second, third, id));
        assert(buyers_carried_on(first, second, id));
        assert(buyers_carried_on(second, third, id));
        assert forall|i: int| 0 <= i < first.tiers[id].len() implies (
        #[trigger] third.tiers[id][i]).sold_quantity >= first.tiers[id][i].sold_quantity
            && third.tiers[id][i] == (TicketTierView {
            sold_quantity: third.tiers[id][i].sold_quantity,
            ..first.tiers[id][i]
        }) by {
            assert(second.tiers[id][i].sold_quantity >= first.tiers[id][i].sold_quantity);
        }
        let buyers = first.buyers_of(id);
        assert(third.buyers_of(id).subrange(0, buyers.len() as int) =~= buyers);
    }
}

/// Nothing that the contract has recorded is lost: the factory stays, every event
/// keeps its organizer, kind, ticket contract and payment token, its tiers keep
/// their names, prices and sizes, tickets stay sold, buyers stay buyers, refunds
/// stay claimed, and an event that is canceled stays as it is.
pub proof fn records_are_carried_on(store: Store, requests: Seq<(u64, Request)>)
    requires
        in_order(store),
    ensures
        carried_on(store, after_all(store, requests)),
    decreases requests.len(),
{
    if requests.len() > 0 {
        let (now, request) = requests.last();
        let before = after_all(store, requests.drop_last());
        records_are_carried_on(store, requests.drop_last());
        histories_keep_order(store, requests.drop_last());
        lemma_request_carries_on(before, now, request);
        lemma_carried_on_twice(store, before, after_all(store, requests));
    } else {
        assert forall|id: u32| #[trigger] store.events.contains_key(id) implies buyers_carried_on(
            store,
            store,
            id,
        ) by {
            let buyers = store.buyers_of(id);
            assert(buyers.subrange(0, buyers.len() as int) =~= buyers);
        }
    }
}

/// The contract is initialized once: whatever happens after it, another attempt is
/// answered with an error, and the factory stays the one it was initialized with.
pub proof fn initialization_is_final(
    store: Store,
    now: u64,
    ticket_factory: Seq<char>,
    requests: Seq<(u64, Request)>,
)
    requires
        in_order(store),
        accepted(store, now, Request::Initialize { ticket_factory }),
    ensures
        ({
            let later = after_all(after(store, now, Request::Initialize { ticket_factory }), requests);
            &&& later.ticket_factory == Some(ticket_factory)
            &&& model::initialize_result(later) == Err::<(), Error>(Error::AlreadyInitialized)
        }),
{
    let request = Request::Initialize { ticket_factory };
    requests_keep_order(store, now, request);
    records_are_carried_on(after(store, now, request), requests);
}

/// A new event is found under the id that its creation returns, with the tiers that
/// were asked for, and is the last of the events. No other event is touched.
pub proof fn created_event_is_found(
    store: Store,
    now: u64,
    params: CreateEventParamsView,
    ticket_nft_addr: Seq<char>,
)
    requires
        in_order(store),
        accepted(store, now, Request::CreateEvent { params, ticket_nft_addr }),
    ensures
        ({
            let next = after(store, now, Request::CreateEvent { params, ticket_nft_addr });
            let id = store.event_count();
            &&& model::create_result(store, now, params) == Ok::<u32, Error>(id)
            &&& !store.events.contains_key(id)
            &&& next.events == store.events.insert(
                id,
                model::new_event(id, params, ticket_nft_addr),
            )
            &&& next.tiers == store.tiers.insert(id, model::resolved_tiers(params))
            &&& next.events[id].total_tickets == model::total_quantity(next.tiers[id])
            &&& next.event_count() == id + 1
        }),
{
}

/// The request for a ticket contract goes by the factory and the contract alone: with
/// the same factory the same contract is asked for the same function, with the same
/// arguments, and without a factory nothing is asked for and the request fails.
pub proof fn deployments_are_alike(first: Store, second: Store, contract: Seq<char>)
    requires
        first.ticket_factory == second.ticket_factory,
    ensures
        model::deploy_result(first) == model::deploy_result(second),
        model::deploy_actions(first, contract) == model::deploy_actions(second, contract),
        match first.ticket_factory {
            Some(factory) => {
                &&& model::deploy_result(first) == Ok::<(), Error>(())
                &&& model::deploy_actions(first, contract) == seq![
                    model::deployment(factory, contract),
                ]
            },
            None => {
                &&& model::deploy_result(first) == Err::<(), Error>(Error::FactoryNotInitialized)
                &&& model::deploy_actions(first, contract) == Seq::<ActionView>::empty()
            },
        },
{
}

/// The request to the factory is the same for every event, whatever its id, theme,
/// tickets or anything else of it. Without a factory no contract is called, and the
/// creation fails.
pub proof fn factory_requests_are_alike(
    first: Store,
    first_time: u64,
    first_params: CreateEventParamsView,
    second: Store,
    second_time: u64,
    second_params: CreateEventParamsView,
    contract: Seq<char>,
)
    requires
        first.ticket_factory == second.ticket_factory,
        model::takes_id(first, first_time, first_params),
        model::takes_id(second, second_time, second_params),
    ensures
        ({
            let one = model::prepare_actions(first, first_time, contract, first_params);
            let other = model::prepare_actions(second, second_time, contract, second_params);
            &&& one.len() == other.len()
            &&& forall|i: int|
                0 <= i < one.len() ==> ((#[trigger] one[i]) is Invoke <==> i == 2)
            &&& forall|i: int|
                0 <= i < other.len() ==> ((#[trigger] other[i]) is Invoke <==> i == 2)
            &&& match first.ticket_factory {
                Some(factory) => {
                    &&& one.last() == model::deployment(factory, contract)
                    &&& other.last() == model::deployment(factory, contract)
                    &&& one.len() == 3
                },
                None => {
                    &&& one.len() == 2
                    &&& model::creation_error(first, first_time, first_params) == Some(
                        Error::FactoryNotInitialized,
                    )
                    &&& model::creation_error(second, second_time, second_params) == Some(
                        Error::FactoryNotInitialized,
                    )
                },
            }
        }),
{
}

/// How many events a sequence of requests creates.
pub open spec fn creations(store: Store, requests: Seq<(u64, Request)>) -> nat
    decreases requests.len(),
{
    if requests.len() == 0 {
        0
    } else {
        let before = requests.drop_last();
        let (now, request) = requests.last();
        creations(store, before) + if request is CreateEvent && accepted(
            after_all(store, before),
            now,
            request,
        ) {
            1nat
        } else {
            0
        }
    }
}

/// The number of events goes up by one with every creation, and by nothing else.
pub proof fn events_are_counted(store: Store, requests: Seq<(u64, Request)>)
    requires
        in_order(store),
    ensures
        after_all(store, requests).event_count() == store.event_count() + creations(
            store,
            requests,
        ),
    decreases requests.len(),
{
    if requests.len() > 0 {
        events_are_counted(store, requests.drop_last());
        histories_keep_order(store, requests.drop_last());
    }
}

/// The number of events of a contract is the number of events that have been created
/// since it was new, and the ids are consecutive: a new event gets the number of
/// creations before it.
pub proof fn ids_are_consecutive(
    requests: Seq<(u64, Request)>,
    now: u64,
    params: CreateEventParamsView,
)
    ensures
        ({
            let store = after_all(Store::empty(), requests);
            &&& store.event_count() == creations(Store::empty(), requests)
            &&& model::create_result(store, now, params) matches Ok(id) ==> id == creations(
                Store::empty(),
                requests,
            )
        }),
{
    empty_store_is_in_order();
    events_are_counted(Store::empty(), requests);
}

/// No id is given out twice: an event that is created later has a larger id.
pub proof fn ids_are_not_reused(
    store: Store,
    now: u64,
    params: CreateEventParamsView,
    ticket_nft_addr: Seq<char>,
    requests: Seq<(u64, Request)>,
    later: u64,
    later_params: CreateEventParamsView,
)
    requires
        in_order(store),
        accepted(store, now, Request::CreateEvent { params, ticket_nft_addr }),
    ensures
        ({
            let first = model::create_result(store, now, params);
            let second = model::create_result(
                after_all(
                    after(store, now, Request::CreateEvent { params, ticket_nft_addr }),
                    requests,
                ),
                later,
                later_params,
            );
            second is Ok ==> first->Ok_0 < second->Ok_0
        }),
{
    let request = Request::CreateEvent { params, ticket_nft_addr };
    requests_keep_order(store, now, request);
    records_are_carried_on(after(store, now, request), requests);
}

/// The list of all events holds every event, each at the place of its id.
pub proof fn all_events_are_listed(store: Store)
    requires
        in_order(store),
    ensures
        ({
            let events = model::events_below(store.events, store.event_count());
            &&& events.len() == store.event_count()
            &&& forall|id: u32| #[trigger]
                store.events.contains_key(id) ==> events[id as int] == store.events[id]
        }),
{
    lemma_events_listed(store, store.event_count());
}

proof fn lemma_events_listed(store: Store, count: u32)
    requires
        in_order(store),
        count <= store.event_count(),
    ensures
        model::events_below(store.events, count).len() == count,
        forall|id: u32|
            id < count ==> #[trigger] model::events_below(store.events, count)[id as int]
                == store.events[id],
    decreases count,
{
    if count == 0 {
        model::lemma_events_below_none(store.events);
    } else {
        let fewer = (count - 1) as u32;
        lemma_events_listed(store, fewer);
        assert(store.events.contains_key(fewer));
        model::lemma_events_below_next(store.events, fewer);
    }
}

/// A canceled event stays canceled: whatever happens after it, no ticket of it can
/// be bought, it cannot be updated, and it cannot be canceled again.
pub proof fn cancellation_is_final(
    store: Store,
    now: u64,
    id: u32,
    requests: Seq<(u64, Request)>,
    later: u64,
    tier_index: u32,
    changes: EventChanges,
)
    requires
        in_order(store),
        accepted(store, now, Request::CancelEvent { id }),
    ensures
        ({
            let canceled = after_all(after(store, now, Request::CancelEvent { id }), requests);
            &&& model::cancel_result(canceled, id) == Err::<(), Error>(Error::EventAlreadyCanceled)
            &&& model::purchase_refusal(canceled, id, tier_index) == Some(Refusal::EventCanceled)
            &&& model::update_refusal(canceled, later, id, changes) == Some(
                Refusal::UpdateOfCanceledEvent,
            )
        }),
{
    let request = Request::CancelEvent { id };
    let next = after(store, now, request);
    requests_keep_order(store, now, request);
    records_are_carried_on(next, requests);
    assert(next.events.contains_key(id));
    assert(event_carried_on(next, after_all(next, requests), id));
}

/// A refund is claimed once: whatever happens after it, the same claim is refused.
pub proof fn refund_is_claimed_once(
    store: Store,
    now: u64,
    claimer: Seq<char>,
    id: u32,
    requests: Seq<(u64, Request)>,
)
    requires
        in_order(store),
        accepted(store, now, Request::ClaimRefund { claimer, id }),
    ensures
        model::refund_refusal(
            after_all(after(store, now, Request::ClaimRefund { claimer, id }), requests),
            claimer,
            id,
        ) == Some(Refusal::RefundAlreadyClaimed),
{
    let request = Request::ClaimRefund { claimer, id };
    let next = after(store, now, request);
    requests_keep_order(store, now, request);
    records_are_carried_on(next, requests);
    assert(next.events.contains_key(id));
    assert(event_carried_on(next, after_all(next, requests), id));
    assert(next.refunds.contains((id, claimer)));
}

/// Who buys a ticket can claim a refund as soon as the event is canceled, unless it
/// was claimed before, and is paid by the organizer, in the payment token of the
/// event, the price that the event then has.
pub proof fn buyers_are_refunded(
    store: Store,
    now: u64,
    buyer: Seq<char>,
    id: u32,
    tier_index: u32,
    requests: Seq<(u64, Request)>,
)
    requires
        in_order(store),
        accepted(store, now, Request::PurchaseTicket { buyer, id, tier_index }),
    ensures
        ({
            let later = after_all(
                after(store, now, Request::PurchaseTicket { buyer, id, tier_index }),
                requests,
            );
            let amount = later.events[id].ticket_price;
            &&& later.events[id].is_canceled && !later.refunds.contains((id, buyer))
                ==> model::refund_refusal(later, buyer, id) is None
            &&& later.events[id].is_canceled && !later.refunds.contains((id, buyer)) && amount > 0
                ==> model::refund_actions(later, buyer, id).contains(
                ActionView::Transfer {
                    token: store.events[id].payment_token,
                    from: store.events[id].organizer,
                    to: buyer,
                    amount,
                },
            )
        }),
{
    let request = Request::PurchaseTicket { buyer, id, tier_index };
    let next = after(store, now, request);
    let later = after_all(next, requests);
    requests_keep_order(store, now, request);
    records_are_carried_on(next, requests);
    assert(next.events.contains_key(id));
    assert(event_carried_on(next, later, id));
    assert(buyers_carried_on(next, later, id));
    let bought = next.buyers_of(id);
    assert(bought.last() == buyer);
    assert(later.buyers_of(id).subrange(0, bought.len() as int)[bought.len() - 1] == buyer);
    assert(later.buyers_of(id)[bought.len() - 1] == buyer);
    if later.events[id].is_canceled && !later.refunds.contains((id, buyer))
        && later.events[id].ticket_price > 0 {
        assert(model::refund_actions(later, buyer, id)[2] == (ActionView::Transfer {
            token: store.events[id].payment_token,
            from: store.events[id].organizer,
            to: buyer,
            amount: later.events[id].ticket_price,
        }));
    }
}

/// Whether a request may set the price of an event.
pub open spec fn sets_price(request: Request, id: u32) -> bool {
    match request {
        Request::PurchaseTicket { id: other, .. } => other == id,
        Request::UpdateEvent { id: other, .. } => other == id,
        _ => false,
    }
}

/// The price of an event, which is what a refund pays, is the price of the last
/// ticket bought of it, as long as the organizer does not set another.
pub proof fn price_is_that_of_last_ticket(
    store: Store,
    now: u64,
    buyer: Seq<char>,
    id: u32,
    tier_index: u32,
    requests: Seq<(u64, Request)>,
)
    requires
        in_order(store),
        accepted(store, now, Request::PurchaseTicket { buyer, id, tier_index }),
        forall|i: int|
            0 <= i < requests.len() ==> !sets_price((#[trigger] requests[i]).1, id),
    ensures
        after_all(
            after(store, now, Request::PurchaseTicket { buyer, id, tier_index }),
            requests,
        ).events[id].ticket_price == store.tiers[id][tier_index as int].price,
    decreases requests.len(),
{
    let next = after(store, now, Request::PurchaseTicket { buyer, id, tier_index });
    if requests.len() > 0 {
        let fewer = requests.drop_last();
        assert forall|i: int| 0 <= i < fewer.len() implies !sets_price(
            (#[trigger] fewer[i]).1,
            id,
        ) by {
            assert(fewer[i] == requests[i]);
        }
        price_is_that_of_last_ticket(store, now, buyer, id, tier_index, fewer);
        requests_keep_order(store, now, Request::PurchaseTicket { buyer, id, tier_index });
        histories_keep_order(next, fewer);
        records_are_carried_on(next, fewer);
        assert(next.events.contains_key(id));
        assert(event_carried_on(next, after_all(next, fewer), id));
        assert(!sets_price(requests[requests.len() - 1].1, id));
    }
}

/// No tier is ever oversold, and a new contract's events have as many buyers on
/// record as tickets were sold of their tiers, whatever is asked of it.
pub proof fn tiers_are_not_oversold(requests: Seq<(u64, Request)>, id: u32, tier: int)
    ensures
        ({
            let store = after_all(Store::empty(), requests);
            store.events.contains_key(id) ==> {
                &&& store.buyers_of(id).len() == model::sold_quantity(store.tiers[id])
                &&& 0 <= tier < store.tiers[id].len() ==> store.tiers[id][tier].sold_quantity
                    <= store.tiers[id][tier].total_quantity
            }
        }),
{
    every_history_is_in_order(requests);
    let store = after_all(Store::empty(), requests);
    if store.events.contains_key(id) {
        assert(event_in_order(store, id));
        if 0 <= tier < store.tiers[id].len() {
            assert(tier_in_order(store.tiers[id][tier]));
        }
    }
}

/// How many tickets have been sold of a tier.
pub open spec fn sold_of_tier(store: Store, id: u32, tier_index: u32) -> nat {
    if store.events.contains_key(id) && tier_index < store.tiers[id].len() {
        store.tiers[id][tier_index as int].sold_quantity as nat
    } else {
        0
    }
}

/// Whether a request is one to buy a ticket of a tier.
pub open spec fn buys_of_tier(request: Request, id: u32, tier_index: u32) -> bool {
    request matches Request::PurchaseTicket { id: event, tier_index: tier, .. } && event == id
        && tier == tier_index
}

/// How many tickets of a tier a sequence of requests buys.
pub open spec fn purchases(
    store: Store,
    requests: Seq<(u64, Request)>,
    id: u32,
    tier_index: u32,
) -> nat
    decreases requests.len(),
{
    if requests.len() == 0 {
        0
    } else {
        let before = requests.drop_last();
        let (now, request) = requests.last();
        purchases(store, before, id, tier_index) + if buys_of_tier(request, id, tier_index)
            && accepted(after_all(store, before), now, request) {
            1nat
        } else {
            0
        }
    }
}

/// The number of tickets sold of a tier goes up by one with every purchase of it, and
/// by nothing else.
pub proof fn sales_are_counted(
    store: Store,
    requests: Seq<(u64, Request)>,
    id: u32,
    tier_index: u32,
)
    requires
        in_order(store),
    ensures
        sold_of_tier(after_all(store, requests), id, tier_index) == sold_of_tier(
            store,
            id,
            tier_index,
        ) + purchases(store, requests, id, tier_index),
    decreases requests.len(),
{
    if requests.len() > 0 {
        sales_are_counted(store, requests.drop_last(), id, tier_index);
        histories_keep_order(store, requests.drop_last());
    }
}

/// The number of tickets sold of a tier is the number of purchases of it since the
/// contract was new.
pub proof fn sold_tickets_are_purchases(
    requests: Seq<(u64, Request)>,
    id: u32,
    tier_index: u32,
)
    ensures
        ({
            let store = after_all(Store::empty(), requests);
            store.events.contains_key(id) && tier_index < store.tiers[id].len()
                ==> store.tiers[id][tier_index as int].sold_quantity == purchases(
                Store::empty(),
                requests,
                id,
                tier_index,
            )
        }),
{
    empty_store_is_in_order();
    sales_are_counted(Store::empty(), requests, id, tier_index);
}

/// The number of tickets sold stays within the number of tickets of an event, but
/// for a purchase when all of them are counted as sold: a purchase goes by the
/// tickets left in its tier only.
pub proof fn tickets_sold_stay_within_total(store: Store, now: u64, request: Request, id: u32)
    requires
        in_order(store),
        store.events.contains_key(id),
        store.events[id].tickets_sold <= store.events[id].total_tickets,
        store.events[id].tickets_sold == store.events[id].total_tickets ==> !(request matches
            Request::PurchaseTicket { id: bought, .. } && bought == id),
    ensures
        after(store, now, request).events[id].tickets_sold <= after(
            store,
            now,
            request,
        ).events[id].total_tickets,
{
}

/// The event that a request is about.
pub open spec fn subject(store: Store, request: Request) -> Option<u32> {
    match request {
        Request::Initialize { .. } => None,
        Request::CreateEvent { .. } => Some(store.event_count()),
        Request::CancelEvent { id } => Some(id),
        Request::ClaimRefund { id, .. } => Some(id),
        Request::UpdateEvent { id, .. } => Some(id),
        Request::UpdateTicketsSold { id, .. } => Some(id),
        Request::PurchaseTicket { id, .. } => Some(id),
    }
}

/// A request leaves every event alone but the one it is about.
pub proof fn other_events_are_left_alone(
    store: Store,
    now: u64,
    request: Request,
    id: u32,
    claimer: Seq<char>,
)
    requires
        subject(store, request) != Some(id),
    ensures
        ({
            let next = after(store, now, request);
            &&& next.events.contains_key(id) == store.events.contains_key(id)
            &&& next.events[id] == store.events[id]
            &&& next.tiers.contains_key(id) == store.tiers.contains_key(id)
            &&& next.tiers[id] == store.tiers[id]
            &&& next.buyers_of(id) == store.buyers_of(id)
            &&& next.refunds.contains((id, claimer)) == store.refunds.contains((id, claimer))
        }),
{
}

/// Who has to sign a request: the organizer to create, cancel or update an event,
/// the claimer of a refund, the buyer of a ticket, and the ticket contract to
/// report tickets sold.
pub open spec fn signer(store: Store, request: Request) -> Option<Seq<char>> {
    match request {
        Request::Initialize { .. } => None,
        Request::CreateEvent { params, .. } => Some(params.organizer),
        Request::CancelEvent { id } => Some(store.events[id].organizer),
        Request::ClaimRefund { claimer, .. } => Some(claimer),
        Request::UpdateEvent { id, .. } => Some(store.events[id].organizer),
        Request::UpdateTicketsSold { id, .. } => Some(store.events[id].ticket_nft_addr),
        Request::PurchaseTicket { buyer, .. } => Some(buyer),
    }
}

/// A request that succeeds asks for the signature it needs before anything else,
/// and for no other. Only the initialization needs none.
pub proof fn requests_are_signed(
    store: Store,
    now: u64,
    contract: Seq<char>,
    request: Request,
    i: int,
)
    requires
        accepted(store, now, request),
        0 <= i < actions_of(store, now, contract, request).len(),
    ensures
        ({
            let action = actions_of(store, now, contract, request)[i];
            &&& action is RequireAuth <==> i == 0 && signer(store, request) is Some
            &&& action is RequireAuth ==> action == ActionView::RequireAuth(
                signer(store, request)->0,
            )
        }),
{
}

/// A request that fails asks the host for a signature at most, and so changes
/// nothing, but for a creation without a factory, which has taken an id by then.
pub proof fn failing_requests_change_nothing(
    store: Store,
    now: u64,
    contract: Seq<char>,
    request: Request,
)
    requires
        !accepted(store, now, request),
        request matches Request::CreateEvent { params, .. } ==> {
            let error = model::creation_error(store, now, params);
            error is Some && error != Some(Error::FactoryNotInitialized)
        },
    ensures
        ({
            let actions = match request {
                Request::CreateEvent { params, .. } => model::prepare_actions(
                    store,
                    now,
                    contract,
                    params,
                ),
                _ => actions_of(store, now, contract, request),
            };
            &&& actions.len() <= 1
            &&& actions.len() == 1 ==> actions[0] is RequireAuth
            &&& request matches Request::CreateEvent { params, .. } ==> model::prepared_store(
                store,
                now,
                params,
            ) == store
            &&& after(store, now, request) == store
        }),
{
}

/// A request that succeeds asks for every entry that it changes to be written.
pub proof fn changes_are_written(
    store: Store,
    now: u64,
    contract: Seq<char>,
    request: Request,
    id: u32,
    claimer: Seq<char>,
)
    requires
        accepted(store, now, request),
    ensures
        ({
            let next = after(store, now, request);
            let actions = actions_of(store, now, contract, request);
            &&& next.ticket_factory != store.ticket_factory ==> actions.contains(
                ActionView::Write(DataKeyView::TicketFactory),
            )
            &&& next.event_counter != store.event_counter ==> actions.contains(
                ActionView::Write(DataKeyView::EventCounter),
            )
            &&& (next.events.contains_key(id) != store.events.contains_key(id)
                || next.events[id] != store.events[id]) ==> actions.contains(
                ActionView::Write(DataKeyView::Event(id)),
            )
            &&& (next.tiers.contains_key(id) != store.tiers.contains_key(id) || next.tiers[id]
                != store.tiers[id]) ==> actions.contains(
                ActionView::Write(DataKeyView::EventTiers(id)),
            )
            &&& (next.buyers.contains_key(id) != store.buyers.contains_key(id) || next.buyers[id]
                != store.buyers[id]) ==> actions.contains(
                ActionView::Write(DataKeyView::EventBuyers(id)),
            )
            &&& next.refunds.contains((id, claimer)) != store.refunds.contains((id, claimer))
                ==> actions.contains(ActionView::Write(DataKeyView::RefundClaimed(id, claimer)))
        }),
{
    let actions = actions_of(store, now, contract, request);
    match request {
        Request::Initialize { .. } => {
            assert(actions[0] == ActionView::Write(DataKeyView::TicketFactory));
            assert(actions[1] == ActionView::Write(DataKeyView::EventCounter));
        },
        Request::CreateEvent { .. } => {
            let count = store.event_count();
            assert(actions[1] == ActionView::Write(DataKeyView::EventCounter));
            assert(actions[3] == ActionView::Write(DataKeyView::Event(count)));
            assert(actions[4] == ActionView::Write(DataKeyView::EventTiers(count)));
        },
        Request::ClaimRefund { claimer, id } => {
            assert(actions[1] == ActionView::Write(DataKeyView::RefundClaimed(id, claimer)));
        },
        Request::PurchaseTicket { id, tier_index, .. } => {
            let paid: int = if store.tiers[id][tier_index as int].price > 0 {
                1
            } else {
                0
            };
            assert(actions[2 + paid] == ActionView::Write(DataKeyView::EventTiers(id)));
            assert(actions[3 + paid] == ActionView::Write(DataKeyView::EventBuyers(id)));
            assert(actions[4 + paid] == ActionView::Write(DataKeyView::Event(id)));
        },
        Request::CancelEvent { id } => {
            assert(actions[1] == ActionView::Write(DataKeyView::Event(id)));
        },
        Request::UpdateEvent { id, .. } => {
            assert(actions[1] == ActionView::Write(DataKeyView::Event(id)));
        },
        Request::UpdateTicketsSold { id, .. } => {
            assert(actions[1] == ActionView::Write(DataKeyView::Event(id)));
        },
    }
}

} // verus!
