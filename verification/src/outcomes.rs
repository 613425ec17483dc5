//! What each request comes to, told by what goes in and what comes out: when it
//! succeeds and why it fails, which value every entry then holds, and what is asked
//! of the host.

use crate::action::{self, Action, ActionView, Value, ValueView};
use crate::env::{EnvView, Store};
use crate::manager::PendingEvent;
use crate::model::{self, EventChanges};
use crate::refusal::Refusal;
use crate::types::{
    self, Address, CreateEventParams, CreateEventParamsView, DataKey, DataKeyView, Error, Event,
    EventView, TicketTier, TicketTierView, TierConfig, TierConfigView,
};
use vstd::prelude::*;

verus! {

// ---- purchase_ticket

/// A ticket is sold exactly if the event is stored and not canceled, the tier exists
/// and has a ticket left, and the ticket can be counted.
pub proof fn tickets_are_sold_while_there_are_any(store: Store, id: u32, tier_index: u32)
    ensures
        model::purchase_refusal(store, id, tier_index) is None <==> {
            &&& store.events.contains_key(id)
            &&& !store.events[id].is_canceled
            &&& store.tiers.contains_key(id)
            &&& tier_index < store.tiers[id].len()
            &&& store.tiers[id][tier_index as int].sold_quantity
                < store.tiers[id][tier_index as int].total_quantity
            &&& store.events[id].tickets_sold < u128::MAX
        },
{
}

/// A purchase is refused for what is really the matter: no event, an event that is
/// canceled, no tiers, no such tier, a tier without tickets left, or a count that
/// cannot go on. Of several reasons it is the one that comes first here.
pub proof fn refused_purchases_are_told_why(store: Store, id: u32, tier_index: u32)
    ensures
        ({
            let refusal = model::purchase_refusal(store, id, tier_index);
            let stored = store.events.contains_key(id);
            let open = stored && !store.events[id].is_canceled;
            let tiered = open && store.tiers.contains_key(id);
            let found = tiered && tier_index < store.tiers[id].len();
            let left = found && store.tiers[id][tier_index as int].sold_quantity
                < store.tiers[id][tier_index as int].total_quantity;
            &&& refusal == Some(Refusal::EventNotFound) <==> !stored
            &&& refusal == Some(Refusal::EventCanceled) <==> stored && !open
            &&& refusal == Some(Refusal::TiersNotFound) <==> open && !tiered
            &&& refusal == Some(Refusal::InvalidTierIndex) <==> tiered && !found
            &&& refusal == Some(Refusal::TierSoldOut) <==> found && !left
            &&& refusal == Some(Refusal::TicketCountOverflow) <==> left
                && store.events[id].tickets_sold == u128::MAX
        }),
{
}

/// A buyer pays the price of the tier, once, in the payment token of the event, to its
/// organizer. Nothing is paid for a tier without a price.
pub proof fn buyers_pay_the_price_of_the_tier(
    store: Store,
    buyer: Seq<char>,
    id: u32,
    tier_index: u32,
    i: int,
    j: int,
)
    requires
        model::purchase_refusal(store, id, tier_index) is None,
    ensures
        ({
            let actions = model::purchase_actions(store, buyer, id, tier_index);
            let price = store.tiers[id][tier_index as int].price;
            let transfer = ActionView::Transfer {
                token: store.events[id].payment_token,
                from: buyer,
                to: store.events[id].organizer,
                amount: price,
            };
            &&& price > 0 ==> actions.contains(transfer)
            &&& 0 <= i < actions.len() && actions[i] is Transfer ==> price > 0 && actions[i]
                == transfer
            &&& 0 <= i < j < actions.len() ==> !(actions[i] is Transfer && actions[j] is Transfer)
        }),
{
    let actions = model::purchase_actions(store, buyer, id, tier_index);
    if store.tiers[id][tier_index as int].price > 0 {
        assert(actions[1] is Transfer);
    }
}

/// A purchase asks the host for the signature of the buyer, the payment, a ticket minted
/// for the buyer by the ticket contract of the event, the writing of the tiers, the
/// buyers and the event, a longer life for the event, and a notice, in this order.
pub proof fn purchases_are_carried_out_in_order(
    store: Store,
    buyer: Seq<char>,
    id: u32,
    tier_index: u32,
)
    requires
        model::purchase_refusal(store, id, tier_index) is None,
    ensures
        ({
            let actions = model::purchase_actions(store, buyer, id, tier_index);
            let ticket_contract = store.events[id].ticket_nft_addr;
            let paid: int = if store.tiers[id][tier_index as int].price > 0 {
                1
            } else {
                0
            };
            &&& actions.len() == 7 + paid
            &&& actions[0] == ActionView::RequireAuth(buyer)
            &&& paid == 1 ==> actions[1] is Transfer
            &&& actions[1 + paid] == (ActionView::Invoke {
                contract: ticket_contract,
                function: "mint_ticket_nft"@,
                args: seq![ValueView::Address(buyer)],
            })
            &&& actions[2 + paid] == ActionView::Write(DataKeyView::EventTiers(id))
            &&& actions[3 + paid] == ActionView::Write(DataKeyView::EventBuyers(id))
            &&& actions[4 + paid] == ActionView::Write(DataKeyView::Event(id))
            &&& actions[5 + paid] == (ActionView::ExtendTtl {
                key: DataKeyView::Event(id),
                threshold: 518400,
                extend_to: 1728000,
            })
            &&& actions[6 + paid] == (ActionView::Publish {
                topic: "ticket_purchased"@,
                data: seq![
                    ValueView::U32(id),
                    ValueView::Address(buyer),
                    ValueView::Address(ticket_contract),
                    ValueView::U32(tier_index),
                ],
            })
        }),
{
}

/// A purchase counts one more ticket in the tier and in the event, notes the buyer last
/// and sets the price of the event to that of the tier. Everything else of the event,
/// of its tiers and of all other entries stays as it is.
pub proof fn purchases_count_one_ticket(
    store: Store,
    buyer: Seq<char>,
    id: u32,
    tier_index: u32,
    other: u32,
    tier: int,
    ticket: int,
)
    requires
        model::purchase_refusal(store, id, tier_index) is None,
    ensures
        ({
            let next = model::purchased_store(store, buyer, id, tier_index);
            let sold = store.tiers[id][tier_index as int];
            let bought = store.buyers_of(id);
            &&& next.events.contains_key(id)
            &&& next.events[id].tickets_sold == store.events[id].tickets_sold + 1
            &&& next.events[id].ticket_price == sold.price
            &&& next.events[id] == (EventView {
                tickets_sold: next.events[id].tickets_sold,
                ticket_price: next.events[id].ticket_price,
                ..store.events[id]
            })
            &&& next.tiers.contains_key(id)
            &&& next.tiers[id].len() == store.tiers[id].len()
            &&& next.tiers[id][tier_index as int].sold_quantity == sold.sold_quantity + 1
            &&& next.tiers[id][tier_index as int].name == sold.name
            &&& next.tiers[id][tier_index as int].price == sold.price
            &&& next.tiers[id][tier_index as int].total_quantity == sold.total_quantity
            &&& 0 <= tier < store.tiers[id].len() && tier != tier_index ==> next.tiers[id][tier]
                == store.tiers[id][tier]
            &&& next.buyers.contains_key(id)
            &&& next.buyers[id].len() == bought.len() + 1
            &&& next.buyers[id][bought.len() as int] == buyer
            &&& 0 <= ticket < bought.len() ==> next.buyers[id][ticket] == bought[ticket]
            &&& other != id ==> {
                &&& next.events.contains_key(other) == store.events.contains_key(other)
                &&& next.events[other] == store.events[other]
                &&& next.tiers.contains_key(other) == store.tiers.contains_key(other)
                &&& next.tiers[other] == store.tiers[other]
                &&& next.buyers.contains_key(other) == store.buyers.contains_key(other)
                &&& next.buyers[other] == store.buyers[other]
            }
            &&& next.refunds == store.refunds
            &&& next.ticket_factory == store.ticket_factory
            &&& next.event_counter == store.event_counter
        }),
{
}

/// A refused purchase asks for the signature of the buyer and for nothing else.
pub proof fn refused_purchases_ask_for_a_signature(
    store: Store,
    buyer: Seq<char>,
    id: u32,
    tier_index: u32,
)
    requires
        model::purchase_refusal(store, id, tier_index) is Some,
    ensures
        model::purchase_actions(store, buyer, id, tier_index) == seq![
            ActionView::RequireAuth(buyer),
        ],
{
}

// ---- create_event

/// The dates, price and ticket count of an event are in order exactly if it does not
/// start in the past, ends after it starts, and has a price that is not negative and at
/// least one ticket. Of several faults the one that comes first here is named.
pub proof fn parameters_are_judged_by_what_they_say(
    now: u64,
    start_date: u64,
    end_date: u64,
    ticket_price: i128,
    total_tickets: u128,
)
    ensures
        ({
            let result = model::validation_result(
                now,
                start_date,
                end_date,
                ticket_price,
                total_tickets,
            );
            let to_come = now <= start_date;
            let dated = to_come && start_date < end_date;
            let priced = dated && ticket_price >= 0;
            &&& result is Ok <==> now <= start_date < end_date && ticket_price >= 0
                && total_tickets > 0
            &&& result == Err::<(), Error>(Error::InvalidStartDate) <==> !to_come
            &&& result == Err::<(), Error>(Error::InvalidEndDate) <==> to_come && !dated
            &&& result == Err::<(), Error>(Error::NegativeTicketPrice) <==> dated && !priced
            &&& result == Err::<(), Error>(Error::InvalidTicketCount) <==> priced
                && total_tickets == 0
        }),
{
}

/// The tiers asked for are in order exactly if each of them has a price that is not
/// negative and at least one ticket. Otherwise the first that is not in order is named:
/// its price, if that is negative, and else its tickets.
pub proof fn first_faulty_tier_is_named(configs: Seq<TierConfigView>)
    ensures
        model::first_config_error(configs) is None <==> forall|i: int|
            0 <= i < configs.len() ==> (#[trigger] configs[i]).price >= 0
                && configs[i].total_quantity > 0,
        model::first_config_error(configs) matches Some(error) ==> exists|i: int|
            {
                &&& 0 <= i < configs.len()
                &&& forall|j: int|
                    0 <= j < i ==> (#[trigger] configs[j]).price >= 0 && configs[j].total_quantity
                        > 0
                &&& (#[trigger] configs[i]).price < 0 || configs[i].total_quantity == 0
                &&& error == (if configs[i].price < 0 {
                    Error::NegativeTicketPrice
                } else {
                    Error::InvalidTierConfig
                })
            },
    decreases configs.len(),
{
    if configs.len() > 0 {
        let fewer = configs.drop_last();
        first_faulty_tier_is_named(fewer);
        assert forall|i: int| 0 <= i < fewer.len() implies #[trigger] configs[i] == fewer[i] by {}
        if model::first_config_error(fewer) is Some {
            let error = model::first_config_error(fewer)->0;
            let i = choose|i: int|
                {
                    &&& 0 <= i < fewer.len()
                    &&& forall|j: int|
                        0 <= j < i ==> (#[trigger] fewer[j]).price >= 0 && fewer[j].total_quantity
                            > 0
                    &&& (#[trigger] fewer[i]).price < 0 || fewer[i].total_quantity == 0
                    &&& error == (if fewer[i].price < 0 {
                        Error::NegativeTicketPrice
                    } else {
                        Error::InvalidTierConfig
                    })
                };
            assert(configs[i] == fewer[i]);
            assert forall|j: int| 0 <= j < i implies (#[trigger] configs[j]).price >= 0
                && configs[j].total_quantity > 0 by {
                assert(fewer[j] == configs[j]);
            }
        } else {
            assert forall|i: int| 0 <= i < fewer.len() implies (#[trigger] configs[i]).price >= 0
                && configs[i].total_quantity > 0 by {
                assert(fewer[i] == configs[i]);
            }
            let last = configs.len() - 1;
            assert(configs[last] == configs.last());
        }
    }
}

/// The tickets of no tier are none, those of one tier are its own, and those of two
/// groups of tiers are those of both together.
pub proof fn tickets_of_tiers_add_up(
    tier: TicketTierView,
    first: Seq<TicketTierView>,
    second: Seq<TicketTierView>,
)
    ensures
        model::total_quantity(Seq::<TicketTierView>::empty()) == 0,
        model::total_quantity(seq![tier]) == tier.total_quantity,
        model::total_quantity(first + second) == model::total_quantity(first)
            + model::total_quantity(second),
        model::sold_quantity(Seq::<TicketTierView>::empty()) == 0,
        model::sold_quantity(seq![tier]) == tier.sold_quantity,
        model::sold_quantity(first + second) == model::sold_quantity(first)
            + model::sold_quantity(second),
    decreases second.len(),
{
    reveal_with_fuel(model::total_quantity, 2);
    reveal_with_fuel(model::sold_quantity, 2);
    assert(seq![tier].drop_last() =~= Seq::empty());
    if second.len() == 0 {
        assert(first + second =~= first);
    } else {
        assert((first + second).drop_last() =~= first + second.drop_last());
        assert((first + second).last() == second.last());
        tickets_of_tiers_add_up(tier, first, second.drop_last());
    }
}

/// A new event has the tiers asked for, in their order, with their names, prices and
/// sizes. Where none are asked for it has a single one, called General, with the price
/// and the tickets of the event. Nothing is sold of them.
pub proof fn tiers_are_those_asked_for(params: CreateEventParamsView, i: int)
    ensures
        ({
            let tiers = model::resolved_tiers(params);
            &&& params.tiers.len() == 0 ==> {
                &&& tiers.len() == 1
                &&& tiers[0].name == "General"@
                &&& tiers[0].price == params.ticket_price
                &&& tiers[0].total_quantity == params.total_tickets
                &&& tiers[0].sold_quantity == 0
            }
            &&& params.tiers.len() > 0 ==> {
                &&& tiers.len() == params.tiers.len()
                &&& 0 <= i < tiers.len() ==> {
                    &&& tiers[i].name == params.tiers[i].name
                    &&& tiers[i].price == params.tiers[i].price
                    &&& tiers[i].total_quantity == params.tiers[i].total_quantity
                    &&& tiers[i].sold_quantity == 0
                }
            }
        }),
{
}

/// An event can be created whenever there is a factory and an id left, it does not start
/// in the past and ends after it starts, its price is not negative and it has a ticket,
/// and so has every tier asked for. It gets the next id.
pub proof fn events_are_created_if_in_order(
    store: Store,
    now: u64,
    params: CreateEventParamsView,
)
    ensures
        ({
            let in_order = {
                &&& now <= params.start_date < params.end_date
                &&& params.ticket_price >= 0
                &&& params.total_tickets > 0
                &&& forall|i: int|
                    0 <= i < params.tiers.len() ==> (#[trigger] params.tiers[i]).price >= 0
                        && params.tiers[i].total_quantity > 0
            };
            let result = model::create_result(store, now, params);
            &&& result is Ok <==> in_order && store.event_count() < u32::MAX
                && store.ticket_factory is Some
            &&& result matches Ok(id) ==> id == store.event_count()
            &&& model::params_error(now, params) is None <==> in_order
            &&& model::takes_id(store, now, params) <==> in_order && store.event_count() < u32::MAX
            &&& model::ticket_count_overflows(now, params) <==> in_order && model::total_quantity(
                model::resolved_tiers(params),
            ) > u128::MAX
            &&& result is Ok <==> model::creation_error(store, now, params) is None
            &&& result matches Err(error) ==> model::creation_error(store, now, params) == Some(
                error,
            )
        }),
{
    first_faulty_tier_is_named(params.tiers);
}

/// A creation fails for what is really the matter. A fault of the parameters comes before
/// an exhausted counter, and that before a missing factory. A negative price is named
/// only if the price of the event or of a tier is negative.
pub proof fn failed_creations_are_told_why(store: Store, now: u64, params: CreateEventParamsView)
    ensures
        ({
            let result = model::create_result(store, now, params);
            let valid = now <= params.start_date < params.end_date && params.ticket_price >= 0
                && params.total_tickets > 0;
            let in_order = valid && forall|i: int|
                0 <= i < params.tiers.len() ==> (#[trigger] params.tiers[i]).price >= 0
                    && params.tiers[i].total_quantity > 0;
            &&& result == Err::<u32, Error>(Error::InvalidStartDate) <==> params.start_date < now
            &&& result == Err::<u32, Error>(Error::InvalidEndDate) <==> now <= params.start_date
                && params.end_date <= params.start_date
            &&& result == Err::<u32, Error>(Error::InvalidTicketCount) <==> now
                <= params.start_date < params.end_date && params.ticket_price >= 0
                && params.total_tickets == 0
            &&& now <= params.start_date < params.end_date && params.ticket_price < 0 ==> result
                == Err::<u32, Error>(Error::NegativeTicketPrice)
            &&& result == Err::<u32, Error>(Error::NegativeTicketPrice) ==> params.ticket_price < 0
                || exists|i: int|
                0 <= i < params.tiers.len() && (#[trigger] params.tiers[i]).price < 0
            &&& result == Err::<u32, Error>(Error::InvalidTierConfig) ==> valid && exists|i: int|
                0 <= i < params.tiers.len() && (#[trigger] params.tiers[i]).total_quantity == 0
            &&& valid ==> match model::first_config_error(params.tiers) {
                Some(error) => result == Err::<u32, Error>(error),
                None => in_order,
            }
            &&& result == Err::<u32, Error>(Error::CounterOverflow) <==> in_order
                && store.event_count() == u32::MAX
            &&& result == Err::<u32, Error>(Error::FactoryNotInitialized) <==> in_order
                && store.event_count() < u32::MAX && store.ticket_factory is None
        }),
{
    first_faulty_tier_is_named(params.tiers);
}

/// A new event holds what was asked for, the next id, the answer of the factory, the
/// tickets of all its tiers together and the price of the first. Nothing is sold of it
/// and it is not canceled. It is stored with its tiers, and the counter moves on by one.
/// All other entries stay as they are.
pub proof fn created_events_hold_what_was_asked_for(
    store: Store,
    now: u64,
    params: CreateEventParamsView,
    ticket_nft_addr: Seq<char>,
    other: u32,
)
    requires
        model::create_result(store, now, params) is Ok,
        !model::ticket_count_overflows(now, params),
    ensures
        ({
            let next = model::created_store(store, params, ticket_nft_addr);
            let id = store.event_count();
            let event = next.events[id];
            &&& next.events.contains_key(id)
            &&& event.id == id
            &&& event.theme == params.theme
            &&& event.organizer == params.organizer
            &&& event.event_type == params.event_type
            &&& event.total_tickets == model::total_quantity(next.tiers[id])
            &&& params.tiers.len() == 0 ==> event.total_tickets == params.total_tickets
                && event.ticket_price == params.ticket_price
            &&& params.tiers.len() > 0 ==> event.ticket_price == params.tiers[0].price
            &&& event.tickets_sold == 0
            &&& event.start_date == params.start_date
            &&& event.end_date == params.end_date
            &&& !event.is_canceled
            &&& event.ticket_nft_addr == ticket_nft_addr
            &&& event.payment_token == params.payment_token
            &&& next.tiers.contains_key(id)
            &&& next.tiers[id] == model::resolved_tiers(params)
            &&& next.event_counter == Some((id + 1) as u32)
            &&& next.event_count() == id + 1
            &&& other != id ==> {
                &&& next.events.contains_key(other) == store.events.contains_key(other)
                &&& next.events[other] == store.events[other]
                &&& next.tiers.contains_key(other) == store.tiers.contains_key(other)
                &&& next.tiers[other] == store.tiers[other]
            }
            &&& next.buyers == store.buyers
            &&& next.refunds == store.refunds
            &&& next.ticket_factory == store.ticket_factory
        }),
{
    events_are_created_if_in_order(store, now, params);
    let tiers = model::resolved_tiers(params);
    if params.tiers.len() == 0 {
        tickets_of_tiers_add_up(tiers[0], tiers, tiers);
        assert(tiers =~= seq![tiers[0]]);
    }
}

/// Up to the answer of the factory, or the failure, a creation moves the counter on, if it
/// takes an id, and touches nothing else.
pub proof fn prepared_creations_move_the_counter(
    store: Store,
    now: u64,
    params: CreateEventParamsView,
)
    ensures
        ({
            let next = model::prepared_store(store, now, params);
            let takes_id = {
                &&& now <= params.start_date < params.end_date
                &&& params.ticket_price >= 0
                &&& params.total_tickets > 0
                &&& forall|i: int|
                    0 <= i < params.tiers.len() ==> (#[trigger] params.tiers[i]).price >= 0
                        && params.tiers[i].total_quantity > 0
                &&& store.event_count() < u32::MAX
            };
            &&& takes_id ==> next.event_counter is Some && next.event_counter->0
                == store.event_count() + 1
            &&& !takes_id ==> next.event_counter == store.event_counter
            &&& next.ticket_factory == store.ticket_factory
            &&& next.events == store.events
            &&& next.tiers == store.tiers
            &&& next.buyers == store.buyers
            &&& next.refunds == store.refunds
        }),
{
    events_are_created_if_in_order(store, now, params);
}

/// A creation asks the host for the signature of the organizer before anything else, then
/// for the writing of the counter and for a ticket contract of the factory, which is
/// handed the address of the manager and thirty-two zeros; and, once that is there, for
/// the writing of the event and its tiers, a longer life for the event, and a notice.
pub proof fn creations_are_carried_out_in_order(
    store: Store,
    now: u64,
    contract: Seq<char>,
    params: CreateEventParamsView,
    ticket_nft_addr: Seq<char>,
    i: int,
)
    ensures
        ({
            let first = model::prepare_actions(store, now, contract, params);
            let second = model::record_actions(
                store.event_count(),
                params.organizer,
                ticket_nft_addr,
            );
            let result = model::create_result(store, now, params);
            let id = store.event_count();
            &&& first[0] == ActionView::RequireAuth(params.organizer)
            &&& result is Ok ==> {
                &&& first.len() == 3
                &&& first[1] == ActionView::Write(DataKeyView::EventCounter)
                &&& first[2] is Invoke
                &&& first[2]->Invoke_contract == store.ticket_factory->0
                &&& first[2]->Invoke_function == "deploy_ticket"@
                &&& first[2]->Invoke_args.len() == 2
                &&& first[2]->Invoke_args[0] == ValueView::Address(contract)
                &&& first[2]->Invoke_args[1] is Bytes
                &&& first[2]->Invoke_args[1]->Bytes_0.len() == 32
                &&& 0 <= i < 32 ==> first[2]->Invoke_args[1]->Bytes_0[i] == 0
            }
            &&& result == Err::<u32, Error>(Error::FactoryNotInitialized) ==> first == seq![
                ActionView::RequireAuth(params.organizer),
                ActionView::Write(DataKeyView::EventCounter),
            ]
            &&& result is Err && result != Err::<u32, Error>(Error::FactoryNotInitialized)
                ==> first == seq![ActionView::RequireAuth(params.organizer)]
            &&& second == seq![
                ActionView::Write(DataKeyView::Event(id)),
                ActionView::Write(DataKeyView::EventTiers(id)),
                ActionView::ExtendTtl {
                    key: DataKeyView::Event(id),
                    threshold: 518400,
                    extend_to: 1728000,
                },
                ActionView::Publish {
                    topic: "event_created"@,
                    data: seq![
                        ValueView::U32(id),
                        ValueView::Address(params.organizer),
                        ValueView::Address(ticket_nft_addr),
                    ],
                },
            ]
        }),
{
    events_are_created_if_in_order(store, now, params);
    failed_creations_are_told_why(store, now, params);
}

// ---- initialize

/// An initialization succeeds exactly if there is no factory yet. It then stores the
/// factory and a counter of no events, has both written, and touches nothing else.
pub proof fn contracts_are_initialized_without_a_factory(store: Store, factory: Seq<char>)
    ensures
        ({
            let result = model::initialize_result(store);
            let next = model::initialized_store(store, factory);
            let actions = model::initialize_actions(store);
            &&& result is Ok <==> store.ticket_factory is None
            &&& result is Err ==> result == Err::<(), Error>(Error::AlreadyInitialized) && actions
                == Seq::<ActionView>::empty()
            &&& result is Ok ==> actions == seq![
                ActionView::Write(DataKeyView::TicketFactory),
                ActionView::Write(DataKeyView::EventCounter),
            ]
            &&& next.ticket_factory == Some(factory)
            &&& next.event_counter == Some(0u32)
            &&& next.events == store.events
            &&& next.tiers == store.tiers
            &&& next.buyers == store.buyers
            &&& next.refunds == store.refunds
        }),
{
}

// ---- get_all_events

/// The list of events holds those stored under an id below the counter, each once, in the
/// order of their ids, and no other.
pub proof fn lists_hold_the_stored_events(events: Map<u32, EventView>, count: u32) -> (ids: Seq<
    u32,
>)
    ensures
        model::events_below(events, count).len() == ids.len(),
        forall|i: int|
            0 <= i < ids.len() ==> #[trigger] model::events_below(events, count)[i]
                == events[ids[i]],
        forall|i: int, j: int| 0 <= i < j < ids.len() ==> ids[i] < ids[j],
        forall|id: u32| #[trigger]
            ids.contains(id) <==> id < count && events.contains_key(id),
    decreases count,
{
    if count == 0 {
        model::lemma_events_below_none(events);
        Seq::empty()
    } else {
        let fewer = (count - 1) as u32;
        let before = lists_hold_the_stored_events(events, fewer);
        model::lemma_events_below_next(events, fewer);
        if events.contains_key(fewer) {
            let ids = before.push(fewer);
            assert forall|i: int| 0 <= i < before.len() implies before[i] < fewer by {
                assert(before.contains(before[i]));
            }
            assert forall|id: u32| #[trigger] ids.contains(id) <==> id < count
                && events.contains_key(id) by {
                if id < fewer && events.contains_key(id) {
                    assert(before.contains(id));
                    let i = before.index_of(id);
                    assert(ids[i] == id);
                }
                if id == fewer {
                    assert(ids[before.len() as int] == id);
                }
                if ids.contains(id) && id != fewer {
                    let i = ids.index_of(id);
                    assert(before[i] == id);
                    assert(before.contains(id));
                }
            }
            ids
        } else {
            before
        }
    }
}

// ---- cancel_event

/// A cancellation succeeds exactly if the event is stored and not canceled yet, whatever
/// its tickets, price or dates, and fails for what is really the matter.
pub proof fn any_open_event_can_be_canceled(store: Store, id: u32)
    ensures
        model::cancel_result(store, id) is Ok <==> store.events.contains_key(id)
            && !store.events[id].is_canceled,
        model::cancel_result(store, id) == Err::<(), Error>(Error::EventNotFound)
            <==> !store.events.contains_key(id),
        model::cancel_result(store, id) == Err::<(), Error>(Error::EventAlreadyCanceled)
            <==> store.events.contains_key(id) && store.events[id].is_canceled,
{
}

/// A cancellation marks the event as canceled and touches nothing else, of the event or of
/// any other entry. The organizer signs, the event is written and a notice is published.
pub proof fn cancellations_mark_the_event(store: Store, id: u32, other: u32)
    ensures
        ({
            let next = model::canceled_store(store, id);
            let actions = model::cancel_actions(store, id);
            let organizer = store.events[id].organizer;
            &&& next.events.contains_key(id)
            &&& next.events[id].is_canceled
            &&& store.events[id] == (EventView {
                is_canceled: store.events[id].is_canceled,
                ..next.events[id]
            })
            &&& other != id ==> next.events.contains_key(other) == store.events.contains_key(other)
                && next.events[other] == store.events[other]
            &&& next.tiers == store.tiers
            &&& next.buyers == store.buyers
            &&& next.refunds == store.refunds
            &&& next.ticket_factory == store.ticket_factory
            &&& next.event_counter == store.event_counter
            &&& !store.events.contains_key(id) ==> actions == Seq::<ActionView>::empty()
            &&& store.events.contains_key(id) && store.events[id].is_canceled ==> actions == seq![
                ActionView::RequireAuth(organizer),
            ]
            &&& store.events.contains_key(id) && !store.events[id].is_canceled ==> actions == seq![
                ActionView::RequireAuth(organizer),
                ActionView::Write(DataKeyView::Event(id)),
                ActionView::Publish { topic: "event_canceled"@, data: seq![ValueView::U32(id)] },
            ]
        }),
{
}

// ---- claim_refund

/// A refund is granted exactly to a buyer of a canceled event who has not claimed it yet,
/// whatever else holds of the event, and refused for what is really the matter.
pub proof fn refunds_go_to_buyers_of_canceled_events(store: Store, claimer: Seq<char>, id: u32)
    ensures
        ({
            let refusal = model::refund_refusal(store, claimer, id);
            let stored = store.events.contains_key(id);
            let canceled = stored && store.events[id].is_canceled;
            let unclaimed = canceled && !store.refunds.contains((id, claimer));
            let bought = store.buyers.contains_key(id) && exists|i: int|
                0 <= i < store.buyers[id].len() && #[trigger] store.buyers[id][i] == claimer;
            &&& refusal is None <==> unclaimed && bought
            &&& refusal == Some(Refusal::EventNotFound) <==> !stored
            &&& refusal == Some(Refusal::EventNotCanceled) <==> stored && !canceled
            &&& refusal == Some(Refusal::RefundAlreadyClaimed) <==> canceled && !unclaimed
            &&& refusal == Some(Refusal::NotABuyer) <==> unclaimed && !bought
        }),
{
    let buyers = store.buyers_of(id);
    assert(buyers.contains(claimer) <==> exists|i: int|
        0 <= i < buyers.len() && #[trigger] buyers[i] == claimer);
}

/// A refund notes the claim, for this claimer and this event only, and touches nothing
/// else. The claimer signs, the claim is written, and a notice is published of the price
/// of the event. If that is not zero it is paid, once, in the payment token of the event,
/// by the organizer to the claimer.
pub proof fn refunds_pay_the_price_of_the_event(
    store: Store,
    claimer: Seq<char>,
    id: u32,
    other: u32,
    another: Seq<char>,
)
    ensures
        ({
            let next = store.with_refund(id, claimer);
            let actions = model::refund_actions(store, claimer, id);
            let event = store.events[id];
            let signed = ActionView::RequireAuth(claimer);
            let written = ActionView::Write(DataKeyView::RefundClaimed(id, claimer));
            let paid = ActionView::Transfer {
                token: event.payment_token,
                from: event.organizer,
                to: claimer,
                amount: event.ticket_price,
            };
            let notice = ActionView::Publish {
                topic: "refund_claimed"@,
                data: seq![
                    ValueView::U32(id),
                    ValueView::Address(claimer),
                    ValueView::I128(event.ticket_price),
                ],
            };
            let granted = model::refund_refusal(store, claimer, id) is None;
            &&& next.refunds.contains((id, claimer))
            &&& other != id || another != claimer ==> next.refunds.contains((other, another))
                == store.refunds.contains((other, another))
            &&& next.events == store.events
            &&& next.tiers == store.tiers
            &&& next.buyers == store.buyers
            &&& next.ticket_factory == store.ticket_factory
            &&& next.event_counter == store.event_counter
            &&& !granted ==> actions == seq![signed]
            &&& granted && event.ticket_price > 0 ==> actions == seq![
                signed,
                written,
                paid,
                notice,
            ]
            &&& granted && event.ticket_price <= 0 ==> actions == seq![signed, written, notice]
        }),
{
}

// ---- update_event

/// An update is made exactly if the event is stored and not canceled and every value given
/// is one that the event can take: a price that is not negative, tickets, and no fewer
/// than are sold, and dates that are not in the past, the start before the end.
pub proof fn updates_are_made_if_in_order(store: Store, now: u64, id: u32, changes: EventChanges)
    ensures
        ({
            let event = store.events[id];
            let start = if changes.start_date is Some {
                changes.start_date->0
            } else {
                event.start_date
            };
            let end = if changes.end_date is Some {
                changes.end_date->0
            } else {
                event.end_date
            };
            model::update_refusal(store, now, id, changes) is None <==> {
                &&& store.events.contains_key(id)
                &&& !event.is_canceled
                &&& changes.ticket_price matches Some(price) ==> price >= 0
                &&& changes.total_tickets matches Some(total) ==> total > 0 && total
                    >= event.tickets_sold
                &&& changes.start_date is Some ==> now <= start
                &&& changes.end_date is Some ==> now <= end
                &&& changes.start_date is Some || changes.end_date is Some ==> start < end
            }
        }),
{
}

/// An update is refused for what is really the matter. Of several reasons it is the one
/// that comes first here.
pub proof fn refused_updates_are_told_why(store: Store, now: u64, id: u32, changes: EventChanges)
    ensures
        ({
            let refusal = model::update_refusal(store, now, id, changes);
            let event = store.events[id];
            let start = if changes.start_date is Some {
                changes.start_date->0
            } else {
                event.start_date
            };
            let end = if changes.end_date is Some {
                changes.end_date->0
            } else {
                event.end_date
            };
            let stored = store.events.contains_key(id);
            let open = stored && !event.is_canceled;
            let priced = open && (changes.ticket_price matches Some(price) ==> price >= 0);
            let some = priced && (changes.total_tickets matches Some(total) ==> total > 0);
            let enough = some && (changes.total_tickets matches Some(total) ==> total
                >= event.tickets_sold);
            let to_start = enough && (changes.start_date is Some ==> now <= start);
            let starts_first = to_start && (changes.start_date is Some ==> start < end);
            let to_end = starts_first && (changes.end_date is Some ==> now <= end);
            &&& refusal == Some(Refusal::EventNotFound) <==> !stored
            &&& refusal == Some(Refusal::UpdateOfCanceledEvent) <==> stored && !open
            &&& refusal == Some(Refusal::NegativeTicketPrice) <==> open && !priced
            &&& refusal == Some(Refusal::NoTickets) <==> priced && !some
            &&& refusal == Some(Refusal::FewerTicketsThanSold) <==> some && !enough
            &&& refusal == Some(Refusal::StartInPast) <==> enough && !to_start
            &&& refusal == Some(Refusal::StartNotBeforeEnd) <==> to_start && !starts_first
            &&& refusal == Some(Refusal::EndInPast) <==> starts_first && !to_end
            &&& refusal == Some(Refusal::EndNotAfterStart) <==> to_end && changes.end_date is Some
                && start >= end
        }),
{
}

/// After an update every value given is what the event holds, and everything for which no
/// value is given is as before. No other entry is touched.
pub proof fn updates_set_what_is_given(
    store: Store,
    id: u32,
    changes: EventChanges,
    other: u32,
)
    ensures
        ({
            let next = model::updated_store(store, id, changes);
            let before = store.events[id];
            let event = next.events[id];
            &&& next.events.contains_key(id)
            &&& changes.theme matches Some(theme) ==> event.theme == theme
            &&& changes.theme is None ==> event.theme == before.theme
            &&& changes.ticket_price matches Some(price) ==> event.ticket_price == price
            &&& changes.ticket_price is None ==> event.ticket_price == before.ticket_price
            &&& changes.total_tickets matches Some(total) ==> event.total_tickets == total
            &&& changes.total_tickets is None ==> event.total_tickets == before.total_tickets
            &&& changes.start_date matches Some(start) ==> event.start_date == start
            &&& changes.start_date is None ==> event.start_date == before.start_date
            &&& changes.end_date matches Some(end) ==> event.end_date == end
            &&& changes.end_date is None ==> event.end_date == before.end_date
            &&& event.id == before.id
            &&& event.organizer == before.organizer
            &&& event.event_type == before.event_type
            &&& event.tickets_sold == before.tickets_sold
            &&& event.is_canceled == before.is_canceled
            &&& event.ticket_nft_addr == before.ticket_nft_addr
            &&& event.payment_token == before.payment_token
            &&& other != id ==> next.events.contains_key(other) == store.events.contains_key(other)
                && next.events[other] == store.events[other]
            &&& next.tiers == store.tiers
            &&& next.buyers == store.buyers
            &&& next.refunds == store.refunds
            &&& next.ticket_factory == store.ticket_factory
            &&& next.event_counter == store.event_counter
        }),
{
}

/// An update asks for the signature of the organizer and, if it is made, for the writing of
/// the event, a longer life for it, and a notice.
pub proof fn updates_are_carried_out_in_order(
    store: Store,
    now: u64,
    id: u32,
    changes: EventChanges,
)
    ensures
        ({
            let actions = model::update_actions(store, now, id, changes);
            let organizer = store.events[id].organizer;
            let made = model::update_refusal(store, now, id, changes) is None;
            &&& !store.events.contains_key(id) ==> actions == Seq::<ActionView>::empty()
            &&& store.events.contains_key(id) && !made ==> actions == seq![
                ActionView::RequireAuth(organizer),
            ]
            &&& made ==> actions == seq![
                ActionView::RequireAuth(organizer),
                ActionView::Write(DataKeyView::Event(id)),
                ActionView::ExtendTtl {
                    key: DataKeyView::Event(id),
                    threshold: 518400,
                    extend_to: 1728000,
                },
                ActionView::Publish {
                    topic: "event_updated"@,
                    data: seq![ValueView::U32(id), ValueView::Address(organizer)],
                },
            ]
        }),
{
}

// ---- update_tickets_sold

/// A report of tickets sold is accepted exactly if the event is stored and has so many
/// tickets left, whether it is canceled or not, and fails for what is really the matter.
pub proof fn reports_are_accepted_within_the_total(store: Store, id: u32, amount: u128)
    ensures
        ({
            let result = model::sold_result(store, id, amount);
            let stored = store.events.contains_key(id);
            let sold = store.events[id].tickets_sold + amount;
            &&& result is Ok <==> stored && sold <= store.events[id].total_tickets
            &&& result == Err::<(), Error>(Error::EventNotFound) <==> !stored
            &&& result == Err::<(), Error>(Error::CounterOverflow) <==> stored && sold > u128::MAX
            &&& result == Err::<(), Error>(Error::CannotSellMoreTickets) <==> stored && sold
                <= u128::MAX && sold > store.events[id].total_tickets
        }),
{
}

/// An accepted report raises the number of tickets sold by exactly the amount reported and
/// touches nothing else, of the event or of any other entry. The ticket contract signs, and
/// the event is written.
pub proof fn reports_count_what_is_reported(store: Store, id: u32, amount: u128, other: u32)
    requires
        model::sold_result(store, id, amount) is Ok,
    ensures
        ({
            let next = model::sold_store(store, id, amount);
            &&& next.events.contains_key(id)
            &&& next.events[id].tickets_sold == store.events[id].tickets_sold + amount
            &&& next.events[id] == (EventView {
                tickets_sold: next.events[id].tickets_sold,
                ..store.events[id]
            })
            &&& other != id ==> next.events.contains_key(other) == store.events.contains_key(other)
                && next.events[other] == store.events[other]
            &&& next.tiers == store.tiers
            &&& next.buyers == store.buyers
            &&& next.refunds == store.refunds
            &&& next.ticket_factory == store.ticket_factory
            &&& next.event_counter == store.event_counter
            &&& model::sold_actions(store, id, amount) == seq![
                ActionView::RequireAuth(store.events[id].ticket_nft_addr),
                ActionView::Write(DataKeyView::Event(id)),
            ]
        }),
{
}

/// A report that fails asks for the signature of the ticket contract at most.
pub proof fn failed_reports_ask_for_a_signature(store: Store, id: u32, amount: u128)
    requires
        model::sold_result(store, id, amount) is Err,
    ensures
        model::sold_actions(store, id, amount) == if store.events.contains_key(id) {
            seq![ActionView::RequireAuth(store.events[id].ticket_nft_addr)]
        } else {
            seq![]
        },
{
}

/// Two reports come to the same as one of both amounts: both are accepted exactly if the
/// one is, and the event then counts the same number of tickets.
pub proof fn reports_add_up(store: Store, id: u32, first: u128, second: u128)
    requires
        first + second <= u128::MAX,
    ensures
        ({
            let total = (first + second) as u128;
            let halfway = model::sold_store(store, id, first);
            &&& model::sold_result(store, id, total) is Ok <==> model::sold_result(
                store,
                id,
                first,
            ) is Ok && model::sold_result(halfway, id, second) is Ok
            &&& model::sold_result(store, id, total) is Ok ==> model::sold_store(
                halfway,
                id,
                second,
            ).events[id] == model::sold_store(store, id, total).events[id]
        }),
{
}

// ---- the entries and the record of requests

/// Where no counter is stored there are no events, and where no buyers are stored there
/// are none. Of a new contract nothing is stored.
pub proof fn missing_entries_count_for_nothing(store: Store, id: u32, claimer: Seq<char>)
    ensures
        store.event_counter matches Some(count) ==> store.event_count() == count,
        store.event_counter is None ==> store.event_count() == 0,
        store.buyers.contains_key(id) ==> store.buyers_of(id) == store.buyers[id],
        !store.buyers.contains_key(id) ==> store.buyers_of(id).len() == 0,
        Store::empty().ticket_factory is None,
        Store::empty().event_counter is None,
        !Store::empty().events.contains_key(id),
        !Store::empty().tiers.contains_key(id),
        !Store::empty().buyers.contains_key(id),
        !Store::empty().refunds.contains((id, claimer)),
{
}

/// An entry that is stored is what is read, and no other entry is touched.
pub proof fn stored_entries_are_read_back(
    store: Store,
    factory: Seq<char>,
    counter: u32,
    id: u32,
    event: EventView,
    tiers: Seq<TicketTierView>,
    buyers: Seq<Seq<char>>,
)
    ensures
        store.with_factory(factory) == (Store { ticket_factory: Some(factory), ..store }),
        store.with_counter(counter) == (Store { event_counter: Some(counter), ..store }),
        store.with_event(id, event) == (Store {
            events: store.events.insert(id, event),
            ..store
        }),
        store.with_tiers(id, tiers) == (Store { tiers: store.tiers.insert(id, tiers), ..store }),
        store.with_buyers(id, buyers) == (Store {
            buyers: store.buyers.insert(id, buyers),
            ..store
        }),
{
}

/// Requests to the host are recorded after those before them, and change no entry. Entries
/// change without a trace in the record but for the requests that follow.
pub proof fn requests_are_recorded_in_order(
    env: EnvView,
    store: Store,
    actions: Seq<ActionView>,
    i: int,
)
    ensures
        env.storing(store).store == store,
        env.storing(store).timestamp == env.timestamp,
        env.storing(store).contract == env.contract,
        env.storing(store).actions == env.actions,
        env.asking(actions).store == env.store,
        env.asking(actions).timestamp == env.timestamp,
        env.asking(actions).contract == env.contract,
        env.asking(actions).actions.len() == env.actions.len() + actions.len(),
        0 <= i < env.actions.len() ==> env.asking(actions).actions[i] == env.actions[i],
        0 <= i < actions.len() ==> env.asking(actions).actions[env.actions.len() + i]
            == actions[i],
{
}

// ---- the records and what they stand for

/// Every field of an event shows in what it stands for.
pub proof fn events_stand_for_all_their_fields(event: Event)
    ensures
        event@.id == event.id,
        event@.theme == event.theme@,
        event@.organizer == event.organizer.text@,
        event@.event_type == event.event_type@,
        event@.total_tickets == event.total_tickets,
        event@.tickets_sold == event.tickets_sold,
        event@.ticket_price == event.ticket_price,
        event@.start_date == event.start_date,
        event@.end_date == event.end_date,
        event@.is_canceled == event.is_canceled,
        event@.ticket_nft_addr == event.ticket_nft_addr.text@,
        event@.payment_token == event.payment_token.text@,
{
}

/// Every field of a tier, and of the config of one, shows in what it stands for.
pub proof fn tiers_stand_for_all_their_fields(tier: TicketTier, config: TierConfig)
    ensures
        tier@.name == tier.name@,
        tier@.price == tier.price,
        tier@.total_quantity == tier.total_quantity,
        tier@.sold_quantity == tier.sold_quantity,
        config@.name == config.name@,
        config@.price == config.price,
        config@.total_quantity == config.total_quantity,
{
}

/// Every field of the parameters of an event shows in what they stand for.
pub proof fn params_stand_for_all_their_fields(params: CreateEventParams, i: int)
    ensures
        params@.organizer == params.organizer.text@,
        params@.theme == params.theme@,
        params@.event_type == params.event_type@,
        params@.start_date == params.start_date,
        params@.end_date == params.end_date,
        params@.ticket_price == params.ticket_price,
        params@.total_tickets == params.total_tickets,
        params@.payment_token == params.payment_token.text@,
        params@.tiers.len() == params.tiers@.len(),
        0 <= i < params.tiers@.len() ==> params@.tiers[i] == params.tiers@[i]@,
{
}

/// Every field of an event that waits for its ticket contract shows in what it stands for.
pub proof fn pending_events_stand_for_all_their_fields(pending: PendingEvent)
    ensures
        pending@.event_id == pending.event_id,
        pending@.params == pending.params@,
        pending@.tiers == types::tier_views(pending.tiers@),
        pending@.total_tickets == pending.total_tickets,
        pending@.ticket_price == pending.ticket_price,
{
}

/// A list stands for what its items stand for, in their order.
pub proof fn lists_stand_for_their_items(
    events: Seq<Event>,
    tiers: Seq<TicketTier>,
    addresses: Seq<Address>,
    actions: Seq<Action>,
    values: Seq<Value>,
    i: int,
)
    ensures
        types::event_views(events).len() == events.len(),
        0 <= i < events.len() ==> types::event_views(events)[i] == events[i]@,
        types::tier_views(tiers).len() == tiers.len(),
        0 <= i < tiers.len() ==> types::tier_views(tiers)[i] == tiers[i]@,
        types::address_views(addresses).len() == addresses.len(),
        0 <= i < addresses.len() ==> types::address_views(addresses)[i] == addresses[i].text@,
        action::action_views(actions).len() == actions.len(),
        0 <= i < actions.len() ==> action::action_views(actions)[i] == actions[i]@,
        action::value_views(values).len() == values.len(),
        0 <= i < values.len() ==> action::value_views(values)[i] == values[i]@,
{
}

/// A key, a value and a request each stand for one of their own kind, with all that they
/// hold.
pub proof fn requests_stand_for_all_they_hold(
    id: u32,
    amount: i128,
    address: Address,
    from: Address,
    to: Address,
    bytes: Vec<u8>,
    key: DataKey,
    threshold: u32,
    extend_to: u32,
    name: String,
    values: Vec<Value>,
)
    ensures
        DataKey::Event(id)@ == DataKeyView::Event(id),
        DataKey::EventCounter@ == DataKeyView::EventCounter,
        DataKey::TicketFactory@ == DataKeyView::TicketFactory,
        DataKey::RefundClaimed(id, address)@ == DataKeyView::RefundClaimed(id, address.text@),
        DataKey::EventBuyers(id)@ == DataKeyView::EventBuyers(id),
        DataKey::EventTiers(id)@ == DataKeyView::EventTiers(id),
        Value::U32(id)@ == ValueView::U32(id),
        Value::I128(amount)@ == ValueView::I128(amount),
        Value::Address(address)@ == ValueView::Address(address.text@),
        Value::Bytes(bytes)@ == ValueView::Bytes(bytes@),
        Action::RequireAuth(address)@ == ActionView::RequireAuth(address.text@),
        Action::Write(key)@ == ActionView::Write(key@),
        (Action::ExtendTtl { key, threshold, extend_to })@ == (ActionView::ExtendTtl {
            key: key@,
            threshold,
            extend_to,
        }),
        (Action::Transfer { token: address, from, to, amount })@ == (ActionView::Transfer {
            token: address.text@,
            from: from.text@,
            to: to.text@,
            amount,
        }),
        (Action::Invoke { contract: address, function: name, args: values })@ == (
        ActionView::Invoke {
            contract: address.text@,
            function: name@,
            args: action::value_views(values@),
        }),
        (Action::Publish { topic: name, data: values })@ == (ActionView::Publish {
            topic: name@,
            data: action::value_views(values@),
        }),
{
}

} // verus!
