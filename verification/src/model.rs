//! What each invocation of the event manager comes to: its result, the entries
//! it leaves behind and what it asks of the host.

use crate::action::{ActionView, ValueView};
use crate::env::Store;
use crate::refusal::Refusal;
use crate::types::{
    CreateEventParamsView, DataKeyView, Error, EventView, TicketTierView, TierConfigView,
};
use vstd::prelude::*;

verus! {

/// An event is kept alive if it would expire within this many ledgers: thirty
/// days, at five seconds a ledger.
pub const TTL_THRESHOLD: u32 = 30 * 24 * 60 * 60 / 5;

/// How many ledgers an event is then kept alive for: a hundred days.
pub const TTL_EXTENSION: u32 = 100 * 24 * 60 * 60 / 5;

/// The request that keeps an event alive.
pub open spec fn keep_event_alive(id: u32) -> ActionView {
    ActionView::ExtendTtl {
        key: DataKeyView::Event(id),
        threshold: TTL_THRESHOLD,
        extend_to: TTL_EXTENSION,
    }
}

/// The transfer of an amount, if there is anything to transfer.
pub open spec fn payment(
    token: Seq<char>,
    from: Seq<char>,
    to: Seq<char>,
    amount: i128,
) -> Seq<ActionView> {
    if amount > 0 {
        seq![ActionView::Transfer { token, from, to, amount }]
    } else {
        seq![]
    }
}

// ---- initialize

/// What an initialization returns.
pub open spec fn initialize_result(store: Store) -> Result<(), Error> {
    if store.ticket_factory is Some {
        Err(Error::AlreadyInitialized)
    } else {
        Ok(())
    }
}

/// What an initialization asks of the host.
pub open spec fn initialize_actions(store: Store) -> Seq<ActionView> {
    if store.ticket_factory is Some {
        seq![]
    } else {
        seq![
            ActionView::Write(DataKeyView::TicketFactory),
            ActionView::Write(DataKeyView::EventCounter),
        ]
    }
}

/// The store once the factory is known and no event has been created.
pub open spec fn initialized_store(store: Store, factory: Seq<char>) -> Store {
    store.with_factory(factory).with_counter(0)
}

// ---- create_event

/// What is wrong with the dates, price or ticket count of a new event.
pub open spec fn validation_result(
    now: u64,
    start_date: u64,
    end_date: u64,
    ticket_price: i128,
    total_tickets: u128,
) -> Result<(), Error> {
    if start_date < now {
        Err(Error::InvalidStartDate)
    } else if end_date <= start_date {
        Err(Error::InvalidEndDate)
    } else if ticket_price < 0 {
        Err(Error::NegativeTicketPrice)
    } else if total_tickets == 0 {
        Err(Error::InvalidTicketCount)
    } else {
        Ok(())
    }
}

/// What is wrong with one tier of a new event.
pub open spec fn config_error(config: TierConfigView) -> Option<Error> {
    if config.price < 0 {
        Some(Error::NegativeTicketPrice)
    } else if config.total_quantity == 0 {
        Some(Error::InvalidTierConfig)
    } else {
        None
    }
}

/// What is wrong with the first tier with which anything is wrong.
pub open spec fn first_config_error(configs: Seq<TierConfigView>) -> Option<Error>
    decreases configs.len(),
{
    if configs.len() == 0 {
        None
    } else if first_config_error(configs.drop_last()) is Some {
        first_config_error(configs.drop_last())
    } else {
        config_error(configs.last())
    }
}

/// What is wrong with a prefix is what is wrong with the whole.
pub proof fn lemma_first_config_error_of_prefix(configs: Seq<TierConfigView>, n: int)
    requires
        0 <= n <= configs.len(),
        first_config_error(configs.take(n)) is Some,
    ensures
        first_config_error(configs) == first_config_error(configs.take(n)),
    decreases configs.len(),
{
    if n < configs.len() {
        assert(configs.drop_last().take(n) =~= configs.take(n));
        lemma_first_config_error_of_prefix(configs.drop_last(), n);
    } else {
        assert(configs.take(n) =~= configs);
    }
}

/// A tier of which no ticket has been sold yet.
pub open spec fn unsold_tier(config: TierConfigView) -> TicketTierView {
    TicketTierView {
        name: config.name,
        price: config.price,
        total_quantity: config.total_quantity,
        sold_quantity: 0,
    }
}

/// The tiers of a new event: those asked for or, if none were, a single one with
/// the price and the ticket count of the event.
pub open spec fn resolved_tiers(params: CreateEventParamsView) -> Seq<TicketTierView> {
    if params.tiers.len() == 0 {
        seq![
            TicketTierView {
                name: "General"@,
                price: params.ticket_price,
                total_quantity: params.total_tickets,
                sold_quantity: 0,
            },
        ]
    } else {
        params.tiers.map_values(|config: TierConfigView| unsold_tier(config))
    }
}

/// The number of tickets that all tiers offer together.
pub open spec fn total_quantity(tiers: Seq<TicketTierView>) -> nat
    decreases tiers.len(),
{
    if tiers.len() == 0 {
        0
    } else {
        total_quantity(tiers.drop_last()) + tiers.last().total_quantity as nat
    }
}

/// Some of the tiers offer no more than all of them.
pub proof fn lemma_total_quantity_of_prefix(tiers: Seq<TicketTierView>, n: int)
    requires
        0 <= n <= tiers.len(),
    ensures
        total_quantity(tiers.take(n)) <= total_quantity(tiers),
    decreases tiers.len(),
{
    if n < tiers.len() {
        assert(tiers.drop_last().take(n) =~= tiers.take(n));
        lemma_total_quantity_of_prefix(tiers.drop_last(), n);
    } else {
        assert(tiers.take(n) =~= tiers);
    }
}

/// The number of tickets that have been sold of all tiers together.
pub open spec fn sold_quantity(tiers: Seq<TicketTierView>) -> nat
    decreases tiers.len(),
{
    if tiers.len() == 0 {
        0
    } else {
        sold_quantity(tiers.drop_last()) + tiers.last().sold_quantity as nat
    }
}

/// What is wrong with the parameters of a new event.
pub open spec fn params_error(now: u64, params: CreateEventParamsView) -> Option<Error> {
    match validation_result(
        now,
        params.start_date,
        params.end_date,
        params.ticket_price,
        params.total_tickets,
    ) {
        Err(error) => Some(error),
        Ok(_) => first_config_error(params.tiers),
    }
}

/// Whether the parameters are in order but for the tickets of all tiers together,
/// which are too many to be counted.
pub open spec fn ticket_count_overflows(now: u64, params: CreateEventParamsView) -> bool {
    params_error(now, params) is None && total_quantity(resolved_tiers(params)) > u128::MAX
}

/// Why an event cannot be created.
pub open spec fn creation_error(
    store: Store,
    now: u64,
    params: CreateEventParamsView,
) -> Option<Error> {
    if params_error(now, params) is Some {
        params_error(now, params)
    } else if store.event_count() == u32::MAX {
        Some(Error::CounterOverflow)
    } else if store.ticket_factory is None {
        Some(Error::FactoryNotInitialized)
    } else {
        None
    }
}

/// Whether an id is taken for the new event, which is done before the factory is
/// looked up.
pub open spec fn takes_id(store: Store, now: u64, params: CreateEventParamsView) -> bool {
    params_error(now, params) is None && store.event_count() < u32::MAX
}

/// The store when the factory is asked for a ticket contract, or when the
/// creation fails.
pub open spec fn prepared_store(store: Store, now: u64, params: CreateEventParamsView) -> Store {
    if takes_id(store, now, params) {
        store.with_counter((store.event_count() + 1) as u32)
    } else {
        store
    }
}

/// The request for a ticket contract: the factory is handed the address of the
/// event manager and a salt of zeros.
pub open spec fn deployment(factory: Seq<char>, contract: Seq<char>) -> ActionView {
    ActionView::Invoke {
        contract: factory,
        function: "deploy_ticket"@,
        args: seq![
            ValueView::Address(contract),
            ValueView::Bytes(Seq::new(32, |i: int| 0u8)),
        ],
    }
}

/// What the request for a ticket contract returns.
pub open spec fn deploy_result(store: Store) -> Result<(), Error> {
    match store.ticket_factory {
        Some(_) => Ok(()),
        None => Err(Error::FactoryNotInitialized),
    }
}

/// The request for a ticket contract, if there is a factory to be asked.
pub open spec fn deploy_actions(store: Store, contract: Seq<char>) -> Seq<ActionView> {
    match store.ticket_factory {
        Some(factory) => seq![deployment(factory, contract)],
        None => seq![],
    }
}

/// What is asked of the host up to the request for a ticket contract.
pub open spec fn prepare_actions(
    store: Store,
    now: u64,
    contract: Seq<char>,
    params: CreateEventParamsView,
) -> Seq<ActionView> {
    let signed = seq![ActionView::RequireAuth(params.organizer)];
    if takes_id(store, now, params) {
        signed.push(ActionView::Write(DataKeyView::EventCounter)) + deploy_actions(store, contract)
    } else {
        signed
    }
}

/// A new event: its ticket count is that of all its tiers, its price that of the
/// first.
pub open spec fn new_event(
    id: u32,
    params: CreateEventParamsView,
    ticket_nft_addr: Seq<char>,
) -> EventView {
    EventView {
        id,
        theme: params.theme,
        organizer: params.organizer,
        event_type: params.event_type,
        total_tickets: total_quantity(resolved_tiers(params)) as u128,
        tickets_sold: 0,
        ticket_price: resolved_tiers(params)[0].price,
        start_date: params.start_date,
        end_date: params.end_date,
        is_canceled: false,
        ticket_nft_addr,
        payment_token: params.payment_token,
    }
}

/// What is asked of the host once the ticket contract is there.
pub open spec fn record_actions(
    id: u32,
    organizer: Seq<char>,
    ticket_nft_addr: Seq<char>,
) -> Seq<ActionView> {
    seq![
        ActionView::Write(DataKeyView::Event(id)),
        ActionView::Write(DataKeyView::EventTiers(id)),
        keep_event_alive(id),
        ActionView::Publish {
            topic: "event_created"@,
            data: seq![
                ValueView::U32(id),
                ValueView::Address(organizer),
                ValueView::Address(ticket_nft_addr),
            ],
        },
    ]
}

/// What a creation returns: the id of the event, which is the number of events before
/// it.
pub open spec fn create_result(
    store: Store,
    now: u64,
    params: CreateEventParamsView,
) -> Result<u32, Error> {
    match creation_error(store, now, params) {
        Some(error) => Err(error),
        None => Ok(store.event_count()),
    }
}

/// The store once the event is created.
pub open spec fn created_store(
    store: Store,
    params: CreateEventParamsView,
    ticket_nft_addr: Seq<char>,
) -> Store {
    let id = store.event_count();
    store.with_counter((id + 1) as u32).with_event(
        id,
        new_event(id, params, ticket_nft_addr),
    ).with_tiers(id, resolved_tiers(params))
}

// ---- the queries

/// The events with an id below the given one, in the order of their ids.
pub open spec fn events_below(events: Map<u32, EventView>, count: u32) -> Seq<EventView> {
    Seq::new(count as nat, |i: int| i as u32).filter(|id: u32| events.contains_key(id)).map_values(
        |id: u32| events[id],
    )
}

/// No event has an id below the first.
pub proof fn lemma_events_below_none(events: Map<u32, EventView>)
    ensures
        events_below(events, 0) == Seq::<EventView>::empty(),
{
    let ids = Seq::new(0, |i: int| i as u32);
    reveal_with_fuel(Seq::filter, 1);
    assert(ids.filter(|id: u32| events.contains_key(id)).len() == 0);
    assert(events_below(events, 0) =~= Seq::empty());
}

/// The next event, if there is one, comes last.
pub proof fn lemma_events_below_next(events: Map<u32, EventView>, count: u32)
    requires
        count < u32::MAX,
    ensures
        events_below(events, (count + 1) as u32) == if events.contains_key(count) {
            events_below(events, count).push(events[count])
        } else {
            events_below(events, count)
        },
{
    let stored = |id: u32| events.contains_key(id);
    let ids = Seq::new(count as nat, |i: int| i as u32);
    let next = Seq::new((count + 1) as nat, |i: int| i as u32);
    reveal_with_fuel(Seq::filter, 1);
    assert(next.drop_last() =~= ids);
    assert(next.last() == count);
    assert(events_below(events, (count + 1) as u32) =~= if events.contains_key(count) {
        events_below(events, count).push(events[count])
    } else {
        events_below(events, count)
    });
}

// ---- cancel_event

/// What a cancellation returns.
pub open spec fn cancel_result(store: Store, id: u32) -> Result<(), Error> {
    if !store.events.contains_key(id) {
        Err(Error::EventNotFound)
    } else if store.events[id].is_canceled {
        Err(Error::EventAlreadyCanceled)
    } else {
        Ok(())
    }
}

/// The store once the event is canceled.
pub open spec fn canceled_store(store: Store, id: u32) -> Store {
    store.with_event(id, EventView { is_canceled: true, ..store.events[id] })
}

/// What a cancellation asks of the host, the signature of the organizer first.
pub open spec fn cancel_actions(store: Store, id: u32) -> Seq<ActionView> {
    if !store.events.contains_key(id) {
        seq![]
    } else if store.events[id].is_canceled {
        seq![ActionView::RequireAuth(store.events[id].organizer)]
    } else {
        seq![
            ActionView::RequireAuth(store.events[id].organizer),
            ActionView::Write(DataKeyView::Event(id)),
            ActionView::Publish { topic: "event_canceled"@, data: seq![ValueView::U32(id)] },
        ]
    }
}

// ---- claim_refund

/// Why a refund is refused.
pub open spec fn refund_refusal(store: Store, claimer: Seq<char>, id: u32) -> Option<Refusal> {
    if !store.events.contains_key(id) {
        Some(Refusal::EventNotFound)
    } else if !store.events[id].is_canceled {
        Some(Refusal::EventNotCanceled)
    } else if store.refunds.contains((id, claimer)) {
        Some(Refusal::RefundAlreadyClaimed)
    } else if !store.buyers_of(id).contains(claimer) {
        Some(Refusal::NotABuyer)
    } else {
        None
    }
}

/// What a claim asks of the host, the signature of the claimer first. The refund is
/// paid by the organizer.
pub open spec fn refund_actions(store: Store, claimer: Seq<char>, id: u32) -> Seq<ActionView> {
    let signed = seq![ActionView::RequireAuth(claimer)];
    if refund_refusal(store, claimer, id) is Some {
        signed
    } else {
        let event = store.events[id];
        signed + seq![ActionView::Write(DataKeyView::RefundClaimed(id, claimer))] + payment(
            event.payment_token,
            event.organizer,
            claimer,
            event.ticket_price,
        ) + seq![
            ActionView::Publish {
                topic: "refund_claimed"@,
                data: seq![
                    ValueView::U32(id),
                    ValueView::Address(claimer),
                    ValueView::I128(event.ticket_price),
                ],
            },
        ]
    }
}

// ---- update_event

/// The changes that an organizer asks for. What is `None` stays as it is.
pub struct EventChanges {
    pub theme: Option<Seq<char>>,
    pub ticket_price: Option<i128>,
    pub total_tickets: Option<u128>,
    pub start_date: Option<u64>,
    pub end_date: Option<u64>,
}

/// The event with the changes made.
pub open spec fn changed_event(event: EventView, changes: EventChanges) -> EventView {
    EventView {
        theme: match changes.theme {
            Some(theme) => theme,
            None => event.theme,
        },
        ticket_price: match changes.ticket_price {
            Some(price) => price,
            None => event.ticket_price,
        },
        total_tickets: match changes.total_tickets {
            Some(total) => total,
            None => event.total_tickets,
        },
        start_date: match changes.start_date {
            Some(start) => start,
            None => event.start_date,
        },
        end_date: match changes.end_date {
            Some(end) => end,
            None => event.end_date,
        },
        ..event
    }
}

/// The first of the changes that cannot be made, of those to a stored event that
/// is not canceled.
pub open spec fn change_refusal(
    event: EventView,
    now: u64,
    changes: EventChanges,
) -> Option<Refusal> {
    let changed = changed_event(event, changes);
    if changes.ticket_price is Some && changed.ticket_price < 0 {
        Some(Refusal::NegativeTicketPrice)
    } else if changes.total_tickets is Some && changed.total_tickets == 0 {
        Some(Refusal::NoTickets)
    } else if changes.total_tickets is Some && changed.total_tickets < event.tickets_sold {
        Some(Refusal::FewerTicketsThanSold)
    } else if changes.start_date is Some && changed.start_date < now {
        Some(Refusal::StartInPast)
    } else if changes.start_date is Some && changed.start_date >= changed.end_date {
        Some(Refusal::StartNotBeforeEnd)
    } else if changes.end_date is Some && changed.end_date < now {
        Some(Refusal::EndInPast)
    } else if changes.end_date is Some && changed.start_date >= changed.end_date {
        Some(Refusal::EndNotAfterStart)
    } else {
        None
    }
}

/// Why an update is refused.
pub open spec fn update_refusal(
    store: Store,
    now: u64,
    id: u32,
    changes: EventChanges,
) -> Option<Refusal> {
    if !store.events.contains_key(id) {
        Some(Refusal::EventNotFound)
    } else if store.events[id].is_canceled {
        Some(Refusal::UpdateOfCanceledEvent)
    } else {
        change_refusal(store.events[id], now, changes)
    }
}

/// The store once the event is updated.
pub open spec fn updated_store(store: Store, id: u32, changes: EventChanges) -> Store {
    store.with_event(id, changed_event(store.events[id], changes))
}

/// What an update asks of the host, the signature of the organizer first.
pub open spec fn update_actions(
    store: Store,
    now: u64,
    id: u32,
    changes: EventChanges,
) -> Seq<ActionView> {
    let organizer = store.events[id].organizer;
    if !store.events.contains_key(id) {
        seq![]
    } else if update_refusal(store, now, id, changes) is Some {
        seq![ActionView::RequireAuth(organizer)]
    } else {
        seq![
            ActionView::RequireAuth(organizer),
            ActionView::Write(DataKeyView::Event(id)),
            keep_event_alive(id),
            ActionView::Publish {
                topic: "event_updated"@,
                data: seq![ValueView::U32(id), ValueView::Address(organizer)],
            },
        ]
    }
}

// ---- update_tickets_sold

/// What a report of tickets sold returns.
pub open spec fn sold_result(store: Store, id: u32, amount: u128) -> Result<(), Error> {
    if !store.events.contains_key(id) {
        Err(Error::EventNotFound)
    } else if store.events[id].tickets_sold + amount > u128::MAX {
        Err(Error::CounterOverflow)
    } else if store.events[id].tickets_sold + amount > store.events[id].total_tickets {
        Err(Error::CannotSellMoreTickets)
    } else {
        Ok(())
    }
}

/// The store once the tickets reported are counted.
pub open spec fn sold_store(store: Store, id: u32, amount: u128) -> Store {
    let event = store.events[id];
    store.with_event(
        id,
        EventView { tickets_sold: (event.tickets_sold + amount) as u128, ..event },
    )
}

/// What a report of tickets sold asks of the host, the signature of the ticket
/// contract first.
pub open spec fn sold_actions(store: Store, id: u32, amount: u128) -> Seq<ActionView> {
    if !store.events.contains_key(id) {
        seq![]
    } else if sold_result(store, id, amount) is Err {
        seq![ActionView::RequireAuth(store.events[id].ticket_nft_addr)]
    } else {
        seq![
            ActionView::RequireAuth(store.events[id].ticket_nft_addr),
            ActionView::Write(DataKeyView::Event(id)),
        ]
    }
}

// ---- purchase_ticket

/// Why a purchase is refused.
pub open spec fn purchase_refusal(store: Store, id: u32, tier_index: u32) -> Option<Refusal> {
    if !store.events.contains_key(id) {
        Some(Refusal::EventNotFound)
    } else if store.events[id].is_canceled {
        Some(Refusal::EventCanceled)
    } else if !store.tiers.contains_key(id) {
        Some(Refusal::TiersNotFound)
    } else if tier_index >= store.tiers[id].len() {
        Some(Refusal::InvalidTierIndex)
    } else if store.tiers[id][tier_index as int].sold_quantity
        >= store.tiers[id][tier_index as int].total_quantity {
        Some(Refusal::TierSoldOut)
    } else if store.events[id].tickets_sold == u128::MAX {
        Some(Refusal::TicketCountOverflow)
    } else {
        None
    }
}

/// The tier with one more ticket sold.
pub open spec fn sold_one(tier: TicketTierView) -> TicketTierView {
    TicketTierView { sold_quantity: (tier.sold_quantity + 1) as u128, ..tier }
}

/// The store once the ticket is sold: the tier and the event count one more
/// ticket, the buyer is noted, and the price of the event is that of the tier.
pub open spec fn purchased_store(
    store: Store,
    buyer: Seq<char>,
    id: u32,
    tier_index: u32,
) -> Store {
    let event = store.events[id];
    let tier = store.tiers[id][tier_index as int];
    store.with_tiers(id, store.tiers[id].update(tier_index as int, sold_one(tier))).with_buyers(
        id,
        store.buyers_of(id).push(buyer),
    ).with_event(
        id,
        EventView {
            tickets_sold: (event.tickets_sold + 1) as u128,
            ticket_price: tier.price,
            ..event
        },
    )
}

/// What a purchase asks of the host, the signature of the buyer first. The ticket is
/// paid to the organizer and minted by the ticket contract of the event.
pub open spec fn purchase_actions(
    store: Store,
    buyer: Seq<char>,
    id: u32,
    tier_index: u32,
) -> Seq<ActionView> {
    let signed = seq![ActionView::RequireAuth(buyer)];
    if purchase_refusal(store, id, tier_index) is Some {
        signed
    } else {
        let event = store.events[id];
        signed + payment(
            event.payment_token,
            buyer,
            event.organizer,
            store.tiers[id][tier_index as int].price,
        ) + seq![
            ActionView::Invoke {
                contract: event.ticket_nft_addr,
                function: "mint_ticket_nft"@,
                args: seq![ValueView::Address(buyer)],
            },
            ActionView::Write(DataKeyView::EventTiers(id)),
            ActionView::Write(DataKeyView::EventBuyers(id)),
            ActionView::Write(DataKeyView::Event(id)),
            keep_event_alive(id),
            ActionView::Publish {
                topic: "ticket_purchased"@,
                data: seq![
                    ValueView::U32(id),
                    ValueView::Address(buyer),
                    ValueView::Address(event.ticket_nft_addr),
                    ValueView::U32(tier_index),
                ],
            },
        ]
    }
}

} // verus!
