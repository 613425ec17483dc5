//! The event manager.

use crate::action::{self, Action, ActionView, Value, ValueView};
use crate::env::Env;
use crate::model::{self, EventChanges, TTL_EXTENSION, TTL_THRESHOLD};
use crate::refusal::Refusal;
use crate::types::{
    self, Address, CreateEventParams, CreateEventParamsView, DataKey, DataKeyView, Error, Event,
    EventView, TicketTier, TicketTierView,
};
use vstd::prelude::*;

verus! {

/// An event for which everything is settled but the address of its ticket
/// contract.
#[derive(Debug, PartialEq, Eq)]
pub struct PendingEvent {
    pub event_id: u32,
    pub params: CreateEventParams,
    pub tiers: Vec<TicketTier>,
    pub total_tickets: u128,
    pub ticket_price: i128,
}

pub struct PendingEventView {
    pub event_id: u32,
    pub params: CreateEventParamsView,
    pub tiers: Seq<TicketTierView>,
    pub total_tickets: u128,
    pub ticket_price: i128,
}

impl View for PendingEvent {
    type V = PendingEventView;

    open spec fn view(&self) -> PendingEventView {
        PendingEventView {
            event_id: self.event_id,
            params: self.params@,
            tiers: types::tier_views(self.tiers@),
            total_tickets: self.total_tickets,
            ticket_price: self.ticket_price,
        }
    }
}

/// The event manager contract.
pub struct EventManager;

impl EventManager {
    /// Initialize the contract with the ticket factory address.
    pub fn initialize(env: &mut Env, ticket_factory: Address) -> (result: Result<(), Error>)
        ensures
            result == model::initialize_result(old(env)@.store),
            final(env)@ == old(env)@.storing(
                if result is Ok {
                    model::initialized_store(old(env)@.store, ticket_factory@)
                } else {
                    old(env)@.store
                },
            ).asking(model::initialize_actions(old(env)@.store)),
    {
        if env.ticket_factory().is_some() {
            return Err(Error::AlreadyInitialized);
        }
        env.write_ticket_factory(ticket_factory);
        env.write_event_counter(0);
        Ok(())
    }

    /// Create a new event.
    ///
    /// `params.tiers` holds an optional multi-tier config. If it is empty, the event
    /// gets a single tier with `params.ticket_price` and `params.total_tickets`.
    ///
    /// `ticket_nft_addr` is what the ticket factory answers to the request for a
    /// ticket contract. A host that can tell the answer only once it has carried
    /// out the request calls `prepare_event` and `record_event` in turn.
    ///
    /// The id is taken before the factory is looked up. Where there is no factory
    /// the counter has already moved on when the error is returned, and it is for
    /// the host to undo that, as it undoes whatever a failing invocation wrote.
    pub fn create_event(
        env: &mut Env,
        params: CreateEventParams,
        ticket_nft_addr: Address,
    ) -> (result: Result<u32, Error>)
        requires
            !model::ticket_count_overflows(old(env)@.timestamp, params@),
        ensures
            result == model::create_result(old(env)@.store, old(env)@.timestamp, params@),
            final(env)@ == old(env)@.storing(
                if result is Ok {
                    model::created_store(old(env)@.store, params@, ticket_nft_addr@)
                } else {
                    model::prepared_store(old(env)@.store, old(env)@.timestamp, params@)
                },
            ).asking(
                model::prepare_actions(
                    old(env)@.store,
                    old(env)@.timestamp,
                    old(env)@.contract,
                    params@,
                ) + if result is Ok {
                    model::record_actions(result->Ok_0, params@.organizer, ticket_nft_addr@)
                } else {
                    seq![]
                },
            ),
    {
        let pending = match Self::prepare_event(env, params) {
            Ok(pending) => pending,
            Err(error) => return Err(error),
        };
        Ok(Self::record_event(env, pending, ticket_nft_addr))
    }

    /// Creates an event up to the request to the factory for a ticket contract.
    pub fn prepare_event(env: &mut Env, params: CreateEventParams) -> (result: Result<
        PendingEvent,
        Error,
    >)
        requires
            !model::ticket_count_overflows(old(env)@.timestamp, params@),
        ensures
            match result {
                Ok(pending) => {
                    &&& model::creation_error(
                        old(env)@.store,
                        old(env)@.timestamp,
                        params@,
                    ) is None
                    &&& pending@ == (PendingEventView {
                        event_id: old(env)@.store.event_count(),
                        params: params@,
                        tiers: model::resolved_tiers(params@),
                        total_tickets: model::total_quantity(
                            model::resolved_tiers(params@),
                        ) as u128,
                        ticket_price: model::resolved_tiers(params@)[0].price,
                    })
                },
                Err(error) => model::creation_error(
                    old(env)@.store,
                    old(env)@.timestamp,
                    params@,
                ) == Some(error),
            },
            final(env)@ == old(env)@.storing(
                model::prepared_store(old(env)@.store, old(env)@.timestamp, params@),
            ).asking(
                model::prepare_actions(
                    old(env)@.store,
                    old(env)@.timestamp,
                    old(env)@.contract,
                    params@,
                ),
            ),
    {
        env.ask(Action::RequireAuth(params.organizer.clone()));
        let tiers = match Self::checked_tiers(env.timestamp(), &params) {
            Ok(tiers) => tiers,
            Err(error) => return Err(error),
        };
        let total_tickets: u128 = Self::checked_total(&tiers).unwrap();
        let ticket_price: i128 = tiers[0].price;
        let event_id: u32 = match Self::get_and_increment_counter(env) {
            Ok(event_id) => event_id,
            Err(error) => return Err(error),
        };
        match Self::deploy_ticket_nft(env, event_id, &params.theme, total_tickets) {
            Ok(_) => {},
            Err(error) => return Err(error),
        }
        Ok(PendingEvent { event_id, params, tiers, total_tickets, ticket_price })
    }

    /// Stores an event, with the address of its ticket contract.
    pub fn record_event(env: &mut Env, pending: PendingEvent, ticket_nft_addr: Address) -> (id: u32)
        ensures
            id == pending@.event_id,
            final(env)@ == old(env)@.storing(
                old(env)@.store.with_event(
                    id,
                    EventView {
                        id,
                        theme: pending@.params.theme,
                        organizer: pending@.params.organizer,
                        event_type: pending@.params.event_type,
                        total_tickets: pending@.total_tickets,
                        tickets_sold: 0,
                        ticket_price: pending@.ticket_price,
                        start_date: pending@.params.start_date,
                        end_date: pending@.params.end_date,
                        is_canceled: false,
                        ticket_nft_addr: ticket_nft_addr@,
                        payment_token: pending@.params.payment_token,
                    },
                ).with_tiers(id, pending@.tiers),
            ).asking(
                model::record_actions(id, pending@.params.organizer, ticket_nft_addr@),
            ),
    {
        let event_id: u32 = pending.event_id;
        let params = pending.params;
        let organizer = params.organizer.clone();
        let event = Event {
            id: event_id,
            theme: params.theme,
            organizer: params.organizer,
            event_type: params.event_type,
            total_tickets: pending.total_tickets,
            tickets_sold: 0,
            ticket_price: pending.ticket_price,
            start_date: params.start_date,
            end_date: params.end_date,
            is_canceled: false,
            ticket_nft_addr: ticket_nft_addr.clone(),
            payment_token: params.payment_token,
        };
        env.write_event(event_id, event);
        env.write_event_tiers(event_id, pending.tiers);
        Self::keep_event_alive(env, event_id);
        let data: Vec<Value> = vec![
            Value::U32(event_id),
            Value::Address(organizer),
            Value::Address(ticket_nft_addr),
        ];
        assert(action::value_views(data@) =~= seq![
            ValueView::U32(event_id),
            ValueView::Address(organizer@),
            ValueView::Address(ticket_nft_addr@),
        ]);
        Self::publish(env, "event_created", data);
        event_id
    }

    /// Whether the parameters are in order but for the tickets of all tiers
    /// together, which are too many to be counted. Such an event cannot be
    /// created.
    pub fn ticket_count_overflows(env: &Env, params: &CreateEventParams) -> (overflows: bool)
        ensures
            overflows == model::ticket_count_overflows(env@.timestamp, params@),
    {
        match Self::checked_tiers(env.timestamp(), params) {
            Ok(tiers) => Self::checked_total(&tiers).is_none(),
            Err(_) => false,
        }
    }

    /// Get event by ID.
    pub fn get_event(env: &Env, event_id: u32) -> (result: Result<Event, Error>)
        ensures
            match result {
                Ok(event) => env@.store.events.contains_key(event_id) && event@
                    == env@.store.events[event_id],
                Err(error) => !env@.store.events.contains_key(event_id) && error
                    == Error::EventNotFound,
            },
    {
        match env.event(event_id) {
            Some(event) => Ok(event.clone()),
            None => Err(Error::EventNotFound),
        }
    }

    /// Get tiers for an event.
    pub fn get_event_tiers(env: &Env, event_id: u32) -> (result: Result<Vec<TicketTier>, Error>)
        ensures
            match result {
                Ok(tiers) => env@.store.tiers.contains_key(event_id) && types::tier_views(tiers@)
                    == env@.store.tiers[event_id],
                Err(error) => !env@.store.tiers.contains_key(event_id) && error
                    == Error::EventNotFound,
            },
    {
        match env.event_tiers(event_id) {
            Some(tiers) => {
                let copy = tiers.clone();
                assert(types::tier_views(copy@) =~= types::tier_views(tiers@));
                Ok(copy)
            },
            None => Err(Error::EventNotFound),
        }
    }

    /// Get the total number of events.
    pub fn get_event_count(env: &Env) -> (count: u32)
        ensures
            count == env@.store.event_count(),
    {
        env.event_counter().unwrap_or(0)
    }

    /// Get all events, in the order in which they were created.
    pub fn get_all_events(env: &Env) -> (events: Vec<Event>)
        ensures
            types::event_views(events@) == model::events_below(
                env@.store.events,
                env@.store.event_count(),
            ),
    {
        let count: u32 = Self::get_event_count(env);
        let mut events: Vec<Event> = Vec::new();
        let mut i: u32 = 0;
        proof {
            model::lemma_events_below_none(env@.store.events);
        }
        assert(types::event_views(events@) =~= Seq::empty());
        while i < count
            invariant
                i <= count,
                types::event_views(events@) == model::events_below(env@.store.events, i),
            decreases count - i,
        {
            let ghost before = types::event_views(events@);
            proof {
                model::lemma_events_below_next(env@.store.events, i);
            }
            if let Some(event) = env.event(i) {
                events.push(event.clone());
                assert(types::event_views(events@) =~= before.push(env@.store.events[i]));
            }
            i += 1;
        }
        events
    }

    /// Cancel an event.
    pub fn cancel_event(env: &mut Env, event_id: u32) -> (result: Result<(), Error>)
        ensures
            result == model::cancel_result(old(env)@.store, event_id),
            final(env)@ == old(env)@.storing(
                if result is Ok {
                    model::canceled_store(old(env)@.store, event_id)
                } else {
                    old(env)@.store
                },
            ).asking(model::cancel_actions(old(env)@.store, event_id)),
    {
        let mut event = match Self::get_event(env, event_id) {
            Ok(event) => event,
            Err(error) => return Err(error),
        };
        env.ask(Action::RequireAuth(event.organizer.clone()));
        if event.is_canceled {
            return Err(Error::EventAlreadyCanceled);
        }
        event.is_canceled = true;
        env.write_event(event_id, event);
        let data: Vec<Value> = vec![Value::U32(event_id)];
        assert(action::value_views(data@) =~= seq![ValueView::U32(event_id)]);
        Self::publish(env, "event_canceled", data);
        Ok(())
    }

    /// Claim refund for a canceled event (pull model).
    pub fn claim_refund(env: &mut Env, claimer: Address, event_id: u32) -> (result: Result<
        (),
        Refusal,
    >)
        ensures
            result == (match model::refund_refusal(old(env)@.store, claimer@, event_id) {
                Some(refusal) => Err(refusal),
                None => Ok(()),
            }),
            final(env)@ == old(env)@.storing(
                if result is Ok {
                    old(env)@.store.with_refund(event_id, claimer@)
                } else {
                    old(env)@.store
                },
            ).asking(model::refund_actions(old(env)@.store, claimer@, event_id)),
    {
        env.ask(Action::RequireAuth(claimer.clone()));
        let event = match Self::get_event(env, event_id) {
            Ok(event) => event,
            Err(_) => return Err(Refusal::EventNotFound),
        };
        if !event.is_canceled {
            return Err(Refusal::EventNotCanceled);
        }
        if env.refund_claimed(event_id, &claimer) {
            return Err(Refusal::RefundAlreadyClaimed);
        }
        if !Self::bought_ticket(env, event_id, &claimer) {
            return Err(Refusal::NotABuyer);
        }
        env.write_refund_claimed(event_id, claimer.clone());
        Self::pay(env, &event.payment_token, &event.organizer, &claimer, event.ticket_price);
        let data: Vec<Value> = vec![
            Value::U32(event_id),
            Value::Address(claimer),
            Value::I128(event.ticket_price),
        ];
        assert(action::value_views(data@) =~= seq![
            ValueView::U32(event_id),
            ValueView::Address(claimer@),
            ValueView::I128(event.ticket_price),
        ]);
        Self::publish(env, "refund_claimed", data);
        Ok(())
    }

    /// Update event details. What is `None` stays as it is.
    pub fn update_event(
        env: &mut Env,
        event_id: u32,
        theme: Option<String>,
        ticket_price: Option<i128>,
        total_tickets: Option<u128>,
        start_date: Option<u64>,
        end_date: Option<u64>,
    ) -> (result: Result<(), Refusal>)
        ensures
            ({
                let changes = EventChanges {
                    theme: match theme {
                        Some(theme) => Some(theme@),
                        None => None,
                    },
                    ticket_price,
                    total_tickets,
                    start_date,
                    end_date,
                };
                let store = old(env)@.store;
                let now = old(env)@.timestamp;
                &&& result == (match model::update_refusal(store, now, event_id, changes) {
                    Some(refusal) => Err(refusal),
                    None => Ok(()),
                })
                &&& final(env)@ == old(env)@.storing(
                    if result is Ok {
                        model::updated_store(store, event_id, changes)
                    } else {
                        store
                    },
                ).asking(model::update_actions(store, now, event_id, changes))
            }),
    {
        let mut event = match Self::get_event(env, event_id) {
            Ok(event) => event,
            Err(_) => return Err(Refusal::EventNotFound),
        };
        env.ask(Action::RequireAuth(event.organizer.clone()));
        if event.is_canceled {
            return Err(Refusal::UpdateOfCanceledEvent);
        }
        let current_time: u64 = env.timestamp();
        if let Some(theme) = theme {
            event.theme = theme;
        }
        if let Some(price) = ticket_price {
            if price < 0 {
                return Err(Refusal::NegativeTicketPrice);
            }
            event.ticket_price = price;
        }
        if let Some(total) = total_tickets {
            if total == 0 {
                return Err(Refusal::NoTickets);
            }
            if total < event.tickets_sold {
                return Err(Refusal::FewerTicketsThanSold);
            }
            event.total_tickets = total;
        }
        let effective_end: u64 = end_date.unwrap_or(event.end_date);
        if let Some(start) = start_date {
            if start < current_time {
                return Err(Refusal::StartInPast);
            }
            if start >= effective_end {
                return Err(Refusal::StartNotBeforeEnd);
            }
            event.start_date = start;
        }
        let effective_start: u64 = start_date.unwrap_or(event.start_date);
        if let Some(end) = end_date {
            if end < current_time {
                return Err(Refusal::EndInPast);
            }
            if end <= effective_start {
                return Err(Refusal::EndNotAfterStart);
            }
            event.end_date = end;
        }
        let organizer = event.organizer.clone();
        env.write_event(event_id, event);
        Self::keep_event_alive(env, event_id);
        let data: Vec<Value> = vec![Value::U32(event_id), Value::Address(organizer)];
        assert(action::value_views(data@) =~= seq![
            ValueView::U32(event_id),
            ValueView::Address(organizer@),
        ]);
        Self::publish(env, "event_updated", data);
        Ok(())
    }

    /// Update tickets sold (called by the ticket NFT contract).
    pub fn update_tickets_sold(env: &mut Env, event_id: u32, amount: u128) -> (result: Result<
        (),
        Error,
    >)
        ensures
            result == model::sold_result(old(env)@.store, event_id, amount),
            final(env)@ == old(env)@.storing(
                if result is Ok {
                    model::sold_store(old(env)@.store, event_id, amount)
                } else {
                    old(env)@.store
                },
            ).asking(model::sold_actions(old(env)@.store, event_id, amount)),
    {
        let mut event = match Self::get_event(env, event_id) {
            Ok(event) => event,
            Err(error) => return Err(error),
        };
        env.ask(Action::RequireAuth(event.ticket_nft_addr.clone()));
        event.tickets_sold = match event.tickets_sold.checked_add(amount) {
            Some(sold) => sold,
            None => return Err(Error::CounterOverflow),
        };
        if event.tickets_sold > event.total_tickets {
            return Err(Error::CannotSellMoreTickets);
        }
        env.write_event(event_id, event);
        Ok(())
    }

    /// Purchase a ticket for an event.
    ///
    /// `tier_index` is an index into the event's tiers: 0 for single-tier events.
    pub fn purchase_ticket(
        env: &mut Env,
        buyer: Address,
        event_id: u32,
        tier_index: u32,
    ) -> (result: Result<(), Refusal>)
        ensures
            result == (match model::purchase_refusal(old(env)@.store, event_id, tier_index) {
                Some(refusal) => Err(refusal),
                None => Ok(()),
            }),
            final(env)@ == old(env)@.storing(
                if result is Ok {
                    model::purchased_store(old(env)@.store, buyer@, event_id, tier_index)
                } else {
                    old(env)@.store
                },
            ).asking(
                model::purchase_actions(old(env)@.store, buyer@, event_id, tier_index),
            ),
    {
        env.ask(Action::RequireAuth(buyer.clone()));
        let mut event = match Self::get_event(env, event_id) {
            Ok(event) => event,
            Err(_) => return Err(Refusal::EventNotFound),
        };
        if event.is_canceled {
            return Err(Refusal::EventCanceled);
        }
        let mut tiers = match Self::get_event_tiers(env, event_id) {
            Ok(tiers) => tiers,
            Err(_) => return Err(Refusal::TiersNotFound),
        };
        let ghost tiers_before = types::tier_views(tiers@);
        if tier_index as usize >= tiers.len() {
            return Err(Refusal::InvalidTierIndex);
        }
        let mut tier = tiers[tier_index as usize].clone();
        assert(tier@ == tiers_before[tier_index as int]);
        if tier.sold_quantity >= tier.total_quantity {
            return Err(Refusal::TierSoldOut);
        }
        if event.tickets_sold == u128::MAX {
            return Err(Refusal::TicketCountOverflow);
        }
        let price: i128 = tier.price;

        Self::pay(env, &event.payment_token, &buyer, &event.organizer, price);
        let args: Vec<Value> = vec![Value::Address(buyer.clone())];
        assert(action::value_views(args@) =~= seq![ValueView::Address(buyer@)]);
        env.ask(
            Action::Invoke {
                contract: event.ticket_nft_addr.clone(),
                function: "mint_ticket_nft".to_string(),
                args,
            },
        );

        tier.sold_quantity = tier.sold_quantity + 1;
        let ghost sold_tier = tier@;
        tiers.set(tier_index as usize, tier);
        assert(types::tier_views(tiers@) =~= tiers_before.update(tier_index as int, sold_tier));
        env.write_event_tiers(event_id, tiers);

        let mut buyers = Self::buyers_of(env, event_id);
        let ghost buyers_before = types::address_views(buyers@);
        buyers.push(buyer.clone());
        assert(types::address_views(buyers@) =~= buyers_before.push(buyer@));
        env.write_event_buyers(event_id, buyers);

        event.tickets_sold = event.tickets_sold + 1;
        event.ticket_price = price;
        let ticket_nft_addr = event.ticket_nft_addr.clone();
        env.write_event(event_id, event);
        Self::keep_event_alive(env, event_id);
        let data: Vec<Value> = vec![
            Value::U32(event_id),
            Value::Address(buyer),
            Value::Address(ticket_nft_addr),
            Value::U32(tier_index),
        ];
        assert(action::value_views(data@) =~= seq![
            ValueView::U32(event_id),
            ValueView::Address(buyer@),
            ValueView::Address(ticket_nft_addr@),
            ValueView::U32(tier_index),
        ]);
        Self::publish(env, "ticket_purchased", data);
        Ok(())
    }

    /// Checks the dates, the price and the ticket count of a new event.
    pub fn validate_event_params(
        current_time: u64,
        start_date: u64,
        end_date: u64,
        ticket_price: i128,
        total_tickets: u128,
    ) -> (result: Result<(), Error>)
        ensures
            result == model::validation_result(
                current_time,
                start_date,
                end_date,
                ticket_price,
                total_tickets,
            ),
    {
        if start_date < current_time {
            return Err(Error::InvalidStartDate);
        }
        if end_date <= start_date {
            return Err(Error::InvalidEndDate);
        }
        if ticket_price < 0 {
            return Err(Error::NegativeTicketPrice);
        }
        if total_tickets == 0 {
            return Err(Error::InvalidTicketCount);
        }
        Ok(())
    }

    /// The tiers of a new event, if its parameters are in order.
    fn checked_tiers(now: u64, params: &CreateEventParams) -> (result: Result<
        Vec<TicketTier>,
        Error,
    >)
        ensures
            match result {
                Ok(tiers) => model::params_error(now, params@) is None && types::tier_views(tiers@)
                    == model::resolved_tiers(params@),
                Err(error) => model::params_error(now, params@) == Some(error),
            },
    {
        match Self::validate_event_params(
            now,
            params.start_date,
            params.end_date,
            params.ticket_price,
            params.total_tickets,
        ) {
            Ok(_) => {},
            Err(error) => return Err(error),
        }
        let mut tiers: Vec<TicketTier> = Vec::new();
        if params.tiers.is_empty() {
            tiers.push(
                TicketTier {
                    name: "General".to_string(),
                    price: params.ticket_price,
                    total_quantity: params.total_tickets,
                    sold_quantity: 0,
                },
            );
            assert(types::tier_views(tiers@) =~= model::resolved_tiers(params@));
            return Ok(tiers);
        }
        let ghost configs = params@.tiers;
        let mut i: usize = 0;
        while i < params.tiers.len()
            invariant
                i <= params.tiers.len(),
                configs == params@.tiers,
                configs.len() == params.tiers.len(),
                model::first_config_error(configs.take(i as int)) is None,
                tiers.len() == i,
                forall|j: int|
                    0 <= j < i ==> (#[trigger] tiers[j])@ == model::unsold_tier(configs[j]),
                model::validation_result(
                    now,
                    params.start_date,
                    params.end_date,
                    params.ticket_price,
                    params.total_tickets,
                ) is Ok,
            decreases params.tiers.len() - i,
        {
            let config = &params.tiers[i];
            assert(configs.take(i + 1).drop_last() =~= configs.take(i as int));
            assert(configs.take(i + 1).last() == config@);
            if config.price < 0 || config.total_quantity == 0 {
                proof {
                    model::lemma_first_config_error_of_prefix(configs, i + 1);
                }
            }
            if config.price < 0 {
                return Err(Error::NegativeTicketPrice);
            }
            if config.total_quantity == 0 {
                return Err(Error::InvalidTierConfig);
            }
            tiers.push(
                TicketTier {
                    name: config.name.clone(),
                    price: config.price,
                    total_quantity: config.total_quantity,
                    sold_quantity: 0,
                },
            );
            i += 1;
        }
        assert(configs.take(i as int) =~= configs);
        assert(types::tier_views(tiers@) =~= model::resolved_tiers(params@));
        Ok(tiers)
    }

    /// The number of tickets that all tiers offer together, if it can be counted.
    fn checked_total(tiers: &Vec<TicketTier>) -> (total: Option<u128>)
        ensures
            total == (if model::total_quantity(types::tier_views(tiers@)) <= u128::MAX {
                Some(model::total_quantity(types::tier_views(tiers@)) as u128)
            } else {
                None
            }),
    {
        let ghost views = types::tier_views(tiers@);
        let mut total: u128 = 0;
        let mut i: usize = 0;
        while i < tiers.len()
            invariant
                i <= tiers.len(),
                views == types::tier_views(tiers@),
                total == model::total_quantity(views.take(i as int)),
            decreases tiers.len() - i,
        {
            assert(views.take(i + 1).drop_last() =~= views.take(i as int));
            proof {
                model::lemma_total_quantity_of_prefix(views, i + 1);
            }
            total = match total.checked_add(tiers[i].total_quantity) {
                Some(total) => total,
                None => return None,
            };
            i += 1;
        }
        assert(views.take(i as int) =~= views);
        Some(total)
    }

    /// Takes the next event id.
    fn get_and_increment_counter(env: &mut Env) -> (result: Result<u32, Error>)
        ensures
            result == (if old(env)@.store.event_count() == u32::MAX {
                Err(Error::CounterOverflow)
            } else {
                Ok(old(env)@.store.event_count())
            }),
            final(env)@ == if result is Ok {
                old(env)@.storing(
                    old(env)@.store.with_counter((old(env)@.store.event_count() + 1) as u32),
                ).asking(seq![ActionView::Write(DataKeyView::EventCounter)])
            } else {
                old(env)@
            },
    {
        let current: u32 = Self::get_event_count(env);
        let next: u32 = match current.checked_add(1) {
            Some(next) => next,
            None => return Err(Error::CounterOverflow),
        };
        env.write_event_counter(next);
        Ok(current)
    }

    /// Records the request to the factory for a ticket contract. The request is the
    /// same for every event.
    fn deploy_ticket_nft(
        env: &mut Env,
        _event_id: u32,
        _theme: &String,
        _total_supply: u128,
    ) -> (result: Result<(), Error>)
        ensures
            result == model::deploy_result(old(env)@.store),
            final(env)@ == old(env)@.asking(
                model::deploy_actions(old(env)@.store, old(env)@.contract),
            ),
    {
        let factory = match env.ticket_factory() {
            Some(factory) => factory.clone(),
            None => return Err(Error::FactoryNotInitialized),
        };
        let salt: Vec<u8> = vec![0u8; 32];
        assert(salt@ =~= Seq::new(32, |i: int| 0u8));
        let args: Vec<Value> = vec![Value::Address(env.contract().clone()), Value::Bytes(salt)];
        assert(action::value_views(args@) =~= seq![
            ValueView::Address(env@.contract),
            ValueView::Bytes(Seq::new(32, |i: int| 0u8)),
        ]);
        env.ask(
            Action::Invoke { contract: factory, function: "deploy_ticket".to_string(), args },
        );
        Ok(())
    }

    /// Who bought tickets for an event, one entry for each ticket, in order.
    fn buyers_of(env: &Env, event_id: u32) -> (buyers: Vec<Address>)
        ensures
            types::address_views(buyers@) == env@.store.buyers_of(event_id),
    {
        let buyers = match env.event_buyers(event_id) {
            Some(buyers) => {
                let copy = buyers.clone();
                assert(types::address_views(copy@) =~= types::address_views(buyers@));
                copy
            },
            None => Vec::new(),
        };
        assert(types::address_views(buyers@) =~= env@.store.buyers_of(event_id));
        buyers
    }

    /// Whether an address bought a ticket for an event.
    fn bought_ticket(env: &Env, event_id: u32, claimer: &Address) -> (found: bool)
        ensures
            found == env@.store.buyers_of(event_id).contains(claimer@),
    {
        let buyers = match env.event_buyers(event_id) {
            Some(buyers) => buyers,
            None => return false,
        };
        let ghost views = types::address_views(buyers@);
        let mut i: usize = 0;
        while i < buyers.len()
            invariant
                i <= buyers.len(),
                views == types::address_views(buyers@),
                views == env@.store.buyers_of(event_id),
                forall|j: int| 0 <= j < i ==> views[j] != claimer@,
            decreases buyers.len() - i,
        {
            if buyers[i].same(claimer) {
                assert(views[i as int] == claimer@);
                return true;
            }
            i += 1;
        }
        false
    }

    /// Records the request to transfer an amount, if there is anything to transfer.
    fn pay(env: &mut Env, token: &Address, from: &Address, to: &Address, amount: i128)
        ensures
            final(env)@ == old(env)@.asking(model::payment(token@, from@, to@, amount)),
    {
        if amount > 0 {
            env.ask(
                Action::Transfer { token: token.clone(), from: from.clone(), to: to.clone(), amount },
            );
        }
    }

    /// Records the request to keep an event alive.
    fn keep_event_alive(env: &mut Env, event_id: u32)
        ensures
            final(env)@ == old(env)@.asking(seq![model::keep_event_alive(event_id)]),
    {
        env.ask(
            Action::ExtendTtl {
                key: DataKey::Event(event_id),
                threshold: TTL_THRESHOLD,
                extend_to: TTL_EXTENSION,
            },
        );
    }

    /// Records the request to publish a notice.
    fn publish(env: &mut Env, topic: &str, data: Vec<Value>)
        ensures
            final(env)@ == old(env)@.asking(
                seq![ActionView::Publish { topic: topic@, data: action::value_views(data@) }],
            ),
    {
        env.ask(Action::Publish { topic: topic.to_string(), data });
    }
}

} // verus!
