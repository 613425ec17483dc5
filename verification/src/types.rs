//! The records the contract works on, and the sequences, maps and plain values
//! that stand for them in specifications.

use vstd::prelude::*;

verus! {

/// An account or a contract on the network, known by its textual form.
#[derive(Debug, PartialEq, Eq)]
pub struct Address {
    pub text: String,
}

impl View for Address {
    type V = Seq<char>;

    open spec fn view(&self) -> Seq<char> {
        self.text@
    }
}

impl Address {
    pub fn new(text: String) -> (address: Address)
        ensures
            address@ == text@,
    {
        Address { text }
    }

    /// Whether both addresses name the same account or contract.
    pub fn same(&self, other: &Address) -> (equal: bool)
        ensures
            equal == (self@ == other@),
    {
        self.text == other.text
    }
}

impl Clone for Address {
    fn clone(&self) -> (copy: Self)
        ensures
            copy@ == self@,
    {
        Address { text: self.text.clone() }
    }
}

/// The errors that an invocation returns to its caller.
#[derive(Copy, Clone, Debug, PartialEq, Eq, Structural)]
pub enum Error {
    AlreadyInitialized,
    EventNotFound,
    EventAlreadyCanceled,
    CannotSellMoreTickets,
    InvalidStartDate,
    InvalidEndDate,
    NegativeTicketPrice,
    InvalidTicketCount,
    CounterOverflow,
    FactoryNotInitialized,
    InvalidTierIndex,
    TierSoldOut,
    InvalidTierConfig,
}

impl Error {
    /// The number under which the error is published.
    pub open spec fn spec_code(self) -> u32 {
        match self {
            Error::AlreadyInitialized => 1,
            Error::EventNotFound => 2,
            Error::EventAlreadyCanceled => 3,
            Error::CannotSellMoreTickets => 4,
            Error::InvalidStartDate => 5,
            Error::InvalidEndDate => 6,
            Error::NegativeTicketPrice => 7,
            Error::InvalidTicketCount => 8,
            Error::CounterOverflow => 9,
            Error::FactoryNotInitialized => 10,
            Error::InvalidTierIndex => 11,
            Error::TierSoldOut => 12,
            Error::InvalidTierConfig => 13,
        }
    }

    /// The number under which the error is published.
    pub fn code(self) -> (code: u32)
        ensures
            code == self.spec_code(),
    {
        match self {
            Error::AlreadyInitialized => 1,
            Error::EventNotFound => 2,
            Error::EventAlreadyCanceled => 3,
            Error::CannotSellMoreTickets => 4,
            Error::InvalidStartDate => 5,
            Error::InvalidEndDate => 6,
            Error::NegativeTicketPrice => 7,
            Error::InvalidTicketCount => 8,
            Error::CounterOverflow => 9,
            Error::FactoryNotInitialized => 10,
            Error::InvalidTierIndex => 11,
            Error::TierSoldOut => 12,
            Error::InvalidTierConfig => 13,
        }
    }
}

/// The keys of the contract's entries. The ticket factory and the event counter
/// belong to the contract instance, every other entry is a persistent one.
#[derive(Debug, PartialEq, Eq)]
pub enum DataKey {
    Event(u32),
    EventCounter,
    TicketFactory,
    RefundClaimed(u32, Address),
    EventBuyers(u32),
    /// The tiers of an event, by its id.
    EventTiers(u32),
}

pub enum DataKeyView {
    Event(u32),
    EventCounter,
    TicketFactory,
    RefundClaimed(u32, Seq<char>),
    EventBuyers(u32),
    EventTiers(u32),
}

impl View for DataKey {
    type V = DataKeyView;

    open spec fn view(&self) -> DataKeyView {
        match *self {
            DataKey::Event(id) => DataKeyView::Event(id),
            DataKey::EventCounter => DataKeyView::EventCounter,
            DataKey::TicketFactory => DataKeyView::TicketFactory,
            DataKey::RefundClaimed(id, claimer) => DataKeyView::RefundClaimed(id, claimer@),
            DataKey::EventBuyers(id) => DataKeyView::EventBuyers(id),
            DataKey::EventTiers(id) => DataKeyView::EventTiers(id),
        }
    }
}

/// A single ticket tier (e.g. VIP, General, Early Bird).
#[derive(Debug, PartialEq, Eq)]
pub struct TicketTier {
    pub name: String,
    pub price: i128,
    pub total_quantity: u128,
    pub sold_quantity: u128,
}

pub struct TicketTierView {
    pub name: Seq<char>,
    pub price: i128,
    pub total_quantity: u128,
    pub sold_quantity: u128,
}

impl View for TicketTier {
    type V = TicketTierView;

    open spec fn view(&self) -> TicketTierView {
        TicketTierView {
            name: self.name@,
            price: self.price,
            total_quantity: self.total_quantity,
            sold_quantity: self.sold_quantity,
        }
    }
}

impl Clone for TicketTier {
    fn clone(&self) -> (copy: Self)
        ensures
            copy@ == self@,
    {
        TicketTier {
            name: self.name.clone(),
            price: self.price,
            total_quantity: self.total_quantity,
            sold_quantity: self.sold_quantity,
        }
    }
}

/// Input config for creating a tier.
#[derive(Debug, PartialEq, Eq)]
pub struct TierConfig {
    pub name: String,
    pub price: i128,
    pub total_quantity: u128,
}

pub struct TierConfigView {
    pub name: Seq<char>,
    pub price: i128,
    pub total_quantity: u128,
}

impl View for TierConfig {
    type V = TierConfigView;

    open spec fn view(&self) -> TierConfigView {
        TierConfigView {
            name: self.name@,
            price: self.price,
            total_quantity: self.total_quantity,
        }
    }
}

impl Clone for TierConfig {
    fn clone(&self) -> (copy: Self)
        ensures
            copy@ == self@,
    {
        TierConfig {
            name: self.name.clone(),
            price: self.price,
            total_quantity: self.total_quantity,
        }
    }
}

/// Parameters for creating a new event.
#[derive(Debug, PartialEq, Eq)]
pub struct CreateEventParams {
    pub organizer: Address,
    pub theme: String,
    pub event_type: String,
    pub start_date: u64,
    pub end_date: u64,
    pub ticket_price: i128,
    pub total_tickets: u128,
    pub payment_token: Address,
    pub tiers: Vec<TierConfig>,
}

pub struct CreateEventParamsView {
    pub organizer: Seq<char>,
    pub theme: Seq<char>,
    pub event_type: Seq<char>,
    pub start_date: u64,
    pub end_date: u64,
    pub ticket_price: i128,
    pub total_tickets: u128,
    pub payment_token: Seq<char>,
    pub tiers: Seq<TierConfigView>,
}

impl View for CreateEventParams {
    type V = CreateEventParamsView;

    open spec fn view(&self) -> CreateEventParamsView {
        CreateEventParamsView {
            organizer: self.organizer@,
            theme: self.theme@,
            event_type: self.event_type@,
            start_date: self.start_date,
            end_date: self.end_date,
            ticket_price: self.ticket_price,
            total_tickets: self.total_tickets,
            payment_token: self.payment_token@,
            tiers: self.tiers@.map_values(|config: TierConfig| config@),
        }
    }
}

impl Clone for CreateEventParams {
    fn clone(&self) -> (copy: Self)
        ensures
            copy@ == self@,
    {
        let copy = CreateEventParams {
            organizer: self.organizer.clone(),
            theme: self.theme.clone(),
            event_type: self.event_type.clone(),
            start_date: self.start_date,
            end_date: self.end_date,
            ticket_price: self.ticket_price,
            total_tickets: self.total_tickets,
            payment_token: self.payment_token.clone(),
            tiers: self.tiers.clone(),
        };
        assert(copy@.tiers =~= self@.tiers);
        copy
    }
}

/// An event as the contract stores it.
#[derive(Debug, PartialEq, Eq)]
pub struct Event {
    pub id: u32,
    pub theme: String,
    pub organizer: Address,
    pub event_type: String,
    pub total_tickets: u128,
    pub tickets_sold: u128,
    pub ticket_price: i128,
    pub start_date: u64,
    pub end_date: u64,
    pub is_canceled: bool,
    pub ticket_nft_addr: Address,
    pub payment_token: Address,
}

pub struct EventView {
    pub id: u32,
    pub theme: Seq<char>,
    pub organizer: Seq<char>,
    pub event_type: Seq<char>,
    pub total_tickets: u128,
    pub tickets_sold: u128,
    pub ticket_price: i128,
    pub start_date: u64,
    pub end_date: u64,
    pub is_canceled: bool,
    pub ticket_nft_addr: Seq<char>,
    pub payment_token: Seq<char>,
}

impl View for Event {
    type V = EventView;

    open spec fn view(&self) -> EventView {
        EventView {
            id: self.id,
            theme: self.theme@,
            organizer: self.organizer@,
            event_type: self.event_type@,
            total_tickets: self.total_tickets,
            tickets_sold: self.tickets_sold,
            ticket_price: self.ticket_price,
            start_date: self.start_date,
            end_date: self.end_date,
            is_canceled: self.is_canceled,
            ticket_nft_addr: self.ticket_nft_addr@,
            payment_token: self.payment_token@,
        }
    }
}

impl Clone for Event {
    fn clone(&self) -> (copy: Self)
        ensures
            copy@ == self@,
    {
        Event {
            id: self.id,
            theme: self.theme.clone(),
            organizer: self.organizer.clone(),
            event_type: self.event_type.clone(),
            total_tickets: self.total_tickets,
            tickets_sold: self.tickets_sold,
            ticket_price: self.ticket_price,
            start_date: self.start_date,
            end_date: self.end_date,
            is_canceled: self.is_canceled,
            ticket_nft_addr: self.ticket_nft_addr.clone(),
            payment_token: self.payment_token.clone(),
        }
    }
}

/// The events that a list of events stands for.
pub open spec fn event_views(events: Seq<Event>) -> Seq<EventView> {
    events.map_values(|event: Event| event@)
}

/// The tiers that a list of tiers stands for.
pub open spec fn tier_views(tiers: Seq<TicketTier>) -> Seq<TicketTierView> {
    tiers.map_values(|tier: TicketTier| tier@)
}

/// The addresses that a list of addresses stands for.
pub open spec fn address_views(addresses: Seq<Address>) -> Seq<Seq<char>> {
    addresses.map_values(|address: Address| address@)
}

} // verus!
