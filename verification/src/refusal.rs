//! The reasons for which an invocation is broken off without a result.

use vstd::prelude::*;

verus! {

/// Why an invocation is broken off.
#[derive(Copy, Clone, Debug, PartialEq, Eq, Structural)]
pub enum Refusal {
    EventNotFound,
    EventNotCanceled,
    RefundAlreadyClaimed,
    NotABuyer,
    UpdateOfCanceledEvent,
    NegativeTicketPrice,
    NoTickets,
    FewerTicketsThanSold,
    StartInPast,
    StartNotBeforeEnd,
    EndInPast,
    EndNotAfterStart,
    EventCanceled,
    TiersNotFound,
    InvalidTierIndex,
    TierSoldOut,
    /// The number of tickets sold has reached the largest number that can be
    /// counted.
    TicketCountOverflow,
}

impl Refusal {
    /// What the caller is told.
    pub open spec fn spec_message(self) -> Seq<char> {
        match self {
            Refusal::EventNotFound => "Event not found"@,
            Refusal::EventNotCanceled => "Event is not canceled"@,
            Refusal::RefundAlreadyClaimed => "Refund already claimed"@,
            Refusal::NotABuyer => "Claimer did not purchase a ticket for this event"@,
            Refusal::UpdateOfCanceledEvent => "Cannot update a canceled event"@,
            Refusal::NegativeTicketPrice => "Ticket price cannot be negative"@,
            Refusal::NoTickets => "Total tickets must be greater than 0"@,
            Refusal::FewerTicketsThanSold => "Cannot reduce total_tickets below tickets_sold"@,
            Refusal::StartInPast => "Start date cannot be in the past"@,
            Refusal::StartNotBeforeEnd => "Start date must be before end date"@,
            Refusal::EndInPast => "End date cannot be in the past"@,
            Refusal::EndNotAfterStart => "End date must be after start date"@,
            Refusal::EventCanceled => "Event is canceled"@,
            Refusal::TiersNotFound => "Event tiers not found"@,
            Refusal::InvalidTierIndex => "Invalid tier index"@,
            Refusal::TierSoldOut => "Tier is sold out"@,
            Refusal::TicketCountOverflow => "attempt to add with overflow"@,
        }
    }

    /// What the caller is told.
    pub fn message(self) -> (message: &'static str)
        ensures
            message@ == self.spec_message(),
    {
        match self {
            Refusal::EventNotFound => "Event not found",
            Refusal::EventNotCanceled => "Event is not canceled",
            Refusal::RefundAlreadyClaimed => "Refund already claimed",
            Refusal::NotABuyer => "Claimer did not purchase a ticket for this event",
            Refusal::UpdateOfCanceledEvent => "Cannot update a canceled event",
            Refusal::NegativeTicketPrice => "Ticket price cannot be negative",
            Refusal::NoTickets => "Total tickets must be greater than 0",
            Refusal::FewerTicketsThanSold => "Cannot reduce total_tickets below tickets_sold",
            Refusal::StartInPast => "Start date cannot be in the past",
            Refusal::StartNotBeforeEnd => "Start date must be before end date",
            Refusal::EndInPast => "End date cannot be in the past",
            Refusal::EndNotAfterStart => "End date must be after start date",
            Refusal::EventCanceled => "Event is canceled",
            Refusal::TiersNotFound => "Event tiers not found",
            Refusal::InvalidTierIndex => "Invalid tier index",
            Refusal::TierSoldOut => "Tier is sold out",
            Refusal::TicketCountOverflow => "attempt to add with overflow",
        }
    }
}

} // verus!
