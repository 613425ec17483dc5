//! A contract that manages events: organizers create, change and cancel them,
//! buyers buy tickets of their tiers, and claim a refund if an event is canceled.
//!
//! The contract itself, `EventManager`, works on an `Env`: the ledger time, the
//! contract's own address and the entries that it keeps. Whatever only the host
//! can do (check a signature, write an entry, move tokens, call another contract,
//! publish a notice) is recorded in the `Env` as an `Action`, in the order in which
//! it is to be done.
//!
//! * `types` holds the records that the contract works on;
//! * `action` holds the requests to the host;
//! * `env` holds the environment of an invocation;
//! * `refusal` holds the reasons for which an invocation is broken off;
//! * `manager` holds the contract;
//! * `model` says what each invocation comes to;
//! * `outcomes` says it over again by what goes in and what comes out, value by value;
//! * `laws` says what holds whatever is asked of the contract, in whatever order.

pub mod action;
pub mod env;
pub mod laws;
pub mod manager;
pub mod model;
pub mod outcomes;
pub mod refusal;
pub mod types;

pub use action::{Action, Value};
pub use env::Env;
pub use manager::{EventManager, PendingEvent};
pub use refusal::Refusal;
pub use types::{Address, CreateEventParams, DataKey, Error, Event, TicketTier, TierConfig};
