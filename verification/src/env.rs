//! The environment of one invocation: the ledger time, the contract's own
//! address, the entries that the contract keeps, and a record of what the
//! invocation asks of the host.

use crate::action::{self, Action, ActionView};
use crate::types::{
    self, Address, DataKey, DataKeyView, Event, EventView, TicketTier, TicketTierView,
};
use std::collections::BTreeMap;
use vstd::prelude::*;

verus! {

/// The entries that the contract keeps.
#[verifier::ext_equal]
pub struct Store {
    pub ticket_factory: Option<Seq<char>>,
    pub event_counter: Option<u32>,
    pub events: Map<u32, EventView>,
    pub tiers: Map<u32, Seq<TicketTierView>>,
    pub buyers: Map<u32, Seq<Seq<char>>>,
    pub refunds: Set<(u32, Seq<char>)>,
}

impl Store {
    /// A contract of which nothing is stored yet.
    pub open spec fn empty() -> Store {
        Store {
            ticket_factory: None,
            event_counter: None,
            events: Map::empty(),
            tiers: Map::empty(),
            buyers: Map::empty(),
            refunds: Set::empty(),
        }
    }

    pub open spec fn with_factory(self, factory: Seq<char>) -> Store {
        Store { ticket_factory: Some(factory), ..self }
    }

    pub open spec fn with_counter(self, counter: u32) -> Store {
        Store { event_counter: Some(counter), ..self }
    }

    pub open spec fn with_event(self, id: u32, event: EventView) -> Store {
        Store { events: self.events.insert(id, event), ..self }
    }

    pub open spec fn with_tiers(self, id: u32, tiers: Seq<TicketTierView>) -> Store {
        Store { tiers: self.tiers.insert(id, tiers), ..self }
    }

    pub open spec fn with_buyers(self, id: u32, buyers: Seq<Seq<char>>) -> Store {
        Store { buyers: self.buyers.insert(id, buyers), ..self }
    }

    pub open spec fn with_refund(self, id: u32, claimer: Seq<char>) -> Store {
        Store { refunds: self.refunds.insert((id, claimer)), ..self }
    }

    /// The number of events that have been created.
    pub open spec fn event_count(self) -> u32 {
        match self.event_counter {
            Some(count) => count,
            None => 0,
        }
    }

    /// Who bought tickets for an event, one entry for each ticket, in order.
    pub open spec fn buyers_of(self, id: u32) -> Seq<Seq<char>> {
        if self.buyers.contains_key(id) {
            self.buyers[id]
        } else {
            Seq::empty()
        }
    }
}

/// What an environment holds.
#[verifier::ext_equal]
pub struct EnvView {
    pub timestamp: u64,
    pub contract: Seq<char>,
    pub store: Store,
    pub actions: Seq<ActionView>,
}

impl EnvView {
    /// The environment with other entries.
    pub open spec fn storing(self, store: Store) -> EnvView {
        EnvView { store, ..self }
    }

    /// The environment after further requests to the host.
    pub open spec fn asking(self, actions: Seq<ActionView>) -> EnvView {
        EnvView { actions: self.actions + actions, ..self }
    }
}

/// The environment of one invocation.
///
/// Before the invocation it is filled, by the `load` functions, with the entries
/// that the invocation may read. The invocation changes the entries and records
/// its requests to the host, each written entry among them.
#[derive(Debug)]
pub struct Env {
    timestamp: u64,
    contract: Address,
    ticket_factory: Option<Address>,
    event_counter: Option<u32>,
    events: BTreeMap<u32, Event>,
    tiers: BTreeMap<u32, Vec<TicketTier>>,
    buyers: BTreeMap<u32, Vec<Address>>,
    refunds: Vec<(u32, Address)>,
    actions: Vec<Action>,
}

impl View for Env {
    type V = EnvView;

    closed spec fn view(&self) -> EnvView {
        EnvView {
            timestamp: self.timestamp,
            contract: self.contract@,
            store: Store {
                ticket_factory: match self.ticket_factory {
                    Some(factory) => Some(factory@),
                    None => None,
                },
                event_counter: self.event_counter,
                events: self.events@.map_values(|event: Event| event@),
                tiers: self.tiers@.map_values(|tiers: Vec<TicketTier>| types::tier_views(tiers@)),
                buyers: self.buyers@.map_values(|buyers: Vec<Address>| types::address_views(buyers@)),
                refunds: self.refunds@.map_values(
                    |refund: (u32, Address)| (refund.0, refund.1@),
                ).to_set(),
            },
            actions: action::action_views(self.actions@),
        }
    }
}

impl Env {
    /// The environment at a ledger time, of a contract of which no entry is
    /// loaded yet.
    pub fn new(timestamp: u64, contract: Address) -> (env: Env)
        ensures
            env@.timestamp == timestamp,
            env@.contract == contract@,
            env@.store == Store::empty(),
            env@.actions == Seq::<ActionView>::empty(),
    {
        let env = Env {
            timestamp,
            contract,
            ticket_factory: None,
            event_counter: None,
            events: BTreeMap::new(),
            tiers: BTreeMap::new(),
            buyers: BTreeMap::new(),
            refunds: Vec::new(),
            actions: Vec::new(),
        };
        proof {
            assert(env@.store.events =~= Map::empty());
            assert(env@.store.tiers =~= Map::empty());
            assert(env@.store.buyers =~= Map::empty());
            assert(env@.store.refunds =~= Set::empty());
            assert(env@.actions =~= Seq::empty());
        }
        env
    }

    pub fn load_ticket_factory(&mut self, factory: Address)
        ensures
            final(self)@ == old(self)@.storing(old(self)@.store.with_factory(factory@)),
    {
        self.ticket_factory = Some(factory);
    }

    pub fn load_event_counter(&mut self, counter: u32)
        ensures
            final(self)@ == old(self)@.storing(old(self)@.store.with_counter(counter)),
    {
        self.event_counter = Some(counter);
    }

    pub fn load_event(&mut self, id: u32, event: Event)
        ensures
            final(self)@ == old(self)@.storing(old(self)@.store.with_event(id, event@)),
    {
        self.events.insert(id, event);
        assert(self@.store.events =~= old(self)@.store.events.insert(id, event@));
    }

    pub fn load_event_tiers(&mut self, id: u32, tiers: Vec<TicketTier>)
        ensures
            final(self)@ == old(self)@.storing(
                old(self)@.store.with_tiers(id, types::tier_views(tiers@)),
            ),
    {
        self.tiers.insert(id, tiers);
        assert(self@.store.tiers =~= old(self)@.store.tiers.insert(id, types::tier_views(tiers@)));
    }

    pub fn load_event_buyers(&mut self, id: u32, buyers: Vec<Address>)
        ensures
            final(self)@ == old(self)@.storing(
                old(self)@.store.with_buyers(id, types::address_views(buyers@)),
            ),
    {
        self.buyers.insert(id, buyers);
        assert(self@.store.buyers =~= old(self)@.store.buyers.insert(id, types::address_views(buyers@)));
    }

    pub fn load_refund_claimed(&mut self, id: u32, claimer: Address)
        ensures
            final(self)@ == old(self)@.storing(old(self)@.store.with_refund(id, claimer@)),
    {
        let ghost before = self.refunds@.map_values(
            |refund: (u32, Address)| (refund.0, refund.1@),
        );
        self.refunds.push((id, claimer));
        proof {
            let after = self.refunds@.map_values(|refund: (u32, Address)| (refund.0, refund.1@));
            assert(after =~= before.push((id, claimer@)));
            assert(after.to_set() =~= before.to_set().insert((id, claimer@))) by {
                assert(after[before.len() as int] == (id, claimer@));
                assert forall|refund: (u32, Seq<char>)| before.contains(refund) implies
                    after.contains(refund) by {
                    let i = before.index_of(refund);
                    assert(after[i] == refund);
                }
            }
        }
    }

    /// The ledger time.
    pub fn timestamp(&self) -> (timestamp: u64)
        ensures
            timestamp == self@.timestamp,
    {
        self.timestamp
    }

    /// The address of the contract itself.
    pub fn contract(&self) -> (contract: &Address)
        ensures
            contract@ == self@.contract,
    {
        &self.contract
    }

    pub fn ticket_factory(&self) -> (factory: Option<&Address>)
        ensures
            match factory {
                Some(factory) => self@.store.ticket_factory == Some(factory@),
                None => self@.store.ticket_factory is None,
            },
    {
        self.ticket_factory.as_ref()
    }

    pub fn event_counter(&self) -> (counter: Option<u32>)
        ensures
            counter == self@.store.event_counter,
    {
        self.event_counter
    }

    pub fn event(&self, id: u32) -> (event: Option<&Event>)
        ensures
            match event {
                Some(event) => self@.store.events.contains_key(id) && self@.store.events[id]
                    == event@,
                None => !self@.store.events.contains_key(id),
            },
    {
        self.events.get(&id)
    }

    pub fn event_tiers(&self, id: u32) -> (tiers: Option<&Vec<TicketTier>>)
        ensures
            match tiers {
                Some(tiers) => self@.store.tiers.contains_key(id) && self@.store.tiers[id]
                    == types::tier_views(tiers@),
                None => !self@.store.tiers.contains_key(id),
            },
    {
        self.tiers.get(&id)
    }

    pub fn event_buyers(&self, id: u32) -> (buyers: Option<&Vec<Address>>)
        ensures
            match buyers {
                Some(buyers) => self@.store.buyers.contains_key(id) && self@.store.buyers[id]
                    == types::address_views(buyers@),
                None => !self@.store.buyers.contains_key(id),
            },
    {
        self.buyers.get(&id)
    }

    pub fn refund_claimed(&self, id: u32, claimer: &Address) -> (claimed: bool)
        ensures
            claimed == self@.store.refunds.contains((id, claimer@)),
    {
        let ghost refunds = self.refunds@.map_values(
            |refund: (u32, Address)| (refund.0, refund.1@),
        );
        let mut i: usize = 0;
        while i < self.refunds.len()
            invariant
                i <= self.refunds.len(),
                refunds == self.refunds@.map_values(
                    |refund: (u32, Address)| (refund.0, refund.1@),
                ),
                self@.store.refunds == refunds.to_set(),
                forall|j: int| 0 <= j < i ==> refunds[j] != (id, claimer@),
            decreases self.refunds.len() - i,
        {
            if self.refunds[i].0 == id && self.refunds[i].1.same(claimer) {
                assert(refunds[i as int] == (id, claimer@));
                return true;
            }
            i += 1;
        }
        false
    }

    /// The requests recorded so far.
    pub fn actions(&self) -> (actions: &Vec<Action>)
        ensures
            action::action_views(actions@) == self@.actions,
    {
        &self.actions
    }

    /// Takes the requests recorded so far out of the record.
    pub fn take_actions(&mut self) -> (actions: Vec<Action>)
        ensures
            action::action_views(actions@) == old(self)@.actions,
            final(self)@ == (EnvView { actions: Seq::empty(), ..old(self)@ }),
    {
        let mut actions: Vec<Action> = Vec::new();
        std::mem::swap(&mut actions, &mut self.actions);
        assert(self@.actions =~= Seq::empty());
        actions
    }

    /// Records a request to the host.
    pub(crate) fn ask(&mut self, action: Action)
        ensures
            final(self)@ == old(self)@.asking(seq![action@]),
    {
        self.actions.push(action);
        assert(self@.actions =~= old(self)@.actions + seq![action@]);
    }

    pub(crate) fn write_ticket_factory(&mut self, factory: Address)
        ensures
            final(self)@ == old(self)@.storing(
                old(self)@.store.with_factory(factory@),
            ).asking(seq![ActionView::Write(DataKeyView::TicketFactory)]),
    {
        self.load_ticket_factory(factory);
        self.ask(Action::Write(DataKey::TicketFactory));
    }

    pub(crate) fn write_event_counter(&mut self, counter: u32)
        ensures
            final(self)@ == old(self)@.storing(
                old(self)@.store.with_counter(counter),
            ).asking(seq![ActionView::Write(DataKeyView::EventCounter)]),
    {
        self.load_event_counter(counter);
        self.ask(Action::Write(DataKey::EventCounter));
    }

    pub(crate) fn write_event(&mut self, id: u32, event: Event)
        ensures
            final(self)@ == old(self)@.storing(
                old(self)@.store.with_event(id, event@),
            ).asking(seq![ActionView::Write(DataKeyView::Event(id))]),
    {
        self.load_event(id, event);
        self.ask(Action::Write(DataKey::Event(id)));
    }

    pub(crate) fn write_event_tiers(&mut self, id: u32, tiers: Vec<TicketTier>)
        ensures
            final(self)@ == old(self)@.storing(
                old(self)@.store.with_tiers(id, types::tier_views(tiers@)),
            ).asking(seq![ActionView::Write(DataKeyView::EventTiers(id))]),
    {
        self.load_event_tiers(id, tiers);
        self.ask(Action::Write(DataKey::EventTiers(id)));
    }

    pub(crate) fn write_event_buyers(&mut self, id: u32, buyers: Vec<Address>)
        ensures
            final(self)@ == old(self)@.storing(
                old(self)@.store.with_buyers(id, types::address_views(buyers@)),
            ).asking(seq![ActionView::Write(DataKeyView::EventBuyers(id))]),
    {
        self.load_event_buyers(id, buyers);
        self.ask(Action::Write(DataKey::EventBuyers(id)));
    }

    pub(crate) fn write_refund_claimed(&mut self, id: u32, claimer: Address)
        ensures
            final(self)@ == old(self)@.storing(
                old(self)@.store.with_refund(id, claimer@),
            ).asking(seq![ActionView::Write(DataKeyView::RefundClaimed(id, claimer@))]),
    {
        let key = DataKey::RefundClaimed(id, claimer.clone());
        self.load_refund_claimed(id, claimer);
        self.ask(Action::Write(key));
    }
}

} // verus!
