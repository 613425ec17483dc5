use event_manager::{
    Action, Address, CreateEventParams, DataKey, Env, Error, Event, EventManager, Refusal,
    TierConfig, Value,
};

fn address(text: &str) -> Address {
    Address::new(text.to_string())
}

fn tier(name: &str, price: i128, total_quantity: u128) -> TierConfig {
    TierConfig { name: name.to_string(), price, total_quantity }
}

/// A contract with two events: one with a VIP and a free tier, one without tiers.
fn with_events() -> Env {
    let mut env = Env::new(1000, address("manager"));
    assert_eq!(EventManager::initialize(&mut env, address("factory")), Ok(()));
    for tiers in [vec![tier("VIP", 200, 2), tier("Free", 0, 1)], vec![]] {
        let params = CreateEventParams {
            organizer: address("organizer"),
            theme: "Concert".to_string(),
            event_type: "Music".to_string(),
            start_date: 2000,
            end_date: 3000,
            ticket_price: 50,
            total_tickets: 10,
            payment_token: address("token"),
            tiers,
        };
        assert!(EventManager::create_event(&mut env, params, address("nft")).is_ok());
    }
    env.take_actions();
    env
}

fn event(env: &Env, id: u32) -> Event {
    EventManager::get_event(env, id).unwrap()
}

#[test]
fn purchase_counts_notes_and_pays() {
    let mut env = with_events();
    assert_eq!(EventManager::purchase_ticket(&mut env, address("ann"), 0, 0), Ok(()));
    assert_eq!(event(&env, 0).tickets_sold, 1);
    assert_eq!(event(&env, 0).ticket_price, 200);
    let tiers = EventManager::get_event_tiers(&env, 0).unwrap();
    assert_eq!(tiers[0].sold_quantity, 1);
    assert_eq!(tiers[1].sold_quantity, 0);
    assert_eq!(env.event_buyers(0), Some(&vec![address("ann")]));
    assert_eq!(
        env.actions(),
        &vec![
            Action::RequireAuth(address("ann")),
            Action::Transfer {
                token: address("token"),
                from: address("ann"),
                to: address("organizer"),
                amount: 200,
            },
            Action::Invoke {
                contract: address("nft"),
                function: "mint_ticket_nft".to_string(),
                args: vec![Value::Address(address("ann"))],
            },
            Action::Write(DataKey::EventTiers(0)),
            Action::Write(DataKey::EventBuyers(0)),
            Action::Write(DataKey::Event(0)),
            Action::ExtendTtl { key: DataKey::Event(0), threshold: 518400, extend_to: 1728000 },
            Action::Publish {
                topic: "ticket_purchased".to_string(),
                data: vec![
                    Value::U32(0),
                    Value::Address(address("ann")),
                    Value::Address(address("nft")),
                    Value::U32(0),
                ],
            },
        ]
    );
}

#[test]
fn free_ticket_is_not_paid_for() {
    let mut env = with_events();
    assert_eq!(EventManager::purchase_ticket(&mut env, address("ann"), 0, 1), Ok(()));
    assert_eq!(event(&env, 0).ticket_price, 0);
    assert!(!env.actions().iter().any(|action| matches!(action, Action::Transfer { .. })));
    assert_eq!(env.actions().len(), 7);
}

#[test]
fn tiers_are_not_oversold() {
    let mut env = with_events();
    for _ in 0..2 {
        assert_eq!(EventManager::purchase_ticket(&mut env, address("ann"), 0, 0), Ok(()));
    }
    env.take_actions();
    assert_eq!(
        EventManager::purchase_ticket(&mut env, address("bob"), 0, 0),
        Err(Refusal::TierSoldOut)
    );
    assert_eq!(env.actions(), &vec![Action::RequireAuth(address("bob"))]);
    assert_eq!(EventManager::purchase_ticket(&mut env, address("bob"), 0, 1), Ok(()));
    assert_eq!(
        env.event_buyers(0),
        Some(&vec![address("ann"), address("ann"), address("bob")])
    );
    assert_eq!(event(&env, 0).tickets_sold, 3);
}

#[test]
fn purchase_leaves_other_events_alone() {
    let mut env = with_events();
    let before = event(&env, 1);
    assert_eq!(EventManager::purchase_ticket(&mut env, address("ann"), 0, 0), Ok(()));
    assert_eq!(event(&env, 1), before);
    assert_eq!(env.event_buyers(1), None);
}

#[test]
fn purchase_is_refused() {
    let mut env = with_events();
    assert_eq!(
        EventManager::purchase_ticket(&mut env, address("ann"), 7, 0),
        Err(Refusal::EventNotFound)
    );
    assert_eq!(
        EventManager::purchase_ticket(&mut env, address("ann"), 0, 2),
        Err(Refusal::InvalidTierIndex)
    );
    assert_eq!(
        EventManager::purchase_ticket(&mut env, address("ann"), 0, u32::MAX),
        Err(Refusal::InvalidTierIndex)
    );
    let mut stray = event(&env, 0);
    stray.id = 5;
    env.load_event(5, stray);
    assert_eq!(
        EventManager::purchase_ticket(&mut env, address("ann"), 5, 0),
        Err(Refusal::TiersNotFound)
    );
    let mut full = event(&env, 0);
    full.tickets_sold = u128::MAX;
    env.load_event(0, full);
    assert_eq!(
        EventManager::purchase_ticket(&mut env, address("ann"), 0, 0),
        Err(Refusal::TicketCountOverflow)
    );
    assert_eq!(EventManager::cancel_event(&mut env, 1), Ok(()));
    assert_eq!(
        EventManager::purchase_ticket(&mut env, address("ann"), 1, 0),
        Err(Refusal::EventCanceled)
    );
}

#[test]
fn purchase_goes_by_the_tier_not_by_the_event() {
    let mut env = with_events();
    assert_eq!(EventManager::update_tickets_sold(&mut env, 0, 3), Ok(()));
    assert_eq!(EventManager::purchase_ticket(&mut env, address("ann"), 0, 0), Ok(()));
    assert_eq!(event(&env, 0).total_tickets, 3);
    assert_eq!(event(&env, 0).tickets_sold, 4);
}

#[test]
fn tickets_sold_are_reported_by_the_ticket_contract() {
    let mut env = with_events();
    assert_eq!(EventManager::update_tickets_sold(&mut env, 1, 4), Ok(()));
    assert_eq!(EventManager::update_tickets_sold(&mut env, 1, 6), Ok(()));
    assert_eq!(event(&env, 1).tickets_sold, 10);
    assert_eq!(
        env.take_actions(),
        vec![
            Action::RequireAuth(address("nft")),
            Action::Write(DataKey::Event(1)),
            Action::RequireAuth(address("nft")),
            Action::Write(DataKey::Event(1)),
        ]
    );
    assert_eq!(
        EventManager::update_tickets_sold(&mut env, 1, 1),
        Err(Error::CannotSellMoreTickets)
    );
    assert_eq!(
        EventManager::update_tickets_sold(&mut env, 1, u128::MAX),
        Err(Error::CounterOverflow)
    );
    assert_eq!(EventManager::update_tickets_sold(&mut env, 9, 1), Err(Error::EventNotFound));
    assert_eq!(event(&env, 1).tickets_sold, 10);
    assert_eq!(
        env.actions(),
        &vec![Action::RequireAuth(address("nft")), Action::RequireAuth(address("nft"))]
    );
}

#[test]
fn tickets_sold_are_reported_of_canceled_events_too() {
    let mut env = with_events();
    assert_eq!(EventManager::cancel_event(&mut env, 1), Ok(()));
    assert_eq!(EventManager::update_tickets_sold(&mut env, 1, 2), Ok(()));
    assert_eq!(event(&env, 1).tickets_sold, 2);
    assert!(event(&env, 1).is_canceled);
}

#[test]
fn tiers_count_their_own_purchases() {
    let mut env = with_events();
    assert_eq!(EventManager::purchase_ticket(&mut env, address("ann"), 0, 1), Ok(()));
    assert!(EventManager::purchase_ticket(&mut env, address("bob"), 0, 1).is_err());
    assert_eq!(EventManager::purchase_ticket(&mut env, address("bob"), 0, 0), Ok(()));
    assert_eq!(EventManager::purchase_ticket(&mut env, address("ann"), 0, 0), Ok(()));
    assert_eq!(EventManager::purchase_ticket(&mut env, address("ann"), 1, 0), Ok(()));
    assert_eq!(EventManager::update_tickets_sold(&mut env, 1, 5), Ok(()));
    let tiers = EventManager::get_event_tiers(&env, 0).unwrap();
    assert_eq!(tiers[0].sold_quantity, 2);
    assert_eq!(tiers[1].sold_quantity, 1);
    assert_eq!(EventManager::get_event_tiers(&env, 1).unwrap()[0].sold_quantity, 1);
}
