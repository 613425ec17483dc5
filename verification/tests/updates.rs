use event_manager::{
    Action, Address, CreateEventParams, DataKey, Env, Event, EventManager, Refusal, Value,
};

fn address(text: &str) -> Address {
    Address::new(text.to_string())
}

/// A contract at time 1000 with one event from 2000 to 3000, 4 of whose 10 tickets
/// are sold.
fn with_event() -> Env {
    let mut env = Env::new(1000, address("manager"));
    assert_eq!(EventManager::initialize(&mut env, address("factory")), Ok(()));
    let params = CreateEventParams {
        organizer: address("organizer"),
        theme: "Concert".to_string(),
        event_type: "Music".to_string(),
        start_date: 2000,
        end_date: 3000,
        ticket_price: 50,
        total_tickets: 10,
        payment_token: address("token"),
        tiers: vec![],
    };
    assert_eq!(EventManager::create_event(&mut env, params, address("nft")), Ok(0));
    assert_eq!(EventManager::update_tickets_sold(&mut env, 0, 4), Ok(()));
    env.take_actions();
    env
}

fn event(env: &Env) -> Event {
    EventManager::get_event(env, 0).unwrap()
}

#[test]
fn update_changes_what_is_given() {
    let mut env = with_event();
    let before = event(&env);
    assert_eq!(
        EventManager::update_event(
            &mut env,
            0,
            Some("Opera".to_string()),
            Some(70),
            Some(4),
            Some(1000),
            Some(1001),
        ),
        Ok(())
    );
    let after = event(&env);
    assert_eq!(after.theme, "Opera");
    assert_eq!(after.ticket_price, 70);
    assert_eq!(after.total_tickets, 4);
    assert_eq!(after.start_date, 1000);
    assert_eq!(after.end_date, 1001);
    assert_eq!(after.id, before.id);
    assert_eq!(after.organizer, before.organizer);
    assert_eq!(after.event_type, before.event_type);
    assert_eq!(after.tickets_sold, before.tickets_sold);
    assert_eq!(after.is_canceled, before.is_canceled);
    assert_eq!(after.ticket_nft_addr, before.ticket_nft_addr);
    assert_eq!(after.payment_token, before.payment_token);
    assert_eq!(
        env.actions(),
        &vec![
            Action::RequireAuth(address("organizer")),
            Action::Write(DataKey::Event(0)),
            Action::ExtendTtl { key: DataKey::Event(0), threshold: 518400, extend_to: 1728000 },
            Action::Publish {
                topic: "event_updated".to_string(),
                data: vec![Value::U32(0), Value::Address(address("organizer"))],
            },
        ]
    );
}

#[test]
fn update_of_nothing_changes_nothing() {
    let mut env = with_event();
    let before = event(&env);
    assert_eq!(EventManager::update_event(&mut env, 0, None, None, None, None, None), Ok(()));
    assert_eq!(event(&env), before);
    assert_eq!(env.actions().len(), 4);
}

#[test]
fn update_of_no_event_is_refused_before_the_signature() {
    let mut env = with_event();
    assert_eq!(
        EventManager::update_event(&mut env, 1, None, None, None, None, None),
        Err(Refusal::EventNotFound)
    );
    assert!(env.actions().is_empty());
}

#[test]
fn update_names_the_first_fault() {
    let mut env = with_event();
    let before = event(&env);
    assert_eq!(
        EventManager::update_event(&mut env, 0, None, Some(-1), Some(0), Some(1), Some(1)),
        Err(Refusal::NegativeTicketPrice)
    );
    assert_eq!(
        EventManager::update_event(&mut env, 0, None, Some(1), Some(0), Some(1), Some(1)),
        Err(Refusal::NoTickets)
    );
    assert_eq!(
        EventManager::update_event(&mut env, 0, None, Some(1), Some(3), Some(1), Some(1)),
        Err(Refusal::FewerTicketsThanSold)
    );
    assert_eq!(
        EventManager::update_event(&mut env, 0, None, Some(1), Some(4), Some(999), Some(1)),
        Err(Refusal::StartInPast)
    );
    assert_eq!(
        EventManager::update_event(&mut env, 0, None, None, None, Some(1500), Some(1500)),
        Err(Refusal::StartNotBeforeEnd)
    );
    assert_eq!(
        EventManager::update_event(&mut env, 0, None, None, None, Some(3000), None),
        Err(Refusal::StartNotBeforeEnd)
    );
    assert_eq!(
        EventManager::update_event(&mut env, 0, None, None, None, None, Some(999)),
        Err(Refusal::EndInPast)
    );
    assert_eq!(
        EventManager::update_event(&mut env, 0, None, None, None, None, Some(2000)),
        Err(Refusal::EndNotAfterStart)
    );
    assert_eq!(event(&env), before);
    assert_eq!(env.actions().len(), 8);
    for action in env.actions() {
        assert_eq!(action, &Action::RequireAuth(address("organizer")));
    }
}

#[test]
fn dates_may_move_together_past_the_old_ones() {
    let mut env = with_event();
    assert_eq!(
        EventManager::update_event(&mut env, 0, None, None, None, Some(5000), Some(6000)),
        Ok(())
    );
    assert_eq!(event(&env).start_date, 5000);
    assert_eq!(event(&env).end_date, 6000);
}
