use event_manager::{
    Action, Address, CreateEventParams, DataKey, Env, Error, EventManager, TicketTier, TierConfig,
    Value,
};

fn address(text: &str) -> Address {
    Address::new(text.to_string())
}

fn tier(name: &str, price: i128, total_quantity: u128) -> TierConfig {
    TierConfig { name: name.to_string(), price, total_quantity }
}

fn params(tiers: Vec<TierConfig>) -> CreateEventParams {
    CreateEventParams {
        organizer: address("organizer"),
        theme: "Rust Conference".to_string(),
        event_type: "Conference".to_string(),
        start_date: 2000,
        end_date: 3000,
        ticket_price: 50,
        total_tickets: 10,
        payment_token: address("token"),
        tiers,
    }
}

fn initialized() -> Env {
    let mut env = Env::new(1000, address("manager"));
    assert_eq!(EventManager::initialize(&mut env, address("factory")), Ok(()));
    env.take_actions();
    env
}

#[test]
fn initialize_stores_the_factory_and_a_counter() {
    let mut env = Env::new(1000, address("manager"));
    assert_eq!(EventManager::initialize(&mut env, address("factory")), Ok(()));
    assert_eq!(env.ticket_factory(), Some(&address("factory")));
    assert_eq!(env.event_counter(), Some(0));
    assert_eq!(
        env.actions(),
        &vec![Action::Write(DataKey::TicketFactory), Action::Write(DataKey::EventCounter)]
    );
}

#[test]
fn initialize_works_once() {
    let mut env = initialized();
    assert_eq!(
        EventManager::initialize(&mut env, address("other")),
        Err(Error::AlreadyInitialized)
    );
    assert_eq!(env.ticket_factory(), Some(&address("factory")));
    assert!(env.actions().is_empty());
}

#[test]
fn event_without_tiers_gets_a_general_tier() {
    let mut env = initialized();
    assert_eq!(EventManager::create_event(&mut env, params(vec![]), address("nft")), Ok(0));
    let event = EventManager::get_event(&env, 0).unwrap();
    assert_eq!(event.id, 0);
    assert_eq!(event.theme, "Rust Conference");
    assert_eq!(event.organizer, address("organizer"));
    assert_eq!(event.event_type, "Conference");
    assert_eq!(event.total_tickets, 10);
    assert_eq!(event.tickets_sold, 0);
    assert_eq!(event.ticket_price, 50);
    assert_eq!(event.start_date, 2000);
    assert_eq!(event.end_date, 3000);
    assert!(!event.is_canceled);
    assert_eq!(event.ticket_nft_addr, address("nft"));
    assert_eq!(event.payment_token, address("token"));
    assert_eq!(
        EventManager::get_event_tiers(&env, 0),
        Ok(vec![TicketTier {
            name: "General".to_string(),
            price: 50,
            total_quantity: 10,
            sold_quantity: 0,
        }])
    );
}

#[test]
fn event_with_tiers_takes_its_count_and_price_from_them() {
    let mut env = initialized();
    let tiers = vec![tier("VIP", 200, 3), tier("General", 50, 7), tier("Early Bird", 0, 5)];
    assert_eq!(EventManager::create_event(&mut env, params(tiers), address("nft")), Ok(0));
    let event = EventManager::get_event(&env, 0).unwrap();
    assert_eq!(event.total_tickets, 15);
    assert_eq!(event.ticket_price, 200);
    let stored = EventManager::get_event_tiers(&env, 0).unwrap();
    assert_eq!(stored.len(), 3);
    assert_eq!(stored[2].name, "Early Bird");
    assert_eq!(stored[2].price, 0);
    assert_eq!(stored[2].total_quantity, 5);
    assert_eq!(stored[2].sold_quantity, 0);
}

#[test]
fn creation_asks_the_host_in_order() {
    let mut env = initialized();
    assert_eq!(EventManager::create_event(&mut env, params(vec![]), address("nft")), Ok(0));
    assert_eq!(
        env.actions(),
        &vec![
            Action::RequireAuth(address("organizer")),
            Action::Write(DataKey::EventCounter),
            Action::Invoke {
                contract: address("factory"),
                function: "deploy_ticket".to_string(),
                args: vec![Value::Address(address("manager")), Value::Bytes(vec![0; 32])],
            },
            Action::Write(DataKey::Event(0)),
            Action::Write(DataKey::EventTiers(0)),
            Action::ExtendTtl { key: DataKey::Event(0), threshold: 518400, extend_to: 1728000 },
            Action::Publish {
                topic: "event_created".to_string(),
                data: vec![
                    Value::U32(0),
                    Value::Address(address("organizer")),
                    Value::Address(address("nft")),
                ],
            },
        ]
    );
}

#[test]
fn preparing_and_recording_make_up_creation() {
    let mut env = initialized();
    let pending = EventManager::prepare_event(&mut env, params(vec![tier("VIP", 9, 4)])).unwrap();
    assert_eq!(pending.event_id, 0);
    assert_eq!(pending.total_tickets, 4);
    assert_eq!(pending.ticket_price, 9);
    assert_eq!(EventManager::get_event(&env, 0), Err(Error::EventNotFound));
    assert_eq!(env.take_actions().len(), 3);
    assert_eq!(EventManager::record_event(&mut env, pending, address("nft")), 0);
    assert_eq!(env.take_actions().len(), 4);

    let mut other = initialized();
    let tiers = vec![tier("VIP", 9, 4)];
    assert_eq!(EventManager::create_event(&mut other, params(tiers), address("nft")), Ok(0));
    assert_eq!(EventManager::get_event(&env, 0), EventManager::get_event(&other, 0));
    assert_eq!(EventManager::get_event_tiers(&env, 0), EventManager::get_event_tiers(&other, 0));
}

#[test]
fn ids_count_up_and_are_not_reused() {
    let mut env = initialized();
    assert_eq!(EventManager::get_event_count(&env), 0);
    for id in 0..3 {
        assert_eq!(EventManager::create_event(&mut env, params(vec![]), address("nft")), Ok(id));
    }
    assert_eq!(EventManager::cancel_event(&mut env, 1), Ok(()));
    assert_eq!(EventManager::create_event(&mut env, params(vec![]), address("nft")), Ok(3));
    assert_eq!(EventManager::get_event_count(&env), 4);
}

#[test]
fn all_events_are_listed_in_order() {
    let mut env = initialized();
    assert!(EventManager::get_all_events(&env).is_empty());
    for _ in 0..3 {
        assert!(EventManager::create_event(&mut env, params(vec![]), address("nft")).is_ok());
    }
    let events = EventManager::get_all_events(&env);
    let ids: Vec<u32> = events.iter().map(|event| event.id).collect();
    assert_eq!(ids, vec![0, 1, 2]);
}

#[test]
fn listing_skips_events_that_are_missing() {
    let mut env = initialized();
    for _ in 0..2 {
        assert!(EventManager::create_event(&mut env, params(vec![]), address("nft")).is_ok());
    }
    env.load_event_counter(4);
    assert_eq!(EventManager::get_all_events(&env).len(), 2);
    env.load_event_counter(1);
    assert_eq!(EventManager::get_all_events(&env).len(), 1);
}

#[test]
fn count_of_an_untouched_contract_is_zero() {
    let env = Env::new(1000, address("manager"));
    assert_eq!(EventManager::get_event_count(&env), 0);
    assert_eq!(EventManager::get_event(&env, 0), Err(Error::EventNotFound));
    assert_eq!(EventManager::get_event_tiers(&env, 0), Err(Error::EventNotFound));
}

#[test]
fn validation_names_the_first_fault() {
    let check = EventManager::validate_event_params;
    assert_eq!(check(1000, 1000, 1001, 0, 1), Ok(()));
    assert_eq!(check(1000, 999, 999, -1, 0), Err(Error::InvalidStartDate));
    assert_eq!(check(1000, 1000, 1000, -1, 0), Err(Error::InvalidEndDate));
    assert_eq!(check(1000, 1000, 1001, -1, 0), Err(Error::NegativeTicketPrice));
    assert_eq!(check(1000, 1000, 1001, 0, 0), Err(Error::InvalidTicketCount));
}

#[test]
fn faulty_params_are_refused_after_the_signature() {
    let mut env = initialized();
    let mut faulty = params(vec![]);
    faulty.start_date = 999;
    assert_eq!(
        EventManager::create_event(&mut env, faulty, address("nft")),
        Err(Error::InvalidStartDate)
    );
    let mut faulty = params(vec![tier("VIP", 1, 1)]);
    faulty.total_tickets = 0;
    assert_eq!(
        EventManager::create_event(&mut env, faulty, address("nft")),
        Err(Error::InvalidTicketCount)
    );
    assert_eq!(
        env.actions(),
        &vec![
            Action::RequireAuth(address("organizer")),
            Action::RequireAuth(address("organizer")),
        ]
    );
    assert_eq!(EventManager::get_event_count(&env), 0);
}

#[test]
fn first_faulty_tier_decides() {
    let mut env = initialized();
    let tiers = vec![tier("a", 1, 1), tier("b", 1, 0), tier("c", -1, 1)];
    assert_eq!(
        EventManager::create_event(&mut env, params(tiers), address("nft")),
        Err(Error::InvalidTierConfig)
    );
    let tiers = vec![tier("a", 1, 1), tier("b", -1, 0), tier("c", 1, 0)];
    assert_eq!(
        EventManager::create_event(&mut env, params(tiers), address("nft")),
        Err(Error::NegativeTicketPrice)
    );
    assert_eq!(EventManager::get_event_count(&env), 0);
}

#[test]
fn creation_needs_a_factory() {
    let mut env = Env::new(1000, address("manager"));
    assert_eq!(
        EventManager::create_event(&mut env, params(vec![]), address("nft")),
        Err(Error::FactoryNotInitialized)
    );
    assert_eq!(EventManager::get_event(&env, 0), Err(Error::EventNotFound));
    assert_eq!(
        env.actions(),
        &vec![
            Action::RequireAuth(address("organizer")),
            Action::Write(DataKey::EventCounter),
        ]
    );
}

#[test]
fn creation_needs_a_free_id() {
    let mut env = initialized();
    env.load_event_counter(u32::MAX);
    assert_eq!(
        EventManager::create_event(&mut env, params(vec![]), address("nft")),
        Err(Error::CounterOverflow)
    );
    env.load_event_counter(u32::MAX - 1);
    assert_eq!(
        EventManager::create_event(&mut env, params(vec![]), address("nft")),
        Ok(u32::MAX - 1)
    );
    assert_eq!(EventManager::get_event_count(&env), u32::MAX);
}

#[test]
fn too_many_tickets_are_noticed_in_otherwise_good_params() {
    let env = initialized();
    let many = vec![tier("a", 1, u128::MAX), tier("b", 1, 1)];
    assert!(EventManager::ticket_count_overflows(&env, &params(many)));
    let full = vec![tier("a", 1, u128::MAX)];
    assert!(!EventManager::ticket_count_overflows(&env, &params(full)));
    let faulty = vec![tier("a", 1, u128::MAX), tier("b", 1, 1), tier("c", -1, 1)];
    assert!(!EventManager::ticket_count_overflows(&env, &params(faulty)));
}

#[test]
fn faulty_params_are_named_although_the_tickets_are_too_many() {
    let mut env = initialized();
    let faulty = vec![tier("a", 1, u128::MAX), tier("b", 1, 1), tier("c", -1, 1)];
    assert_eq!(
        EventManager::create_event(&mut env, params(faulty), address("nft")),
        Err(Error::NegativeTicketPrice)
    );
}

#[test]
fn error_codes_are_as_published() {
    let errors = [
        Error::AlreadyInitialized,
        Error::EventNotFound,
        Error::EventAlreadyCanceled,
        Error::CannotSellMoreTickets,
        Error::InvalidStartDate,
        Error::InvalidEndDate,
        Error::NegativeTicketPrice,
        Error::InvalidTicketCount,
        Error::CounterOverflow,
        Error::FactoryNotInitialized,
        Error::InvalidTierIndex,
        Error::TierSoldOut,
        Error::InvalidTierConfig,
    ];
    for i in 0..errors.len() {
        assert_eq!(errors[i].code(), i as u32 + 1);
    }
}

#[test]
fn factory_is_asked_alike_for_every_event() {
    let mut env = initialized();
    let mut other = params(vec![tier("VIP", 9, 4), tier("Free", 0, 2)]);
    other.theme = "Another theme".to_string();
    other.organizer = address("somebody");
    assert_eq!(EventManager::create_event(&mut env, params(vec![]), address("nft")), Ok(0));
    let first = env.take_actions();
    assert_eq!(EventManager::create_event(&mut env, other, address("other nft")), Ok(1));
    let second = env.take_actions();
    assert!(matches!(first[2], Action::Invoke { .. }));
    assert_eq!(first[2], second[2]);
}

#[test]
fn failed_creations_do_not_count() {
    let mut env = initialized();
    assert_eq!(EventManager::create_event(&mut env, params(vec![]), address("nft")), Ok(0));
    let faulty = vec![tier("VIP", -1, 1)];
    assert!(EventManager::create_event(&mut env, params(faulty), address("nft")).is_err());
    assert_eq!(EventManager::get_event_count(&env), 1);
    assert_eq!(EventManager::create_event(&mut env, params(vec![]), address("nft")), Ok(1));
    assert_eq!(EventManager::get_event_count(&env), 2);
}
