use event_manager::{
    Action, Address, CreateEventParams, DataKey, Env, Error, EventManager, Refusal, TierConfig,
    Value,
};

fn address(text: &str) -> Address {
    Address::new(text.to_string())
}

/// A contract with one event, of which Ann bought a VIP and Bob a general ticket.
fn with_sales() -> Env {
    let mut env = Env::new(1000, address("manager"));
    assert_eq!(EventManager::initialize(&mut env, address("factory")), Ok(()));
    let params = CreateEventParams {
        organizer: address("organizer"),
        theme: "Concert".to_string(),
        event_type: "Music".to_string(),
        start_date: 2000,
        end_date: 3000,
        ticket_price: 50,
        total_tickets: 10,
        payment_token: address("token"),
        tiers: vec![
            TierConfig { name: "VIP".to_string(), price: 200, total_quantity: 5 },
            TierConfig { name: "General".to_string(), price: 80, total_quantity: 5 },
        ],
    };
    assert_eq!(EventManager::create_event(&mut env, params, address("nft")), Ok(0));
    assert_eq!(EventManager::purchase_ticket(&mut env, address("ann"), 0, 0), Ok(()));
    assert_eq!(EventManager::purchase_ticket(&mut env, address("bob"), 0, 1), Ok(()));
    env.take_actions();
    env
}

#[test]
fn cancel_asks_the_organizer() {
    let mut env = with_sales();
    assert_eq!(EventManager::cancel_event(&mut env, 0), Ok(()));
    assert!(EventManager::get_event(&env, 0).unwrap().is_canceled);
    assert_eq!(
        env.actions(),
        &vec![
            Action::RequireAuth(address("organizer")),
            Action::Write(DataKey::Event(0)),
            Action::Publish {
                topic: "event_canceled".to_string(),
                data: vec![Value::U32(0)],
            },
        ]
    );
}

#[test]
fn cancellation_is_final() {
    let mut env = with_sales();
    assert_eq!(EventManager::cancel_event(&mut env, 3), Err(Error::EventNotFound));
    assert!(env.actions().is_empty());
    assert_eq!(EventManager::cancel_event(&mut env, 0), Ok(()));
    env.take_actions();
    assert_eq!(EventManager::cancel_event(&mut env, 0), Err(Error::EventAlreadyCanceled));
    assert_eq!(env.actions(), &vec![Action::RequireAuth(address("organizer"))]);
    assert_eq!(
        EventManager::update_event(&mut env, 0, None, Some(1), None, None, None),
        Err(Refusal::UpdateOfCanceledEvent)
    );
    assert_eq!(
        EventManager::purchase_ticket(&mut env, address("cid"), 0, 0),
        Err(Refusal::EventCanceled)
    );
}

#[test]
fn refund_pays_the_price_of_the_last_ticket() {
    let mut env = with_sales();
    assert_eq!(EventManager::cancel_event(&mut env, 0), Ok(()));
    env.take_actions();
    assert_eq!(EventManager::claim_refund(&mut env, address("ann"), 0), Ok(()));
    assert!(env.refund_claimed(0, &address("ann")));
    assert!(!env.refund_claimed(0, &address("bob")));
    assert_eq!(
        env.actions(),
        &vec![
            Action::RequireAuth(address("ann")),
            Action::Write(DataKey::RefundClaimed(0, address("ann"))),
            Action::Transfer {
                token: address("token"),
                from: address("organizer"),
                to: address("ann"),
                amount: 80,
            },
            Action::Publish {
                topic: "refund_claimed".to_string(),
                data: vec![
                    Value::U32(0),
                    Value::Address(address("ann")),
                    Value::I128(80),
                ],
            },
        ]
    );
}

#[test]
fn refund_of_nothing_moves_nothing() {
    let mut env = with_sales();
    assert_eq!(EventManager::update_event(&mut env, 0, None, Some(0), None, None, None), Ok(()));
    assert_eq!(EventManager::cancel_event(&mut env, 0), Ok(()));
    env.take_actions();
    assert_eq!(EventManager::claim_refund(&mut env, address("bob"), 0), Ok(()));
    assert_eq!(env.actions().len(), 3);
    assert!(!env.actions().iter().any(|action| matches!(action, Action::Transfer { .. })));
}

#[test]
fn refund_is_claimed_once_by_each_buyer() {
    let mut env = with_sales();
    assert_eq!(EventManager::cancel_event(&mut env, 0), Ok(()));
    assert_eq!(EventManager::claim_refund(&mut env, address("ann"), 0), Ok(()));
    assert_eq!(EventManager::claim_refund(&mut env, address("bob"), 0), Ok(()));
    assert_eq!(
        EventManager::claim_refund(&mut env, address("ann"), 0),
        Err(Refusal::RefundAlreadyClaimed)
    );
}

#[test]
fn refund_is_refused() {
    let mut env = with_sales();
    assert_eq!(
        EventManager::claim_refund(&mut env, address("ann"), 4),
        Err(Refusal::EventNotFound)
    );
    assert_eq!(
        EventManager::claim_refund(&mut env, address("ann"), 0),
        Err(Refusal::EventNotCanceled)
    );
    assert_eq!(EventManager::cancel_event(&mut env, 0), Ok(()));
    env.take_actions();
    assert_eq!(
        EventManager::claim_refund(&mut env, address("eve"), 0),
        Err(Refusal::NotABuyer)
    );
    assert_eq!(env.actions(), &vec![Action::RequireAuth(address("eve"))]);
    assert!(!env.refund_claimed(0, &address("eve")));
}

#[test]
fn claims_of_one_event_do_not_count_for_another() {
    let mut env = with_sales();
    env.load_refund_claimed(1, address("ann"));
    assert_eq!(EventManager::cancel_event(&mut env, 0), Ok(()));
    assert_eq!(EventManager::claim_refund(&mut env, address("ann"), 0), Ok(()));
}

#[test]
fn event_without_buyers_refunds_nobody() {
    let mut env = with_sales();
    let mut event = EventManager::get_event(&env, 0).unwrap();
    event.id = 1;
    event.is_canceled = true;
    env.load_event(1, event);
    assert_eq!(
        EventManager::claim_refund(&mut env, address("ann"), 1),
        Err(Refusal::NotABuyer)
    );
}

#[test]
fn messages_are_as_published() {
    let messages = [
        (Refusal::EventNotFound, "Event not found"),
        (Refusal::EventNotCanceled, "Event is not canceled"),
        (Refusal::RefundAlreadyClaimed, "Refund already claimed"),
        (Refusal::NotABuyer, "Claimer did not purchase a ticket for this event"),
        (Refusal::UpdateOfCanceledEvent, "Cannot update a canceled event"),
        (Refusal::NegativeTicketPrice, "Ticket price cannot be negative"),
        (Refusal::NoTickets, "Total tickets must be greater than 0"),
        (Refusal::FewerTicketsThanSold, "Cannot reduce total_tickets below tickets_sold"),
        (Refusal::StartInPast, "Start date cannot be in the past"),
        (Refusal::StartNotBeforeEnd, "Start date must be before end date"),
        (Refusal::EndInPast, "End date cannot be in the past"),
        (Refusal::EndNotAfterStart, "End date must be after start date"),
        (Refusal::EventCanceled, "Event is canceled"),
        (Refusal::TiersNotFound, "Event tiers not found"),
        (Refusal::InvalidTierIndex, "Invalid tier index"),
        (Refusal::TierSoldOut, "Tier is sold out"),
        (Refusal::TicketCountOverflow, "attempt to add with overflow"),
    ];
    for (refusal, message) in messages {
        assert_eq!(refusal.message(), message);
    }
}
