use uuid::Uuid;
use zero2prod::domain::SubscriptionToken;
use zero2prod::routes::{
    confirmation_email, confirmation_link, subscribe_start, subscribe_step, SubscribeAction,
    SubscribeError, SubscribeEvent, SubscribeFailure, SubscribeState, SubscriberDetails,
};

fn ursula() -> SubscriberDetails {
    SubscriberDetails { email: "ursula_le_guin@gmail.com".to_string(), name: "le guin".to_string() }
}

#[test]
fn confirmation_link_points_at_the_confirm_endpoint() {
    let token = SubscriptionToken::parse("abcdefghijklmnopqrstuvwxy".to_string()).unwrap();
    assert_eq!(
        confirmation_link("http://127.0.0.1:8000", &token),
        "http://127.0.0.1:8000/subscriptions/confirm?subscription_token=abcdefghijklmnopqrstuvwxy"
    );
}

#[test]
fn confirmation_email_bodies() {
    let token = SubscriptionToken::parse("abcdefghijklmnopqrstuvwxy".to_string()).unwrap();
    let email = confirmation_email("https://x.io", &token);
    let link = "https://x.io/subscriptions/confirm?subscription_token=abcdefghijklmnopqrstuvwxy";
    assert_eq!(email.subject, "Welcome!");
    assert_eq!(
        email.html_body,
        format!("Welcome to our newsletter!<br />Click <a href=\"{}\">here</a> to confirm your subscription.", link)
    );
    assert_eq!(
        email.text_body,
        format!("Welcome to our newsletter!\nVisit {} to confirm your subscription.", link)
    );
}

#[test]
fn invalid_form_is_a_400_with_the_reason() {
    let (state, action) = subscribe_start(Err("bad email".to_string()), "http://x".to_string());
    assert!(matches!(state, SubscribeState::Finished));
    match action {
        SubscribeAction::Respond(Err(e)) => {
            assert_eq!(e.status_code(), 400);
            assert_eq!(e.message(), "bad email");
        }
        other => panic!("{:?}", other),
    }
}

#[test]
fn subscribing_stores_a_token_and_emails_its_link() {
    let id = Uuid::new_v4();
    let (state, action) = subscribe_start(Ok(ursula()), "http://x".to_string());
    assert!(matches!(action, SubscribeAction::BeginTransaction));
    let (state, action) = subscribe_step(state, SubscribeEvent::TransactionBegun(true));
    match &action {
        SubscribeAction::InsertSubscriber(subscriber) => {
            assert_eq!(subscriber.email, "ursula_le_guin@gmail.com");
            assert_eq!(subscriber.name, "le guin");
        }
        other => panic!("{:?}", other),
    }
    let (state, action) = subscribe_step(state, SubscribeEvent::SubscriberInserted(Some(id)));
    let stored = match action {
        SubscribeAction::StoreToken(for_id, token) => {
            assert_eq!(for_id, id);
            token
        }
        other => panic!("{:?}", other),
    };
    assert!(SubscriptionToken::parse(stored.as_ref().to_string()).is_ok());
    let (state, action) = subscribe_step(state, SubscribeEvent::TokenStored(true));
    assert!(matches!(action, SubscribeAction::Commit));
    let (state, action) = subscribe_step(state, SubscribeEvent::Committed(true));
    match action {
        SubscribeAction::SendConfirmationEmail { recipient, email } => {
            assert_eq!(recipient, "ursula_le_guin@gmail.com");
            let link = format!("http://x/subscriptions/confirm?subscription_token={}", stored.as_ref());
            assert!(email.html_body.contains(&link));
            assert!(email.text_body.contains(&link));
        }
        other => panic!("{:?}", other),
    }
    let (state, action) = subscribe_step(state, SubscribeEvent::EmailSent(true));
    assert!(matches!(state, SubscribeState::Finished));
    assert!(matches!(action, SubscribeAction::Respond(Ok(()))));
}

#[test]
fn failed_email_is_a_500() {
    let (state, _) = subscribe_start(Ok(ursula()), "http://x".to_string());
    let (state, _) = subscribe_step(state, SubscribeEvent::TransactionBegun(true));
    let (state, _) = subscribe_step(state, SubscribeEvent::SubscriberInserted(Some(Uuid::new_v4())));
    let (state, _) = subscribe_step(state, SubscribeEvent::TokenStored(true));
    let (state, _) = subscribe_step(state, SubscribeEvent::Committed(true));
    let (_, action) = subscribe_step(state, SubscribeEvent::EmailSent(false));
    match action {
        SubscribeAction::Respond(Err(e)) => {
            assert!(matches!(e, SubscribeError::UnexpectedError(SubscribeFailure::SendConfirmationEmail)));
            assert_eq!(e.status_code(), 500);
            assert_eq!(e.message(), "Failed to send confirmation email");
        }
        other => panic!("{:?}", other),
    }
}

#[test]
fn failed_insert_stops_before_any_token() {
    let (state, _) = subscribe_start(Ok(ursula()), "http://x".to_string());
    let (state, _) = subscribe_step(state, SubscribeEvent::TransactionBegun(true));
    let (state, action) = subscribe_step(state, SubscribeEvent::SubscriberInserted(None));
    assert!(matches!(state, SubscribeState::Finished));
    match action {
        SubscribeAction::Respond(Err(e)) => {
            assert_eq!(e.message(), "Failed to insert new subscriber in the database");
        }
        other => panic!("{:?}", other),
    }
}
