use crate::domain::{is_valid_token, SubscriptionToken};
use uuid::Uuid;
use crate::utils::{error_body_of, error_body_text, error_response_for, ErrorResponse};
use vstd::prelude::*;
use vstd::string::*;

verus! {

/// The subscription form: the subscriber's email address and name.
pub struct FormData {
    pub email: String,
    pub name: String,
}

/// The step of a subscription that failed.
#[derive(Debug, Clone, Copy, PartialEq, Eq, Structural)]
pub enum SubscribeFailure {
    BeginTransaction,
    InsertSubscriber,
    StoreToken,
    Commit,
    SendConfirmationEmail,
}

/// The context in which each failed step is reported.
pub open spec fn subscribe_failure_text(f: SubscribeFailure) -> Seq<char> {
    match f {
        SubscribeFailure::BeginTransaction => "Failed to acquire a Postgres connection from the pool"@,
        SubscribeFailure::InsertSubscriber => "Failed to insert new subscriber in the database"@,
        SubscribeFailure::StoreToken => "Failed to store the confirmation token for a new subscriber"@,
        SubscribeFailure::Commit => "Failed to commit SQL transaction to store a new subscriber"@,
        SubscribeFailure::SendConfirmationEmail => "Failed to send confirmation email"@,
    }
}

impl SubscribeFailure {
    /// The context in which the failure is reported.
    pub fn context(&self) -> (text: &'static str)
        ensures
            text@ == subscribe_failure_text(*self),
    {
        match self {
            SubscribeFailure::BeginTransaction => "Failed to acquire a Postgres connection from the pool",
            SubscribeFailure::InsertSubscriber => "Failed to insert new subscriber in the database",
            SubscribeFailure::StoreToken => "Failed to store the confirmation token for a new subscriber",
            SubscribeFailure::Commit => "Failed to commit SQL transaction to store a new subscriber",
            SubscribeFailure::SendConfirmationEmail => "Failed to send confirmation email",
        }
    }
}

/// Why a subscription was refused.
#[derive(Debug)]
pub enum SubscribeError {
    /// The form does not hold a valid name and email; holds the reason.
    ValidationError(String),
    /// A step after validation failed.
    UnexpectedError(SubscribeFailure),
}

/// The HTTP status with which each subscription error is answered.
pub open spec fn subscribe_status(e: SubscribeError) -> u16 {
    match e {
        SubscribeError::ValidationError(_) => 400,
        SubscribeError::UnexpectedError(_) => 500,
    }
}

/// The message of each subscription error.
pub open spec fn subscribe_message(e: SubscribeError) -> Seq<char> {
    match e {
        SubscribeError::ValidationError(m) => m@,
        SubscribeError::UnexpectedError(f) => subscribe_failure_text(f),
    }
}

impl SubscribeError {
    /// 400 for an invalid form, 500 otherwise.
    pub fn status_code(&self) -> (code: u16)
        ensures
            code == subscribe_status(*self),
            self is ValidationError ==> code == 400,
            self is UnexpectedError ==> code == 500,
    {
        match self {
            SubscribeError::ValidationError(_) => 400,
            SubscribeError::UnexpectedError(_) => 500,
        }
    }

    /// The answer to the error: its status, with the status's reason phrase
    /// as the only body.
    pub fn error_response(&self) -> (r: ErrorResponse)
        ensures
            r.status == subscribe_status(*self),
            r.body@ == error_body_of(r.status),
            r.body@ == error_body_text(r.status),
    {
        error_response_for(self.status_code())
    }

    /// The error's message.
    pub fn message(&self) -> (text: String)
        ensures
            text@ == subscribe_message(*self),
    {
        match self {
            SubscribeError::ValidationError(m) => m.clone(),
            SubscribeError::UnexpectedError(f) => String::from_str(f.context()),
        }
    }
}

/// The link with which a subscriber confirms a subscription.
pub open spec fn confirmation_link_text(base_url: Seq<char>, token: Seq<char>) -> Seq<char> {
    base_url + "/subscriptions/confirm?subscription_token="@ + token
}

/// The subject of the confirmation email.
pub open spec fn confirmation_subject() -> Seq<char> {
    "Welcome!"@
}

/// The HTML body of the confirmation email.
pub open spec fn confirmation_html_text(link: Seq<char>) -> Seq<char> {
    "Welcome to our newsletter!<br />Click <a href=\""@ + link + "\">here</a> to confirm your subscription."@
}

/// The plain-text body of the confirmation email.
pub open spec fn confirmation_plain_text(link: Seq<char>) -> Seq<char> {
    "Welcome to our newsletter!\nVisit "@ + link + " to confirm your subscription."@
}

/// The email that asks a new subscriber to confirm.
#[derive(Debug)]
pub struct ConfirmationEmail {
    pub subject: String,
    pub html_body: String,
    pub text_body: String,
}

/// The confirmation link for a token, under the application's base URL.
pub fn confirmation_link(base_url: &str, subscription_token: &SubscriptionToken) -> (link: String)
    ensures
        link@ == confirmation_link_text(base_url@, subscription_token@),
        link@ == base_url@ + "/subscriptions/confirm?subscription_token="@ + subscription_token@,
{
    let mut link = String::from_str(base_url);
    link.append("/subscriptions/confirm?subscription_token=");
    link.append(subscription_token.as_ref());
    link
}

/// The confirmation email for a token, under the application's base URL.
pub fn confirmation_email(base_url: &str, subscription_token: &SubscriptionToken) -> (email: ConfirmationEmail)
    ensures
        email.subject@ == confirmation_subject(),
        email.html_body@ == confirmation_html_text(confirmation_link_text(base_url@, subscription_token@)),
        email.text_body@ == confirmation_plain_text(confirmation_link_text(base_url@, subscription_token@)),
        email.subject@ == "Welcome!"@,
        email.html_body@ == "Welcome to our newsletter!<br />Click <a href=\""@ + (base_url@
            + "/subscriptions/confirm?subscription_token="@ + subscription_token@)
            + "\">here</a> to confirm your subscription."@,
        email.text_body@ == "Welcome to our newsletter!\nVisit "@ + (base_url@
            + "/subscriptions/confirm?subscription_token="@ + subscription_token@)
            + " to confirm your subscription."@,
{
    let link = confirmation_link(base_url, subscription_token);
    let mut html_body = String::from_str("Welcome to our newsletter!<br />Click <a href=\"");
    html_body.append(link.as_str());
    html_body.append("\">here</a> to confirm your subscription.");
    let mut text_body = String::from_str("Welcome to our newsletter!\nVisit ");
    text_body.append(link.as_str());
    text_body.append(" to confirm your subscription.");
    ConfirmationEmail { subject: String::from_str("Welcome!"), html_body, text_body }
}

/// A new subscriber whose name and email address have passed validation.
#[derive(Debug)]
pub struct SubscriberDetails {
    pub email: String,
    pub name: String,
}

impl Clone for SubscriberDetails {
    /// The same subscriber.
    fn clone(&self) -> (details: Self)
        ensures
            details == *self,
    {
        SubscriberDetails { email: self.email.clone(), name: self.name.clone() }
    }
}

/// Where a subscription stands between two steps. The base URL is the one
/// under which the confirmation link is built.
#[derive(Debug)]
pub enum SubscribeState {
    /// Waiting for a transaction.
    AwaitingTransaction { base_url: String, subscriber: SubscriberDetails },
    /// Waiting for the subscriber to be stored.
    AwaitingInsert { base_url: String, subscriber: SubscriberDetails },
    /// Waiting for the token to be stored.
    AwaitingTokenStore { base_url: String, subscriber: SubscriberDetails, token: SubscriptionToken },
    /// Waiting for the transaction to commit.
    AwaitingCommit { base_url: String, subscriber: SubscriberDetails, token: SubscriptionToken },
    /// Waiting for the confirmation email to go out.
    AwaitingEmail,
    /// The answer has been given.
    Finished,
}

/// What a step came to: the stored subscriber's id, or whether the step
/// succeeded.
#[derive(Debug)]
pub enum SubscribeEvent {
    TransactionBegun(bool),
    SubscriberInserted(Option<Uuid>),
    TokenStored(bool),
    Committed(bool),
    EmailSent(bool),
}

/// What the caller is to do next.
#[derive(Debug)]
pub enum SubscribeAction {
    /// Open a transaction.
    BeginTransaction,
    /// Store this subscriber as pending confirmation, in the transaction.
    InsertSubscriber(SubscriberDetails),
    /// Store the token for the subscriber with this id, in the transaction.
    StoreToken(Uuid, SubscriptionToken),
    /// Commit the transaction.
    Commit,
    /// Send this email to this address.
    SendConfirmationEmail { recipient: String, email: ConfirmationEmail },
    /// Answer the request.
    Respond(Result<(), SubscribeError>),
}

/// The event that the caller hands back after performing an action.
pub open spec fn subscribe_answers(action: SubscribeAction, event: SubscribeEvent) -> bool {
    match action {
        SubscribeAction::BeginTransaction => event is TransactionBegun,
        SubscribeAction::InsertSubscriber(_) => event is SubscriberInserted,
        SubscribeAction::StoreToken(_, _) => event is TokenStored,
        SubscribeAction::Commit => event is Committed,
        SubscribeAction::SendConfirmationEmail { .. } => event is EmailSent,
        SubscribeAction::Respond(_) => false,
    }
}

/// The event that a state waits for.
pub open spec fn subscribe_expects(state: SubscribeState, event: SubscribeEvent) -> bool {
    match state {
        SubscribeState::AwaitingTransaction { .. } => event is TransactionBegun,
        SubscribeState::AwaitingInsert { .. } => event is SubscriberInserted,
        SubscribeState::AwaitingTokenStore { .. } => event is TokenStored,
        SubscribeState::AwaitingCommit { .. } => event is Committed,
        SubscribeState::AwaitingEmail => event is EmailSent,
        SubscribeState::Finished => false,
    }
}

/// The subscription ends, answered with an unexpected error naming step `f`.
pub open spec fn subscribe_failed(next: SubscribeState, action: SubscribeAction, f: SubscribeFailure) -> bool {
    &&& next is Finished
    &&& action == SubscribeAction::Respond(Err(SubscribeError::UnexpectedError(f)))
}

/// How a subscription moves on an event: each success leads to the next step,
/// the subscriber validated at the start is the one stored, a stored
/// subscriber gets a fresh well-formed token, the email goes to that
/// subscriber's address and carries the link for the stored token, and any
/// failure ends the subscription with an unexpected error naming the step.
pub open spec fn subscribe_transition(
    state: SubscribeState,
    event: SubscribeEvent,
    next: SubscribeState,
    action: SubscribeAction,
) -> bool {
    match (state, event) {
        (SubscribeState::AwaitingTransaction { base_url, subscriber }, SubscribeEvent::TransactionBegun(ok)) => if ok {
            &&& next == (SubscribeState::AwaitingInsert { base_url, subscriber })
            &&& action == SubscribeAction::InsertSubscriber(subscriber)
        } else {
            subscribe_failed(next, action, SubscribeFailure::BeginTransaction)
        },
        (SubscribeState::AwaitingInsert { base_url, subscriber }, SubscribeEvent::SubscriberInserted(inserted)) => match inserted {
            Some(id) => {
                &&& next matches SubscribeState::AwaitingTokenStore { base_url: b, subscriber: s, token }
                &&& b == base_url
                &&& s == subscriber
                &&& is_valid_token(token@)
                &&& token.is_drawn()
                &&& action == SubscribeAction::StoreToken(id, token)
            },
            None => subscribe_failed(next, action, SubscribeFailure::InsertSubscriber),
        },
        (SubscribeState::AwaitingTokenStore { base_url, subscriber, token }, SubscribeEvent::TokenStored(ok)) => if ok {
            &&& next == (SubscribeState::AwaitingCommit { base_url, subscriber, token })
            &&& action == SubscribeAction::Commit
        } else {
            subscribe_failed(next, action, SubscribeFailure::StoreToken)
        },
        (SubscribeState::AwaitingCommit { base_url, subscriber, token }, SubscribeEvent::Committed(ok)) => if ok {
            &&& next is AwaitingEmail
            &&& action matches SubscribeAction::SendConfirmationEmail { recipient, email }
            &&& recipient == subscriber.email
            &&& email.subject@ == confirmation_subject()
            &&& email.html_body@ == confirmation_html_text(confirmation_link_text(base_url@, token@))
            &&& email.text_body@ == confirmation_plain_text(confirmation_link_text(base_url@, token@))
        } else {
            subscribe_failed(next, action, SubscribeFailure::Commit)
        },
        (SubscribeState::AwaitingEmail, SubscribeEvent::EmailSent(ok)) => if ok {
            &&& next is Finished
            &&& action == SubscribeAction::Respond(Ok(()))
        } else {
            subscribe_failed(next, action, SubscribeFailure::SendConfirmationEmail)
        },
        _ => false,
    }
}

/// Starts a subscription once the form has been validated: an invalid form
/// is refused with the reason, a valid subscriber gets a transaction opened.
pub fn subscribe_start(validated: Result<SubscriberDetails, String>, base_url: String) -> (r: (SubscribeState, SubscribeAction))
    ensures
        match validated {
            Ok(subscriber) => {
                &&& r.0 == (SubscribeState::AwaitingTransaction { base_url, subscriber })
                &&& r.1 == SubscribeAction::BeginTransaction
            },
            Err(m) => r.0 is Finished && r.1 == SubscribeAction::Respond(Err(SubscribeError::ValidationError(m))),
        },
{
    match validated {
        Ok(subscriber) => (SubscribeState::AwaitingTransaction { base_url, subscriber }, SubscribeAction::BeginTransaction),
        Err(m) => (SubscribeState::Finished, SubscribeAction::Respond(Err(SubscribeError::ValidationError(m)))),
    }
}

fn subscribe_failure(f: SubscribeFailure) -> (r: (SubscribeState, SubscribeAction))
    ensures
        subscribe_failed(r.0, r.1, f),
{
    (SubscribeState::Finished, SubscribeAction::Respond(Err(SubscribeError::UnexpectedError(f))))
}

/// Advances a subscription by the outcome of the step it waits for.
pub fn subscribe_step(state: SubscribeState, event: SubscribeEvent) -> (r: (SubscribeState, SubscribeAction))
    requires
        subscribe_expects(state, event),
    ensures
        subscribe_transition(state, event, r.0, r.1),
        forall|e: SubscribeEvent| subscribe_answers(r.1, e) ==> subscribe_expects(r.0, e),
{
    match (state, event) {
        (SubscribeState::AwaitingTransaction { base_url, subscriber }, SubscribeEvent::TransactionBegun(ok)) => if ok {
            let inserted = subscriber.clone();
            (SubscribeState::AwaitingInsert { base_url, subscriber }, SubscribeAction::InsertSubscriber(inserted))
        } else {
            subscribe_failure(SubscribeFailure::BeginTransaction)
        },
        (SubscribeState::AwaitingInsert { base_url, subscriber }, SubscribeEvent::SubscriberInserted(inserted)) => match inserted {
            Some(id) => {
                let token = SubscriptionToken::new();
                let stored = token.clone();
                (
                    SubscribeState::AwaitingTokenStore { base_url, subscriber, token },
                    SubscribeAction::StoreToken(id, stored),
                )
            },
            None => subscribe_failure(SubscribeFailure::InsertSubscriber),
        },
        (SubscribeState::AwaitingTokenStore { base_url, subscriber, token }, SubscribeEvent::TokenStored(ok)) => if ok {
            (SubscribeState::AwaitingCommit { base_url, subscriber, token }, SubscribeAction::Commit)
        } else {
            subscribe_failure(SubscribeFailure::StoreToken)
        },
        (SubscribeState::AwaitingCommit { base_url, subscriber, token }, SubscribeEvent::Committed(ok)) => if ok {
            let email = confirmation_email(base_url.as_str(), &token);
            (
                SubscribeState::AwaitingEmail,
                SubscribeAction::SendConfirmationEmail { recipient: subscriber.email, email },
            )
        } else {
            subscribe_failure(SubscribeFailure::Commit)
        },
        (SubscribeState::AwaitingEmail, SubscribeEvent::EmailSent(ok)) => if ok {
            (SubscribeState::Finished, SubscribeAction::Respond(Ok(())))
        } else {
            subscribe_failure(SubscribeFailure::SendConfirmationEmail)
        },
        // Pairs that `subscribe_expects` rules out are never stepped.
        (_, _) => subscribe_failure(SubscribeFailure::BeginTransaction),
    }
}

/// The confirmation email goes out only after the transaction that stores
/// the subscriber and the token has committed.
pub proof fn lemma_email_only_after_commit(
    state: SubscribeState,
    event: SubscribeEvent,
    next: SubscribeState,
    recipient: String,
    email: ConfirmationEmail,
)
    requires
        subscribe_transition(state, event, next, SubscribeAction::SendConfirmationEmail { recipient, email }),
    ensures
        state is AwaitingCommit,
        event == SubscribeEvent::Committed(true),
{
}

/// The states a subscription passes through, the events that moved it, and
/// the actions it took: each step is a transition.
pub open spec fn subscribe_chain(
    states: Seq<SubscribeState>,
    events: Seq<SubscribeEvent>,
    actions: Seq<SubscribeAction>,
) -> bool {
    &&& states.len() == events.len() + 1
    &&& actions.len() == events.len()
    &&& forall|i: int|
        #![trigger events[i]]
        0 <= i < events.len() ==> subscribe_transition(states[i], events[i], states[i + 1], actions[i])
}

/// A subscription succeeds only when the validated subscriber was stored, a
/// fresh well-formed token was stored for that subscriber's id, the
/// transaction committed, and the email that carries the link for that token
/// was sent to that subscriber's address, in that order and nothing else.
pub proof fn lemma_subscription_success_path(
    base_url: String,
    subscriber: SubscriberDetails,
    states: Seq<SubscribeState>,
    events: Seq<SubscribeEvent>,
    actions: Seq<SubscribeAction>,
)
    requires
        subscribe_chain(states, events, actions),
        states[0] == (SubscribeState::AwaitingTransaction { base_url, subscriber }),
        actions.len() > 0,
        actions.last() == SubscribeAction::Respond(Ok(())),
    ensures
        events.len() == 5,
        events[0] == SubscribeEvent::TransactionBegun(true),
        actions[0] == SubscribeAction::InsertSubscriber(subscriber),
        events[2] == SubscribeEvent::TokenStored(true),
        actions[2] == SubscribeAction::Commit,
        events[3] == SubscribeEvent::Committed(true),
        events[4] == SubscribeEvent::EmailSent(true),
        exists|id: Uuid, token: SubscriptionToken|
            {
                &&& events[1] == SubscribeEvent::SubscriberInserted(Some(id))
                &&& actions[1] == SubscribeAction::StoreToken(id, token)
                &&& is_valid_token(token@)
                &&& token.is_drawn()
                &&& actions[3] matches SubscribeAction::SendConfirmationEmail { recipient, email }
                &&& recipient == subscriber.email
                &&& email.html_body@ == confirmation_html_text(confirmation_link_text(base_url@, token@))
                &&& email.text_body@ == confirmation_plain_text(confirmation_link_text(base_url@, token@))
            },
{
    let n = events.len() as int;
    assert(subscribe_transition(states[n - 1], events[n - 1], states[n], actions[n - 1]));
    assert(states[n - 1] is AwaitingEmail);
    assert(n - 1 >= 1);
    assert(subscribe_transition(states[n - 2], events[n - 2], states[n - 1], actions[n - 2]));
    assert(states[n - 2] is AwaitingCommit);
    assert(n - 2 >= 1);
    assert(subscribe_transition(states[n - 3], events[n - 3], states[n - 2], actions[n - 3]));
    assert(states[n - 3] is AwaitingTokenStore);
    assert(n - 3 >= 1);
    assert(subscribe_transition(states[n - 4], events[n - 4], states[n - 3], actions[n - 4]));
    assert(states[n - 4] is AwaitingInsert);
    assert(n - 4 >= 1);
    assert(subscribe_transition(states[n - 5], events[n - 5], states[n - 4], actions[n - 5]));
    assert(states[n - 5] is AwaitingTransaction);
    if n - 5 > 0 {
        assert(subscribe_transition(states[n - 6], events[n - 6], states[n - 5], actions[n - 6]));
    }
    assert(n == 5);
    assert(subscribe_transition(states[0], events[0], states[1], actions[0]));
    assert(subscribe_transition(states[1], events[1], states[2], actions[1]));
    assert(subscribe_transition(states[2], events[2], states[3], actions[2]));
    assert(subscribe_transition(states[3], events[3], states[4], actions[3]));
    assert(states[1] == (SubscribeState::AwaitingInsert { base_url, subscriber }));
    if let SubscribeEvent::SubscriberInserted(Some(id)) = events[1] {
        if let SubscribeState::AwaitingTokenStore { base_url: b, subscriber: sub, token } = states[2] {
            assert(actions[1] == SubscribeAction::StoreToken(id, token));
            assert(states[3] == (SubscribeState::AwaitingCommit { base_url: b, subscriber: sub, token }));
        }
    }
}

/// The token stored for a newly inserted subscriber is one drawn at random
/// for it by `SubscriptionToken::new`, never one parsed from given text, and
/// it is stored for exactly the id the insert returned.
pub proof fn lemma_stored_token_is_drawn(
    base_url: String,
    subscriber: SubscriberDetails,
    id: Uuid,
    next: SubscribeState,
    action: SubscribeAction,
)
    requires
        subscribe_transition(
            SubscribeState::AwaitingInsert { base_url, subscriber },
            SubscribeEvent::SubscriberInserted(Some(id)),
            next,
            action,
        ),
    ensures
        action matches SubscribeAction::StoreToken(for_id, token) && for_id == id && token.is_drawn()
            && is_valid_token(token@),
{
}

/// Once the form has validated, no step answers with a validation error:
/// every failed step ends the subscription with an unexpected error (500)
/// that names that step, and success is answered only once the confirmation
/// email has gone out.
pub proof fn lemma_failed_step_is_unexpected_error(
    state: SubscribeState,
    event: SubscribeEvent,
    next: SubscribeState,
    action: SubscribeAction,
)
    requires
        subscribe_transition(state, event, next, action),
    ensures
        action matches SubscribeAction::Respond(Err(e)) ==> e is UnexpectedError,
        action == SubscribeAction::Respond(Ok(())) ==> event == SubscribeEvent::EmailSent(true),
        event == SubscribeEvent::TransactionBegun(false) ==> next is Finished && action
            == SubscribeAction::Respond(Err(SubscribeError::UnexpectedError(SubscribeFailure::BeginTransaction))),
        event == SubscribeEvent::SubscriberInserted(None) ==> next is Finished && action
            == SubscribeAction::Respond(Err(SubscribeError::UnexpectedError(SubscribeFailure::InsertSubscriber))),
        event == SubscribeEvent::TokenStored(false) ==> next is Finished && action
            == SubscribeAction::Respond(Err(SubscribeError::UnexpectedError(SubscribeFailure::StoreToken))),
        event == SubscribeEvent::Committed(false) ==> next is Finished && action
            == SubscribeAction::Respond(Err(SubscribeError::UnexpectedError(SubscribeFailure::Commit))),
        event == SubscribeEvent::EmailSent(false) ==> next is Finished && action
            == SubscribeAction::Respond(Err(SubscribeError::UnexpectedError(SubscribeFailure::SendConfirmationEmail))),
{
}

} // verus!
