use crate::domain::{is_valid_token, token_error_message, SubscriptionToken};
use uuid::Uuid;
use vstd::string::*;
use crate::utils::{error_body_of, error_body_text, error_response_for, ErrorResponse};
use vstd::prelude::*;

verus! {

/// The query parameters of a confirmation link.
pub struct Parameters {
    pub subscription_token: String,
}

impl TryFrom<Parameters> for SubscriptionToken {
    type Error = String;

    /// The token that the confirmation link carries, as `SubscriptionToken::parse` reads it.
    fn try_from(params: Parameters) -> (r: Result<Self, String>)
        ensures
            r is Ok <==> is_valid_token(params.subscription_token@),
            r matches Ok(token) ==> token@ == params.subscription_token@,
            r matches Err(e) ==> e@ == token_error_message(),
    {
        SubscriptionToken::parse(params.subscription_token)
    }
}

impl vstd::std_specs::convert::TryFromSpecImpl<Parameters> for SubscriptionToken {
    /// What the conversion gives is stated on `try_from` itself, over views.
    open spec fn obeys_try_from_spec() -> bool {
        false
    }

    open spec fn try_from_spec(params: Parameters) -> Result<Self, String> {
        vstd::pervasive::arbitrary()
    }
}

/// The step of a confirmation that failed on the database's side.
#[derive(Debug, Clone, Copy, PartialEq, Eq, Structural)]
pub enum ConfirmFailure {
    LookUpSubscriber,
    BeginTransaction,
    MarkConfirmed,
    DeleteTokens,
    Commit,
}

/// The context in which each failed step is reported.
pub open spec fn confirm_failure_text(f: ConfirmFailure) -> Seq<char> {
    match f {
        ConfirmFailure::LookUpSubscriber => "Failed to retrieve subscriber id from the database"@,
        ConfirmFailure::BeginTransaction => "Failed to acquire a Postgres connection from the pool"@,
        ConfirmFailure::MarkConfirmed => "Failed to update the subscriber's status"@,
        ConfirmFailure::DeleteTokens => "Failed to delete the subscription token"@,
        ConfirmFailure::Commit => "Failed to commit the transaction to confirm the status of the subscriber"@,
    }
}

impl ConfirmFailure {
    /// The context in which the failure is reported.
    pub fn context(&self) -> (text: &'static str)
        ensures
            text@ == confirm_failure_text(*self),
    {
        match self {
            ConfirmFailure::LookUpSubscriber => "Failed to retrieve subscriber id from the database",
            ConfirmFailure::BeginTransaction => "Failed to acquire a Postgres connection from the pool",
            ConfirmFailure::MarkConfirmed => "Failed to update the subscriber's status",
            ConfirmFailure::DeleteTokens => "Failed to delete the subscription token",
            ConfirmFailure::Commit => "Failed to commit the transaction to confirm the status of the subscriber",
        }
    }
}

/// Why a confirmation was refused.
#[derive(Debug)]
pub enum ConfirmationError {
    /// The link carries no well-formed token; holds the reason.
    ValidationError(String),
    /// No subscriber holds the token.
    UnknownToken,
    /// A database step failed.
    UnexpectedError(ConfirmFailure),
}

/// The HTTP status with which each confirmation error is answered.
pub open spec fn confirmation_status(e: ConfirmationError) -> u16 {
    match e {
        ConfirmationError::ValidationError(_) => 400,
        ConfirmationError::UnknownToken => 401,
        ConfirmationError::UnexpectedError(_) => 500,
    }
}

/// The message of each confirmation error.
pub open spec fn confirmation_message(e: ConfirmationError) -> Seq<char> {
    match e {
        ConfirmationError::ValidationError(m) => m@,
        ConfirmationError::UnknownToken => "No subscriber is associated with the provided token"@,
        ConfirmationError::UnexpectedError(f) => confirm_failure_text(f),
    }
}

impl ConfirmationError {
    /// 400 for a malformed token, 401 for an unknown one, 500 otherwise.
    pub fn status_code(&self) -> (code: u16)
        ensures
            code == confirmation_status(*self),
            self is ValidationError ==> code == 400,
            self is UnknownToken ==> code == 401,
            self is UnexpectedError ==> code == 500,
    {
        match self {
            ConfirmationError::ValidationError(_) => 400,
            ConfirmationError::UnknownToken => 401,
            ConfirmationError::UnexpectedError(_) => 500,
        }
    }

    /// The answer to the error: its status, with the status's reason phrase
    /// as the only body.
    pub fn error_response(&self) -> (r: ErrorResponse)
        ensures
            r.status == confirmation_status(*self),
            r.body@ == error_body_of(r.status),
            r.body@ == error_body_text(r.status),
    {
        error_response_for(self.status_code())
    }

    /// The error's message.
    pub fn message(&self) -> (text: String)
        ensures
            text@ == confirmation_message(*self),
    {
        match self {
            ConfirmationError::ValidationError(m) => m.clone(),
            ConfirmationError::UnknownToken => String::from_str("No subscriber is associated with the provided token"),
            ConfirmationError::UnexpectedError(f) => String::from_str(f.context()),
        }
    }
}

/// Where a confirmation stands between two database steps.
#[derive(Debug)]
pub enum ConfirmState {
    /// Waiting for the subscriber that holds the token.
    AwaitingLookup(SubscriptionToken),
    /// The subscriber is known; waiting for a transaction.
    AwaitingTransaction(SubscriptionToken, Uuid),
    /// Waiting for the subscriber to be marked confirmed.
    AwaitingConfirmation(SubscriptionToken),
    /// Waiting for the subscriber's tokens to be deleted.
    AwaitingDeletion,
    /// Waiting for the transaction to commit.
    AwaitingCommit,
    /// The answer has been given.
    Finished,
}

/// What a database step came to: the subscriber found, or whether the step
/// succeeded. Failures carry nothing: the reply names the step that failed.
#[derive(Debug)]
pub enum ConfirmEvent {
    SubscriberLookedUp(Result<Option<Uuid>, ()>),
    TransactionBegun(bool),
    SubscriberMarkedConfirmed(bool),
    TokensDeleted(bool),
    Committed(bool),
}

/// What the caller is to do next.
#[derive(Debug)]
pub enum ConfirmAction {
    /// Find the subscriber that holds the token.
    LookUpSubscriber(SubscriptionToken),
    /// Open a transaction.
    BeginTransaction,
    /// Set the subscriber's status to confirmed, in the transaction.
    MarkConfirmed(Uuid),
    /// Delete every token of the subscriber that holds this token, in the transaction.
    DeleteTokens(SubscriptionToken),
    /// Commit the transaction.
    Commit,
    /// Answer the request.
    Respond(Result<(), ConfirmationError>),
}

/// The event that the caller hands back after performing an action.
pub open spec fn confirm_answers(action: ConfirmAction, event: ConfirmEvent) -> bool {
    match action {
        ConfirmAction::LookUpSubscriber(_) => event is SubscriberLookedUp,
        ConfirmAction::BeginTransaction => event is TransactionBegun,
        ConfirmAction::MarkConfirmed(_) => event is SubscriberMarkedConfirmed,
        ConfirmAction::DeleteTokens(_) => event is TokensDeleted,
        ConfirmAction::Commit => event is Committed,
        ConfirmAction::Respond(_) => false,
    }
}

/// The event that a state waits for.
pub open spec fn confirm_expects(state: ConfirmState, event: ConfirmEvent) -> bool {
    match state {
        ConfirmState::AwaitingLookup(_) => event is SubscriberLookedUp,
        ConfirmState::AwaitingTransaction(_, _) => event is TransactionBegun,
        ConfirmState::AwaitingConfirmation(_) => event is SubscriberMarkedConfirmed,
        ConfirmState::AwaitingDeletion => event is TokensDeleted,
        ConfirmState::AwaitingCommit => event is Committed,
        ConfirmState::Finished => false,
    }
}

/// The end of a confirmation whose step `f` failed.
pub open spec fn confirm_failed(f: ConfirmFailure) -> (ConfirmState, ConfirmAction) {
    (ConfirmState::Finished, ConfirmAction::Respond(Err(ConfirmationError::UnexpectedError(f))))
}

/// The state and action that follow an event: each success leads to the next
/// step, a missing subscriber is refused, and any failure ends the
/// confirmation with an unexpected error naming the step.
pub open spec fn confirm_next(state: ConfirmState, event: ConfirmEvent) -> (ConfirmState, ConfirmAction) {
    match (state, event) {
        (ConfirmState::AwaitingLookup(token), ConfirmEvent::SubscriberLookedUp(r)) => match r {
            Ok(Some(id)) => (ConfirmState::AwaitingTransaction(token, id), ConfirmAction::BeginTransaction),
            Ok(None) => (ConfirmState::Finished, ConfirmAction::Respond(Err(ConfirmationError::UnknownToken))),
            Err(()) => confirm_failed(ConfirmFailure::LookUpSubscriber),
        },
        (ConfirmState::AwaitingTransaction(token, id), ConfirmEvent::TransactionBegun(ok)) => match ok {
            true => (ConfirmState::AwaitingConfirmation(token), ConfirmAction::MarkConfirmed(id)),
            false => confirm_failed(ConfirmFailure::BeginTransaction),
        },
        (ConfirmState::AwaitingConfirmation(token), ConfirmEvent::SubscriberMarkedConfirmed(ok)) => match ok {
            true => (ConfirmState::AwaitingDeletion, ConfirmAction::DeleteTokens(token)),
            false => confirm_failed(ConfirmFailure::MarkConfirmed),
        },
        (ConfirmState::AwaitingDeletion, ConfirmEvent::TokensDeleted(ok)) => match ok {
            true => (ConfirmState::AwaitingCommit, ConfirmAction::Commit),
            false => confirm_failed(ConfirmFailure::DeleteTokens),
        },
        (ConfirmState::AwaitingCommit, ConfirmEvent::Committed(ok)) => match ok {
            true => (ConfirmState::Finished, ConfirmAction::Respond(Ok(()))),
            false => confirm_failed(ConfirmFailure::Commit),
        },
        // Pairs that `confirm_expects` rules out are never stepped and have
        // no successor.
        _ => vstd::pervasive::arbitrary(),
    }
}

/// Starts a confirmation: a malformed token is refused at once, a well-formed
/// one is looked up.
pub fn confirm_start(parameters: Parameters) -> (r: (ConfirmState, ConfirmAction))
    ensures
        is_valid_token(parameters.subscription_token@) ==> exists|token: SubscriptionToken|
            token@ == parameters.subscription_token@
            && r.0 == ConfirmState::AwaitingLookup(token)
            && r.1 == ConfirmAction::LookUpSubscriber(token),
        !is_valid_token(parameters.subscription_token@) ==> {
            &&& r.0 is Finished
            &&& r.1 matches ConfirmAction::Respond(Err(ConfirmationError::ValidationError(m)))
            &&& m@ == token_error_message()
        },
{
    match SubscriptionToken::try_from(parameters) {
        Ok(token) => {
            let looked_up = token.clone();
            (ConfirmState::AwaitingLookup(token), ConfirmAction::LookUpSubscriber(looked_up))
        },
        Err(e) => (ConfirmState::Finished, ConfirmAction::Respond(Err(ConfirmationError::ValidationError(e)))),
    }
}

fn confirm_failure(f: ConfirmFailure) -> (r: (ConfirmState, ConfirmAction))
    ensures
        r == confirm_failed(f),
{
    (ConfirmState::Finished, ConfirmAction::Respond(Err(ConfirmationError::UnexpectedError(f))))
}

/// Advances a confirmation by the outcome of the step it waits for.
pub fn confirm_step(state: ConfirmState, event: ConfirmEvent) -> (r: (ConfirmState, ConfirmAction))
    requires
        confirm_expects(state, event),
    ensures
        r == confirm_next(state, event),
        forall|e: ConfirmEvent| confirm_answers(r.1, e) ==> confirm_expects(r.0, e),
{
    match (state, event) {
        (ConfirmState::AwaitingLookup(token), ConfirmEvent::SubscriberLookedUp(r)) => match r {
            Ok(Some(id)) => (ConfirmState::AwaitingTransaction(token, id), ConfirmAction::BeginTransaction),
            Ok(None) => (ConfirmState::Finished, ConfirmAction::Respond(Err(ConfirmationError::UnknownToken))),
            Err(()) => confirm_failure(ConfirmFailure::LookUpSubscriber),
        },
        (ConfirmState::AwaitingTransaction(token, id), ConfirmEvent::TransactionBegun(ok)) => match ok {
            true => (ConfirmState::AwaitingConfirmation(token), ConfirmAction::MarkConfirmed(id)),
            false => confirm_failure(ConfirmFailure::BeginTransaction),
        },
        (ConfirmState::AwaitingConfirmation(token), ConfirmEvent::SubscriberMarkedConfirmed(ok)) => match ok {
            true => (ConfirmState::AwaitingDeletion, ConfirmAction::DeleteTokens(token)),
            false => confirm_failure(ConfirmFailure::MarkConfirmed),
        },
        (ConfirmState::AwaitingDeletion, ConfirmEvent::TokensDeleted(ok)) => match ok {
            true => (ConfirmState::AwaitingCommit, ConfirmAction::Commit),
            false => confirm_failure(ConfirmFailure::DeleteTokens),
        },
        (ConfirmState::AwaitingCommit, ConfirmEvent::Committed(ok)) => match ok {
            true => (ConfirmState::Finished, ConfirmAction::Respond(Ok(()))),
            false => confirm_failure(ConfirmFailure::Commit),
        },
        // Pairs that `confirm_expects` rules out are never stepped.
        _ => confirm_failure(ConfirmFailure::LookUpSubscriber),
    }
}

/// The actions that a confirmation in `state` takes when each step it waits
/// for comes to the next of `events`; it stops at the first event that is not
/// the one waited for, and after the answer.
pub open spec fn confirm_run(state: ConfirmState, events: Seq<ConfirmEvent>) -> Seq<ConfirmAction>
    decreases events.len(),
{
    if events.len() == 0 || !confirm_expects(state, events[0]) {
        Seq::empty()
    } else {
        let (next, action) = confirm_next(state, events[0]);
        seq![action] + confirm_run(next, events.drop_first())
    }
}

/// A confirmation succeeds only when the subscriber was found, a transaction
/// begun, the subscriber marked confirmed, all of its tokens deleted and the
/// transaction committed, in that order; the answer is then the last action.
pub proof fn lemma_confirmation_success_path(token: SubscriptionToken, events: Seq<ConfirmEvent>)
    requires
        confirm_run(ConfirmState::AwaitingLookup(token), events).contains(ConfirmAction::Respond(Ok(()))),
    ensures
        exists|id: Uuid|
            {
                &&& events.len() >= 5
                &&& events[0] == ConfirmEvent::SubscriberLookedUp(Ok(Some(id)))
                &&& events[1] == ConfirmEvent::TransactionBegun(true)
                &&& events[2] == ConfirmEvent::SubscriberMarkedConfirmed(true)
                &&& events[3] == ConfirmEvent::TokensDeleted(true)
                &&& events[4] == ConfirmEvent::Committed(true)
                &&& confirm_run(ConfirmState::AwaitingLookup(token), events) == seq![
                    ConfirmAction::BeginTransaction,
                    ConfirmAction::MarkConfirmed(id),
                    ConfirmAction::DeleteTokens(token),
                    ConfirmAction::Commit,
                    ConfirmAction::Respond(Ok(())),
                ]
            },
{
    let ok = ConfirmAction::Respond(Ok(()));
    let run0 = confirm_run(ConfirmState::AwaitingLookup(token), events);
    lemma_run_step(ConfirmState::AwaitingLookup(token), events);
    let e0 = events[0];
    let ev1 = events.drop_first();
    let (s1, a0) = confirm_next(ConfirmState::AwaitingLookup(token), e0);
    let run1 = confirm_run(s1, ev1);
    lemma_contains_cons(a0, run1, ok);
    lemma_finished_run_empty(ev1);
    if let ConfirmEvent::SubscriberLookedUp(Ok(Some(id))) = e0 {
        lemma_run_step(s1, ev1);
        let ev2 = ev1.drop_first();
        let (s2, a1) = confirm_next(s1, ev1[0]);
        let run2 = confirm_run(s2, ev2);
        lemma_contains_cons(a1, run2, ok);
        lemma_finished_run_empty(ev2);
        assert(run1.contains(ok));
        assert(ev1[0] == ConfirmEvent::TransactionBegun(true)) by {
            if ev1[0] != ConfirmEvent::TransactionBegun(true) {
                assert(s1 == ConfirmState::AwaitingTransaction(token, id));
                assert(s2 is Finished);
                assert(!run2.contains(ok));
            }
        }
        lemma_run_step(s2, ev2);
        let ev3 = ev2.drop_first();
        let (s3, a2) = confirm_next(s2, ev2[0]);
        let run3 = confirm_run(s3, ev3);
        lemma_contains_cons(a2, run3, ok);
        lemma_finished_run_empty(ev3);
        assert(run2.contains(ok));
        assert(ev2[0] == ConfirmEvent::SubscriberMarkedConfirmed(true)) by {
            if ev2[0] != ConfirmEvent::SubscriberMarkedConfirmed(true) {
                assert(s3 is Finished);
                assert(!run3.contains(ok));
            }
        }
        lemma_run_step(s3, ev3);
        let ev4 = ev3.drop_first();
        let (s4, a3) = confirm_next(s3, ev3[0]);
        let run4 = confirm_run(s4, ev4);
        lemma_contains_cons(a3, run4, ok);
        lemma_finished_run_empty(ev4);
        lemma_run_step(s4, ev4);
        let ev5 = ev4.drop_first();
        lemma_finished_run_empty(ev5);
        assert(events[0] == ConfirmEvent::SubscriberLookedUp(Ok(Some(id))));
        assert(ev1[0] == ConfirmEvent::TransactionBegun(true));
        assert(ev2[0] == ConfirmEvent::SubscriberMarkedConfirmed(true));
        assert(ev3[0] == ConfirmEvent::TokensDeleted(true));
        assert(ev4[0] == ConfirmEvent::Committed(true));
        assert(events[1] == ev1[0]);
        assert(events[2] == ev2[0]);
        assert(events[3] == ev3[0]);
        assert(events[4] == ev4[0]);
        assert(run0 =~= seq![
            ConfirmAction::BeginTransaction,
            ConfirmAction::MarkConfirmed(id),
            ConfirmAction::DeleteTokens(token),
            ConfirmAction::Commit,
            ConfirmAction::Respond(Ok(())),
        ]);
    } else {
        assert(s1 is Finished);
        assert(a0 != ok);
        assert(false);
    }
}

proof fn lemma_contains_cons(a: ConfirmAction, rest: Seq<ConfirmAction>, x: ConfirmAction)
    ensures
        (seq![a] + rest).contains(x) <==> (a == x || rest.contains(x)),
{
    let s = seq![a] + rest;
    if s.contains(x) {
        let i = choose|i: int| 0 <= i < s.len() && s[i] == x;
        if i > 0 {
            assert(rest[i - 1] == x);
        }
    }
    if rest.contains(x) {
        let i = choose|i: int| 0 <= i < rest.len() && rest[i] == x;
        assert(s[i + 1] == x);
    }
    if a == x {
        assert(s[0] == x);
    }
}

proof fn lemma_finished_run_empty(events: Seq<ConfirmEvent>)
    ensures
        confirm_run(ConfirmState::Finished, events) == Seq::<ConfirmAction>::empty(),
{
}

proof fn lemma_run_step(state: ConfirmState, events: Seq<ConfirmEvent>)
    ensures
        events.len() == 0 || !confirm_expects(state, events[0]) ==> confirm_run(state, events) == Seq::<ConfirmAction>::empty(),
        events.len() > 0 && confirm_expects(state, events[0]) ==> confirm_run(state, events) == seq![confirm_next(state, events[0]).1] + confirm_run(confirm_next(state, events[0]).0, events.drop_first()),
{
}

/// A well-formed token that no subscriber holds is answered with
/// `UnknownToken`, and nothing is written.
pub proof fn lemma_unknown_token_writes_nothing(token: SubscriptionToken, rest: Seq<ConfirmEvent>)
    ensures
        confirm_run(
            ConfirmState::AwaitingLookup(token),
            seq![ConfirmEvent::SubscriberLookedUp(Ok(None))] + rest,
        ) == seq![ConfirmAction::Respond(Err(ConfirmationError::UnknownToken))],
{
    let events = seq![ConfirmEvent::SubscriberLookedUp(Ok(None))] + rest;
    assert(events[0] == ConfirmEvent::SubscriberLookedUp(Ok(None)));
    reveal_with_fuel(confirm_run, 2);
    assert(confirm_run(ConfirmState::Finished, events.drop_first()) == Seq::<ConfirmAction>::empty());
}

/// What each outcome of a step answers: a failed step ends the confirmation
/// with a 500 that names it, a token that nobody holds is answered
/// `UnknownToken` and nothing else, no step answers with a validation error,
/// and success is answered only once the transaction has committed.
pub proof fn lemma_confirm_step_outcomes(state: ConfirmState, event: ConfirmEvent)
    requires
        confirm_expects(state, event),
    ensures
        ({
            let (next, action) = confirm_next(state, event);
            &&& event matches ConfirmEvent::SubscriberLookedUp(Err(_)) ==> next is Finished && action
                == ConfirmAction::Respond(Err(ConfirmationError::UnexpectedError(ConfirmFailure::LookUpSubscriber)))
            &&& event == ConfirmEvent::SubscriberLookedUp(Ok(None)) ==> next is Finished && action
                == ConfirmAction::Respond(Err(ConfirmationError::UnknownToken))
            &&& event == ConfirmEvent::TransactionBegun(false) ==> next is Finished && action
                == ConfirmAction::Respond(Err(ConfirmationError::UnexpectedError(ConfirmFailure::BeginTransaction)))
            &&& event == ConfirmEvent::SubscriberMarkedConfirmed(false) ==> next is Finished && action
                == ConfirmAction::Respond(Err(ConfirmationError::UnexpectedError(ConfirmFailure::MarkConfirmed)))
            &&& event == ConfirmEvent::TokensDeleted(false) ==> next is Finished && action
                == ConfirmAction::Respond(Err(ConfirmationError::UnexpectedError(ConfirmFailure::DeleteTokens)))
            &&& event == ConfirmEvent::Committed(false) ==> next is Finished && action
                == ConfirmAction::Respond(Err(ConfirmationError::UnexpectedError(ConfirmFailure::Commit)))
            &&& action == ConfirmAction::Respond(Ok(())) ==> event == ConfirmEvent::Committed(true)
            &&& action matches ConfirmAction::Respond(Err(e)) ==> !(e is ValidationError)
        }),
{
}

} // verus!
