use crate::idempotency::{
    lemma_saved_response_round_trip, saved_record, saved_reply, HeaderPairRecord, StatusCodeError,
};
use crate::utils::{see_other, see_other_status, SeeOther};
use uuid::Uuid;
use vstd::prelude::*;

verus! {

/// A newsletter issue as submitted: its title, its content, and the key that
/// makes a repeated submission harmless.
#[derive(Debug)]
pub struct BodyData {
    pub title: String,
    pub content: Content,
    pub idempotency_key: String,
}

/// The two renderings of a newsletter issue.
#[derive(Debug)]
pub struct Content {
    pub html: String,
    pub text: String,
}

/// The flash message shown once an issue has been accepted.
pub open spec fn success_message_text() -> Seq<char> {
    "The newsletter issue has been published!"@
}

/// The text of the flash message that confirms an accepted issue.
pub fn success_message() -> (text: &'static str)
    ensures
        text@ == success_message_text(),
        text@ == "The newsletter issue has been published!"@,
{
    "The newsletter issue has been published!"
}

/// The step of a publication that failed.
#[derive(Debug, Clone, Copy, PartialEq, Eq, Structural)]
pub enum PublishFailure {
    TryProcessing,
    InsertIssue,
    EnqueueDeliveryTasks,
    SaveResponse,
}

/// The context in which a failed step is reported, where it has one.
pub open spec fn publish_failure_text(f: PublishFailure) -> Option<Seq<char>> {
    match f {
        PublishFailure::InsertIssue => Some("Failed to store newsletter issues details"@),
        PublishFailure::EnqueueDeliveryTasks => Some("Failed to enqueue delivery tasks"@),
        _ => None,
    }
}

impl PublishFailure {
    /// The context in which the failure is reported, where it has one.
    pub fn context(&self) -> (text: Option<&'static str>)
        ensures
            match text {
                Some(t) => publish_failure_text(*self) == Some(t@),
                None => publish_failure_text(*self) is None,
            },
    {
        match self {
            PublishFailure::InsertIssue => Some("Failed to store newsletter issues details"),
            PublishFailure::EnqueueDeliveryTasks => Some("Failed to enqueue delivery tasks"),
            _ => None,
        }
    }
}

/// How a publication is answered.
#[derive(Debug)]
pub enum PublishReply {
    /// The key was used before: answer with the response saved for it, and
    /// flash the success message.
    SavedResponse,
    /// The issue is stored and queued: answer with the redirect that was
    /// saved, and flash the success message.
    Published,
    /// The idempotency key is malformed: 400, with the reason.
    BadRequest(String),
    /// A step failed: 500.
    InternalError(PublishFailure),
}

impl PublishReply {
    /// The status of the answer where the reply fixes it: 400 or 500. The
    /// other replies answer with a saved response, whose status it is.
    pub fn status_code(&self) -> (code: Option<u16>)
        ensures
            code == match self {
                PublishReply::BadRequest(_) => Some(400u16),
                PublishReply::InternalError(_) => Some(500u16),
                _ => None,
            },
    {
        match self {
            PublishReply::BadRequest(_) => Some(400),
            PublishReply::InternalError(_) => Some(500),
            _ => None,
        }
    }

    /// Whether the success message is flashed with the answer.
    pub fn flashes_success(&self) -> (b: bool)
        ensures
            b == (self is SavedResponse || self is Published),
    {
        match self {
            PublishReply::SavedResponse | PublishReply::Published => true,
            _ => false,
        }
    }
}

/// Where a publication stands between two steps.
#[derive(Debug)]
pub enum PublishState {
    /// Waiting to learn whether the user has used the key before.
    AwaitingTryProcessing { title: String, content: Content, idempotency_key: String, user_id: Uuid },
    /// Waiting for the issue to be stored.
    AwaitingInsert { idempotency_key: String, user_id: Uuid },
    /// Waiting for the delivery tasks to be queued.
    AwaitingEnqueue { idempotency_key: String, user_id: Uuid },
    /// Waiting for the response to be saved under the key.
    AwaitingSave,
    /// The answer has been given.
    Finished,
}

/// What claiming the idempotency key came to.
#[derive(Debug, Clone, Copy, PartialEq, Eq, Structural)]
pub enum TryProcessingOutcome {
    /// The key is new: the request is to be processed.
    StartProcessing,
    /// A response is saved for the key.
    ReturnSavedResponse,
    /// The claim failed.
    Failed,
}

/// What a step came to: the claim's outcome, the stored issue's id, or
/// whether the step succeeded.
#[derive(Debug)]
pub enum PublishEvent {
    TryProcessed(TryProcessingOutcome),
    IssueInserted(Option<Uuid>),
    TasksEnqueued(bool),
    ResponseSaved(bool),
}

/// What the caller is to do next.
#[derive(Debug)]
pub enum PublishAction {
    /// Claim the idempotency key for the user.
    TryProcessing { idempotency_key: String, user_id: Uuid },
    /// Store the issue, in the claim's transaction.
    InsertIssue { title: String, text_content: String, html_content: String },
    /// Queue one delivery of the issue per confirmed subscriber, in the transaction.
    EnqueueDeliveryTasks(Uuid),
    /// Save this response under the user's key and commit.
    SaveResponse { idempotency_key: String, user_id: Uuid, response: SeeOther },
    /// Answer the request.
    Respond(PublishReply),
}

/// The event that the caller hands back after performing an action.
pub open spec fn publish_answers(action: PublishAction, event: PublishEvent) -> bool {
    match action {
        PublishAction::TryProcessing { .. } => event is TryProcessed,
        PublishAction::InsertIssue { .. } => event is IssueInserted,
        PublishAction::EnqueueDeliveryTasks(_) => event is TasksEnqueued,
        PublishAction::SaveResponse { .. } => event is ResponseSaved,
        PublishAction::Respond(_) => false,
    }
}

/// The event that a state waits for.
pub open spec fn publish_expects(state: PublishState, event: PublishEvent) -> bool {
    match state {
        PublishState::AwaitingTryProcessing { .. } => event is TryProcessed,
        PublishState::AwaitingInsert { .. } => event is IssueInserted,
        PublishState::AwaitingEnqueue { .. } => event is TasksEnqueued,
        PublishState::AwaitingSave => event is ResponseSaved,
        PublishState::Finished => false,
    }
}

/// The publication ends with a 500 naming step `f`.
pub open spec fn publish_failed(next: PublishState, action: PublishAction, f: PublishFailure) -> bool {
    &&& next is Finished
    &&& action == PublishAction::Respond(PublishReply::InternalError(f))
}

/// How a publication moves on an event.
pub open spec fn publish_transition(
    state: PublishState,
    event: PublishEvent,
    next: PublishState,
    action: PublishAction,
) -> bool {
    match (state, event) {
        (
            PublishState::AwaitingTryProcessing { title, content, idempotency_key, user_id },
            PublishEvent::TryProcessed(outcome),
        ) => match outcome {
            TryProcessingOutcome::StartProcessing => {
                &&& next == (PublishState::AwaitingInsert { idempotency_key, user_id })
                &&& action == PublishAction::InsertIssue {
                    title,
                    text_content: content.text,
                    html_content: content.html,
                }
            },
            TryProcessingOutcome::ReturnSavedResponse => {
                &&& next is Finished
                &&& action == PublishAction::Respond(PublishReply::SavedResponse)
            },
            TryProcessingOutcome::Failed => publish_failed(next, action, PublishFailure::TryProcessing),
        },
        (PublishState::AwaitingInsert { idempotency_key, user_id }, PublishEvent::IssueInserted(inserted)) => match inserted {
            Some(id) => {
                &&& next == (PublishState::AwaitingEnqueue { idempotency_key, user_id })
                &&& action == PublishAction::EnqueueDeliveryTasks(id)
            },
            None => publish_failed(next, action, PublishFailure::InsertIssue),
        },
        (PublishState::AwaitingEnqueue { idempotency_key, user_id }, PublishEvent::TasksEnqueued(ok)) => if ok {
            &&& next is AwaitingSave
            &&& action matches PublishAction::SaveResponse { idempotency_key: k, user_id: u, response }
            &&& k == idempotency_key
            &&& u == user_id
            &&& response.location@ == "/admin/newsletter"@
        } else {
            publish_failed(next, action, PublishFailure::EnqueueDeliveryTasks)
        },
        (PublishState::AwaitingSave, PublishEvent::ResponseSaved(ok)) => if ok {
            &&& next is Finished
            &&& action == PublishAction::Respond(PublishReply::Published)
        } else {
            publish_failed(next, action, PublishFailure::SaveResponse)
        },
        _ => false,
    }
}

/// Starts a publication by `user_id` once the body's idempotency key has
/// been checked: a malformed key is answered 400 with the reason, a valid one
/// is claimed for the user.
pub fn publish_newsletter_start(body: BodyData, user_id: Uuid, key_checked: Result<(), String>) -> (r: (PublishState, PublishAction))
    ensures
        match key_checked {
            Ok(()) => {
                &&& r.0 == (PublishState::AwaitingTryProcessing {
                    title: body.title,
                    content: body.content,
                    idempotency_key: body.idempotency_key,
                    user_id,
                })
                &&& r.1 == (PublishAction::TryProcessing { idempotency_key: body.idempotency_key, user_id })
            },
            Err(m) => r.0 is Finished && r.1 == PublishAction::Respond(PublishReply::BadRequest(m)),
        },
{
    match key_checked {
        Ok(()) => {
            let claimed = body.idempotency_key.clone();
            (
                PublishState::AwaitingTryProcessing {
                    title: body.title,
                    content: body.content,
                    idempotency_key: body.idempotency_key,
                    user_id,
                },
                PublishAction::TryProcessing { idempotency_key: claimed, user_id },
            )
        },
        Err(m) => (PublishState::Finished, PublishAction::Respond(PublishReply::BadRequest(m))),
    }
}

fn publish_failure(f: PublishFailure) -> (r: (PublishState, PublishAction))
    ensures
        publish_failed(r.0, r.1, f),
{
    (PublishState::Finished, PublishAction::Respond(PublishReply::InternalError(f)))
}

/// Advances a publication by the outcome of the step it waits for.
pub fn publish_newsletter_step(state: PublishState, event: PublishEvent) -> (r: (PublishState, PublishAction))
    requires
        publish_expects(state, event),
    ensures
        publish_transition(state, event, r.0, r.1),
        forall|e: PublishEvent| publish_answers(r.1, e) ==> publish_expects(r.0, e),
{
    match (state, event) {
        (
            PublishState::AwaitingTryProcessing { title, content, idempotency_key, user_id },
            PublishEvent::TryProcessed(outcome),
        ) => match outcome {
            TryProcessingOutcome::StartProcessing => (
                PublishState::AwaitingInsert { idempotency_key, user_id },
                PublishAction::InsertIssue { title, text_content: content.text, html_content: content.html },
            ),
            TryProcessingOutcome::ReturnSavedResponse => (
                PublishState::Finished,
                PublishAction::Respond(PublishReply::SavedResponse),
            ),
            TryProcessingOutcome::Failed => publish_failure(PublishFailure::TryProcessing),
        },
        (PublishState::AwaitingInsert { idempotency_key, user_id }, PublishEvent::IssueInserted(inserted)) => match inserted {
            Some(id) => (PublishState::AwaitingEnqueue { idempotency_key, user_id }, PublishAction::EnqueueDeliveryTasks(id)),
            None => publish_failure(PublishFailure::InsertIssue),
        },
        (PublishState::AwaitingEnqueue { idempotency_key, user_id }, PublishEvent::TasksEnqueued(ok)) => if ok {
            (
                PublishState::AwaitingSave,
                PublishAction::SaveResponse { idempotency_key, user_id, response: see_other("/admin/newsletter") },
            )
        } else {
            publish_failure(PublishFailure::EnqueueDeliveryTasks)
        },
        (PublishState::AwaitingSave, PublishEvent::ResponseSaved(ok)) => if ok {
            (PublishState::Finished, PublishAction::Respond(PublishReply::Published))
        } else {
            publish_failure(PublishFailure::SaveResponse)
        },
        // Pairs that `publish_expects` rules out are never stepped.
        (_, _) => publish_failure(PublishFailure::TryProcessing),
    }
}

/// A submission whose key already has a saved response is answered with that
/// response and ends there: no issue is stored and no delivery is queued.
pub proof fn lemma_replay_returns_saved_response(
    title: String,
    content: Content,
    idempotency_key: String,
    user_id: Uuid,
    next: PublishState,
    action: PublishAction,
)
    requires
        publish_transition(
            PublishState::AwaitingTryProcessing { title, content, idempotency_key, user_id },
            PublishEvent::TryProcessed(TryProcessingOutcome::ReturnSavedResponse),
            next,
            action,
        ),
    ensures
        action == PublishAction::Respond(PublishReply::SavedResponse),
        forall|e: PublishEvent| !publish_expects(next, e),
{
}

/// Deliveries are queued only for the issue that was just stored.
pub proof fn lemma_delivery_only_for_stored_issue(
    state: PublishState,
    event: PublishEvent,
    next: PublishState,
    issue_id: Uuid,
)
    requires
        publish_transition(state, event, next, PublishAction::EnqueueDeliveryTasks(issue_id)),
    ensures
        state is AwaitingInsert,
        event == PublishEvent::IssueInserted(Some(issue_id)),
{
}

/// An issue is reported published only once its response has been saved
/// under the key, so that a repeated submission finds it.
pub proof fn lemma_published_only_after_save(state: PublishState, event: PublishEvent, next: PublishState)
    requires
        publish_transition(state, event, next, PublishAction::Respond(PublishReply::Published)),
    ensures
        state is AwaitingSave,
        event == PublishEvent::ResponseSaved(true),
{
}

/// The states a publication passes through, the events that moved it, and
/// the actions it took: each step is a transition.
pub open spec fn publish_chain(
    states: Seq<PublishState>,
    events: Seq<PublishEvent>,
    actions: Seq<PublishAction>,
) -> bool {
    &&& states.len() == events.len() + 1
    &&& actions.len() == events.len()
    &&& forall|i: int|
        #![trigger events[i]]
        0 <= i < events.len() ==> publish_transition(states[i], events[i], states[i + 1], actions[i])
}

/// A claimed submission is reported published only when the key was new, the
/// issue was stored, its deliveries were queued for that very issue and the
/// response was saved under the same key for the same user that were
/// claimed, in that order and nothing else.
pub proof fn lemma_publication_success_path(
    title: String,
    content: Content,
    idempotency_key: String,
    user_id: Uuid,
    states: Seq<PublishState>,
    events: Seq<PublishEvent>,
    actions: Seq<PublishAction>,
)
    requires
        publish_chain(states, events, actions),
        states[0] == (PublishState::AwaitingTryProcessing { title, content, idempotency_key, user_id }),
        actions.len() > 0,
        actions.last() == PublishAction::Respond(PublishReply::Published),
    ensures
        events.len() == 4,
        events[0] == PublishEvent::TryProcessed(TryProcessingOutcome::StartProcessing),
        events[2] == PublishEvent::TasksEnqueued(true),
        events[3] == PublishEvent::ResponseSaved(true),
        actions[0] == (PublishAction::InsertIssue {
            title,
            text_content: content.text,
            html_content: content.html,
        }),
        exists|issue_id: Uuid|
            events[1] == PublishEvent::IssueInserted(Some(issue_id))
            && actions[1] == PublishAction::EnqueueDeliveryTasks(issue_id),
        actions[2] matches PublishAction::SaveResponse { idempotency_key: k, user_id: u, response }
            && k == idempotency_key && u == user_id && response.location@ == "/admin/newsletter"@,
{
    let n = events.len() as int;
    assert(publish_transition(states[n - 1], events[n - 1], states[n], actions[n - 1]));
    assert(states[n - 1] is AwaitingSave);
    assert(n - 1 >= 1);
    assert(publish_transition(states[n - 2], events[n - 2], states[n - 1], actions[n - 2]));
    assert(states[n - 2] is AwaitingEnqueue);
    assert(n - 2 >= 1);
    assert(publish_transition(states[n - 3], events[n - 3], states[n - 2], actions[n - 3]));
    assert(states[n - 3] is AwaitingInsert);
    assert(n - 3 >= 1);
    assert(publish_transition(states[n - 4], events[n - 4], states[n - 3], actions[n - 4]));
    assert(states[n - 4] is AwaitingTryProcessing);
    if n - 4 > 0 {
        assert(publish_transition(states[n - 5], events[n - 5], states[n - 4], actions[n - 5]));
    }
    assert(n == 4);
    assert(publish_transition(states[0], events[0], states[1], actions[0]));
    assert(publish_transition(states[1], events[1], states[2], actions[1]));
    assert(publish_transition(states[2], events[2], states[3], actions[2]));
    assert(states[1] == (PublishState::AwaitingInsert { idempotency_key, user_id }));
    assert(states[2] == (PublishState::AwaitingEnqueue { idempotency_key, user_id }));
    if let PublishEvent::IssueInserted(Some(issue_id)) = events[1] {
        assert(actions[1] == PublishAction::EnqueueDeliveryTasks(issue_id));
    }
}

/// A repeated submission gets back the first one's response. The first
/// submission saved its 303 redirect under the key and user it claimed. When
/// the same user claims the same key again and the claim reports a saved
/// response, the repeat is answered with that response and does nothing
/// else; and the record saved for a 303 response with any headers and body
/// reads back as exactly that status, those headers and that body. That the
/// claim finds the saved record is the store's part, which this library does
/// not hold.
pub proof fn lemma_replay_gets_first_response(
    title: String,
    content: Content,
    idempotency_key: String,
    user_id: Uuid,
    states: Seq<PublishState>,
    events: Seq<PublishEvent>,
    actions: Seq<PublishAction>,
    headers: Seq<HeaderPairRecord>,
    body: Seq<u8>,
    repeat_title: String,
    repeat_content: Content,
    repeat_next: PublishState,
    repeat_action: PublishAction,
)
    requires
        publish_chain(states, events, actions),
        states[0] == (PublishState::AwaitingTryProcessing { title, content, idempotency_key, user_id }),
        actions.len() > 0,
        actions.last() == PublishAction::Respond(PublishReply::Published),
        publish_transition(
            PublishState::AwaitingTryProcessing {
                title: repeat_title,
                content: repeat_content,
                idempotency_key,
                user_id,
            },
            PublishEvent::TryProcessed(TryProcessingOutcome::ReturnSavedResponse),
            repeat_next,
            repeat_action,
        ),
    ensures
        actions[2] matches PublishAction::SaveResponse { idempotency_key: k, user_id: u, response }
            && k == idempotency_key && u == user_id && response.location@ == "/admin/newsletter"@,
        repeat_action == PublishAction::Respond(PublishReply::SavedResponse),
        forall|e: PublishEvent| !publish_expects(repeat_next, e),
        saved_reply(saved_record(see_other_status(), headers, body)) == Ok::<
            (u16, Seq<HeaderPairRecord>, Seq<u8>),
            StatusCodeError,
        >((see_other_status(), headers, body)),
{
    lemma_publication_success_path(title, content, idempotency_key, user_id, states, events, actions);
    lemma_saved_response_round_trip(see_other_status(), headers, body);
}

/// A publication is answered with success (the saved response, or
/// "published") only when the claim found a saved response for the key or
/// once the new response has been saved; no failed step leads there.
pub proof fn lemma_success_only_on_replay_or_save(
    state: PublishState,
    event: PublishEvent,
    next: PublishState,
    action: PublishAction,
)
    requires
        publish_transition(state, event, next, action),
        action matches PublishAction::Respond(reply) && (reply is SavedResponse || reply is Published),
    ensures
        event == PublishEvent::TryProcessed(TryProcessingOutcome::ReturnSavedResponse)
            || event == PublishEvent::ResponseSaved(true),
{
}

/// Every failed step ends the publication with a 500 that names that step.
pub proof fn lemma_failed_step_is_internal_error(
    state: PublishState,
    event: PublishEvent,
    next: PublishState,
    action: PublishAction,
)
    requires
        publish_transition(state, event, next, action),
    ensures
        event == PublishEvent::TryProcessed(TryProcessingOutcome::Failed) ==> next is Finished
            && action == PublishAction::Respond(PublishReply::InternalError(PublishFailure::TryProcessing)),
        event == PublishEvent::IssueInserted(None) ==> next is Finished
            && action == PublishAction::Respond(PublishReply::InternalError(PublishFailure::InsertIssue)),
        event == PublishEvent::TasksEnqueued(false) ==> next is Finished
            && action == PublishAction::Respond(PublishReply::InternalError(PublishFailure::EnqueueDeliveryTasks)),
        event == PublishEvent::ResponseSaved(false) ==> next is Finished
            && action == PublishAction::Respond(PublishReply::InternalError(PublishFailure::SaveResponse)),
{
}

} // verus!
