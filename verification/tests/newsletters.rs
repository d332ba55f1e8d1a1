use uuid::Uuid;
use zero2prod::idempotency::SavedResponse;
use zero2prod::routes::admin::newsletters::{
    publish_newsletter_start, publish_newsletter_step, success_message, BodyData, Content,
    PublishAction, PublishEvent, PublishFailure, PublishReply, PublishState, TryProcessingOutcome,
};

fn user() -> Uuid {
    Uuid::from_u128(7)
}

fn body() -> BodyData {
    BodyData {
        title: "Newsletter title".to_string(),
        content: Content {
            text: "Newsletter body as plain text".to_string(),
            html: "<p>Newsletter body as HTML</p>".to_string(),
        },
        idempotency_key: "f3a1c0de-0000-4000-8000-000000000001".to_string(),
    }
}

fn publish_first_time(issue: Uuid) -> (Vec<PublishAction>, PublishReply) {
    let mut actions = Vec::new();
    let (state, action) = publish_newsletter_start(body(), user(), Ok(()));
    actions.push(action);
    let (state, action) = publish_newsletter_step(state, PublishEvent::TryProcessed(TryProcessingOutcome::StartProcessing));
    actions.push(action);
    let (state, action) = publish_newsletter_step(state, PublishEvent::IssueInserted(Some(issue)));
    actions.push(action);
    let (state, action) = publish_newsletter_step(state, PublishEvent::TasksEnqueued(true));
    actions.push(action);
    let (state, action) = publish_newsletter_step(state, PublishEvent::ResponseSaved(true));
    assert!(matches!(state, PublishState::Finished));
    match action {
        PublishAction::Respond(reply) => (actions, reply),
        other => panic!("{:?}", other),
    }
}

#[test]
fn newsletters_are_delivered_to_confirmed_subscribers() {
    let issue = Uuid::new_v4();
    let (actions, reply) = publish_first_time(issue);
    match &actions[0] {
        PublishAction::TryProcessing { idempotency_key, user_id } => {
            assert_eq!(idempotency_key, "f3a1c0de-0000-4000-8000-000000000001");
            assert_eq!(*user_id, user());
        }
        other => panic!("{:?}", other),
    }
    match &actions[1] {
        PublishAction::InsertIssue { title, text_content, html_content } => {
            assert_eq!(title, "Newsletter title");
            assert_eq!(text_content, "Newsletter body as plain text");
            assert_eq!(html_content, "<p>Newsletter body as HTML</p>");
        }
        other => panic!("{:?}", other),
    }
    assert!(matches!(actions[2], PublishAction::EnqueueDeliveryTasks(id) if id == issue));
    match &actions[3] {
        PublishAction::SaveResponse { idempotency_key, user_id, response } => {
            assert_eq!(idempotency_key, "f3a1c0de-0000-4000-8000-000000000001");
            assert_eq!(*user_id, user());
            assert_eq!(response.location, "/admin/newsletter");
            assert_eq!(response.status_code(), 303);
        }
        other => panic!("{:?}", other),
    }
    assert!(matches!(reply, PublishReply::Published));
    assert!(reply.flashes_success());
    assert_eq!(reply.status_code(), None);
}

#[test]
fn newsletter_creation_is_idempotent() {
    // First submission: processed, and its redirect saved under the key.
    let (actions, reply) = publish_first_time(Uuid::new_v4());
    assert!(matches!(reply, PublishReply::Published));
    let saved = match &actions[3] {
        PublishAction::SaveResponse { response: r, .. } => {
            let headers = vec![zero2prod::idempotency::HeaderPairRecord {
                name: "location".to_string(),
                value: r.location.as_bytes().to_vec(),
            }];
            SavedResponse::from_parts(r.status_code(), headers, vec![])
        }
        other => panic!("{:?}", other),
    };
    // Second submission with the same key: the saved response comes back.
    let (state, _) = publish_newsletter_start(body(), user(), Ok(()));
    let (state, action) = publish_newsletter_step(state, PublishEvent::TryProcessed(TryProcessingOutcome::ReturnSavedResponse));
    assert!(matches!(state, PublishState::Finished));
    match action {
        PublishAction::Respond(reply) => {
            assert!(matches!(reply, PublishReply::SavedResponse));
            assert!(reply.flashes_success());
        }
        other => panic!("{:?}", other),
    }
    let (status, headers, body) = saved.into_parts().unwrap();
    assert_eq!(status, 303);
    assert_eq!(headers[0].value, b"/admin/newsletter");
    assert!(body.is_empty());
}

#[test]
fn invalid_idempotency_key_is_a_400() {
    let (state, action) = publish_newsletter_start(body(), user(), Err("The idempotency key cannot be empty".to_string()));
    assert!(matches!(state, PublishState::Finished));
    match action {
        PublishAction::Respond(reply) => {
            assert_eq!(reply.status_code(), Some(400));
            assert!(!reply.flashes_success());
        }
        other => panic!("{:?}", other),
    }
}

#[test]
fn failed_insert_is_a_500_and_queues_nothing() {
    let (state, _) = publish_newsletter_start(body(), user(), Ok(()));
    let (state, _) = publish_newsletter_step(state, PublishEvent::TryProcessed(TryProcessingOutcome::StartProcessing));
    let (state, action) = publish_newsletter_step(state, PublishEvent::IssueInserted(None));
    assert!(matches!(state, PublishState::Finished));
    match action {
        PublishAction::Respond(PublishReply::InternalError(f)) => {
            assert_eq!(f, PublishFailure::InsertIssue);
            assert_eq!(f.context(), Some("Failed to store newsletter issues details"));
        }
        other => panic!("{:?}", other),
    }
}

#[test]
fn failed_claim_is_a_500() {
    let (state, _) = publish_newsletter_start(body(), user(), Ok(()));
    let (_, action) = publish_newsletter_step(state, PublishEvent::TryProcessed(TryProcessingOutcome::Failed));
    match action {
        PublishAction::Respond(reply) => {
            assert_eq!(reply.status_code(), Some(500));
            assert!(matches!(reply, PublishReply::InternalError(PublishFailure::TryProcessing)));
        }
        other => panic!("{:?}", other),
    }
}

#[test]
fn success_message_text() {
    assert_eq!(success_message(), "The newsletter issue has been published!");
}
