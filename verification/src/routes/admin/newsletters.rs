mod post;

pub use post::{
    lemma_delivery_only_for_stored_issue, lemma_publication_success_path, lemma_replay_gets_first_response, lemma_success_only_on_replay_or_save,
    lemma_failed_step_is_internal_error, publish_chain, lemma_published_only_after_save,
    lemma_replay_returns_saved_response, publish_answers, publish_expects, publish_failed,
    publish_failure_text, publish_newsletter_start, publish_newsletter_step, publish_transition,
    success_message, success_message_text, BodyData, Content, PublishAction, PublishEvent,
    PublishFailure, PublishReply, PublishState, TryProcessingOutcome,
};
