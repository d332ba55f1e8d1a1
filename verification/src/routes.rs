pub mod admin;
pub mod login;
mod subscriptions;
mod subscriptions_confirm;

pub use subscriptions::{
    confirmation_email, confirmation_html_text, confirmation_link, confirmation_link_text,
    confirmation_plain_text, confirmation_subject, subscribe_failure_text, subscribe_message,
    subscribe_status, ConfirmationEmail, FormData, SubscribeError, SubscribeFailure,
    subscribe_answers, subscribe_expects, subscribe_failed, subscribe_start, subscribe_step,
    subscribe_transition, lemma_email_only_after_commit, SubscriberDetails,
    lemma_subscription_success_path, subscribe_chain, lemma_stored_token_is_drawn,
    lemma_failed_step_is_unexpected_error,
    SubscribeAction, SubscribeEvent, SubscribeState,
};
pub use subscriptions_confirm::{
    confirm_answers, confirm_expects, confirm_failed, confirm_failure_text, confirm_next,
    confirm_run, confirm_start, confirm_step, confirmation_message, confirmation_status,
    lemma_confirmation_success_path, lemma_unknown_token_writes_nothing, lemma_confirm_step_outcomes, ConfirmAction,
    ConfirmEvent, ConfirmFailure, ConfirmState, ConfirmationError, Parameters,
};
