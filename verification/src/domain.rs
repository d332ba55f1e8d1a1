mod subscription_status;
mod subscription_token;

pub use subscription_status::{lemma_status_text_injective, status_text, SubscriptionStatus};
pub use subscription_token::{
    is_ascii_alphanumeric, is_valid_token, token_error_message, SubscriptionToken, TOKEN_LENGTH,
};
