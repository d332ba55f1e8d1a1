mod get;
mod post;

pub use get::{
    flash_message_html, flash_messages_html, login_form, login_page, login_page_head, login_page_tail,
    message_texts, lemma_login_page_posts_credentials, occurs_at, posts_credentials_to_login,
};
pub use post::{
    login, login_error_of, login_failure_location, login_success_location, FormData, LoginError,
};
