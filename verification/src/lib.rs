//! The verified core of a newsletter service: subscription tokens and
//! statuses, credential checking, the idempotency store's record format,
//! and the decisions behind the login, subscription, confirmation and
//! publishing endpoints.
mod outside;

pub mod domain;


pub mod authentication;
pub mod idempotency;
pub mod routes;
pub mod utils;
