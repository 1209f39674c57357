//! Verified core of the nimbus authentication service: configuration,
//! HTTP header interpretation, response shaping and transaction control.

pub mod config;
pub mod constants;
pub mod database;
pub mod errors;
pub mod extractors;
pub mod handlers;
pub mod headers;
pub mod named_entries;
pub mod repositories;
pub mod responses;
pub mod services;
pub mod sessions;
pub mod text;
pub mod transactions;
pub mod types;
pub mod user_role;
pub mod web_api;
pub mod use_cases;
