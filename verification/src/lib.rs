//! Core engine of an online-course platform backend: entitlement
//! resolution, lesson and course progress tracking, achievement awarding,
//! payment-provider token caching, and webhook event dispatch, all
//! modelled over an in-memory relational store and verified.

pub mod achievements;
pub mod courses;
pub mod dtos;
pub mod errors;
pub mod flows;
pub mod jsonfields;
pub mod model;
pub mod notifications;
pub mod password;
pub mod progress;
pub mod purchases;
pub mod session;
pub mod store;
pub mod strutil;
pub mod subscriptions;
pub mod token_cache;
pub mod webhook;

pub use model::UserRole;
