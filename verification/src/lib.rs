//! The verified logic of a newsletter service: configuration, subscriber
//! validation, the subscription flow and its confirmation.

pub mod configuration;
pub mod confirm;
pub mod domain;
pub mod flow;
pub mod secret;
pub mod subscribe;
pub mod text;
pub mod web;
