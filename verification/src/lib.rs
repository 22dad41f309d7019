//! A newsletter service: people subscribe and confirm their address through a
//! link sent by email, editors log in and publish issues, and a worker
//! delivers each issue to every confirmed subscriber through an email
//! provider.
//!
//! This library holds the rules of the service, and proofs of what they
//! achieve. It does no input or output. Wherever a request needs the
//! database, the session store or the provider, its handling is a function
//! from a state and an event to the next state and an action: the caller
//! does what the action asks and reports the outcome as the next event. The
//! modules under `routes`, and `issue_delivery_worker`, hold these functions.
//!
//! `store` is a store in memory on which the same steps can be run, and
//! `service` runs them there, each request from its beginning to its answer.
//! What a request does to the store and to the emails handed to the provider
//! is stated there as a relation between the service before and after, and
//! the laws of the service are proved from these relations: that a
//! subscription leaves one pending subscriber with one token, that a repeated
//! subscription sends the same link again, that a confirmation link works
//! once, that an issue published twice under one key is published once, that
//! the worker hands the provider one email for each task.

pub mod authentication;
pub mod configuration;
pub mod database;
pub mod domain;
pub mod email_client;
pub mod http;
pub mod idempotency;
pub mod issue_delivery_worker;
pub mod routes;
pub mod service;
pub mod store;
pub mod template;
pub mod text;
pub mod utils;
