//! Delivery of transactional email through an HTTP provider.
//!
//! Sending a message is one exchange with the provider. This crate prepares
//! the request of that exchange and interprets its outcome; the caller
//! performs the exchange itself.
//!
//! - [`domain`]: email addresses that have passed a syntactic check.
//! - [`credential`]: the token that authorizes requests.
//! - [`json`]: JSON documents and the functions of `serde_json` that build
//!   and encode them.
//! - [`payload`]: the document that asks the provider to send a message.
//! - [`email_client`]: the client, its requests and the meaning of answers.

pub mod credential;
pub mod domain;
pub mod email_client;
pub mod json;
pub mod payload;
