//! Decision core of a dynamic-DNS updater: what to ask a DNS provider and what
//! to do with its answers, so that one named record ends up holding a wanted
//! value. The crate performs no I/O; a caller sends the requests it describes
//! and hands the answers back.
//!
//! * [`plan`] decides the changes from a zone's records and the wanted record.
//! * [`reconcile`] orders lookups and changes as a state machine.
//! * [`model`] states what a reconciliation does to a provider, and proves it.
//! * [`cloudflare`] and [`hetzner`] describe each provider's requests and
//!   judge its answers.
//! * [`http`] holds a request as plain data, [`error`] the errors and their
//!   text, [`settings`] the inputs of one invocation, [`text`] string helpers.

pub mod cloudflare;
pub mod error;
pub mod hetzner;
pub mod http;
pub mod model;
pub mod plan;
pub mod reconcile;
pub mod settings;
pub mod text;
