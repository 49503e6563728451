//! Core of a federated activity exchange: inbound activities are checked,
//! deduplicated, authorized and applied to local state; outbound activities
//! are fanned out to recipient inboxes with bounded, backed-off retries.
//!
//! Identifiers (activities, actors, objects, communities, inboxes) are
//! interned URIs, carried here as `u64` values.
pub mod authority;
pub mod delivery;
pub mod dispatch;
pub mod laws;
pub mod ledger;
pub mod purge;
pub mod resolver;
