//! Typed bindings for the Twitch Helix endpoints and EventSub notifications.
//!
//! Every request and subscription is a plain data shape together with the
//! static facts the service attaches to it: its path or event type, its
//! version and the scopes it needs. Query strings are built here and their
//! exact text is part of each contract.

pub mod scope;
pub mod types;
pub mod helix;
pub mod eventsub;
