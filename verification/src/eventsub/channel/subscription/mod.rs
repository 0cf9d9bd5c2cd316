//! Subscriptions to a channel.

pub mod end;

pub use end::{ChannelSubscriptionEndV1, ChannelSubscriptionEndV1Payload};
