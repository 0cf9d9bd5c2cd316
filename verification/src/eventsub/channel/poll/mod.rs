//! Polls on a channel.

pub mod end;

pub use end::{ChannelPollEndV1, ChannelPollEndV1Payload};
