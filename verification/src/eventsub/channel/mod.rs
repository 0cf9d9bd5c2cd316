//! Subscriptions and payloads for events on a channel.

pub mod channel_points_custom_reward_redemption;
pub mod poll;
pub mod subscription;

pub use channel_points_custom_reward_redemption::{
    ChannelPointsCustomRewardRedemptionAddV1, ChannelPointsCustomRewardRedemptionAddV1Payload,
};
pub use poll::{ChannelPollEndV1, ChannelPollEndV1Payload};
pub use subscription::{ChannelSubscriptionEndV1, ChannelSubscriptionEndV1Payload};
