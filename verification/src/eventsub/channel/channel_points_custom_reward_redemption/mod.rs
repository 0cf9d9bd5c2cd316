//! Redemptions of custom channel points rewards.

pub mod add;

pub use add::{
    ChannelPointsCustomRewardRedemptionAddV1, ChannelPointsCustomRewardRedemptionAddV1Payload,
};
