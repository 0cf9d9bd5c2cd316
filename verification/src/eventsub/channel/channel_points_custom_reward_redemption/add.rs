//! A viewer has redeemed a custom channel points reward on the specified channel.

use vstd::prelude::*;
use crate::eventsub::{EventSubscription, EventType, RedemptionStatus, Reward};
use crate::scope::Scope;
use crate::types::{DisplayName, RedemptionId, RewardId, Timestamp, UserId, UserName};

verus! {

/// `channel.channel_points_custom_reward_redemption.add`: a viewer has
/// redeemed a custom channel points reward on the specified channel.
#[derive(Clone, Debug, PartialEq, Eq)]
#[non_exhaustive]
pub struct ChannelPointsCustomRewardRedemptionAddV1 {
    /// The broadcaster user ID for the channel you want to receive channel points custom reward redemption add notifications for.
    pub broadcaster_user_id: UserId,
    /// Optional. Specify a reward id to only receive notifications for a specific reward.
    pub reward_id: Option<RewardId>,
}

impl ChannelPointsCustomRewardRedemptionAddV1 {
    /// The subscription for every reward on the channel of this broadcaster.
    pub fn new(broadcaster_user_id: UserId) -> (s: ChannelPointsCustomRewardRedemptionAddV1)
        ensures
            s.broadcaster_user_id == broadcaster_user_id,
            s.reward_id is None,
    {
        ChannelPointsCustomRewardRedemptionAddV1 { broadcaster_user_id, reward_id: None }
    }

    /// The same subscription, for redemptions of this reward only.
    pub fn reward_id(self, reward_id: RewardId) -> (s: ChannelPointsCustomRewardRedemptionAddV1)
        ensures
            s.broadcaster_user_id == self.broadcaster_user_id,
            s.reward_id == Some(reward_id),
    {
        ChannelPointsCustomRewardRedemptionAddV1 {
            broadcaster_user_id: self.broadcaster_user_id,
            reward_id: Some(reward_id),
        }
    }
}

impl EventSubscription for ChannelPointsCustomRewardRedemptionAddV1 {
    type Payload = ChannelPointsCustomRewardRedemptionAddV1Payload;

    open spec fn kind() -> EventType {
        EventType::ChannelPointsCustomRewardRedemptionAdd
    }

    open spec fn version_text() -> Seq<char> {
        "1"@
    }

    open spec fn required_scopes() -> Seq<Scope> {
        seq![Scope::ChannelReadRedemptions]
    }

    fn event_type() -> (e: EventType) {
        EventType::ChannelPointsCustomRewardRedemptionAdd
    }

    fn version() -> (v: &'static str) {
        "1"
    }

    fn scope() -> (v: &'static [Scope]) {
        let v: &'static [Scope] = &[Scope::ChannelReadRedemptions];
        proof {
            assert(v@ =~= seq![Scope::ChannelReadRedemptions]);
        }
        v
    }
}

/// The payload of a `channel.channel_points_custom_reward_redemption.add`
/// notification.
#[derive(Clone, Debug, PartialEq, Eq)]
#[non_exhaustive]
pub struct ChannelPointsCustomRewardRedemptionAddV1Payload {
    /// The requested broadcaster ID.
    pub broadcaster_user_id: UserId,
    /// The requested broadcaster login.
    pub broadcaster_user_login: UserName,
    /// The requested broadcaster display name.
    pub broadcaster_user_name: DisplayName,
    /// The redemption identifier.
    pub id: RedemptionId,
    /// RFC3339 timestamp of when the reward was redeemed.
    pub redeemed_at: Timestamp,
    /// Basic information about the reward that was redeemed, at the time it was redeemed.
    pub reward: Reward,
    /// Defaults to unfulfilled. Possible values are unknown, unfulfilled, fulfilled, and canceled.
    pub status: RedemptionStatus,
    /// The user input provided. Empty string if not provided.
    pub user_input: String,
    /// User ID of the user that redeemed the reward.
    pub user_id: UserId,
    /// Login of the user that redeemed the reward.
    pub user_login: UserName,
    /// Display name of the user that redeemed the reward.
    pub user_name: DisplayName,
}

impl ChannelPointsCustomRewardRedemptionAddV1Payload {
    /// A payload with exactly these fields.
    pub fn new(
        broadcaster_user_id: UserId,
        broadcaster_user_login: UserName,
        broadcaster_user_name: DisplayName,
        id: RedemptionId,
        redeemed_at: Timestamp,
        reward: Reward,
        status: RedemptionStatus,
        user_input: String,
        user_id: UserId,
        user_login: UserName,
        user_name: DisplayName,
    ) -> (p: ChannelPointsCustomRewardRedemptionAddV1Payload)
        ensures
            p == (ChannelPointsCustomRewardRedemptionAddV1Payload {
                broadcaster_user_id,
                broadcaster_user_login,
                broadcaster_user_name,
                id,
                redeemed_at,
                reward,
                status,
                user_input,
                user_id,
                user_login,
                user_name,
            }),
    {
        ChannelPointsCustomRewardRedemptionAddV1Payload {
            broadcaster_user_id,
            broadcaster_user_login,
            broadcaster_user_name,
            id,
            redeemed_at,
            reward,
            status,
            user_input,
            user_id,
            user_login,
            user_name,
        }
    }
}

} // verus!
