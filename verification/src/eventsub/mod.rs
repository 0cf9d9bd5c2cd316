//! The EventSub notifications: what every subscription states, and the
//! values that several events share.

use vstd::prelude::*;
use crate::scope::Scope;
use crate::types::{same_text, RewardId};

pub mod channel;

verus! {

/// The kind of event that a subscription asks for.
#[derive(Clone, Copy, Debug, PartialEq, Eq, Structural, Hash)]
#[non_exhaustive]
pub enum EventType {
    /// A viewer has redeemed a custom channel points reward on the channel.
    ChannelPointsCustomRewardRedemptionAdd,
    /// A poll ends on the channel.
    ChannelPollEnd,
    /// A subscription to the channel expires.
    ChannelSubscriptionEnd,
}

impl EventType {
    /// The tag that the service writes for the kind.
    pub open spec fn name_text(self) -> Seq<char> {
        match self {
            EventType::ChannelPointsCustomRewardRedemptionAdd =>
                "channel.channel_points_custom_reward_redemption.add"@,
            EventType::ChannelPollEnd => "channel.poll.end"@,
            EventType::ChannelSubscriptionEnd => "channel.subscription.end"@,
        }
    }

    /// The kind that a tag stands for, if it stands for one.
    pub open spec fn of_name(name: Seq<char>) -> Option<EventType> {
        if name == "channel.channel_points_custom_reward_redemption.add"@ {
            Some(EventType::ChannelPointsCustomRewardRedemptionAdd)
        } else if name == "channel.poll.end"@ {
            Some(EventType::ChannelPollEnd)
        } else if name == "channel.subscription.end"@ {
            Some(EventType::ChannelSubscriptionEnd)
        } else {
            None
        }
    }

    /// Reading the tag of a kind gives that kind back.
    pub proof fn lemma_name_round_trip(self)
        ensures
            EventType::of_name(self.name_text()) == Some(self),
    {
        reveal_strlit("channel.channel_points_custom_reward_redemption.add");
        reveal_strlit("channel.poll.end");
        reveal_strlit("channel.subscription.end");
        assert("channel.channel_points_custom_reward_redemption.add"@.len() == 51);
        assert("channel.poll.end"@.len() == 16);
        assert("channel.subscription.end"@.len() == 24);
    }

    /// The tag that the service writes for the kind.
    pub fn as_str(self) -> (s: &'static str)
        ensures
            s@ == self.name_text(),
    {
        match self {
            EventType::ChannelPointsCustomRewardRedemptionAdd =>
                "channel.channel_points_custom_reward_redemption.add",
            EventType::ChannelPollEnd => "channel.poll.end",
            EventType::ChannelSubscriptionEnd => "channel.subscription.end",
        }
    }

    /// Reads a kind from its tag; `None` for any other text.
    pub fn from_name(name: &str) -> (r: Option<EventType>)
        ensures
            r == EventType::of_name(name@),
    {
        if same_text(name, "channel.channel_points_custom_reward_redemption.add") {
            Some(EventType::ChannelPointsCustomRewardRedemptionAdd)
        } else if same_text(name, "channel.poll.end") {
            Some(EventType::ChannelPollEnd)
        } else if same_text(name, "channel.subscription.end") {
            Some(EventType::ChannelSubscriptionEnd)
        } else {
            None
        }
    }
}

/// What every subscription states about itself.
pub trait EventSubscription {
    /// The value that a notification for this subscription carries.
    type Payload;

    /// The kind of event asked for.
    spec fn kind() -> EventType;

    /// The version of the subscription.
    spec fn version_text() -> Seq<char>;

    /// The scopes the subscription needs.
    spec fn required_scopes() -> Seq<Scope>;

    /// The kind of event asked for.
    fn event_type() -> (e: EventType)
        ensures
            e == Self::kind(),
    ;

    /// The version of the subscription.
    fn version() -> (v: &'static str)
        ensures
            v@ == Self::version_text(),
    ;

    /// The scopes the subscription needs.
    fn scope() -> (v: &'static [Scope])
        ensures
            v@ == Self::required_scopes(),
    ;
}

/// The Bits voting settings of a poll.
#[derive(Clone, Copy, Debug, PartialEq, Eq, Structural)]
#[non_exhaustive]
pub struct BitsVoting {
    /// Indicates if Bits can be used for voting.
    pub is_enabled: bool,
    /// Number of Bits required to vote once with Bits.
    pub amount_per_vote: i64,
}

impl BitsVoting {
    /// Settings with exactly these fields.
    pub fn new(is_enabled: bool, amount_per_vote: i64) -> (v: BitsVoting)
        ensures
            v == (BitsVoting { is_enabled, amount_per_vote }),
    {
        BitsVoting { is_enabled, amount_per_vote }
    }
}

/// The Channel Points voting settings of a poll.
#[derive(Clone, Copy, Debug, PartialEq, Eq, Structural)]
#[non_exhaustive]
pub struct ChannelPointsVoting {
    /// Indicates if Channel Points can be used for voting.
    pub is_enabled: bool,
    /// Number of Channel Points required to vote once with Channel Points.
    pub amount_per_vote: i64,
}

impl ChannelPointsVoting {
    /// Settings with exactly these fields.
    pub fn new(is_enabled: bool, amount_per_vote: i64) -> (v: ChannelPointsVoting)
        ensures
            v == (ChannelPointsVoting { is_enabled, amount_per_vote }),
    {
        ChannelPointsVoting { is_enabled, amount_per_vote }
    }
}

/// Basic information about a reward, at the time it was redeemed.
#[derive(Clone, Debug, PartialEq, Eq)]
#[non_exhaustive]
pub struct Reward {
    /// The reward identifier.
    pub id: RewardId,
    /// The reward name.
    pub title: String,
    /// The reward cost.
    pub cost: i64,
    /// The reward description.
    pub prompt: String,
}

impl Reward {
    /// A reward with exactly these fields.
    pub fn new(id: RewardId, title: String, cost: i64, prompt: String) -> (r: Reward)
        ensures
            r == (Reward { id, title, cost, prompt }),
    {
        Reward { id, title, cost, prompt }
    }
}

/// What has become of a redemption.
#[derive(Clone, Copy, Debug, PartialEq, Eq, Structural)]
#[non_exhaustive]
pub enum RedemptionStatus {
    /// The status is not known.
    Unknown,
    /// The redemption waits to be fulfilled.
    Unfulfilled,
    /// The redemption was fulfilled.
    Fulfilled,
    /// The redemption was canceled.
    Canceled,
}

impl RedemptionStatus {
    /// The word that stands for the status in a notification.
    pub open spec fn name_text(self) -> Seq<char> {
        match self {
            RedemptionStatus::Unknown => "unknown"@,
            RedemptionStatus::Unfulfilled => "unfulfilled"@,
            RedemptionStatus::Fulfilled => "fulfilled"@,
            RedemptionStatus::Canceled => "canceled"@,
        }
    }

    /// The status that a word stands for, if it stands for one.
    pub open spec fn of_name(name: Seq<char>) -> Option<RedemptionStatus> {
        if name == "unknown"@ {
            Some(RedemptionStatus::Unknown)
        } else if name == "unfulfilled"@ {
            Some(RedemptionStatus::Unfulfilled)
        } else if name == "fulfilled"@ {
            Some(RedemptionStatus::Fulfilled)
        } else if name == "canceled"@ {
            Some(RedemptionStatus::Canceled)
        } else {
            None
        }
    }

    /// Reading the word of a status gives that status back.
    pub proof fn lemma_name_round_trip(self)
        ensures
            RedemptionStatus::of_name(self.name_text()) == Some(self),
    {
        reveal_strlit("unknown");
        reveal_strlit("unfulfilled");
        reveal_strlit("fulfilled");
        reveal_strlit("canceled");
        assert("unknown"@.len() == 7);
        assert("unfulfilled"@.len() == 11);
        assert("fulfilled"@.len() == 9);
        assert("canceled"@.len() == 8);
    }

    /// The word that stands for the status in a notification.
    pub fn as_str(self) -> (s: &'static str)
        ensures
            s@ == self.name_text(),
    {
        match self {
            RedemptionStatus::Unknown => "unknown",
            RedemptionStatus::Unfulfilled => "unfulfilled",
            RedemptionStatus::Fulfilled => "fulfilled",
            RedemptionStatus::Canceled => "canceled",
        }
    }

    /// Reads a status from its word; `None` for any other text.
    pub fn from_name(name: &str) -> (r: Option<RedemptionStatus>)
        ensures
            r == RedemptionStatus::of_name(name@),
    {
        if same_text(name, "unknown") {
            Some(RedemptionStatus::Unknown)
        } else if same_text(name, "unfulfilled") {
            Some(RedemptionStatus::Unfulfilled)
        } else if same_text(name, "fulfilled") {
            Some(RedemptionStatus::Fulfilled)
        } else if same_text(name, "canceled") {
            Some(RedemptionStatus::Canceled)
        } else {
            None
        }
    }
}

} // verus!
