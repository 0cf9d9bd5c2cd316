//! A poll ends on the specified channel.

use vstd::prelude::*;
use crate::eventsub::{BitsVoting, ChannelPointsVoting, EventSubscription, EventType};
use crate::scope::Scope;
use crate::types::{DisplayName, PollChoice, PollId, PollStatus, Timestamp, UserId, UserName};

verus! {

/// `channel.poll.end`: a poll ends on the specified channel.
#[derive(Clone, Debug, PartialEq, Eq)]
#[non_exhaustive]
pub struct ChannelPollEndV1 {
    /// The broadcaster user ID of the channel for which "poll end" notifications will be received.
    pub broadcaster_user_id: UserId,
}

impl ChannelPollEndV1 {
    /// The subscription for the channel of this broadcaster.
    pub fn new(broadcaster_user_id: UserId) -> (s: ChannelPollEndV1)
        ensures
            s.broadcaster_user_id == broadcaster_user_id,
    {
        ChannelPollEndV1 { broadcaster_user_id }
    }
}

impl EventSubscription for ChannelPollEndV1 {
    type Payload = ChannelPollEndV1Payload;

    open spec fn kind() -> EventType {
        EventType::ChannelPollEnd
    }

    open spec fn version_text() -> Seq<char> {
        "1"@
    }

    open spec fn required_scopes() -> Seq<Scope> {
        seq![Scope::ChannelReadPolls]
    }

    fn event_type() -> (e: EventType) {
        EventType::ChannelPollEnd
    }

    fn version() -> (v: &'static str) {
        "1"
    }

    fn scope() -> (v: &'static [Scope]) {
        let v: &'static [Scope] = &[Scope::ChannelReadPolls];
        proof {
            assert(v@ =~= seq![Scope::ChannelReadPolls]);
        }
        v
    }
}

/// The payload of a `channel.poll.end` notification.
#[derive(Clone, Debug, PartialEq, Eq)]
#[non_exhaustive]
pub struct ChannelPollEndV1Payload {
    /// The Bits voting settings for the poll.
    pub bits_voting: BitsVoting,
    /// The requested broadcaster ID.
    pub broadcaster_user_id: UserId,
    /// The requested broadcaster login.
    pub broadcaster_user_login: UserName,
    /// The requested broadcaster display name.
    pub broadcaster_user_name: DisplayName,
    /// The Channel Points voting settings for the poll.
    pub channel_points_voting: ChannelPointsVoting,
    /// An array of choices for the poll. Includes vote counts.
    pub choices: Vec<PollChoice>,
    /// The time the poll ended.
    pub ended_at: Timestamp,
    /// ID of the poll.
    pub id: PollId,
    /// The time the poll started.
    pub started_at: Timestamp,
    /// The status of the poll.
    pub status: PollStatus,
    /// Question displayed for the poll.
    pub title: String,
}

impl ChannelPollEndV1Payload {
    /// A payload with exactly these fields.
    pub fn new(
        bits_voting: BitsVoting,
        broadcaster_user_id: UserId,
        broadcaster_user_login: UserName,
        broadcaster_user_name: DisplayName,
        channel_points_voting: ChannelPointsVoting,
        choices: Vec<PollChoice>,
        ended_at: Timestamp,
        id: PollId,
        started_at: Timestamp,
        status: PollStatus,
        title: String,
    ) -> (p: ChannelPollEndV1Payload)
        ensures
            p == (ChannelPollEndV1Payload {
                bits_voting,
                broadcaster_user_id,
                broadcaster_user_login,
                broadcaster_user_name,
                channel_points_voting,
                choices,
                ended_at,
                id,
                started_at,
                status,
                title,
            }),
    {
        ChannelPollEndV1Payload {
            bits_voting,
            broadcaster_user_id,
            broadcaster_user_login,
            broadcaster_user_name,
            channel_points_voting,
            choices,
            ended_at,
            id,
            started_at,
            status,
            title,
        }
    }
}

} // verus!
