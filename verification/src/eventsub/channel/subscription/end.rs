//! A subscription to the specified channel expires.

use vstd::prelude::*;
use crate::eventsub::{EventSubscription, EventType};
use crate::scope::Scope;
use crate::types::{DisplayName, UserId, UserName};

verus! {

/// `channel.subscription.end`: a subscription to the specified channel expires.
#[derive(Clone, Debug, PartialEq, Eq)]
#[non_exhaustive]
pub struct ChannelSubscriptionEndV1 {
    /// The broadcaster user ID for the channel you want to get subscription end notifications for.
    pub broadcaster_user_id: UserId,
}

impl ChannelSubscriptionEndV1 {
    /// The subscription for the channel of this broadcaster.
    pub fn new(broadcaster_user_id: UserId) -> (s: ChannelSubscriptionEndV1)
        ensures
            s.broadcaster_user_id == broadcaster_user_id,
    {
        ChannelSubscriptionEndV1 { broadcaster_user_id }
    }
}

impl EventSubscription for ChannelSubscriptionEndV1 {
    type Payload = ChannelSubscriptionEndV1Payload;

    open spec fn kind() -> EventType {
        EventType::ChannelSubscriptionEnd
    }

    open spec fn version_text() -> Seq<char> {
        "1"@
    }

    open spec fn required_scopes() -> Seq<Scope> {
        seq![Scope::ChannelReadSubscriptions]
    }

    fn event_type() -> (e: EventType) {
        EventType::ChannelSubscriptionEnd
    }

    fn version() -> (v: &'static str) {
        "1"
    }

    fn scope() -> (v: &'static [Scope]) {
        let v: &'static [Scope] = &[Scope::ChannelReadSubscriptions];
        proof {
            assert(v@ =~= seq![Scope::ChannelReadSubscriptions]);
        }
        v
    }
}

/// The payload of a `channel.subscription.end` notification.
#[derive(Clone, Debug, PartialEq, Eq)]
#[non_exhaustive]
pub struct ChannelSubscriptionEndV1Payload {
    /// The broadcaster user ID.
    pub broadcaster_user_id: UserId,
    /// The broadcaster login.
    pub broadcaster_user_login: DisplayName,
    /// The broadcaster display name.
    pub broadcaster_user_name: UserName,
    /// The user ID for the user whose subscription ended.
    pub user_id: UserId,
    /// The user login for the user whose subscription ended.
    pub user_login: DisplayName,
    /// The user display name for the user whose subscription ended.
    pub user_name: UserName,
}

impl ChannelSubscriptionEndV1Payload {
    /// A payload with exactly these fields.
    pub fn new(
        broadcaster_user_id: UserId,
        broadcaster_user_login: DisplayName,
        broadcaster_user_name: UserName,
        user_id: UserId,
        user_login: DisplayName,
        user_name: UserName,
    ) -> (p: ChannelSubscriptionEndV1Payload)
        ensures
            p == (ChannelSubscriptionEndV1Payload {
                broadcaster_user_id,
                broadcaster_user_login,
                broadcaster_user_name,
                user_id,
                user_login,
                user_name,
            }),
    {
        ChannelSubscriptionEndV1Payload {
            broadcaster_user_id,
            broadcaster_user_login,
            broadcaster_user_name,
            user_id,
            user_login,
            user_name,
        }
    }
}

} // verus!
