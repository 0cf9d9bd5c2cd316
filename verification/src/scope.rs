//! The OAuth scopes that the bindings in this crate refer to.

use vstd::prelude::*;

verus! {

/// A permission that a token must carry for a request or a subscription.
#[derive(Clone, Copy, Debug, PartialEq, Eq, Structural, Hash)]
pub enum Scope {
    /// View a channel's polls.
    ChannelReadPolls,
    /// View channel points custom rewards and their redemptions on a channel.
    ChannelReadRedemptions,
    /// View the subscribers of a channel.
    ChannelReadSubscriptions,
    /// View a user's email address.
    UserReadEmail,
}

impl Scope {
    /// The text by which the service knows the scope.
    pub open spec fn name_text(self) -> Seq<char> {
        match self {
            Scope::ChannelReadPolls => "channel:read:polls"@,
            Scope::ChannelReadRedemptions => "channel:read:redemptions"@,
            Scope::ChannelReadSubscriptions => "channel:read:subscriptions"@,
            Scope::UserReadEmail => "user:read:email"@,
        }
    }

    /// The text by which the service knows the scope.
    pub fn as_str(self) -> (s: &'static str)
        ensures
            s@ == self.name_text(),
    {
        match self {
            Scope::ChannelReadPolls => "channel:read:polls",
            Scope::ChannelReadRedemptions => "channel:read:redemptions",
            Scope::ChannelReadSubscriptions => "channel:read:subscriptions",
            Scope::UserReadEmail => "user:read:email",
        }
    }
}

} // verus!
