//! Values that several endpoints and events share.

use vstd::prelude::*;

verus! {

/// A user ID.
pub type UserId = String;

/// A user's login name.
pub type UserName = String;

/// A user's display name.
pub type DisplayName = String;

/// The ID of a channel points reward.
pub type RewardId = String;

/// The ID of a redemption of a reward.
pub type RedemptionId = String;

/// The ID of a poll.
pub type PollId = String;

/// An RFC3339 timestamp.
pub type Timestamp = String;

/// One choice of a poll, with the votes it got.
#[derive(Clone, Debug, PartialEq, Eq)]
#[non_exhaustive]
pub struct PollChoice {
    /// ID for the choice.
    pub id: String,
    /// Text displayed for the choice.
    pub title: String,
    /// Total number of votes received for the choice across all methods of voting.
    pub votes: Option<i64>,
    /// Number of votes received via channel points.
    pub channel_points_votes: Option<i64>,
    /// Number of votes received via bits.
    pub bits_votes: Option<i64>,
}

impl PollChoice {
    /// A choice with exactly these fields.
    pub fn new(
        id: String,
        title: String,
        votes: Option<i64>,
        channel_points_votes: Option<i64>,
        bits_votes: Option<i64>,
    ) -> (c: PollChoice)
        ensures
            c == (PollChoice { id, title, votes, channel_points_votes, bits_votes }),
    {
        PollChoice { id, title, votes, channel_points_votes, bits_votes }
    }
}

/// Whether two texts hold the same characters.
pub(crate) fn same_text(a: &str, b: &str) -> (r: bool)
    ensures
        r == (a@ == b@),
{
    a.to_owned() == b.to_owned()
}

/// The status of a poll.
#[derive(Clone, Copy, Debug, PartialEq, Eq, Structural)]
#[non_exhaustive]
pub enum PollStatus {
    /// Poll is currently in progress.
    Active,
    /// Poll has reached its end time.
    Completed,
    /// Poll has been manually terminated before its end time.
    Terminated,
    /// Poll is no longer visible on the channel.
    Archived,
    /// Poll is no longer visible to any user.
    Moderated,
    /// Something went wrong determining the state.
    Invalid,
}

impl PollStatus {
    /// The word that stands for the status in a notification.
    pub open spec fn name_text(self) -> Seq<char> {
        match self {
            PollStatus::Active => "active"@,
            PollStatus::Completed => "completed"@,
            PollStatus::Terminated => "terminated"@,
            PollStatus::Archived => "archived"@,
            PollStatus::Moderated => "moderated"@,
            PollStatus::Invalid => "invalid"@,
        }
    }

    /// The status that a word stands for, if it stands for one.
    pub open spec fn of_name(name: Seq<char>) -> Option<PollStatus> {
        if name == "active"@ {
            Some(PollStatus::Active)
        } else if name == "completed"@ {
            Some(PollStatus::Completed)
        } else if name == "terminated"@ {
            Some(PollStatus::Terminated)
        } else if name == "archived"@ {
            Some(PollStatus::Archived)
        } else if name == "moderated"@ {
            Some(PollStatus::Moderated)
        } else if name == "invalid"@ {
            Some(PollStatus::Invalid)
        } else {
            None
        }
    }

    /// Reading the word of a status gives that status back.
    pub proof fn lemma_name_round_trip(self)
        ensures
            PollStatus::of_name(self.name_text()) == Some(self),
    {
        reveal_strlit("active");
        reveal_strlit("completed");
        reveal_strlit("terminated");
        reveal_strlit("archived");
        reveal_strlit("moderated");
        reveal_strlit("invalid");
        assert("active"@.len() == 6);
        assert("completed"@.len() == 9);
        assert("terminated"@.len() == 10);
        assert("archived"@.len() == 8);
        assert("moderated"@.len() == 9);
        assert("invalid"@.len() == 7);
        assert("completed"@[0] == 'c');
        assert("moderated"@[0] == 'm');
    }

    /// The word that stands for the status in a notification.
    pub fn as_str(self) -> (s: &'static str)
        ensures
            s@ == self.name_text(),
    {
        match self {
            PollStatus::Active => "active",
            PollStatus::Completed => "completed",
            PollStatus::Terminated => "terminated",
            PollStatus::Archived => "archived",
            PollStatus::Moderated => "moderated",
            PollStatus::Invalid => "invalid",
        }
    }

    /// Reads a status from its word; `None` for any other text.
    pub fn from_name(name: &str) -> (r: Option<PollStatus>)
        ensures
            r == PollStatus::of_name(name@),
    {
        if same_text(name, "active") {
            Some(PollStatus::Active)
        } else if same_text(name, "completed") {
            Some(PollStatus::Completed)
        } else if same_text(name, "terminated") {
            Some(PollStatus::Terminated)
        } else if same_text(name, "archived") {
            Some(PollStatus::Archived)
        } else if same_text(name, "moderated") {
            Some(PollStatus::Moderated)
        } else if same_text(name, "invalid") {
            Some(PollStatus::Invalid)
        } else {
            None
        }
    }
}

} // verus!
