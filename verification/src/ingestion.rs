//! The course of a health data upload: which step follows which, and how
//! the upload is answered. The steps themselves (looking up a duplicate,
//! storing the new stats and the data, publishing the event) are carried
//! out by the caller, who reports back how each went.

use vstd::prelude::*;
use crate::live::StatChanges;

verus! {

/// Where an upload stands.
#[derive(Clone, Copy, Debug, PartialEq, Eq, Structural)]
pub enum UploadStage {
    /// Nothing has happened yet.
    Received,
    /// The store is being asked whether the workout is known.
    CheckingDuplicate,
    /// The user's new stats are being stored.
    ApplyingStats,
    /// Live games are being credited and the data stored.
    Storing,
    /// The upload has been answered.
    Answered,
}

/// What the caller reports.
#[derive(Clone, Copy, Debug, PartialEq, Eq, Structural)]
pub enum UploadEvent {
    /// The upload arrived; the user's identifier could be read or not, and
    /// the upload names its workout or not.
    Arrived { user_known: bool, names_workout: bool },
    /// The duplicate check ended: `Some(known)`, or `None` if it failed.
    DuplicateChecked { known: Option<bool> },
    /// The stats were stored, or not.
    StatsApplied { stored: bool },
    /// The data was stored, or not.
    DataStored { stored: bool },
}

/// How an upload is answered.
#[derive(Clone, Copy, Debug, PartialEq, Eq, Structural)]
pub enum UploadReply {
    InvalidUserId,
    /// The workout was processed before; nothing is done again.
    Duplicate,
    DuplicateCheckFailed,
    StatsUpdateFailed,
    Synced,
    SyncFailed,
}

/// What the caller is to do next.
#[derive(Clone, Copy, Debug, PartialEq, Eq, Structural)]
pub enum UploadAction {
    CheckDuplicate,
    /// Compute the stat changes and store them.
    ApplyStats,
    /// Credit the user's live games, then store the data.
    UpdateLiveGamesAndStore,
    /// Publish the event, then answer.
    PublishAndReply(UploadReply),
    Reply(UploadReply),
}

/// The stage and the action that follow `event` at `stage`, or `None`
/// where the event does not belong to the stage.
pub open spec fn upload_transition(stage: UploadStage, event: UploadEvent) -> Option<
    (UploadStage, UploadAction),
> {
    match (stage, event) {
        (UploadStage::Received, UploadEvent::Arrived { user_known, names_workout }) => {
            if !user_known {
                Some((UploadStage::Answered, UploadAction::Reply(UploadReply::InvalidUserId)))
            } else if names_workout {
                Some((UploadStage::CheckingDuplicate, UploadAction::CheckDuplicate))
            } else {
                Some((UploadStage::ApplyingStats, UploadAction::ApplyStats))
            }
        },
        (UploadStage::CheckingDuplicate, UploadEvent::DuplicateChecked { known }) => match known {
            Some(true) => Some(
                (UploadStage::Answered, UploadAction::Reply(UploadReply::Duplicate)),
            ),
            Some(false) => Some((UploadStage::ApplyingStats, UploadAction::ApplyStats)),
            None => Some(
                (UploadStage::Answered, UploadAction::Reply(UploadReply::DuplicateCheckFailed)),
            ),
        },
        (UploadStage::ApplyingStats, UploadEvent::StatsApplied { stored }) => {
            if stored {
                Some((UploadStage::Storing, UploadAction::UpdateLiveGamesAndStore))
            } else {
                Some((UploadStage::Answered, UploadAction::Reply(UploadReply::StatsUpdateFailed)))
            }
        },
        (UploadStage::Storing, UploadEvent::DataStored { stored }) => {
            if stored {
                Some((UploadStage::Answered, UploadAction::PublishAndReply(UploadReply::Synced)))
            } else {
                Some((UploadStage::Answered, UploadAction::Reply(UploadReply::SyncFailed)))
            }
        },
        _ => None,
    }
}

/// Decides the next step of an upload.
pub fn upload_health_data(stage: UploadStage, event: UploadEvent) -> (next: Option<
    (UploadStage, UploadAction),
>)
    ensures
        next == upload_transition(stage, event),
{
    match (stage, event) {
        (UploadStage::Received, UploadEvent::Arrived { user_known, names_workout }) => {
            if !user_known {
                Some((UploadStage::Answered, UploadAction::Reply(UploadReply::InvalidUserId)))
            } else if names_workout {
                Some((UploadStage::CheckingDuplicate, UploadAction::CheckDuplicate))
            } else {
                Some((UploadStage::ApplyingStats, UploadAction::ApplyStats))
            }
        },
        (UploadStage::CheckingDuplicate, UploadEvent::DuplicateChecked { known }) => match known {
            Some(true) => Some(
                (UploadStage::Answered, UploadAction::Reply(UploadReply::Duplicate)),
            ),
            Some(false) => Some((UploadStage::ApplyingStats, UploadAction::ApplyStats)),
            None => Some(
                (UploadStage::Answered, UploadAction::Reply(UploadReply::DuplicateCheckFailed)),
            ),
        },
        (UploadStage::ApplyingStats, UploadEvent::StatsApplied { stored }) => {
            if stored {
                Some((UploadStage::Storing, UploadAction::UpdateLiveGamesAndStore))
            } else {
                Some((UploadStage::Answered, UploadAction::Reply(UploadReply::StatsUpdateFailed)))
            }
        },
        (UploadStage::Storing, UploadEvent::DataStored { stored }) => {
            if stored {
                Some((UploadStage::Answered, UploadAction::PublishAndReply(UploadReply::Synced)))
            } else {
                Some((UploadStage::Answered, UploadAction::Reply(UploadReply::SyncFailed)))
            }
        },
        _ => None,
    }
}

impl UploadReply {
    /// The upload was dealt with; the other replies report a failure.
    pub open spec fn is_success(self) -> bool {
        self == UploadReply::Duplicate || self == UploadReply::Synced
    }

    /// The HTTP status of the reply: 200 for an upload that was dealt
    /// with, 500 for a failure.
    pub fn status_code(self) -> (code: u16)
        ensures
            code == if self.is_success() {
                200u16
            } else {
                500u16
            },
    {
        match self {
            UploadReply::Duplicate => 200,
            UploadReply::Synced => 200,
            _ => 500,
        }
    }

    /// The message of the reply.
    pub fn message(self) -> (text: &'static str)
        ensures
            text@ == match self {
                UploadReply::InvalidUserId => "Invalid user ID"@,
                UploadReply::Duplicate => "Workout already processed - skipping duplicate"@,
                UploadReply::DuplicateCheckFailed => "Failed to check for duplicate workout"@,
                UploadReply::StatsUpdateFailed => "Failed to update avatar stats"@,
                UploadReply::Synced => "Health data synced and game stats calculated!"@,
                UploadReply::SyncFailed => "Failed to sync health data"@,
            },
    {
        match self {
            UploadReply::InvalidUserId => "Invalid user ID",
            UploadReply::Duplicate => "Workout already processed - skipping duplicate",
            UploadReply::DuplicateCheckFailed => "Failed to check for duplicate workout",
            UploadReply::StatsUpdateFailed => "Failed to update avatar stats",
            UploadReply::Synced => "Health data synced and game stats calculated!",
            UploadReply::SyncFailed => "Failed to sync health data",
        }
    }
}

/// The stat points an upload earned in all: stamina plus strength.
pub fn total_stat_points(changes: &StatChanges) -> (total: i64)
    ensures
        total == changes.stamina_change + changes.strength_change,
{
    changes.stamina_change as i64 + changes.strength_change as i64
}

/// An upload is answered exactly once: every step either moves it one
/// stage on and asks for more work, or answers it, and once it is answered
/// no event moves it again.
pub proof fn lemma_upload_progress(stage: UploadStage, event: UploadEvent)
    ensures
        stage == UploadStage::Answered ==> upload_transition(stage, event).is_none(),
        match upload_transition(stage, event) {
            Some((next, action)) => {
                &&& next != stage
                &&& next == UploadStage::Answered <==> (action is Reply || action is PublishAndReply)
            },
            None => true,
        },
{
}

} // verus!
