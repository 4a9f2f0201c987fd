//! Rules of team registration and upkeep.

use vstd::prelude::*;

verus! {

/// Teams listed per page where the request names no limit.
pub const DEFAULT_PAGE_LIMIT: i32 = 20;

/// Most teams listed per page.
pub const MAX_PAGE_LIMIT: i32 = 100;

/// Why a request about a team was turned down.
#[derive(Clone, Copy, Debug, PartialEq, Eq, Structural)]
pub enum TeamError {
    /// The request does not hold what a team needs.
    InvalidRequest,
    InvalidUserId,
    /// The user owns a team already.
    AlreadyHasTeam,
    NameTaken,
    TeamNotFound,
    /// The team belongs to another user.
    NotOwner,
}

impl TeamError {
    /// The HTTP status with which the request is answered.
    pub fn status_code(self) -> (code: u16)
        ensures
            code == match self {
                TeamError::InvalidRequest => 400u16,
                TeamError::InvalidUserId => 400u16,
                TeamError::AlreadyHasTeam => 409u16,
                TeamError::NameTaken => 409u16,
                TeamError::TeamNotFound => 404u16,
                TeamError::NotOwner => 403u16,
            },
    {
        match self {
            TeamError::InvalidRequest => 400,
            TeamError::InvalidUserId => 400,
            TeamError::AlreadyHasTeam => 409,
            TeamError::NameTaken => 409,
            TeamError::TeamNotFound => 404,
            TeamError::NotOwner => 403,
        }
    }
}

/// Decides whether a team may be registered: the request must be valid,
/// the user known, without a team so far, and the name free.
pub fn register_new_team(request_valid: bool, user_known: bool, has_team: bool, name_taken: bool) -> (outcome:
    Result<(), TeamError>)
    ensures
        outcome == if !request_valid {
            Err::<(), TeamError>(TeamError::InvalidRequest)
        } else if !user_known {
            Err::<(), TeamError>(TeamError::InvalidUserId)
        } else if has_team {
            Err::<(), TeamError>(TeamError::AlreadyHasTeam)
        } else if name_taken {
            Err::<(), TeamError>(TeamError::NameTaken)
        } else {
            Ok::<(), TeamError>(())
        },
{
    if !request_valid {
        Err(TeamError::InvalidRequest)
    } else if !user_known {
        Err(TeamError::InvalidUserId)
    } else if has_team {
        Err(TeamError::AlreadyHasTeam)
    } else if name_taken {
        Err(TeamError::NameTaken)
    } else {
        Ok(())
    }
}

/// Decides whether a user may change a team: the request must be valid,
/// the user known, and the team must exist and belong to the user.
/// `owner_id` is the owner of the team, or `None` where there is no such team.
pub fn update_team_information(
    request_valid: bool,
    user_id: Option<u128>,
    owner_id: Option<u128>,
) -> (outcome: Result<(), TeamError>)
    ensures
        outcome == if !request_valid {
            Err::<(), TeamError>(TeamError::InvalidRequest)
        } else if user_id.is_none() {
            Err::<(), TeamError>(TeamError::InvalidUserId)
        } else if owner_id.is_none() {
            Err::<(), TeamError>(TeamError::TeamNotFound)
        } else if owner_id != user_id {
            Err::<(), TeamError>(TeamError::NotOwner)
        } else {
            Ok::<(), TeamError>(())
        },
{
    if !request_valid {
        return Err(TeamError::InvalidRequest);
    }
    match (user_id, owner_id) {
        (None, _) => Err(TeamError::InvalidUserId),
        (Some(_), None) => Err(TeamError::TeamNotFound),
        (Some(user), Some(owner)) => if owner != user {
            Err(TeamError::NotOwner)
        } else {
            Ok(())
        },
    }
}

/// The number of teams to list: what the request asks for, twenty where it
/// asks for nothing, and never more than a hundred.
pub fn page_limit(requested: Option<i32>) -> (limit: i32)
    ensures
        limit == match requested {
            Some(n) => if n < MAX_PAGE_LIMIT {
                n
            } else {
                MAX_PAGE_LIMIT
            },
            None => DEFAULT_PAGE_LIMIT,
        },
{
    let asked: i32 = match requested {
        Some(n) => n,
        None => DEFAULT_PAGE_LIMIT,
    };
    if asked < MAX_PAGE_LIMIT {
        asked
    } else {
        MAX_PAGE_LIMIT
    }
}

} // verus!
