//! Rules of league administration: what a request must hold to be carried
//! out, and what a new league or season looks like.

use vstd::prelude::*;
use crate::calendar::{is_game_slot, is_valid_game_time, weeks_after};
use crate::model::Fixture;
use crate::round_robin::{fixture_count, round_count, valid_team_count};
use crate::schedule::{generate_schedule, is_schedule};
use crate::standings::{StandingsLedger, Tally};

verus! {

/// A league as shown to administrators.
#[derive(Clone, Debug, PartialEq, Eq)]
pub struct AdminLeagueResponse {
    pub id: u128,
    pub name: String,
    pub description: Option<String>,
    pub max_teams: i32,
    pub current_team_count: i64,
    pub created_at: i64,
}

/// What an administrator states to create a league.
#[derive(Clone, Debug, PartialEq, Eq)]
pub struct CreateLeagueRequest {
    pub name: String,
    pub description: Option<String>,
    pub max_teams: i32,
}

/// What an administrator states to change a league; a field left out stays.
#[derive(Clone, Debug, PartialEq, Eq)]
pub struct UpdateLeagueRequest {
    pub name: Option<String>,
    pub season_start_date: Option<i64>,
    pub season_end_date: Option<i64>,
}

/// Names the team that is to join a league.
#[derive(Clone, Copy, Debug, PartialEq, Eq)]
pub struct AssignTeamRequest {
    pub team_id: u128,
}

/// Names the team that is to leave a league.
#[derive(Clone, Copy, Debug, PartialEq, Eq)]
pub struct RemoveTeamRequest {
    pub team_id: u128,
}

/// Names the season to schedule and its first kickoff.
#[derive(Clone, Copy, Debug, PartialEq, Eq)]
pub struct GenerateScheduleRequest {
    pub season_id: u128,
    pub start_date: i64,
}

/// What an administrator states to create a season; its end is computed.
#[derive(Clone, Debug, PartialEq, Eq)]
pub struct CreateSeasonRequest {
    pub name: String,
    pub start_date: i64,
}

/// What an administrator states to change a season; a field left out stays.
#[derive(Clone, Debug, PartialEq, Eq)]
pub struct UpdateSeasonRequest {
    pub name: Option<String>,
    pub start_date: Option<i64>,
}

/// A season as shown to administrators.
#[derive(Clone, Debug, PartialEq, Eq)]
pub struct AdminSeasonResponse {
    pub id: u128,
    pub league_id: u128,
    pub name: String,
    pub start_date: i64,
    pub end_date: i64,
    pub total_teams: i64,
    pub games_count: i64,
    pub created_at: i64,
}

/// Why a request of an administrator was turned down.
#[derive(Clone, Copy, Debug, PartialEq, Eq, Structural)]
pub enum AdminError {
    /// A league must admit at least one team.
    InvalidMaxTeams,
    /// The request changes nothing.
    NoFieldsToUpdate,
    LeagueNotFound,
    TeamNotFound,
    SeasonNotFound,
    /// The team already belongs to the league.
    TeamAlreadyAssigned,
    /// The team does not belong to the league.
    TeamNotInLeague,
    /// A season must start in the future.
    StartNotInFuture,
    /// A season must start at a weekly game slot.
    InvalidGameTime,
    /// A season needs at least two teams.
    TooFewTeams,
    /// A season needs an even number of teams.
    OddTeamCount,
}

impl AdminError {
    /// The message shown for the error.
    pub fn message(self) -> (text: &'static str)
        ensures
            text@ == match self {
                AdminError::InvalidMaxTeams => "max_teams must be greater than 0"@,
                AdminError::NoFieldsToUpdate => "No fields to update"@,
                AdminError::LeagueNotFound => "League not found"@,
                AdminError::TeamNotFound => "Team not found"@,
                AdminError::SeasonNotFound => "Season not found"@,
                AdminError::TeamAlreadyAssigned => "Team is already assigned to this league"@,
                AdminError::TeamNotInLeague => "Team not found in this league"@,
                AdminError::StartNotInFuture => "Season start date must be in the future"@,
                AdminError::InvalidGameTime => "Start date must be a Saturday at 22:00 UTC"@,
                AdminError::TooFewTeams => "League must have at least 2 teams to create a season"@,
                AdminError::OddTeamCount => "League must have an even number of teams to create a season"@,
            },
    {
        match self {
            AdminError::InvalidMaxTeams => "max_teams must be greater than 0",
            AdminError::NoFieldsToUpdate => "No fields to update",
            AdminError::LeagueNotFound => "League not found",
            AdminError::TeamNotFound => "Team not found",
            AdminError::SeasonNotFound => "Season not found",
            AdminError::TeamAlreadyAssigned => "Team is already assigned to this league",
            AdminError::TeamNotInLeague => "Team not found in this league",
            AdminError::StartNotInFuture => "Season start date must be in the future",
            AdminError::InvalidGameTime => "Start date must be a Saturday at 22:00 UTC",
            AdminError::TooFewTeams => "League must have at least 2 teams to create a season",
            AdminError::OddTeamCount => "League must have an even number of teams to create a season",
        }
    }
}

/// Sets up a new league from a request: it must admit at least one team,
/// and it starts without teams.
pub fn create_league(body: &CreateLeagueRequest, league_id: u128, now: i64) -> (outcome: Result<
    AdminLeagueResponse,
    AdminError,
>)
    ensures
        match outcome {
            Ok(league) => {
                &&& body.max_teams > 0
                &&& league.id == league_id
                &&& league.name == body.name
                &&& league.description == body.description
                &&& league.max_teams == body.max_teams
                &&& league.current_team_count == 0
                &&& league.created_at == now
            },
            Err(e) => body.max_teams <= 0 && e == AdminError::InvalidMaxTeams,
        },
{
    if body.max_teams <= 0 {
        return Err(AdminError::InvalidMaxTeams);
    }
    Ok(
        AdminLeagueResponse {
            id: league_id,
            name: body.name.clone(),
            description: body.description.clone(),
            max_teams: body.max_teams,
            current_team_count: 0,
            created_at: now,
        },
    )
}

/// Checks a request to change a league. It must change something; the
/// result tells whether the dates of the league's season change too.
pub fn update_league(body: &UpdateLeagueRequest) -> (outcome: Result<bool, AdminError>)
    ensures
        outcome == if body.name.is_none() && body.season_start_date.is_none()
            && body.season_end_date.is_none() {
            Err::<bool, AdminError>(AdminError::NoFieldsToUpdate)
        } else {
            Ok::<bool, AdminError>(
                body.season_start_date.is_some() || body.season_end_date.is_some(),
            )
        },
{
    if body.name.is_none() && body.season_start_date.is_none() && body.season_end_date.is_none() {
        return Err(AdminError::NoFieldsToUpdate);
    }
    Ok(body.season_start_date.is_some() || body.season_end_date.is_some())
}

/// Checks a request to change a season: it must change something.
pub fn update_league_season(body: &UpdateSeasonRequest) -> (outcome: Result<(), AdminError>)
    ensures
        outcome == if body.name.is_none() && body.start_date.is_none() {
            Err::<(), AdminError>(AdminError::NoFieldsToUpdate)
        } else {
            Ok::<(), AdminError>(())
        },
{
    if body.name.is_none() && body.start_date.is_none() {
        return Err(AdminError::NoFieldsToUpdate);
    }
    Ok(())
}

/// Decides whether a team may join a league: both must exist, and the
/// team must not be a member yet.
pub fn assign_team_to_league(league_exists: bool, team_exists: bool, already_assigned: bool) -> (outcome:
    Result<(), AdminError>)
    ensures
        outcome == if !league_exists {
            Err::<(), AdminError>(AdminError::LeagueNotFound)
        } else if !team_exists {
            Err::<(), AdminError>(AdminError::TeamNotFound)
        } else if already_assigned {
            Err::<(), AdminError>(AdminError::TeamAlreadyAssigned)
        } else {
            Ok::<(), AdminError>(())
        },
{
    if !league_exists {
        Err(AdminError::LeagueNotFound)
    } else if !team_exists {
        Err(AdminError::TeamNotFound)
    } else if already_assigned {
        Err(AdminError::TeamAlreadyAssigned)
    } else {
        Ok(())
    }
}

/// Decides whether a team was removed from a league, given the number of
/// rows each deletion removed: it was, unless nothing was removed at all.
pub fn remove_team_from_league(rows_affected: &Vec<u64>) -> (outcome: Result<(), AdminError>)
    ensures
        outcome.is_ok() <==> exists|i: int| 0 <= i < rows_affected@.len() && rows_affected@[i] > 0,
        outcome.is_err() ==> outcome == Err::<(), AdminError>(AdminError::TeamNotInLeague),
{
    let n: usize = rows_affected.len();
    let mut i: usize = 0;
    while i < n
        invariant
            n == rows_affected@.len(),
            i <= n,
            forall|j: int| 0 <= j < i ==> rows_affected@[j] == 0,
        decreases n - i,
    {
        if rows_affected[i] > 0 {
            return Ok(());
        }
        i = i + 1;
    }
    Err(AdminError::TeamNotInLeague)
}

/// Decides whether a season was deleted: it must have existed, and its
/// deletion must have removed it.
pub fn delete_league_season(season_exists: bool, rows_affected: u64) -> (outcome: Result<
    (),
    AdminError,
>)
    ensures
        outcome == if season_exists && rows_affected > 0 {
            Ok::<(), AdminError>(())
        } else {
            Err::<(), AdminError>(AdminError::SeasonNotFound)
        },
{
    if season_exists && rows_affected > 0 {
        Ok(())
    } else {
        Err(AdminError::SeasonNotFound)
    }
}

/// The error, if any, with which a new season is turned down.
pub open spec fn season_error(start_date: int, now: int, team_count: int) -> Option<AdminError> {
    if start_date <= now {
        Some(AdminError::StartNotInFuture)
    } else if !is_game_slot(start_date) {
        Some(AdminError::InvalidGameTime)
    } else if team_count < 2 {
        Some(AdminError::TooFewTeams)
    } else if team_count % 2 != 0 {
        Some(AdminError::OddTeamCount)
    } else {
        None
    }
}

/// The day a season among `team_count` teams ends: `2 * (team_count - 1)`
/// weeks after its start.
pub open spec fn season_end(start_date: int, team_count: int) -> int {
    weeks_after(start_date, round_count(team_count))
}

/// Checks the start of a new season and the size of its roster, of which
/// it is told whether it is too small and whether it is odd.
fn check_season(start_date: i64, now: i64, too_few: bool, odd: bool) -> (error: Option<AdminError>)
    ensures
        error == if start_date <= now {
            Some(AdminError::StartNotInFuture)
        } else if !is_game_slot(start_date as int) {
            Some(AdminError::InvalidGameTime)
        } else if too_few {
            Some(AdminError::TooFewTeams)
        } else if odd {
            Some(AdminError::OddTeamCount)
        } else {
            None
        },
{
    if start_date <= now {
        Some(AdminError::StartNotInFuture)
    } else if !is_valid_game_time(start_date) {
        Some(AdminError::InvalidGameTime)
    } else if too_few {
        Some(AdminError::TooFewTeams)
    } else if odd {
        Some(AdminError::OddTeamCount)
    } else {
        None
    }
}

/// Checks the start and the roster size of a new season and computes the
/// date on which it ends. The start must lie in the future and be a weekly
/// game slot; the league must have an even number of teams, at least two.
pub fn plan_season(start_date: i64, now: i64, team_count: i64) -> (outcome: Result<i64, AdminError>)
    requires
        season_error(start_date as int, now as int, team_count as int).is_none() ==> season_end(
            start_date as int,
            team_count as int,
        ) <= i64::MAX,
    ensures
        match outcome {
            Ok(end_date) => {
                &&& season_error(start_date as int, now as int, team_count as int).is_none()
                &&& end_date == season_end(start_date as int, team_count as int)
            },
            Err(e) => season_error(start_date as int, now as int, team_count as int) == Some(e),
        },
{
    match check_season(start_date, now, team_count < 2, team_count % 2 != 0) {
        Some(e) => Err(e),
        None => {
            let total_weeks: i128 = 2 * (team_count as i128 - 1);
            let end_date: i128 = start_date as i128 + total_weeks * 604_800;
            Ok(end_date as i64)
        },
    }
}

/// What the creation of a season brought about.
#[derive(Clone, Debug, PartialEq, Eq)]
pub struct SeasonCreated {
    pub season: AdminSeasonResponse,
    pub fixtures: Vec<Fixture>,
}

/// Creates a season of a league: checks the request, seeds the standings
/// with one zero row per team, and generates the fixtures. The season ends
/// `2 * (n - 1)` weeks after its start. A request that is turned down
/// leaves the standings untouched.
pub fn create_league_season(
    ledger: &mut StandingsLedger,
    league_id: u128,
    season_id: u128,
    body: &CreateSeasonRequest,
    team_ids: &Vec<u128>,
    now: i64,
) -> (outcome: Result<SeasonCreated, AdminError>)
    requires
        season_error(body.start_date as int, now as int, team_ids@.len() as int).is_none() ==> {
            &&& fixture_count(team_ids@.len() as int) <= i64::MAX
            &&& season_end(body.start_date as int, team_ids@.len() as int) <= i64::MAX
        },
    ensures
        match outcome {
            Ok(created) => {
                let n = team_ids@.len() as int;
                &&& season_error(body.start_date as int, now as int, n).is_none()
                &&& created.season.id == season_id
                &&& created.season.league_id == league_id
                &&& created.season.name == body.name
                &&& created.season.start_date == body.start_date
                &&& created.season.end_date == season_end(body.start_date as int, n)
                &&& created.season.total_teams == n
                &&& created.season.games_count == fixture_count(n)
                &&& created.season.created_at == now
                &&& is_schedule(created.fixtures@, season_id, team_ids@, body.start_date as int)
                &&& final(ledger)@.len() == old(ledger)@.len() + n
                &&& final(ledger)@.subrange(0, old(ledger)@.len() as int) == old(ledger)@
                &&& forall|k: int|
                    0 <= k < n ==> {
                        let row = #[trigger] final(ledger)@[old(ledger)@.len() + k];
                        &&& row.is_for(season_id, team_ids@[k])
                        &&& row@ == Tally::zero()
                        &&& row.position == 1
                    }
            },
            Err(e) => {
                &&& season_error(body.start_date as int, now as int, team_ids@.len() as int)
                    == Some(e)
                &&& final(ledger)@ == old(ledger)@
            },
        },
{
    let n: usize = team_ids.len();
    match check_season(body.start_date, now, n < 2, n % 2 != 0) {
        Some(e) => {
            return Err(e);
        },
        None => {},
    }
    proof {
        let count = n as int;
        assert(count * (count - 1) >= count) by (nonlinear_arith)
            requires
                count >= 2,
        ;
    }
    let team_count: i64 = n as i64;
    let total_weeks: i128 = 2 * (team_count as i128 - 1);
    let end_date: i128 = body.start_date as i128 + total_weeks * 604_800;
    ledger.seed(season_id, team_ids);
    let fixtures: Vec<Fixture> = match generate_schedule(season_id, team_ids, body.start_date) {
        Ok(fixtures) => fixtures,
        Err(_) => Vec::new(),
    };
    let games_count: i64 = fixtures.len() as i64;
    Ok(
        SeasonCreated {
            season: AdminSeasonResponse {
                id: season_id,
                league_id,
                name: body.name.clone(),
                start_date: body.start_date,
                end_date: end_date as i64,
                total_teams: team_count,
                games_count,
                created_at: now,
            },
            fixtures,
        },
    )
}

/// A season among an even number of teams spans twice as many weeks as
/// each team has opponents, and holds one game per ordered pair of teams.
pub proof fn lemma_season_span(start_date: int, team_count: int)
    requires
        valid_team_count(team_count),
    ensures
        season_end(start_date, team_count) == start_date + 2 * (team_count - 1) * 604_800,
        fixture_count(team_count) == team_count * (team_count - 1),
{
    crate::round_robin::lemma_fixture_count(team_count);
}

} // verus!
