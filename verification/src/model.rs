//! Plain data shared by the components of the league.

use vstd::prelude::*;

verus! {

/// How one side came out of a game.
#[derive(Clone, Copy, Debug, PartialEq, Eq, Structural)]
pub enum MatchResult {
    Win,
    Draw,
    Loss,
}

impl MatchResult {
    /// The result of the opponent in the same game.
    pub open spec fn mirrored(self) -> MatchResult {
        match self {
            MatchResult::Win => MatchResult::Loss,
            MatchResult::Draw => MatchResult::Draw,
            MatchResult::Loss => MatchResult::Win,
        }
    }

    /// League points earned by this result.
    pub open spec fn points(self) -> int {
        match self {
            MatchResult::Win => 3,
            MatchResult::Draw => 1,
            MatchResult::Loss => 0,
        }
    }

    /// The result seen from the other side of the pitch.
    pub fn opposite(self) -> (r: MatchResult)
        ensures
            r == self.mirrored(),
    {
        match self {
            MatchResult::Win => MatchResult::Loss,
            MatchResult::Draw => MatchResult::Draw,
            MatchResult::Loss => MatchResult::Win,
        }
    }

    /// The lower-case name under which the result is stored and shown.
    pub fn label(self) -> (s: &'static str)
        ensures
            s@ == match self {
                MatchResult::Win => "win"@,
                MatchResult::Draw => "draw"@,
                MatchResult::Loss => "loss"@,
            },
    {
        match self {
            MatchResult::Win => "win",
            MatchResult::Draw => "draw",
            MatchResult::Loss => "loss",
        }
    }
}

/// Life cycle of a fixture: `Scheduled`, then `InProgress` from kickoff,
/// then `Finished` once its result is written.
#[derive(Clone, Copy, Debug, PartialEq, Eq, Structural)]
pub enum GameStatus {
    Scheduled,
    InProgress,
    Finished,
}

/// One match between two teams within a season.
#[derive(Clone, Copy, Debug, PartialEq, Eq)]
pub struct Fixture {
    pub id: u128,
    pub season_id: u128,
    pub home_team_id: u128,
    pub away_team_id: u128,
    /// Kickoff, in seconds since the Unix epoch.
    pub scheduled_time: i64,
    pub status: GameStatus,
    /// Final scores and winner; `None` until the fixture is finished, and
    /// the winner stays `None` after a draw.
    pub home_score: Option<u32>,
    pub away_score: Option<u32>,
    pub winner_team_id: Option<u128>,
}

impl Fixture {
    /// The result fields fit the status: a fixture that is not finished
    /// has no result yet, and a finished one has both scores, with a
    /// winner unless the scores are level.
    pub open spec fn well_formed(self) -> bool {
        if self.status == GameStatus::Finished {
            &&& self.home_score.is_some()
            &&& self.away_score.is_some()
            &&& self.winner_team_id.is_none() <==> self.home_score == self.away_score
        } else {
            &&& self.home_score.is_none()
            &&& self.away_score.is_none()
            &&& self.winner_team_id.is_none()
        }
    }
}

} // verus!
