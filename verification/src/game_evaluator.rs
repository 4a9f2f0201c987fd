//! The power calculator and the game evaluator: a team's strength is the
//! average power of its active members, and the stronger team wins.

use vstd::prelude::*;
use crate::model::MatchResult;

verus! {

/// What the membership store reports for one team: the number of active
/// members and the sum of their stamina and strength. Either figure may be
/// missing, which counts as zero.
#[derive(Clone, Copy, Debug, PartialEq, Eq)]
pub struct TeamStatsRow {
    pub team_id: u128,
    pub member_count: Option<i64>,
    pub total_power: Option<i64>,
}

/// The strength of a team at the moment of evaluation.
#[derive(Clone, Copy, Debug, PartialEq, Eq)]
pub struct TeamPower {
    pub team_id: u128,
    pub total_power: u32,
    pub member_count: u32,
    pub average_power: u32,
}

/// The result of one game, derived from the power of the two sides.
#[derive(Clone, Copy, Debug, PartialEq, Eq)]
pub struct GameOutcome {
    pub game_id: u128,
    pub home_score: u32,
    pub away_score: u32,
    pub home_result: MatchResult,
    pub away_result: MatchResult,
    pub winner_team_id: Option<u128>,
}

/// The result of one game together with the names under which it is shown.
#[derive(Clone, Debug, PartialEq, Eq)]
pub struct GameStats {
    pub game_id: u128,
    pub home_team_name: String,
    pub away_team_name: String,
    pub home_team_score: u32,
    pub away_team_score: u32,
    pub home_team_result: MatchResult,
    pub away_team_result: MatchResult,
    pub winner_team_id: Option<u128>,
    /// Same as `home_team_score`.
    pub home_score: u32,
    /// Same as `away_team_score`.
    pub away_score: u32,
}

/// One member of a team with the two stats that make up power.
#[derive(Clone, Copy, Debug, PartialEq, Eq)]
pub struct MemberStats {
    pub user_id: u128,
    pub team_id: u128,
    pub active: bool,
    pub stamina: i32,
    pub strength: i32,
}

/// The figures of a team could not be read.
#[derive(Clone, Copy, Debug, PartialEq, Eq, Structural)]
pub struct StatsUnavailable;

/// The member counts for team `team_id`: an active member of that team.
pub open spec fn counts_for(member: MemberStats, team_id: u128) -> bool {
    member.active && member.team_id == team_id
}

/// Number of active members of `team_id` among the first `k` members.
pub open spec fn active_members(members: Seq<MemberStats>, team_id: u128, k: int) -> int
    decreases k,
{
    if k <= 0 {
        0
    } else {
        active_members(members, team_id, k - 1) + if counts_for(members[k - 1], team_id) {
            1int
        } else {
            0int
        }
    }
}

/// Sum of stamina and strength over the active members of `team_id` among
/// the first `k` members.
pub open spec fn summed_power(members: Seq<MemberStats>, team_id: u128, k: int) -> int
    decreases k,
{
    if k <= 0 {
        0
    } else {
        summed_power(members, team_id, k - 1) + if counts_for(members[k - 1], team_id) {
            members[k - 1].stamina + members[k - 1].strength
        } else {
            0
        }
    }
}

/// What the membership table reports for `team_id`: nothing for a team
/// without active members, else the number of its active members and
/// their summed power; a failure where a figure cannot be stored.
pub open spec fn team_stats_of(members: Seq<MemberStats>, team_id: u128) -> Result<
    Option<TeamStatsRow>,
    StatsUnavailable,
> {
    let count = active_members(members, team_id, members.len() as int);
    let total = summed_power(members, team_id, members.len() as int);
    if count == 0 {
        Ok(None)
    } else if count > i64::MAX || total > i64::MAX || total < i64::MIN {
        Err(StatsUnavailable)
    } else {
        Ok(Some(TeamStatsRow { team_id, member_count: Some(count as i64), total_power: Some(total as i64) }))
    }
}

/// The power of `team_id` as the membership table has it.
pub open spec fn power_from_members(members: Seq<MemberStats>, team_id: u128) -> Result<
    TeamPower,
    StatsUnavailable,
> {
    match team_stats_of(members, team_id) {
        Ok(row) => Ok(team_power(team_id, row)),
        Err(e) => Err(e),
    }
}

/// A stored figure as the 32-bit counter the league works with: a missing
/// figure is zero, and only the low 32 bits of a stored one are kept.
pub open spec fn stored_figure(value: Option<i64>) -> u32 {
    match value {
        Some(v) => v as u32,
        None => 0u32,
    }
}

/// Average power: the total divided by the member count, rounded down, and
/// zero for a team without members.
pub open spec fn average_power(total_power: u32, member_count: u32) -> u32 {
    if member_count > 0 {
        total_power / member_count
    } else {
        0u32
    }
}

/// The power of `team_id` given what the membership store reports for it;
/// a team the store has no line for has no members and no power.
pub open spec fn team_power(team_id: u128, row: Option<TeamStatsRow>) -> TeamPower {
    match row {
        Some(stats) => {
            let total = stored_figure(stats.total_power);
            let count = stored_figure(stats.member_count);
            TeamPower {
                team_id: stats.team_id,
                total_power: total,
                member_count: count,
                average_power: average_power(total, count),
            }
        },
        None => TeamPower { team_id, total_power: 0, member_count: 0, average_power: 0 },
    }
}

/// The result of the home side when `home` plays `away`.
pub open spec fn home_result(home: TeamPower, away: TeamPower) -> MatchResult {
    if home.average_power > away.average_power {
        MatchResult::Win
    } else if home.average_power < away.average_power {
        MatchResult::Loss
    } else {
        MatchResult::Draw
    }
}

/// The winner when `home` plays `away`, if the game is not drawn.
pub open spec fn winner(home: TeamPower, away: TeamPower) -> Option<u128> {
    if home.average_power > away.average_power {
        Some(home.team_id)
    } else if home.average_power < away.average_power {
        Some(away.team_id)
    } else {
        None
    }
}

/// The outcome of game `game_id` when `home` plays `away`: each side
/// scores its average power and the strictly higher score wins.
pub open spec fn outcome_of(game_id: u128, home: TeamPower, away: TeamPower) -> GameOutcome {
    GameOutcome {
        game_id,
        home_score: home.average_power,
        away_score: away.average_power,
        home_result: home_result(home, away),
        away_result: home_result(home, away).mirrored(),
        winner_team_id: winner(home, away),
    }
}

impl GameOutcome {
    /// Decides a game between two teams of known power.
    pub fn decide(game_id: u128, home: &TeamPower, away: &TeamPower) -> (outcome: GameOutcome)
        ensures
            outcome == outcome_of(game_id, *home, *away),
    {
        let home_score: u32 = home.average_power;
        let away_score: u32 = away.average_power;
        if home_score > away_score {
            GameOutcome {
                game_id,
                home_score,
                away_score,
                home_result: MatchResult::Win,
                away_result: MatchResult::Loss,
                winner_team_id: Some(home.team_id),
            }
        } else if home_score < away_score {
            GameOutcome {
                game_id,
                home_score,
                away_score,
                home_result: MatchResult::Loss,
                away_result: MatchResult::Win,
                winner_team_id: Some(away.team_id),
            }
        } else {
            GameOutcome {
                game_id,
                home_score,
                away_score,
                home_result: MatchResult::Draw,
                away_result: MatchResult::Draw,
                winner_team_id: None,
            }
        }
    }
}

impl GameStats {
    /// The result proper, without the names.
    pub open spec fn outcome_view(self) -> GameOutcome {
        GameOutcome {
            game_id: self.game_id,
            home_score: self.home_team_score,
            away_score: self.away_team_score,
            home_result: self.home_team_result,
            away_result: self.away_team_result,
            winner_team_id: self.winner_team_id,
        }
    }

    /// The short score fields repeat the long ones.
    pub open spec fn aliases_agree(self) -> bool {
        self.home_score == self.home_team_score && self.away_score == self.away_team_score
    }

    /// The result proper, without the names.
    pub fn outcome(&self) -> (outcome: GameOutcome)
        ensures
            outcome == self.outcome_view(),
    {
        GameOutcome {
            game_id: self.game_id,
            home_score: self.home_team_score,
            away_score: self.away_team_score,
            home_result: self.home_team_result,
            away_result: self.away_team_result,
            winner_team_id: self.winner_team_id,
        }
    }
}

/// A game that is due, with what was read for it: the names of the two
/// teams and the membership figures of each.
#[derive(Clone, Debug, PartialEq, Eq)]
pub struct PendingGame {
    pub game_id: u128,
    pub home_team_id: u128,
    pub away_team_id: u128,
    pub scheduled_time: i64,
    pub home_team_name: String,
    pub away_team_name: String,
    pub home_stats: Option<TeamStatsRow>,
    pub away_stats: Option<TeamStatsRow>,
}

impl PendingGame {
    /// The outcome the evaluator owes for this game, under `game_id`.
    pub open spec fn expected_outcome(self, game_id: u128) -> GameOutcome {
        outcome_of(
            game_id,
            team_power(self.home_team_id, self.home_stats),
            team_power(self.away_team_id, self.away_stats),
        )
    }
}

/// The evaluator of single games and of batches of due games.
pub struct GameEvaluator;

impl GameEvaluator {
    /// Reads the figures of a team off the membership table: how many
    /// active members it has and what their stamina and strength add up to.
    pub fn read_team_stats(members: &Vec<MemberStats>, team_id: u128) -> (stats: Result<
        Option<TeamStatsRow>,
        StatsUnavailable,
    >)
        ensures
            stats == team_stats_of(members@, team_id),
    {
        let n: usize = members.len();
        let mut count: u64 = 0;
        let mut total: i128 = 0;
        let mut i: usize = 0;
        while i < n
            invariant
                n == members@.len(),
                i <= n,
                count == active_members(members@, team_id, i as int),
                total == summed_power(members@, team_id, i as int),
                count <= i,
                -(i as int) * 0x1_0000_0000 <= total <= (i as int) * 0x1_0000_0000,
            decreases n - i,
        {
            let member: MemberStats = members[i];
            proof {
                assert((i + 1) * 0x1_0000_0000 == i * 0x1_0000_0000 + 0x1_0000_0000)
                    by (nonlinear_arith);
                assert(i * 0x1_0000_0000 <= 0xffff_ffff_ffff_ffff * 0x1_0000_0000)
                    by (nonlinear_arith)
                    requires
                        i <= 0xffff_ffff_ffff_ffff,
                ;
            }
            if member.active && member.team_id == team_id {
                count = count + 1;
                total = total + (member.stamina as i128 + member.strength as i128);
            }
            i = i + 1;
        }
        if count == 0 {
            Ok(None)
        } else if count > i64::MAX as u64 || total > i64::MAX as i128 || total < i64::MIN as i128 {
            Err(StatsUnavailable)
        } else {
            Ok(
                Some(
                    TeamStatsRow {
                        team_id,
                        member_count: Some(count as i64),
                        total_power: Some(total as i64),
                    },
                ),
            )
        }
    }

    /// Computes the power of a team from the membership table.
    pub fn team_power_from_members(members: &Vec<MemberStats>, team_id: u128) -> (power: Result<
        TeamPower,
        StatsUnavailable,
    >)
        ensures
            power == power_from_members(members@, team_id),
    {
        match Self::read_team_stats(members, team_id) {
            Ok(row) => Ok(Self::calc_team_power(team_id, row)),
            Err(e) => Err(e),
        }
    }

    /// Derives the power of a team from what the membership store reports.
    pub fn calc_team_power(team_id: u128, row: Option<TeamStatsRow>) -> (power: TeamPower)
        ensures
            power == team_power(team_id, row),
            power.average_power == average_power(power.total_power, power.member_count),
    {
        match row {
            Some(stats) => {
                let total_power: u32 = match stats.total_power {
                    Some(v) => #[verifier::truncate]
                    (v as u32),
                    None => 0,
                };
                let member_count: u32 = match stats.member_count {
                    Some(v) => #[verifier::truncate]
                    (v as u32),
                    None => 0,
                };
                let average: u32 = if member_count > 0 {
                    total_power / member_count
                } else {
                    0
                };
                TeamPower {
                    team_id: stats.team_id,
                    member_count,
                    total_power,
                    average_power: average,
                }
            },
            None => TeamPower { team_id, member_count: 0, total_power: 0, average_power: 0 },
        }
    }

    /// Decides a game between two teams of known power. The identifier is
    /// left at zero and the names empty, for the caller to fill in.
    pub fn calc_game_outcome(home_team_power: &TeamPower, away_team_power: &TeamPower) -> (stats:
        GameStats)
        ensures
            stats.outcome_view() == outcome_of(0, *home_team_power, *away_team_power),
            stats.aliases_agree(),
            stats.home_team_name@ == Seq::<char>::empty(),
            stats.away_team_name@ == Seq::<char>::empty(),
    {
        let outcome = GameOutcome::decide(0, home_team_power, away_team_power);
        GameStats {
            game_id: outcome.game_id,
            home_team_name: String::new(),
            away_team_name: String::new(),
            home_team_score: outcome.home_score,
            away_team_score: outcome.away_score,
            home_team_result: outcome.home_result,
            away_team_result: outcome.away_result,
            winner_team_id: outcome.winner_team_id,
            home_score: outcome.home_score,
            away_score: outcome.away_score,
        }
    }

    /// Evaluates one game from the membership figures of the two teams.
    pub fn evaluate_game(
        home_team_id: u128,
        home_stats: Option<TeamStatsRow>,
        away_team_id: u128,
        away_stats: Option<TeamStatsRow>,
    ) -> (stats: GameStats)
        ensures
            stats.outcome_view() == outcome_of(
                0,
                team_power(home_team_id, home_stats),
                team_power(away_team_id, away_stats),
            ),
            stats.aliases_agree(),
            stats.home_team_name@ == Seq::<char>::empty(),
            stats.away_team_name@ == Seq::<char>::empty(),
    {
        let home_team_power = Self::calc_team_power(home_team_id, home_stats);
        let away_team_power = Self::calc_team_power(away_team_id, away_stats);
        Self::calc_game_outcome(&home_team_power, &away_team_power)
    }

    /// Evaluates the games that are due today, in the order given. Each
    /// result is paired with the identifier of its game; the result itself
    /// carries no identifier and no names.
    pub fn evaluate_todays_games(pending_games: &Vec<PendingGame>) -> (results: Vec<
        (u128, GameStats),
    >)
        ensures
            results@.len() == pending_games@.len(),
            forall|i: int|
                0 <= i < results@.len() ==> {
                    let entry = #[trigger] results@[i];
                    &&& entry.0 == pending_games@[i].game_id
                    &&& entry.1.outcome_view() == pending_games@[i].expected_outcome(0)
                    &&& entry.1.aliases_agree()
                    &&& entry.1.home_team_name@ == Seq::<char>::empty()
                    &&& entry.1.away_team_name@ == Seq::<char>::empty()
                },
    {
        let n: usize = pending_games.len();
        let mut results: Vec<(u128, GameStats)> = Vec::new();
        let mut i: usize = 0;
        while i < n
            invariant
                n == pending_games@.len(),
                i <= n,
                results@.len() == i,
                forall|j: int|
                    0 <= j < i ==> {
                        let entry = #[trigger] results@[j];
                        &&& entry.0 == pending_games@[j].game_id
                        &&& entry.1.outcome_view() == pending_games@[j].expected_outcome(0)
                        &&& entry.1.aliases_agree()
                        &&& entry.1.home_team_name@ == Seq::<char>::empty()
                        &&& entry.1.away_team_name@ == Seq::<char>::empty()
                    },
            decreases n - i,
        {
            let game = &pending_games[i];
            let stats = Self::evaluate_game(
                game.home_team_id,
                game.home_stats,
                game.away_team_id,
                game.away_stats,
            );
            results.push((game.game_id, stats));
            i = i + 1;
        }
        results
    }

    /// Evaluates the games that are due on one date, in the order given.
    /// Each result carries the identifier of its game and the names of the
    /// two teams.
    pub fn evaluate_games_for_date(pending_games: &Vec<PendingGame>) -> (results: Vec<GameStats>)
        ensures
            results@.len() == pending_games@.len(),
            forall|i: int|
                0 <= i < results@.len() ==> {
                    let stats = #[trigger] results@[i];
                    let game = pending_games@[i];
                    &&& stats.outcome_view() == game.expected_outcome(game.game_id)
                    &&& stats.aliases_agree()
                    &&& stats.home_team_name@ == game.home_team_name@
                    &&& stats.away_team_name@ == game.away_team_name@
                },
    {
        let n: usize = pending_games.len();
        let mut results: Vec<GameStats> = Vec::new();
        let mut i: usize = 0;
        while i < n
            invariant
                n == pending_games@.len(),
                i <= n,
                results@.len() == i,
                forall|j: int|
                    0 <= j < i ==> {
                        let stats = #[trigger] results@[j];
                        let game = pending_games@[j];
                        &&& stats.outcome_view() == game.expected_outcome(game.game_id)
                        &&& stats.aliases_agree()
                        &&& stats.home_team_name@ == game.home_team_name@
                        &&& stats.away_team_name@ == game.away_team_name@
                    },
            decreases n - i,
        {
            let game = &pending_games[i];
            let mut stats = Self::evaluate_game(
                game.home_team_id,
                game.home_stats,
                game.away_team_id,
                game.away_stats,
            );
            stats.game_id = game.game_id;
            stats.home_team_name = game.home_team_name.clone();
            stats.away_team_name = game.away_team_name.clone();
            results.push(stats);
            i = i + 1;
        }
        results
    }
}

/// Evaluating a game from the other side gives the mirror image: the
/// scores change places, a win becomes a loss and a loss a win, a draw
/// stays a draw, and the winner is the same team either way.
pub proof fn lemma_outcome_mirrored(game_id: u128, a: TeamPower, b: TeamPower)
    ensures
        outcome_of(game_id, b, a).home_score == outcome_of(game_id, a, b).away_score,
        outcome_of(game_id, b, a).away_score == outcome_of(game_id, a, b).home_score,
        outcome_of(game_id, b, a).home_result == outcome_of(game_id, a, b).away_result,
        outcome_of(game_id, b, a).away_result == outcome_of(game_id, a, b).home_result,
        outcome_of(game_id, b, a).home_result == outcome_of(game_id, a, b).home_result.mirrored(),
        outcome_of(game_id, b, a).winner_team_id == outcome_of(game_id, a, b).winner_team_id,
        outcome_of(game_id, a, b).home_result == MatchResult::Draw <==> outcome_of(
            game_id,
            b,
            a,
        ).home_result == MatchResult::Draw,
{
}

/// An outcome has a winner exactly when the scores differ, and the winner
/// is the side with the higher score.
pub proof fn lemma_outcome_winner(game_id: u128, home: TeamPower, away: TeamPower)
    ensures
        ({
            let o = outcome_of(game_id, home, away);
            &&& o.winner_team_id.is_none() <==> o.home_score == o.away_score
            &&& o.home_score > o.away_score ==> o.home_result == MatchResult::Win
                && o.away_result == MatchResult::Loss && o.winner_team_id == Some(home.team_id)
            &&& o.home_score < o.away_score ==> o.home_result == MatchResult::Loss
                && o.away_result == MatchResult::Win && o.winner_team_id == Some(away.team_id)
            &&& o.home_score == o.away_score ==> o.home_result == MatchResult::Draw
                && o.away_result == MatchResult::Draw
        }),
{
}

} // verus!
