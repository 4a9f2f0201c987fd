//! The live game service: turns the stat gains of single users into score
//! and power of the side they play for, while a game is in progress.

use vstd::prelude::*;
use vstd::seq_lib::lemma_fold_left_permutation;
use crate::model::{Fixture, GameStatus};

verus! {

/// The stat gains credited to a user for one activity.
#[derive(Clone, Copy, Debug, PartialEq, Eq)]
pub struct StatChanges {
    pub stamina_change: i32,
    pub strength_change: i32,
}

/// How stat gains count towards score and power: so many points per point
/// of stamina and per point of strength. A matter of game balance.
#[derive(Clone, Copy, Debug, PartialEq, Eq)]
pub struct ScoringPolicy {
    pub score_per_stamina: u32,
    pub score_per_strength: u32,
    pub power_per_stamina: u32,
    pub power_per_strength: u32,
}

/// A user's place in a team.
#[derive(Clone, Copy, Debug, PartialEq, Eq)]
pub struct Membership {
    pub user_id: u128,
    pub team_id: u128,
    pub active: bool,
}

/// The side a user has played for in a live game. Once recorded it stays,
/// whatever becomes of the user's memberships.
#[derive(Clone, Copy, Debug, PartialEq, Eq)]
pub struct PlayerContribution {
    pub user_id: u128,
    pub team_id: u128,
}

/// A game with its running score and power.
#[derive(Clone, Debug, PartialEq, Eq)]
pub struct LiveGame {
    pub id: u128,
    pub game_id: u128,
    pub home_team_id: u128,
    pub away_team_id: u128,
    pub home_team_name: String,
    pub away_team_name: String,
    pub home_score: u64,
    pub away_score: u64,
    pub home_power: u64,
    pub away_power: u64,
    pub status: GameStatus,
    pub contributions: Vec<PlayerContribution>,
}

/// One user's contribution to one live game.
#[derive(Clone, Debug, PartialEq, Eq)]
pub struct LiveGameScoreUpdate {
    pub user_id: u128,
    pub username: String,
    pub team_id: u128,
    pub score_increase: u64,
    pub power_increase: u64,
    pub stamina_gained: i32,
    pub strength_gained: i32,
    pub description: String,
}

/// Why a contribution was not counted.
#[derive(Clone, Copy, Debug, PartialEq, Eq, Structural)]
pub enum LiveError {
    /// The game is not in progress.
    NotInProgress,
    /// The user plays for neither side of the game.
    NotParticipant,
    /// A running total would run over.
    CounterFull,
}

/// The running totals of a live game as mathematical integers.
pub struct Scoreboard {
    pub home_score: int,
    pub away_score: int,
    pub home_power: int,
    pub away_power: int,
}

/// An increment for one side of a game.
pub struct Credit {
    pub home_side: bool,
    pub score: int,
    pub power: int,
}

/// The part of a stat change that counts: losses count as nothing.
pub open spec fn gain(change: int) -> int {
    if change > 0 {
        change
    } else {
        0
    }
}

/// The increment earned by the given stat changes at the given rates.
pub open spec fn weighted_gain(stamina: int, strength: int, per_stamina: int, per_strength: int)
    -> int {
    gain(stamina) * per_stamina + gain(strength) * per_strength
}

/// The scoreboard with one credit added to its side.
pub open spec fn credit(board: Scoreboard, c: Credit) -> Scoreboard {
    if c.home_side {
        Scoreboard {
            home_score: board.home_score + c.score,
            away_score: board.away_score,
            home_power: board.home_power + c.power,
            away_power: board.away_power,
        }
    } else {
        Scoreboard {
            home_score: board.home_score,
            away_score: board.away_score + c.score,
            home_power: board.home_power,
            away_power: board.away_power + c.power,
        }
    }
}

/// The scoreboard after a sequence of credits, added first to last.
pub open spec fn credit_all(board: Scoreboard, credits: Seq<Credit>) -> Scoreboard {
    credits.fold_left(board, |b: Scoreboard, c: Credit| credit(b, c))
}

/// Sum of the score credited to one side.
pub open spec fn score_sum(credits: Seq<Credit>, home_side: bool) -> int
    decreases credits.len(),
{
    if credits.len() == 0 {
        0
    } else {
        score_sum(credits.drop_last(), home_side) + if credits.last().home_side == home_side {
            credits.last().score
        } else {
            0
        }
    }
}

/// Sum of the power credited to one side.
pub open spec fn power_sum(credits: Seq<Credit>, home_side: bool) -> int
    decreases credits.len(),
{
    if credits.len() == 0 {
        0
    } else {
        power_sum(credits.drop_last(), home_side) + if credits.last().home_side == home_side {
            credits.last().power
        } else {
            0
        }
    }
}

/// Index of the first contribution of `user_id` at or after `from`, or
/// `records.len()` if there is none.
pub open spec fn contribution_index_from(records: Seq<PlayerContribution>, user_id: u128, from: int)
    -> int
    decreases records.len() - from,
{
    if from < 0 || from >= records.len() {
        records.len() as int
    } else if records[from].user_id == user_id {
        from
    } else {
        contribution_index_from(records, user_id, from + 1)
    }
}

/// The membership makes `user_id` an active player of one of the two teams.
pub open spec fn plays_for(m: Membership, user_id: u128, home_team_id: u128, away_team_id: u128)
    -> bool {
    m.user_id == user_id && m.active && (m.team_id == home_team_id || m.team_id == away_team_id)
}

/// Index of the first membership at or after `from` that makes `user_id`
/// an active player of one of the two teams, or `memberships.len()`.
pub open spec fn membership_index_from(
    memberships: Seq<Membership>,
    user_id: u128,
    home_team_id: u128,
    away_team_id: u128,
    from: int,
) -> int
    decreases memberships.len() - from,
{
    if from < 0 || from >= memberships.len() {
        memberships.len() as int
    } else if plays_for(memberships[from], user_id, home_team_id, away_team_id) {
        from
    } else {
        membership_index_from(memberships, user_id, home_team_id, away_team_id, from + 1)
    }
}

impl View for LiveGame {
    type V = Scoreboard;

    open spec fn view(&self) -> Scoreboard {
        Scoreboard {
            home_score: self.home_score as int,
            away_score: self.away_score as int,
            home_power: self.home_power as int,
            away_power: self.away_power as int,
        }
    }
}

impl LiveGame {
    /// The live game of a fixture that kicks off: in progress, nothing
    /// scored and nobody on the sheet yet.
    pub fn kick_off(
        id: u128,
        fixture: &Fixture,
        home_team_name: String,
        away_team_name: String,
    ) -> (game: LiveGame)
        ensures
            game.id == id,
            game.game_id == fixture.id,
            game.home_team_id == fixture.home_team_id,
            game.away_team_id == fixture.away_team_id,
            game.home_team_name == home_team_name,
            game.away_team_name == away_team_name,
            game.home_score == 0,
            game.away_score == 0,
            game.home_power == 0,
            game.away_power == 0,
            game.status == GameStatus::InProgress,
            game.contributions@ == Seq::<PlayerContribution>::empty(),
    {
        LiveGame {
            id,
            game_id: fixture.id,
            home_team_id: fixture.home_team_id,
            away_team_id: fixture.away_team_id,
            home_team_name,
            away_team_name,
            home_score: 0,
            away_score: 0,
            home_power: 0,
            away_power: 0,
            status: GameStatus::InProgress,
            contributions: Vec::new(),
        }
    }

    /// The user is an active member of the home or the away team.
    pub open spec fn has_player(self, user_id: u128, memberships: Seq<Membership>) -> bool {
        membership_index_from(memberships, user_id, self.home_team_id, self.away_team_id, 0)
            < memberships.len()
    }

    /// The game is in progress and the user is on the roster of a side.
    pub open spec fn is_active_for(self, user_id: u128, memberships: Seq<Membership>) -> bool {
        self.status == GameStatus::InProgress && self.has_player(user_id, memberships)
    }

    /// The team a user plays for in this game: the team of the user's
    /// first contribution, else the team of the user's first active
    /// membership in one of the two teams.
    pub open spec fn side_of(self, user_id: u128, memberships: Seq<Membership>) -> Result<
        u128,
        LiveError,
    > {
        let c = contribution_index_from(self.contributions@, user_id, 0);
        let m = membership_index_from(
            memberships,
            user_id,
            self.home_team_id,
            self.away_team_id,
            0,
        );
        if c < self.contributions@.len() {
            Ok(self.contributions@[c].team_id)
        } else if m < memberships.len() {
            Ok(memberships[m].team_id)
        } else {
            Err(LiveError::NotParticipant)
        }
    }

    /// The error, if any, with which a contribution for `team_id` is
    /// turned down.
    pub open spec fn refusal(self, team_id: u128, score: u64, power: u64) -> Option<LiveError> {
        let board = credit(
            self@,
            Credit { home_side: team_id == self.home_team_id, score: score as int, power: power as int },
        );
        if self.status != GameStatus::InProgress {
            Some(LiveError::NotInProgress)
        } else if team_id != self.home_team_id && team_id != self.away_team_id {
            Some(LiveError::NotParticipant)
        } else if board.home_score > u64::MAX || board.away_score > u64::MAX || board.home_power
            > u64::MAX || board.away_power > u64::MAX {
            Some(LiveError::CounterFull)
        } else {
            None
        }
    }

    /// The contribution records after `user_id` has played for `team_id`:
    /// a first contribution is recorded, a later one changes nothing.
    pub open spec fn records_with(self, user_id: u128, team_id: u128) -> Seq<PlayerContribution> {
        if contribution_index_from(self.contributions@, user_id, 0) < self.contributions@.len() {
            self.contributions@
        } else {
            self.contributions@.push(PlayerContribution { user_id, team_id })
        }
    }

    /// `after` is this game with one contribution counted.
    pub open spec fn credited(self, after: LiveGame, user_id: u128, team_id: u128, score: u64, power: u64)
        -> bool {
        &&& after@ == credit(
            self@,
            Credit { home_side: team_id == self.home_team_id, score: score as int, power: power as int },
        )
        &&& after.contributions@ == self.records_with(user_id, team_id)
        &&& after.same_game(self)
    }

    /// The two values describe the same game: identifiers, teams, names
    /// and status agree.
    pub open spec fn same_game(self, other: LiveGame) -> bool {
        &&& self.id == other.id
        &&& self.game_id == other.game_id
        &&& self.home_team_id == other.home_team_id
        &&& self.away_team_id == other.away_team_id
        &&& self.home_team_name == other.home_team_name
        &&& self.away_team_name == other.away_team_name
        &&& self.status == other.status
    }
}

/// Finds the side a user has contributed to in a game, if any.
fn find_contribution(records: &Vec<PlayerContribution>, user_id: u128) -> (found: Option<usize>)
    ensures
        match found {
            Some(i) => i == contribution_index_from(records@, user_id, 0) && i < records@.len(),
            None => contribution_index_from(records@, user_id, 0) == records@.len(),
        },
{
    let n: usize = records.len();
    let mut i: usize = 0;
    while i < n
        invariant
            n == records@.len(),
            i <= n,
            contribution_index_from(records@, user_id, 0) == contribution_index_from(
                records@,
                user_id,
                i as int,
            ),
        decreases n - i,
    {
        if records[i].user_id == user_id {
            return Some(i);
        }
        i = i + 1;
    }
    None
}

/// Finds the active membership that puts a user on one of two teams.
fn find_membership(
    memberships: &Vec<Membership>,
    user_id: u128,
    home_team_id: u128,
    away_team_id: u128,
) -> (found: Option<usize>)
    ensures
        match found {
            Some(i) => i == membership_index_from(
                memberships@,
                user_id,
                home_team_id,
                away_team_id,
                0,
            ) && i < memberships@.len(),
            None => membership_index_from(memberships@, user_id, home_team_id, away_team_id, 0)
                == memberships@.len(),
        },
{
    let n: usize = memberships.len();
    let mut i: usize = 0;
    while i < n
        invariant
            n == memberships@.len(),
            i <= n,
            membership_index_from(memberships@, user_id, home_team_id, away_team_id, 0)
                == membership_index_from(
                memberships@,
                user_id,
                home_team_id,
                away_team_id,
                i as int,
            ),
        decreases n - i,
    {
        let m: Membership = memberships[i];
        if m.user_id == user_id && m.active && (m.team_id == home_team_id || m.team_id
            == away_team_id) {
            return Some(i);
        }
        i = i + 1;
    }
    None
}

/// Determines which team a user plays for in a live game. A user who has
/// contributed before stays with that side; otherwise the user's active
/// membership in one of the two teams decides; a user in neither team is
/// no participant.
pub fn get_user_team_id(user_id: u128, live_game: &LiveGame, memberships: &Vec<Membership>) -> (team:
    Result<u128, LiveError>)
    ensures
        team == live_game.side_of(user_id, memberships@),
{
    match find_contribution(&live_game.contributions, user_id) {
        Some(i) => Ok(live_game.contributions[i].team_id),
        None => match find_membership(
            memberships,
            user_id,
            live_game.home_team_id,
            live_game.away_team_id,
        ) {
            Some(i) => Ok(memberships[i].team_id),
            None => Err(LiveError::NotParticipant),
        },
    }
}

/// Computes `gain(stamina) * per_stamina + gain(strength) * per_strength`.
fn weigh(stamina: i32, strength: i32, per_stamina: u32, per_strength: u32) -> (total: u64)
    ensures
        total == weighted_gain(stamina as int, strength as int, per_stamina as int, per_strength as int),
{
    let a: u64 = if stamina > 0 {
        stamina as u64
    } else {
        0
    };
    let b: u64 = if strength > 0 {
        strength as u64
    } else {
        0
    };
    assert(a * per_stamina <= 0x7fff_ffff * 0xffff_ffff) by (nonlinear_arith)
        requires
            0 <= a <= 0x7fff_ffff,
            0 <= per_stamina <= 0xffff_ffff,
    ;
    assert(b * per_strength <= 0x7fff_ffff * 0xffff_ffff) by (nonlinear_arith)
        requires
            0 <= b <= 0x7fff_ffff,
            0 <= per_strength <= 0xffff_ffff,
    ;
    a * (per_stamina as u64) + b * (per_strength as u64)
}

/// The live game service, set up with the league's scoring policy.
#[derive(Clone, Copy, Debug, PartialEq, Eq)]
pub struct LiveGameService {
    pub policy: ScoringPolicy,
}

impl LiveGameService {
    /// A service that scores by `policy`.
    pub fn new(policy: ScoringPolicy) -> (service: LiveGameService)
        ensures
            service.policy == policy,
    {
        LiveGameService { policy }
    }

    /// The score earned by the given stat changes.
    pub open spec fn score_for(self, stamina: int, strength: int) -> int {
        weighted_gain(
            stamina,
            strength,
            self.policy.score_per_stamina as int,
            self.policy.score_per_strength as int,
        )
    }

    /// The power earned by the given stat changes.
    pub open spec fn power_for(self, stamina: int, strength: int) -> int {
        weighted_gain(
            stamina,
            strength,
            self.policy.power_per_stamina as int,
            self.policy.power_per_strength as int,
        )
    }

    /// Converts stat changes into a score increment.
    pub fn calculate_score_from_stats(&self, stamina_change: i32, strength_change: i32) -> (score:
        u64)
        ensures
            score == self.score_for(stamina_change as int, strength_change as int),
    {
        weigh(
            stamina_change,
            strength_change,
            self.policy.score_per_stamina,
            self.policy.score_per_strength,
        )
    }

    /// Converts stat changes into a power increment.
    pub fn calculate_power_from_stats(&self, stamina_change: i32, strength_change: i32) -> (power:
        u64)
        ensures
            power == self.power_for(stamina_change as int, strength_change as int),
    {
        weigh(
            stamina_change,
            strength_change,
            self.policy.power_per_stamina,
            self.policy.power_per_strength,
        )
    }

    /// Writes up what a user's stat changes are worth to the team the user
    /// plays for.
    pub fn score_update_for(
        &self,
        user_id: u128,
        username: &str,
        team_id: u128,
        stat_changes: &StatChanges,
    ) -> (update: LiveGameScoreUpdate)
        ensures
            update.user_id == user_id,
            update.username@ == username@,
            update.team_id == team_id,
            update.score_increase == self.score_for(
                stat_changes.stamina_change as int,
                stat_changes.strength_change as int,
            ),
            update.power_increase == self.power_for(
                stat_changes.stamina_change as int,
                stat_changes.strength_change as int,
            ),
            update.stamina_gained == stat_changes.stamina_change,
            update.strength_gained == stat_changes.strength_change,
            update.description@ == upload_description(
                stat_changes.stamina_change,
                stat_changes.strength_change,
            ),
    {
        LiveGameScoreUpdate {
            user_id,
            username: username.to_owned(),
            team_id,
            score_increase: self.calculate_score_from_stats(
                stat_changes.stamina_change,
                stat_changes.strength_change,
            ),
            power_increase: self.calculate_power_from_stats(
                stat_changes.stamina_change,
                stat_changes.strength_change,
            ),
            stamina_gained: stat_changes.stamina_change,
            strength_gained: stat_changes.strength_change,
            description: describe_upload(
                stat_changes.stamina_change,
                stat_changes.strength_change,
            ),
        }
    }

    /// The games in progress in which the user is on the roster of either
    /// side, as a flag per game.
    pub fn get_user_active_games(
        &self,
        user_id: u128,
        games: &Vec<LiveGame>,
        memberships: &Vec<Membership>,
    ) -> (active: Vec<bool>)
        ensures
            active@.len() == games@.len(),
            forall|i: int|
                0 <= i < games@.len() ==> #[trigger] active@[i] == games@[i].is_active_for(
                    user_id,
                    memberships@,
                ),
    {
        let n: usize = games.len();
        let mut active: Vec<bool> = Vec::new();
        let mut i: usize = 0;
        while i < n
            invariant
                n == games@.len(),
                i <= n,
                active@.len() == i,
                forall|j: int|
                    0 <= j < i ==> #[trigger] active@[j] == games@[j].is_active_for(
                        user_id,
                        memberships@,
                    ),
            decreases n - i,
        {
            let game = &games[i];
            let on_roster: bool = find_membership(
                memberships,
                user_id,
                game.home_team_id,
                game.away_team_id,
            ).is_some();
            active.push(game.status == GameStatus::InProgress && on_roster);
            i = i + 1;
        }
        active
    }

    /// Counts a user's stat changes in a live game: finds the side the user
    /// plays for, converts the stat changes into score and power, and adds
    /// them to that side. Returns the team credited. On an error the game
    /// is unchanged.
    pub fn apply_contribution(
        &self,
        game: &mut LiveGame,
        user_id: u128,
        username: &str,
        stat_changes: &StatChanges,
        memberships: &Vec<Membership>,
    ) -> (outcome: Result<u128, LiveError>)
        ensures
            ({
                let score = self.score_for(
                    stat_changes.stamina_change as int,
                    stat_changes.strength_change as int,
                ) as u64;
                let power = self.power_for(
                    stat_changes.stamina_change as int,
                    stat_changes.strength_change as int,
                ) as u64;
                &&& outcome == contribution_outcome(*old(game), user_id, memberships@, score, power)
                &&& match outcome {
                    Ok(team_id) => old(game).credited(*final(game), user_id, team_id, score, power),
                    Err(_) => *final(game) == *old(game),
                }
            }),
    {
        match get_user_team_id(user_id, game, memberships) {
            Err(e) => Err(e),
            Ok(team_id) => {
                let score_update = self.score_update_for(user_id, username, team_id, stat_changes);
                match self.handle_score_update(game, &score_update) {
                    Ok(()) => Ok(team_id),
                    Err(e) => Err(e),
                }
            },
        }
    }

    /// Adds a contribution to the running totals of its side and records
    /// which side the user plays for. On an error the game is unchanged.
    pub fn handle_score_update(&self, game: &mut LiveGame, update: &LiveGameScoreUpdate) -> (outcome:
        Result<(), LiveError>)
        ensures
            match outcome {
                Ok(()) => {
                    &&& old(game).refusal(
                        update.team_id,
                        update.score_increase,
                        update.power_increase,
                    ).is_none()
                    &&& old(game).credited(
                        *final(game),
                        update.user_id,
                        update.team_id,
                        update.score_increase,
                        update.power_increase,
                    )
                },
                Err(e) => {
                    &&& old(game).refusal(
                        update.team_id,
                        update.score_increase,
                        update.power_increase,
                    ) == Some(e)
                    &&& *final(game) == *old(game)
                },
            },
    {
        if game.status != GameStatus::InProgress {
            return Err(LiveError::NotInProgress);
        }
        let home_side: bool = update.team_id == game.home_team_id;
        if !home_side && update.team_id != game.away_team_id {
            return Err(LiveError::NotParticipant);
        }
        if home_side {
            if update.score_increase > u64::MAX - game.home_score || update.power_increase
                > u64::MAX - game.home_power {
                return Err(LiveError::CounterFull);
            }
            game.home_score = game.home_score + update.score_increase;
            game.home_power = game.home_power + update.power_increase;
        } else {
            if update.score_increase > u64::MAX - game.away_score || update.power_increase
                > u64::MAX - game.away_power {
                return Err(LiveError::CounterFull);
            }
            game.away_score = game.away_score + update.score_increase;
            game.away_power = game.away_power + update.power_increase;
        }
        if find_contribution(&game.contributions, update.user_id).is_none() {
            game.contributions.push(
                PlayerContribution { user_id: update.user_id, team_id: update.team_id },
            );
        }
        Ok(())
    }
}

/// The text `std`'s formatting machinery produces for the description of a
/// workout upload from the two stat gains.
pub uninterp spec fn upload_description(stamina: i32, strength: i32) -> Seq<char>;

/// Describes a workout upload in words, by `std`'s `format!`. Trusted: the
/// text depends on the two numbers alone.
#[verifier::external_body]
fn describe_upload(stamina: i32, strength: i32) -> (text: String)
    ensures
        text@ == upload_description(stamina, strength),
{
    format!("Workout upload: +{} stamina, +{} strength", stamina, strength)
}

/// The team credited when a user contributes to a live game, or the reason
/// why nothing is credited.
pub open spec fn contribution_outcome(
    game: LiveGame,
    user_id: u128,
    memberships: Seq<Membership>,
    score: u64,
    power: u64,
) -> Result<u128, LiveError> {
    match game.side_of(user_id, memberships) {
        Err(e) => Err(e),
        Ok(team_id) => match game.refusal(team_id, score, power) {
            Some(e) => Err(e),
            None => Ok(team_id),
        },
    }
}

/// What becomes of one live game when a user's stat changes arrive: `None`
/// if the game is not an active game of the user, else the team credited
/// or the reason why nothing was credited.
pub open spec fn update_outcome(
    game: LiveGame,
    user_id: u128,
    memberships: Seq<Membership>,
    score: u64,
    power: u64,
) -> Option<Result<u128, LiveError>> {
    if !game.is_active_for(user_id, memberships) {
        None
    } else {
        Some(contribution_outcome(game, user_id, memberships, score, power))
    }
}

/// Credits a user's stat changes to every live game the user is playing
/// in. For each game, in order, the result tells whether the game was one
/// of the user's active games and, if so, which team was credited or why
/// the contribution was skipped. A skipped game is left as it was.
pub fn check_and_update_live_games(
    user_id: u128,
    username: &str,
    stat_changes: &StatChanges,
    live_game_service: &LiveGameService,
    games: &mut Vec<LiveGame>,
    memberships: &Vec<Membership>,
) -> (outcomes: Vec<Option<Result<u128, LiveError>>>)
    ensures
        final(games)@.len() == old(games)@.len(),
        outcomes@.len() == old(games)@.len(),
        forall|i: int|
            0 <= i < old(games)@.len() ==> {
                let score = live_game_service.score_for(
                    stat_changes.stamina_change as int,
                    stat_changes.strength_change as int,
                ) as u64;
                let power = live_game_service.power_for(
                    stat_changes.stamina_change as int,
                    stat_changes.strength_change as int,
                ) as u64;
                &&& #[trigger] outcomes@[i] == update_outcome(
                    old(games)@[i],
                    user_id,
                    memberships@,
                    score,
                    power,
                )
                &&& match outcomes@[i] {
                    Some(Ok(team_id)) => old(games)@[i].credited(
                        final(games)@[i],
                        user_id,
                        team_id,
                        score,
                        power,
                    ),
                    _ => final(games)@[i] == old(games)@[i],
                }
            },
{
    let active: Vec<bool> = live_game_service.get_user_active_games(user_id, games, memberships);
    let score_increase: u64 = live_game_service.calculate_score_from_stats(
        stat_changes.stamina_change,
        stat_changes.strength_change,
    );
    let power_increase: u64 = live_game_service.calculate_power_from_stats(
        stat_changes.stamina_change,
        stat_changes.strength_change,
    );
    let n: usize = games.len();
    let mut outcomes: Vec<Option<Result<u128, LiveError>>> = Vec::new();
    let mut i: usize = 0;
    while i < n
        invariant
            n == old(games)@.len(),
            games@.len() == n,
            active@.len() == n,
            i <= n,
            outcomes@.len() == i,
            score_increase == live_game_service.score_for(
                stat_changes.stamina_change as int,
                stat_changes.strength_change as int,
            ),
            power_increase == live_game_service.power_for(
                stat_changes.stamina_change as int,
                stat_changes.strength_change as int,
            ),
            forall|j: int|
                0 <= j < n ==> #[trigger] active@[j] == old(games)@[j].is_active_for(
                    user_id,
                    memberships@,
                ),
            forall|j: int| i <= j < n ==> #[trigger] games@[j] == old(games)@[j],
            forall|j: int|
                0 <= j < i ==> {
                    &&& #[trigger] outcomes@[j] == update_outcome(
                        old(games)@[j],
                        user_id,
                        memberships@,
                        score_increase,
                        power_increase,
                    )
                    &&& match outcomes@[j] {
                        Some(Ok(team_id)) => old(games)@[j].credited(
                            games@[j],
                            user_id,
                            team_id,
                            score_increase,
                            power_increase,
                        ),
                        _ => games@[j] == old(games)@[j],
                    }
                },
        decreases n - i,
    {
        if !active[i] {
            outcomes.push(None);
        } else {
            let outcome = live_game_service.apply_contribution(
                &mut games[i],
                user_id,
                username,
                stat_changes,
                memberships,
            );
            outcomes.push(Some(outcome));
        }
        i = i + 1;
    }
    outcomes
}

/// Larger stat gains never earn less, and no gain earns a negative amount.
pub proof fn lemma_weighted_gain_monotonic(
    stamina: int,
    strength: int,
    more_stamina: int,
    more_strength: int,
    per_stamina: int,
    per_strength: int,
)
    requires
        stamina <= more_stamina,
        strength <= more_strength,
        0 <= per_stamina,
        0 <= per_strength,
    ensures
        0 <= weighted_gain(stamina, strength, per_stamina, per_strength),
        weighted_gain(stamina, strength, per_stamina, per_strength) <= weighted_gain(
            more_stamina,
            more_strength,
            per_stamina,
            per_strength,
        ),
{
    assert(0 <= gain(stamina) * per_stamina <= gain(more_stamina) * per_stamina)
        by (nonlinear_arith)
        requires
            0 <= gain(stamina) <= gain(more_stamina),
            0 <= per_stamina,
    ;
    assert(0 <= gain(strength) * per_strength <= gain(more_strength) * per_strength)
        by (nonlinear_arith)
        requires
            0 <= gain(strength) <= gain(more_strength),
            0 <= per_strength,
    ;
}

/// After any sequence of credits each running total is its starting value
/// plus the sum of what was credited to that side.
pub proof fn lemma_totals_are_sums(board: Scoreboard, credits: Seq<Credit>)
    ensures
        credit_all(board, credits).home_score == board.home_score + score_sum(credits, true),
        credit_all(board, credits).away_score == board.away_score + score_sum(credits, false),
        credit_all(board, credits).home_power == board.home_power + power_sum(credits, true),
        credit_all(board, credits).away_power == board.away_power + power_sum(credits, false),
    decreases credits.len(),
{
    if credits.len() > 0 {
        lemma_totals_are_sums(board, credits.drop_last());
    }
}

/// The order in which credits arrive does not matter: two sequences with
/// the same credits, in whatever order, lead to the same scoreboard.
pub proof fn lemma_credit_order_irrelevant(board: Scoreboard, first: Seq<Credit>, second: Seq<Credit>)
    requires
        first.to_multiset() == second.to_multiset(),
    ensures
        credit_all(board, first) == credit_all(board, second),
{
    let f = |b: Scoreboard, c: Credit| credit(b, c);
    assert forall|x: Credit, y: Credit, v: Scoreboard| #[trigger] f(f(v, x), y) == f(f(v, y), x) by {
    }
    lemma_fold_left_permutation(first, second, f, board);
}

} // verus!
