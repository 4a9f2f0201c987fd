//! The game evaluation service: evaluates every fixture that is due on a
//! day, writes the results onto the fixtures and into the standings, and
//! reports what it did. One fixture failing does not stop the others.

use vstd::prelude::*;
use crate::calendar::{day_number, falls_on};
use crate::game_evaluator::{
    outcome_of,
    power_from_members,
    GameEvaluator,
    GameOutcome,
    MemberStats,
    TeamPower,
};
use crate::model::{Fixture, GameStatus};
use crate::standings::{
    lemma_table_applied,
    table_accepts,
    table_applied,
    table_consistent,
    LedgerError,
    StandingsLedger,
    StandingsRow,
};

verus! {

/// Why a due fixture could not be evaluated.
#[derive(Clone, Copy, Debug, PartialEq, Eq, Structural)]
pub enum EvaluationFailure {
    /// The power of the two teams could not be read.
    PowerUnavailable,
    /// One of the teams has no standings row in the season.
    UnknownTeam,
    /// A standings counter of one of the teams would run over.
    CounterFull,
}

/// A failure, with the fixture it belongs to.
#[derive(Clone, Copy, Debug, PartialEq, Eq)]
pub struct EvaluationError {
    pub game_id: u128,
    pub reason: EvaluationFailure,
}

/// The power of the two sides of one fixture as read for an evaluation, or
/// `None` where the read failed.
#[derive(Clone, Copy, Debug, PartialEq, Eq)]
pub struct PowerReading {
    pub game_id: u128,
    pub powers: Option<(TeamPower, TeamPower)>,
}

/// What an evaluation run did.
#[derive(Clone, Debug, PartialEq, Eq)]
pub struct EvaluationSummary {
    /// Fixtures that were due, whether or not their evaluation succeeded.
    pub games_evaluated: usize,
    /// Fixtures whose result was written.
    pub games_updated: usize,
    /// One entry per fixture that failed, in fixture order.
    pub errors: Vec<EvaluationError>,
    /// The results written, in fixture order; each names its fixture.
    pub game_results: Vec<GameOutcome>,
}

/// How many fixtures of a day are still to be played and how many are done.
#[derive(Clone, Copy, Debug, PartialEq, Eq)]
pub struct GamesSummary {
    pub scheduled_games: usize,
    pub finished_games: usize,
}

/// The fixtures and standings of the league.
#[derive(Clone, Debug, PartialEq, Eq)]
pub struct League {
    pub fixtures: Vec<Fixture>,
    pub ledger: StandingsLedger,
}

/// The fixture is waiting to be evaluated on `day`.
pub open spec fn is_due(fixture: Fixture, day: int) -> bool {
    fixture.status == GameStatus::Scheduled && day_number(fixture.scheduled_time as int) == day
}

/// Index of the first reading at or after `from` for fixture `game_id`, or
/// `readings.len()` if there is none.
pub open spec fn reading_index_from(readings: Seq<PowerReading>, game_id: u128, from: int) -> int
    decreases readings.len() - from,
{
    if from < 0 || from >= readings.len() {
        readings.len() as int
    } else if readings[from].game_id == game_id {
        from
    } else {
        reading_index_from(readings, game_id, from + 1)
    }
}

/// What was read for fixture `game_id`: its first reading, or `None` if
/// there is no reading for it or the read failed.
pub open spec fn reading_for(readings: Seq<PowerReading>, game_id: u128) -> Option<
    (TeamPower, TeamPower),
> {
    let i = reading_index_from(readings, game_id, 0);
    if i < readings.len() {
        readings[i].powers
    } else {
        None
    }
}

/// The fixture once its result is written.
pub open spec fn finished(fixture: Fixture, outcome: GameOutcome) -> Fixture {
    Fixture {
        id: fixture.id,
        season_id: fixture.season_id,
        home_team_id: fixture.home_team_id,
        away_team_id: fixture.away_team_id,
        scheduled_time: fixture.scheduled_time,
        status: GameStatus::Finished,
        home_score: Some(outcome.home_score),
        away_score: Some(outcome.away_score),
        winner_team_id: outcome.winner_team_id,
    }
}

/// The standings after the home side's result is counted.
pub open spec fn rows_after_home(rows: Seq<StandingsRow>, fixture: Fixture, outcome: GameOutcome)
    -> Seq<StandingsRow> {
    table_applied(rows, fixture.season_id, fixture.home_team_id, outcome.home_result)
}

/// The standings after both sides' results are counted.
pub open spec fn rows_after_game(rows: Seq<StandingsRow>, fixture: Fixture, outcome: GameOutcome)
    -> Seq<StandingsRow> {
    table_applied(
        rows_after_home(rows, fixture, outcome),
        fixture.season_id,
        fixture.away_team_id,
        outcome.away_result,
    )
}

/// Why the standings cannot take the two results of a game, if they cannot.
pub open spec fn standings_failure(rows: Seq<StandingsRow>, fixture: Fixture, outcome: GameOutcome)
    -> Option<EvaluationFailure> {
    let season = fixture.season_id;
    if !table_accepts(rows, season, fixture.home_team_id, outcome.home_result) {
        Some(ledger_failure(rows, season, fixture.home_team_id))
    } else {
        let mid = rows_after_home(rows, fixture, outcome);
        if !table_accepts(mid, season, fixture.away_team_id, outcome.away_result) {
            Some(ledger_failure(mid, season, fixture.away_team_id))
        } else {
            None
        }
    }
}

/// The failure with which a table that does not accept a game turns it down.
pub open spec fn ledger_failure(rows: Seq<StandingsRow>, season_id: u128, team_id: u128)
    -> EvaluationFailure {
    if crate::standings::row_index(rows, season_id, team_id) < rows.len() {
        EvaluationFailure::CounterFull
    } else {
        EvaluationFailure::UnknownTeam
    }
}

/// The verdict on a due fixture: its outcome, or why there is none.
pub open spec fn verdict(
    fixture: Fixture,
    rows: Seq<StandingsRow>,
    reading: Option<(TeamPower, TeamPower)>,
) -> Result<GameOutcome, EvaluationFailure> {
    match reading {
        None => Err(EvaluationFailure::PowerUnavailable),
        Some((home, away)) => {
            let outcome = outcome_of(fixture.id, home, away);
            match standings_failure(rows, fixture, outcome) {
                Some(failure) => Err(failure),
                None => Ok(outcome),
            }
        },
    }
}

/// The league and the report at some point of an evaluation run.
pub struct Progress {
    pub fixtures: Seq<Fixture>,
    pub rows: Seq<StandingsRow>,
    pub evaluated: int,
    pub errors: Seq<EvaluationError>,
    pub results: Seq<GameOutcome>,
}

/// The run after it has dealt with fixture `i`.
pub open spec fn step(p: Progress, i: int, day: int, readings: Seq<PowerReading>) -> Progress {
    let fixture = p.fixtures[i];
    if !is_due(fixture, day) {
        p
    } else {
        match verdict(fixture, p.rows, reading_for(readings, fixture.id)) {
            Ok(outcome) => Progress {
                fixtures: p.fixtures.update(i, finished(fixture, outcome)),
                rows: rows_after_game(p.rows, fixture, outcome),
                evaluated: p.evaluated + 1,
                errors: p.errors,
                results: p.results.push(outcome),
            },
            Err(reason) => Progress {
                fixtures: p.fixtures,
                rows: p.rows,
                evaluated: p.evaluated + 1,
                errors: p.errors.push(EvaluationError { game_id: fixture.id, reason }),
                results: p.results,
            },
        }
    }
}

/// The run after it has dealt with the first `k` fixtures.
pub open spec fn progress_after(
    fixtures: Seq<Fixture>,
    rows: Seq<StandingsRow>,
    day: int,
    readings: Seq<PowerReading>,
    k: int,
) -> Progress
    decreases k,
{
    if k <= 0 {
        Progress {
            fixtures,
            rows,
            evaluated: 0,
            errors: Seq::empty(),
            results: Seq::empty(),
        }
    } else {
        step(progress_after(fixtures, rows, day, readings, k - 1), k - 1, day, readings)
    }
}

/// The whole run over a league.
pub open spec fn evaluation_of(
    fixtures: Seq<Fixture>,
    rows: Seq<StandingsRow>,
    day: int,
    readings: Seq<PowerReading>,
) -> Progress {
    progress_after(fixtures, rows, day, readings, fixtures.len() as int)
}

/// Number of fixtures among the first `k` that fall on `day` with `status`.
pub open spec fn count_on_day(fixtures: Seq<Fixture>, day: int, status: GameStatus, k: int) -> int
    decreases k,
{
    if k <= 0 {
        0
    } else {
        count_on_day(fixtures, day, status, k - 1) + if fixtures[k - 1].status == status
            && day_number(fixtures[k - 1].scheduled_time as int) == day {
            1int
        } else {
            0int
        }
    }
}

/// The power of the two sides of a fixture as the membership table has
/// it, or `None` where the figures of either side cannot be read.
pub open spec fn reading_from_members(fixture: Fixture, members: Seq<MemberStats>) -> PowerReading {
    PowerReading {
        game_id: fixture.id,
        powers: match (
            power_from_members(members, fixture.home_team_id),
            power_from_members(members, fixture.away_team_id),
        ) {
            (Ok(home), Ok(away)) => Some((home, away)),
            _ => None,
        },
    }
}

/// One reading per fixture, in fixture order, from the membership table.
pub open spec fn readings_from_members(fixtures: Seq<Fixture>, members: Seq<MemberStats>) -> Seq<
    PowerReading,
> {
    Seq::new(fixtures.len(), |i: int| reading_from_members(fixtures[i], members))
}

/// Finds what was read for a fixture.
pub fn find_reading(readings: &Vec<PowerReading>, game_id: u128) -> (reading: Option<
    (TeamPower, TeamPower),
>)
    ensures
        reading == reading_for(readings@, game_id),
{
    let n: usize = readings.len();
    let mut i: usize = 0;
    while i < n
        invariant
            n == readings@.len(),
            i <= n,
            reading_index_from(readings@, game_id, 0) == reading_index_from(
                readings@,
                game_id,
                i as int,
            ),
        decreases n - i,
    {
        if readings[i].game_id == game_id {
            return readings[i].powers;
        }
        i = i + 1;
    }
    None
}

impl League {
    /// The fixtures and standings as an evaluation run sees them.
    pub open spec fn progress(self, evaluated: int, errors: Seq<EvaluationError>, results: Seq<
        GameOutcome,
    >) -> Progress {
        Progress { fixtures: self.fixtures@, rows: self.ledger@, evaluated, errors, results }
    }

    /// Counts both results of a game in the standings, or neither.
    fn record_results(&mut self, fixture: Fixture, outcome: GameOutcome) -> (failure: Option<
        EvaluationFailure,
    >)
        ensures
            failure == standings_failure(old(self).ledger@, fixture, outcome),
            final(self).fixtures@ == old(self).fixtures@,
            failure.is_none() ==> final(self).ledger@ == rows_after_game(
                old(self).ledger@,
                fixture,
                outcome,
            ),
            failure.is_some() ==> final(self).ledger@ == old(self).ledger@,
    {
        let season: u128 = fixture.season_id;
        let home_row: Option<usize> = self.ledger.find(season, fixture.home_team_id);
        let saved: Option<StandingsRow> = match home_row {
            Some(i) => Some(self.ledger.rows[i]),
            None => None,
        };
        match self.ledger.apply(season, fixture.home_team_id, outcome.home_result) {
            Err(LedgerError::UnknownTeam) => {
                return Some(EvaluationFailure::UnknownTeam);
            },
            Err(LedgerError::CounterFull) => {
                return Some(EvaluationFailure::CounterFull);
            },
            Ok(()) => {},
        }
        match self.ledger.apply(season, fixture.away_team_id, outcome.away_result) {
            Ok(()) => None,
            Err(e) => {
                match (home_row, saved) {
                    (Some(i), Some(row)) => {
                        self.ledger.rows.set(i, row);
                    },
                    _ => {},
                }
                assert(self.ledger@ =~= old(self).ledger@);
                match e {
                    LedgerError::UnknownTeam => Some(EvaluationFailure::UnknownTeam),
                    LedgerError::CounterFull => Some(EvaluationFailure::CounterFull),
                }
            },
        }
    }

    /// Evaluates the fixture at `index` if it is due on `day`: decides the
    /// game from `reading`, writes the result onto the fixture, marks it
    /// finished and counts the result for both teams. On a failure nothing
    /// changes and the fixture stays scheduled. Returns `None` for a
    /// fixture that is not due.
    pub fn evaluate_fixture(
        &mut self,
        index: usize,
        day: i64,
        reading: Option<(TeamPower, TeamPower)>,
    ) -> (result: Option<Result<GameOutcome, EvaluationFailure>>)
        requires
            index < old(self).fixtures@.len(),
        ensures
            match result {
                None => {
                    &&& !is_due(old(self).fixtures@[index as int], day as int)
                    &&& final(self).fixtures@ == old(self).fixtures@
                    &&& final(self).ledger@ == old(self).ledger@
                },
                Some(v) => {
                    let fixture = old(self).fixtures@[index as int];
                    &&& is_due(fixture, day as int)
                    &&& v == verdict(fixture, old(self).ledger@, reading)
                    &&& match v {
                        Ok(outcome) => {
                            &&& final(self).fixtures@ == old(self).fixtures@.update(
                                index as int,
                                finished(fixture, outcome),
                            )
                            &&& final(self).ledger@ == rows_after_game(
                                old(self).ledger@,
                                fixture,
                                outcome,
                            )
                        },
                        Err(_) => {
                            &&& final(self).fixtures@ == old(self).fixtures@
                            &&& final(self).ledger@ == old(self).ledger@
                        },
                    }
                },
            },
    {
        let fixture: Fixture = self.fixtures[index];
        if !(fixture.status == GameStatus::Scheduled && falls_on(fixture.scheduled_time, day)) {
            return None;
        }
        match reading {
            None => Some(Err(EvaluationFailure::PowerUnavailable)),
            Some((home, away)) => {
                let outcome = GameOutcome::decide(fixture.id, &home, &away);
                match self.record_results(fixture, outcome) {
                    Some(failure) => Some(Err(failure)),
                    None => {
                        self.fixtures.set(
                            index,
                            Fixture {
                                id: fixture.id,
                                season_id: fixture.season_id,
                                home_team_id: fixture.home_team_id,
                                away_team_id: fixture.away_team_id,
                                scheduled_time: fixture.scheduled_time,
                                status: GameStatus::Finished,
                                home_score: Some(outcome.home_score),
                                away_score: Some(outcome.away_score),
                                winner_team_id: outcome.winner_team_id,
                            },
                        );
                        Some(Ok(outcome))
                    },
                }
            },
        }
    }

    /// Evaluates every fixture that is due on `day`, in fixture order, with
    /// the power read for each in `readings`. A fixture that fails is
    /// reported and left scheduled; the others are not affected.
    pub fn evaluate_for_date(&mut self, day: i64, readings: &Vec<PowerReading>) -> (summary:
        EvaluationSummary)
        ensures
            ({
                let run = evaluation_of(
                    old(self).fixtures@,
                    old(self).ledger@,
                    day as int,
                    readings@,
                );
                &&& final(self).fixtures@ == run.fixtures
                &&& final(self).ledger@ == run.rows
                &&& summary.games_evaluated == run.evaluated
                &&& summary.games_updated == run.results.len()
                &&& summary.errors@ == run.errors
                &&& summary.game_results@ == run.results
                &&& summary.games_updated == summary.games_evaluated - summary.errors@.len()
            }),
    {
        let n: usize = self.fixtures.len();
        let mut errors: Vec<EvaluationError> = Vec::new();
        let mut game_results: Vec<GameOutcome> = Vec::new();
        let mut games_evaluated: usize = 0;
        let mut i: usize = 0;
        while i < n
            invariant
                n == old(self).fixtures@.len(),
                n == self.fixtures@.len(),
                i <= n,
                games_evaluated <= i,
                games_evaluated == errors@.len() + game_results@.len(),
                self.progress(games_evaluated as int, errors@, game_results@) == progress_after(
                    old(self).fixtures@,
                    old(self).ledger@,
                    day as int,
                    readings@,
                    i as int,
                ),
            decreases n - i,
        {
            let game_id: u128 = self.fixtures[i].id;
            let reading = find_reading(readings, game_id);
            match self.evaluate_fixture(i, day, reading) {
                None => {},
                Some(Ok(outcome)) => {
                    games_evaluated = games_evaluated + 1;
                    game_results.push(outcome);
                },
                Some(Err(reason)) => {
                    games_evaluated = games_evaluated + 1;
                    errors.push(EvaluationError { game_id, reason });
                },
            }
            i = i + 1;
        }
        let games_updated: usize = game_results.len();
        EvaluationSummary { games_evaluated, games_updated, errors, game_results }
    }

    /// Reads the power of both sides of every fixture off the membership
    /// table.
    pub fn read_powers(&self, members: &Vec<MemberStats>) -> (readings: Vec<PowerReading>)
        ensures
            readings@ == readings_from_members(self.fixtures@, members@),
    {
        let n: usize = self.fixtures.len();
        let mut readings: Vec<PowerReading> = Vec::new();
        let mut i: usize = 0;
        while i < n
            invariant
                n == self.fixtures@.len(),
                i <= n,
                readings@.len() == i,
                forall|j: int|
                    0 <= j < i ==> #[trigger] readings@[j] == reading_from_members(
                        self.fixtures@[j],
                        members@,
                    ),
            decreases n - i,
        {
            let fixture: Fixture = self.fixtures[i];
            let home = GameEvaluator::team_power_from_members(members, fixture.home_team_id);
            let away = GameEvaluator::team_power_from_members(members, fixture.away_team_id);
            let powers: Option<(TeamPower, TeamPower)> = match (home, away) {
                (Ok(home), Ok(away)) => Some((home, away)),
                _ => None,
            };
            readings.push(PowerReading { game_id: fixture.id, powers });
            i = i + 1;
        }
        readings
    }

    /// Evaluates every fixture that is due on `day`, with the power of the
    /// teams computed from the membership table as it stands.
    pub fn evaluate_day(&mut self, day: i64, members: &Vec<MemberStats>) -> (summary:
        EvaluationSummary)
        ensures
            ({
                let run = evaluation_of(
                    old(self).fixtures@,
                    old(self).ledger@,
                    day as int,
                    readings_from_members(old(self).fixtures@, members@),
                );
                &&& final(self).fixtures@ == run.fixtures
                &&& final(self).ledger@ == run.rows
                &&& summary.games_evaluated == run.evaluated
                &&& summary.games_updated == run.results.len()
                &&& summary.errors@ == run.errors
                &&& summary.game_results@ == run.results
            }),
    {
        let readings = self.read_powers(members);
        self.evaluate_for_date(day, &readings)
    }

    /// Counts the fixtures of `day` that are still scheduled and those that
    /// are finished. Changes nothing.
    pub fn summary_for_date(&self, day: i64) -> (summary: GamesSummary)
        ensures
            summary.scheduled_games == count_on_day(
                self.fixtures@,
                day as int,
                GameStatus::Scheduled,
                self.fixtures@.len() as int,
            ),
            summary.finished_games == count_on_day(
                self.fixtures@,
                day as int,
                GameStatus::Finished,
                self.fixtures@.len() as int,
            ),
    {
        let n: usize = self.fixtures.len();
        let mut scheduled_games: usize = 0;
        let mut finished_games: usize = 0;
        let mut i: usize = 0;
        while i < n
            invariant
                n == self.fixtures@.len(),
                i <= n,
                scheduled_games <= i,
                finished_games <= i,
                scheduled_games == count_on_day(
                    self.fixtures@,
                    day as int,
                    GameStatus::Scheduled,
                    i as int,
                ),
                finished_games == count_on_day(
                    self.fixtures@,
                    day as int,
                    GameStatus::Finished,
                    i as int,
                ),
            decreases n - i,
        {
            let fixture: Fixture = self.fixtures[i];
            if falls_on(fixture.scheduled_time, day) {
                if fixture.status == GameStatus::Scheduled {
                    scheduled_games = scheduled_games + 1;
                } else if fixture.status == GameStatus::Finished {
                    finished_games = finished_games + 1;
                }
            }
            i = i + 1;
        }
        GamesSummary { scheduled_games, finished_games }
    }
}

/// Facts about a run after `k` fixtures: the fixture list keeps its length,
/// the fixtures not yet reached and those not due are untouched, every
/// fixture counted is either reported as updated or as failed, the number
/// counted is the number of fixtures that were due, and unless something
/// failed no fixture dealt with is still due.
pub proof fn lemma_progress(
    fixtures: Seq<Fixture>,
    rows: Seq<StandingsRow>,
    day: int,
    readings: Seq<PowerReading>,
    k: int,
)
    requires
        0 <= k <= fixtures.len(),
    ensures
        ({
            let p = progress_after(fixtures, rows, day, readings, k);
            &&& p.fixtures.len() == fixtures.len()
            &&& forall|j: int| k <= j < fixtures.len() ==> #[trigger] p.fixtures[j] == fixtures[j]
            &&& forall|j: int|
                0 <= j < k && !is_due(fixtures[j], day) ==> #[trigger] p.fixtures[j] == fixtures[j]
            &&& p.evaluated == p.errors.len() + p.results.len()
            &&& p.evaluated == count_on_day(fixtures, day, GameStatus::Scheduled, k)
            &&& p.errors.len() == 0 ==> forall|j: int|
                0 <= j < k ==> !is_due(#[trigger] p.fixtures[j], day)
        }),
    decreases k,
{
    if k > 0 {
        lemma_progress(fixtures, rows, day, readings, k - 1);
        let before = progress_after(fixtures, rows, day, readings, k - 1);
        let p = step(before, k - 1, day, readings);
        assert(before.fixtures[k - 1] == fixtures[k - 1]);
        if p.errors.len() == 0 {
            assert(before.errors.len() == 0);
            assert forall|j: int| 0 <= j < k implies !is_due(#[trigger] p.fixtures[j], day) by {
                if j < k - 1 {
                    assert(!is_due(before.fixtures[j], day));
                }
            }
        }
    }
}

/// Where no fixture is due, a run changes nothing and reports nothing.
pub proof fn lemma_nothing_due(
    fixtures: Seq<Fixture>,
    rows: Seq<StandingsRow>,
    day: int,
    readings: Seq<PowerReading>,
    k: int,
)
    requires
        0 <= k <= fixtures.len(),
        forall|j: int| 0 <= j < fixtures.len() ==> !is_due(#[trigger] fixtures[j], day),
    ensures
        ({
            let p = progress_after(fixtures, rows, day, readings, k);
            &&& p.fixtures == fixtures
            &&& p.rows == rows
            &&& p.evaluated == 0
            &&& p.errors == Seq::<EvaluationError>::empty()
            &&& p.results == Seq::<GameOutcome>::empty()
        }),
    decreases k,
{
    if k > 0 {
        lemma_nothing_due(fixtures, rows, day, readings, k - 1);
        assert(!is_due(fixtures[k - 1], day));
    }
}

/// Evaluating a day a second time is a no-op: after a run in which no
/// fixture failed, another run for the same day, whatever is read for it,
/// counts no game and leaves fixtures and standings as they are.
pub proof fn lemma_evaluation_idempotent(
    fixtures: Seq<Fixture>,
    rows: Seq<StandingsRow>,
    day: int,
    first_readings: Seq<PowerReading>,
    second_readings: Seq<PowerReading>,
)
    requires
        evaluation_of(fixtures, rows, day, first_readings).errors.len() == 0,
    ensures
        ({
            let first = evaluation_of(fixtures, rows, day, first_readings);
            let second = evaluation_of(first.fixtures, first.rows, day, second_readings);
            &&& second.evaluated == 0
            &&& second.fixtures == first.fixtures
            &&& second.rows == first.rows
            &&& second.errors.len() == 0
            &&& second.results.len() == 0
        }),
{
    let first = evaluation_of(fixtures, rows, day, first_readings);
    lemma_progress(fixtures, rows, day, first_readings, fixtures.len() as int);
    lemma_nothing_due(
        first.fixtures,
        first.rows,
        day,
        second_readings,
        first.fixtures.len() as int,
    );
}

/// A run counts every result in the standings without breaking them: if
/// every row is consistent before, every row is consistent after, and no
/// row is added or removed.
pub proof fn lemma_evaluation_keeps_standings_consistent(
    fixtures: Seq<Fixture>,
    rows: Seq<StandingsRow>,
    day: int,
    readings: Seq<PowerReading>,
    k: int,
)
    requires
        0 <= k <= fixtures.len(),
        table_consistent(rows),
    ensures
        table_consistent(progress_after(fixtures, rows, day, readings, k).rows),
        progress_after(fixtures, rows, day, readings, k).rows.len() == rows.len(),
    decreases k,
{
    if k > 0 {
        lemma_evaluation_keeps_standings_consistent(fixtures, rows, day, readings, k - 1);
        let before = progress_after(fixtures, rows, day, readings, k - 1);
        let fixture = before.fixtures[k - 1];
        if is_due(fixture, day) {
            match verdict(fixture, before.rows, reading_for(readings, fixture.id)) {
                Ok(outcome) => {
                    lemma_table_applied(
                        before.rows,
                        fixture.season_id,
                        fixture.home_team_id,
                        outcome.home_result,
                    );
                    lemma_table_applied(
                        rows_after_home(before.rows, fixture, outcome),
                        fixture.season_id,
                        fixture.away_team_id,
                        outcome.away_result,
                    );
                },
                Err(_) => {},
            }
        }
    }
}

/// A run leaves every fixture well formed that was well formed before.
pub proof fn lemma_evaluation_keeps_fixtures_well_formed(
    fixtures: Seq<Fixture>,
    rows: Seq<StandingsRow>,
    day: int,
    readings: Seq<PowerReading>,
    k: int,
)
    requires
        0 <= k <= fixtures.len(),
        forall|j: int| 0 <= j < fixtures.len() ==> (#[trigger] fixtures[j]).well_formed(),
    ensures
        ({
            let p = progress_after(fixtures, rows, day, readings, k);
            &&& p.fixtures.len() == fixtures.len()
            &&& forall|j: int| 0 <= j < fixtures.len() ==> (#[trigger] p.fixtures[j]).well_formed()
        }),
    decreases k,
{
    if k > 0 {
        lemma_evaluation_keeps_fixtures_well_formed(fixtures, rows, day, readings, k - 1);
        let before = progress_after(fixtures, rows, day, readings, k - 1);
        let p = step(before, k - 1, day, readings);
        assert forall|j: int| 0 <= j < fixtures.len() implies (#[trigger] p.fixtures[j]).well_formed() by {
            assert(before.fixtures[j].well_formed());
        }
    }
}

} // verus!
