//! The standings ledger: per-team, per-season running totals.

use vstd::prelude::*;
use crate::model::MatchResult;

verus! {

/// The counters of a standings row as mathematical integers.
pub struct Tally {
    pub games_played: int,
    pub wins: int,
    pub draws: int,
    pub losses: int,
    pub points: int,
}

impl Tally {
    /// The tally of a team that has not played yet.
    pub open spec fn zero() -> Tally {
        Tally { games_played: 0, wins: 0, draws: 0, losses: 0, points: 0 }
    }

    /// The aggregate invariant of a standings row.
    pub open spec fn consistent(self) -> bool {
        &&& self.wins + self.draws + self.losses == self.games_played
        &&& self.points == 3 * self.wins + self.draws
    }

    /// The tally after one more game with the given result.
    pub open spec fn apply(self, result: MatchResult) -> Tally {
        let wins = self.wins + if result == MatchResult::Win { 1int } else { 0int };
        let draws = self.draws + if result == MatchResult::Draw { 1int } else { 0int };
        let losses = self.losses + if result == MatchResult::Loss { 1int } else { 0int };
        Tally {
            games_played: self.games_played + 1,
            wins,
            draws,
            losses,
            points: 3 * wins + draws,
        }
    }

    /// The tally after a sequence of games, applied first to last.
    pub open spec fn apply_all(self, results: Seq<MatchResult>) -> Tally
        decreases results.len(),
    {
        if results.len() == 0 {
            self
        } else {
            self.apply(results[0]).apply_all(results.drop_first())
        }
    }

    /// Every counter fits the row's machine integers.
    pub open spec fn fits(self) -> bool {
        &&& 0 <= self.games_played <= u32::MAX
        &&& 0 <= self.wins <= u32::MAX
        &&& 0 <= self.draws <= u32::MAX
        &&& 0 <= self.losses <= u32::MAX
        &&& 0 <= self.points <= u32::MAX
    }
}

/// The standing of one team in one season.
#[derive(Clone, Copy, Debug, PartialEq, Eq)]
pub struct StandingsRow {
    pub season_id: u128,
    pub team_id: u128,
    pub games_played: u32,
    pub wins: u32,
    pub draws: u32,
    pub losses: u32,
    pub points: u32,
    pub position: u32,
}

impl View for StandingsRow {
    type V = Tally;

    open spec fn view(&self) -> Tally {
        Tally {
            games_played: self.games_played as int,
            wins: self.wins as int,
            draws: self.draws as int,
            losses: self.losses as int,
            points: self.points as int,
        }
    }
}

impl StandingsRow {
    /// The row belongs to `team_id` in `season_id`.
    pub open spec fn is_for(self, season_id: u128, team_id: u128) -> bool {
        self.season_id == season_id && self.team_id == team_id
    }

    /// The row with its counters replaced by those of `tally`.
    pub open spec fn with_tally(self, tally: Tally) -> StandingsRow {
        StandingsRow {
            season_id: self.season_id,
            team_id: self.team_id,
            games_played: tally.games_played as u32,
            wins: tally.wins as u32,
            draws: tally.draws as u32,
            losses: tally.losses as u32,
            points: tally.points as u32,
            position: self.position,
        }
    }

    /// One more game can be counted without a counter running over.
    pub open spec fn has_room(self, result: MatchResult) -> bool {
        self@.apply(result).fits()
    }

    /// The row after one more game with the given result.
    pub open spec fn applied(self, result: MatchResult) -> StandingsRow {
        self.with_tally(self@.apply(result))
    }

    /// The row each team starts a season with: nothing played, first place.
    pub fn new(season_id: u128, team_id: u128) -> (row: StandingsRow)
        ensures
            row.is_for(season_id, team_id),
            row@ == Tally::zero(),
            row.position == 1,
    {
        StandingsRow {
            season_id,
            team_id,
            games_played: 0,
            wins: 0,
            draws: 0,
            losses: 0,
            points: 0,
            position: 1,
        }
    }

    /// Tells whether one more game with `result` can be counted.
    pub fn can_apply(&self, result: MatchResult) -> (ok: bool)
        ensures
            ok == self.has_room(result),
    {
        let wins: u64 = self.wins as u64 + if result == MatchResult::Win { 1u64 } else { 0u64 };
        let draws: u64 = self.draws as u64 + if result == MatchResult::Draw { 1u64 } else { 0u64 };
        let losses: u64 = self.losses as u64 + if result == MatchResult::Loss {
            1u64
        } else {
            0u64
        };
        let limit: u64 = u32::MAX as u64;
        self.games_played < u32::MAX && wins <= limit && draws <= limit && losses <= limit && 3
            * wins + draws <= limit
    }

    /// Counts one finished game: one more game played, one more win, draw
    /// or loss, and the points recomputed as three per win and one per draw.
    pub fn apply(&mut self, result: MatchResult)
        requires
            old(self).has_room(result),
        ensures
            *final(self) == old(self).applied(result),
            final(self)@ == old(self)@.apply(result),
    {
        self.games_played = self.games_played + 1;
        match result {
            MatchResult::Win => {
                self.wins = self.wins + 1;
            },
            MatchResult::Draw => {
                self.draws = self.draws + 1;
            },
            MatchResult::Loss => {
                self.losses = self.losses + 1;
            },
        }
        self.points = 3 * self.wins + self.draws;
    }
}

/// Index of the first row at or after `from` that belongs to `team_id` in
/// `season_id`, or `rows.len()` if there is none.
pub open spec fn row_index_from(
    rows: Seq<StandingsRow>,
    season_id: u128,
    team_id: u128,
    from: int,
) -> int
    decreases rows.len() - from,
{
    if from < 0 || from >= rows.len() {
        rows.len() as int
    } else if rows[from].is_for(season_id, team_id) {
        from
    } else {
        row_index_from(rows, season_id, team_id, from + 1)
    }
}

/// Index of the row of `team_id` in `season_id`, or `rows.len()` if the
/// team has no row in that season.
pub open spec fn row_index(rows: Seq<StandingsRow>, season_id: u128, team_id: u128) -> int {
    row_index_from(rows, season_id, team_id, 0)
}

/// The table after counting one game for `team_id` in `season_id`.
pub open spec fn table_applied(
    rows: Seq<StandingsRow>,
    season_id: u128,
    team_id: u128,
    result: MatchResult,
) -> Seq<StandingsRow> {
    let i = row_index(rows, season_id, team_id);
    rows.update(i, rows[i].applied(result))
}

/// The game can be counted: the team has a row and the row has room.
pub open spec fn table_accepts(
    rows: Seq<StandingsRow>,
    season_id: u128,
    team_id: u128,
    result: MatchResult,
) -> bool {
    let i = row_index(rows, season_id, team_id);
    i < rows.len() && rows[i].has_room(result)
}

/// The rows of `season_id`, in table order.
pub open spec fn season_rows(rows: Seq<StandingsRow>, season_id: u128) -> Seq<StandingsRow> {
    rows.filter(|row: StandingsRow| row.season_id == season_id)
}

/// Every row of the table satisfies the aggregate invariant.
pub open spec fn table_consistent(rows: Seq<StandingsRow>) -> bool {
    forall|i: int| 0 <= i < rows.len() ==> (#[trigger] rows[i])@.consistent()
}

/// Why a game could not be counted.
#[derive(Clone, Copy, Debug, PartialEq, Eq, Structural)]
pub enum LedgerError {
    /// The team has no standings row in the season.
    UnknownTeam,
    /// A counter of the row would run over.
    CounterFull,
}

/// The standings of all seasons, one row per team and season.
#[derive(Clone, Debug, PartialEq, Eq)]
pub struct StandingsLedger {
    pub rows: Vec<StandingsRow>,
}

impl View for StandingsLedger {
    type V = Seq<StandingsRow>;

    open spec fn view(&self) -> Seq<StandingsRow> {
        self.rows@
    }
}

impl StandingsLedger {
    /// A ledger without rows.
    pub fn new() -> (ledger: StandingsLedger)
        ensures
            ledger@ == Seq::<StandingsRow>::empty(),
    {
        StandingsLedger { rows: Vec::new() }
    }

    /// Opens a season: appends one zero row per team, in roster order.
    pub fn seed(&mut self, season_id: u128, team_ids: &Vec<u128>)
        ensures
            final(self)@.len() == old(self)@.len() + team_ids@.len(),
            final(self)@.subrange(0, old(self)@.len() as int) == old(self)@,
            forall|k: int|
                0 <= k < team_ids@.len() ==> {
                    let row = #[trigger] final(self)@[old(self)@.len() + k];
                    &&& row.is_for(season_id, team_ids@[k])
                    &&& row@ == Tally::zero()
                    &&& row.position == 1
                },
    {
        let n: usize = team_ids.len();
        let mut k: usize = 0;
        while k < n
            invariant
                n == team_ids@.len(),
                k <= n,
                self@.len() == old(self)@.len() + k,
                self@.subrange(0, old(self)@.len() as int) == old(self)@,
                forall|j: int|
                    0 <= j < k ==> {
                        let row = #[trigger] self@[old(self)@.len() + j];
                        &&& row.is_for(season_id, team_ids@[j])
                        &&& row@ == Tally::zero()
                        &&& row.position == 1
                    },
            decreases n - k,
        {
            self.rows.push(StandingsRow::new(season_id, team_ids[k]));
            k = k + 1;
        }
    }

    /// Position in the table of the row of `team_id` in `season_id`.
    pub fn find(&self, season_id: u128, team_id: u128) -> (found: Option<usize>)
        ensures
            match found {
                Some(i) => i == row_index(self@, season_id, team_id) && i < self@.len(),
                None => row_index(self@, season_id, team_id) == self@.len(),
            },
    {
        let n: usize = self.rows.len();
        let mut i: usize = 0;
        while i < n
            invariant
                n == self@.len(),
                i <= n,
                row_index(self@, season_id, team_id) == row_index_from(
                    self@,
                    season_id,
                    team_id,
                    i as int,
                ),
            decreases n - i,
        {
            if self.rows[i].season_id == season_id && self.rows[i].team_id == team_id {
                return Some(i);
            }
            i = i + 1;
        }
        None
    }

    /// Tells whether a game with `result` can be counted for the team.
    pub fn accepts(&self, season_id: u128, team_id: u128, result: MatchResult) -> (ok: bool)
        ensures
            ok == table_accepts(self@, season_id, team_id, result),
    {
        match self.find(season_id, team_id) {
            Some(i) => self.rows[i].can_apply(result),
            None => false,
        }
    }

    /// Counts one finished game for `team_id` in `season_id`. On an error
    /// the ledger is unchanged.
    pub fn apply(&mut self, season_id: u128, team_id: u128, result: MatchResult) -> (outcome:
        Result<(), LedgerError>)
        ensures
            match outcome {
                Ok(()) => {
                    &&& table_accepts(old(self)@, season_id, team_id, result)
                    &&& final(self)@ == table_applied(old(self)@, season_id, team_id, result)
                },
                Err(LedgerError::UnknownTeam) => {
                    &&& row_index(old(self)@, season_id, team_id) == old(self)@.len()
                    &&& final(self)@ == old(self)@
                },
                Err(LedgerError::CounterFull) => {
                    &&& row_index(old(self)@, season_id, team_id) < old(self)@.len()
                    &&& !table_accepts(old(self)@, season_id, team_id, result)
                    &&& final(self)@ == old(self)@
                },
            },
    {
        match self.find(season_id, team_id) {
            None => Err(LedgerError::UnknownTeam),
            Some(i) => {
                let mut row: StandingsRow = self.rows[i];
                if !row.can_apply(result) {
                    return Err(LedgerError::CounterFull);
                }
                row.apply(result);
                self.rows.set(i, row);
                Ok(())
            },
        }
    }

    /// The standings of one season, in table order.
    pub fn season_table(&self, season_id: u128) -> (table: Vec<StandingsRow>)
        ensures
            table@ == season_rows(self@, season_id),
    {
        let n: usize = self.rows.len();
        let mut table: Vec<StandingsRow> = Vec::new();
        let mut i: usize = 0;
        while i < n
            invariant
                n == self@.len(),
                i <= n,
                table@ == season_rows(self@.subrange(0, i as int), season_id),
            decreases n - i,
        {
            proof {
                let pred = |row: StandingsRow| row.season_id == season_id;
                let head = self@.subrange(0, i as int);
                let next = self@.subrange(0, i + 1);
                assert(next.drop_last() == head);
                reveal(Seq::filter);
                assert(next.filter(pred) == if pred(next.last()) {
                    head.filter(pred).push(next.last())
                } else {
                    head.filter(pred)
                });
            }
            if self.rows[i].season_id == season_id {
                table.push(self.rows[i]);
            }
            i = i + 1;
        }
        proof {
            assert(self@.subrange(0, n as int) == self@);
        }
        table
    }
}

/// `row_index_from` finds the first matching row at or after `from`.
pub proof fn lemma_row_index_from(
    rows: Seq<StandingsRow>,
    season_id: u128,
    team_id: u128,
    from: int,
)
    requires
        0 <= from <= rows.len(),
    ensures
        from <= row_index_from(rows, season_id, team_id, from) <= rows.len(),
        row_index_from(rows, season_id, team_id, from) < rows.len() ==> rows[row_index_from(
            rows,
            season_id,
            team_id,
            from,
        )].is_for(season_id, team_id),
        forall|j: int|
            from <= j < row_index_from(rows, season_id, team_id, from) ==> !(#[trigger] rows[j]).is_for(
                season_id,
                team_id,
            ),
    decreases rows.len() - from,
{
    if from < rows.len() && !rows[from].is_for(season_id, team_id) {
        lemma_row_index_from(rows, season_id, team_id, from + 1);
    }
}

/// Counting a game changes the row of that team alone, keeps every row
/// with its team and season, and keeps a consistent table consistent.
pub proof fn lemma_table_applied(
    rows: Seq<StandingsRow>,
    season_id: u128,
    team_id: u128,
    result: MatchResult,
)
    requires
        table_accepts(rows, season_id, team_id, result),
    ensures
        table_applied(rows, season_id, team_id, result).len() == rows.len(),
        forall|i: int|
            0 <= i < rows.len() ==> {
                let after = #[trigger] table_applied(rows, season_id, team_id, result)[i];
                &&& after.season_id == rows[i].season_id
                &&& after.team_id == rows[i].team_id
                &&& after.position == rows[i].position
                &&& i != row_index(rows, season_id, team_id) ==> after == rows[i]
                &&& i == row_index(rows, season_id, team_id) ==> after@ == rows[i]@.apply(result)
            },
        table_consistent(rows) ==> table_consistent(
            table_applied(rows, season_id, team_id, result),
        ),
{
    let i0 = row_index(rows, season_id, team_id);
    let after = table_applied(rows, season_id, team_id, result);
    lemma_row_index_from(rows, season_id, team_id, 0);
    if table_consistent(rows) {
        assert forall|i: int| 0 <= i < after.len() implies (#[trigger] after[i])@.consistent() by {
            assert(rows[i]@.consistent());
            if i == i0 {
                lemma_apply_consistent(rows[i]@, result);
            }
        }
    }
}

/// A team that has not played has a consistent tally.
pub proof fn lemma_zero_consistent()
    ensures
        Tally::zero().consistent(),
{
}

/// Counting a game keeps a consistent tally consistent.
pub proof fn lemma_apply_consistent(tally: Tally, result: MatchResult)
    requires
        tally.consistent(),
    ensures
        tally.apply(result).consistent(),
        tally.apply(result).games_played == tally.games_played + 1,
        tally.apply(result).points == tally.points + result.points(),
{
}

/// After any sequence of games a consistent tally is still consistent:
/// wins, draws and losses add up to the games played, and the points are
/// three per win plus one per draw.
pub proof fn lemma_apply_all_consistent(tally: Tally, results: Seq<MatchResult>)
    requires
        tally.consistent(),
    ensures
        tally.apply_all(results).consistent(),
        tally.apply_all(results).games_played == tally.games_played + results.len(),
    decreases results.len(),
{
    if results.len() > 0 {
        lemma_apply_consistent(tally, results[0]);
        lemma_apply_all_consistent(tally.apply(results[0]), results.drop_first());
    }
}

} // verus!
