//! The schedule generator: turns a roster and a first kickoff into the
//! fixture list of a double round-robin, one round per week.

use vstd::prelude::*;
use vstd::arithmetic::div_mod::lemma_fundamental_div_mod_converse;
use crate::calendar::{is_game_slot, is_valid_game_time, weeks_after, SECONDS_PER_WEEK};
use crate::model::{Fixture, GameStatus};
use crate::round_robin::{
    first_leg,
    fixture_count,
    games_per_round,
    lemma_every_pair_scheduled,
    lemma_fixture_count,
    lemma_pair_scheduled_once,
    meeting_round,
    meeting_slot,
    pairing,
    round_count,
    valid_slot,
    valid_team_count,
};

verus! {

/// Why a roster or a start time was turned down.
#[derive(Clone, Copy, Debug, PartialEq, Eq, Structural)]
pub enum ScheduleError {
    /// Fewer than two teams.
    TooFewTeams,
    /// An odd number of teams.
    OddTeamCount,
    /// The first kickoff is not a weekly game slot.
    InvalidGameTime,
}

/// The error, if any, with which a schedule for `n` teams starting at
/// `start` is turned down.
pub open spec fn schedule_error(n: int, start: int) -> Option<ScheduleError> {
    if n < 2 {
        Some(ScheduleError::TooFewTeams)
    } else if n % 2 != 0 {
        Some(ScheduleError::OddTeamCount)
    } else if !is_game_slot(start) {
        Some(ScheduleError::InvalidGameTime)
    } else {
        None
    }
}

/// Position in the fixture list of the game in `slot` of `round`.
pub open spec fn fixture_index(n: int, round: int, slot: int) -> int {
    round * games_per_round(n) + slot
}

/// The roster positions (home, away) of the game at position `k` of the
/// fixture list.
pub open spec fn fixture_pairing(n: int, k: int) -> (int, int) {
    pairing(n, k / games_per_round(n), k % games_per_round(n))
}

/// `fixture` is the game in `slot` of `round` of the season `season_id`
/// among `team_ids` that starts at `start`: not yet played, between the
/// teams that the pairing rule names, one week after the previous round.
pub open spec fn is_fixture_of(
    fixture: Fixture,
    season_id: u128,
    team_ids: Seq<u128>,
    start: int,
    round: int,
    slot: int,
) -> bool {
    let p = pairing(team_ids.len() as int, round, slot);
    &&& fixture.season_id == season_id
    &&& fixture.home_team_id == team_ids[p.0]
    &&& fixture.away_team_id == team_ids[p.1]
    &&& fixture.scheduled_time == weeks_after(start, round)
    &&& fixture.status == GameStatus::Scheduled
    &&& fixture.home_score.is_none()
    &&& fixture.away_score.is_none()
    &&& fixture.winner_team_id.is_none()
}

/// `fixtures` is the full season: round after round, slot after slot.
pub open spec fn is_schedule(
    fixtures: Seq<Fixture>,
    season_id: u128,
    team_ids: Seq<u128>,
    start: int,
) -> bool {
    let n = team_ids.len() as int;
    &&& fixtures.len() == fixture_count(n)
    &&& forall|k: int|
        0 <= k < fixtures.len() ==> is_fixture_of(
            #[trigger] fixtures[k],
            season_id,
            team_ids,
            start,
            k / games_per_round(n),
            k % games_per_round(n),
        )
}

/// The roster positions of the game in `slot` of round `r` of the first
/// leg, or of the second leg if `return_leg` is set.
pub fn pairing_at(n: usize, r: usize, slot: usize, return_leg: bool) -> (p: (usize, usize))
    requires
        valid_team_count(n as int),
        r < n - 1,
        slot < n / 2,
    ensures
        (p.0 as int, p.1 as int) == pairing(
            n as int,
            if return_leg {
                r + (n - 1)
            } else {
                r as int
            },
            slot as int,
        ),
        p.0 < n,
        p.1 < n,
        p.0 != p.1,
{
    let m: usize = n - 1;
    let (home, away): (usize, usize) = if slot == 0 {
        (r, m)
    } else {
        let ahead: usize = if r >= m - slot {
            r - (m - slot)
        } else {
            r + slot
        };
        let behind: usize = if r >= slot {
            r - slot
        } else {
            r + (m - slot)
        };
        (ahead, behind)
    };
    assert((home as int, away as int) == first_leg(n as int, r as int, slot as int));
    if return_leg {
        (away, home)
    } else {
        (home, away)
    }
}

/// A fresh random identifier for a fixture: `Uuid::new_v4` of the `uuid`
/// crate, as its 128-bit value. Nothing is promised of the value.
#[verifier::external_body]
fn new_game_id() -> u128 {
    uuid::Uuid::new_v4().as_u128()
}

/// Drafts the fixtures of a season, all under the identifier zero.
///
/// The roster must hold an even number of teams, at least two, and
/// `start_time` must be a weekly game slot; otherwise nothing is drafted.
/// Each of the `2 * (n - 1)` rounds is played one week after the previous
/// one and holds `n / 2` games at the same time.
pub fn draft_schedule(season_id: u128, team_ids: &Vec<u128>, start_time: i64) -> (outcome: Result<
    Vec<Fixture>,
    ScheduleError,
>)
    requires
        schedule_error(team_ids@.len() as int, start_time as int).is_none() ==> weeks_after(
            start_time as int,
            round_count(team_ids@.len() as int),
        ) <= i64::MAX,
    ensures
        match outcome {
            Ok(fixtures) => {
                &&& schedule_error(team_ids@.len() as int, start_time as int).is_none()
                &&& is_schedule(fixtures@, season_id, team_ids@, start_time as int)
                &&& forall|k: int| 0 <= k < fixtures@.len() ==> (#[trigger] fixtures@[k]).id == 0
            },
            Err(e) => schedule_error(team_ids@.len() as int, start_time as int) == Some(e),
        },
{
    let n: usize = team_ids.len();
    if n < 2 {
        return Err(ScheduleError::TooFewTeams);
    }
    if n % 2 != 0 {
        return Err(ScheduleError::OddTeamCount);
    }
    if !is_valid_game_time(start_time) {
        return Err(ScheduleError::InvalidGameTime);
    }
    let m: usize = n - 1;
    let h: usize = n / 2;
    let mut fixtures: Vec<Fixture> = Vec::new();
    let mut kickoff: i64 = start_time;
    let mut leg: usize = 0;
    while leg < 2
        invariant
            n == team_ids@.len(),
            valid_team_count(n as int),
            m == n - 1,
            h == n / 2,
            leg <= 2,
            is_game_slot(start_time as int),
            weeks_after(start_time as int, round_count(n as int)) <= i64::MAX,
            kickoff == weeks_after(start_time as int, leg * m),
            fixtures@.len() == (leg * m) * h,
            forall|k: int|
                0 <= k < fixtures@.len() ==> is_fixture_of(
                    #[trigger] fixtures@[k],
                    season_id,
                    team_ids@,
                    start_time as int,
                    k / (h as int),
                    k % (h as int),
                ),
            forall|k: int| 0 <= k < fixtures@.len() ==> (#[trigger] fixtures@[k]).id == 0,
        decreases 2 - leg,
    {
        let mut r: usize = 0;
        while r < m
            invariant
                n == team_ids@.len(),
                valid_team_count(n as int),
                m == n - 1,
                h == n / 2,
                leg < 2,
                r <= m,
                is_game_slot(start_time as int),
                weeks_after(start_time as int, round_count(n as int)) <= i64::MAX,
                kickoff == weeks_after(start_time as int, leg * m + r),
                fixtures@.len() == (leg * m + r) * h,
                forall|k: int|
                    0 <= k < fixtures@.len() ==> is_fixture_of(
                        #[trigger] fixtures@[k],
                        season_id,
                        team_ids@,
                        start_time as int,
                        k / (h as int),
                        k % (h as int),
                    ),
                forall|k: int| 0 <= k < fixtures@.len() ==> (#[trigger] fixtures@[k]).id == 0,
            decreases m - r,
        {
            let ghost round: int = leg * m + r;
            let mut slot: usize = 0;
            while slot < h
                invariant
                    n == team_ids@.len(),
                    valid_team_count(n as int),
                    m == n - 1,
                    h == n / 2,
                    leg < 2,
                    r < m,
                    slot <= h,
                    round == leg * m + r,
                    kickoff == weeks_after(start_time as int, round),
                    fixtures@.len() == round * h + slot,
                    forall|k: int|
                        0 <= k < fixtures@.len() ==> is_fixture_of(
                            #[trigger] fixtures@[k],
                            season_id,
                            team_ids@,
                            start_time as int,
                            k / (h as int),
                            k % (h as int),
                        ),
                    forall|k: int| 0 <= k < fixtures@.len() ==> (#[trigger] fixtures@[k]).id == 0,
                decreases h - slot,
            {
                let p: (usize, usize) = pairing_at(n, r, slot, leg == 1);
                let fixture = Fixture {
                    id: 0,
                    season_id,
                    home_team_id: team_ids[p.0],
                    away_team_id: team_ids[p.1],
                    scheduled_time: kickoff,
                    status: GameStatus::Scheduled,
                    home_score: None,
                    away_score: None,
                    winner_team_id: None,
                };
                proof {
                    let k = fixtures@.len() as int;
                    lemma_fundamental_div_mod_converse(k, h as int, round, slot as int);
                    assert(leg == 0 ==> round == r) by (nonlinear_arith)
                        requires
                            round == leg * m + r,
                    ;
                    assert(leg == 1 ==> round == r + m) by (nonlinear_arith)
                        requires
                            round == leg * m + r,
                    ;
                }
                fixtures.push(fixture);
                slot = slot + 1;
            }
            proof {
                assert((round + 1) * h == round * h + h) by (nonlinear_arith);
                assert(round + 1 <= round_count(n as int)) by (nonlinear_arith)
                    requires
                        round == leg * m + r,
                        leg < 2,
                        r < m,
                        m == n - 1,
                ;
                assert((round + 1) * SECONDS_PER_WEEK <= round_count(n as int) * SECONDS_PER_WEEK)
                    by (nonlinear_arith)
                    requires
                        round + 1 <= round_count(n as int),
                ;
            }
            kickoff = kickoff + SECONDS_PER_WEEK;
            r = r + 1;
        }
        proof {
            assert((leg + 1) * m == leg * m + m) by (nonlinear_arith);
        }
        leg = leg + 1;
    }
    proof {
        lemma_fixture_count(n as int);
    }
    Ok(fixtures)
}

/// Generates the fixtures of a season: the drafted fixtures, each under a
/// fresh random identifier.
///
/// The roster must hold an even number of teams, at least two, and
/// `start_time` must be a weekly game slot; otherwise nothing is generated.
pub fn generate_schedule(season_id: u128, team_ids: &Vec<u128>, start_time: i64) -> (outcome:
    Result<Vec<Fixture>, ScheduleError>)
    requires
        schedule_error(team_ids@.len() as int, start_time as int).is_none() ==> weeks_after(
            start_time as int,
            round_count(team_ids@.len() as int),
        ) <= i64::MAX,
    ensures
        match outcome {
            Ok(fixtures) => {
                &&& schedule_error(team_ids@.len() as int, start_time as int).is_none()
                &&& is_schedule(fixtures@, season_id, team_ids@, start_time as int)
            },
            Err(e) => schedule_error(team_ids@.len() as int, start_time as int) == Some(e),
        },
{
    let mut fixtures: Vec<Fixture> = match draft_schedule(season_id, team_ids, start_time) {
        Ok(fixtures) => fixtures,
        Err(e) => {
            return Err(e);
        },
    };
    let count: usize = fixtures.len();
    let ghost h = games_per_round(team_ids@.len() as int);
    let mut k: usize = 0;
    while k < count
        invariant
            count == fixtures@.len(),
            k <= count,
            h == games_per_round(team_ids@.len() as int),
            is_schedule(fixtures@, season_id, team_ids@, start_time as int),
        decreases count - k,
    {
        let ghost before = fixtures@;
        let mut fixture: Fixture = fixtures[k];
        fixture.id = new_game_id();
        fixtures.set(k, fixture);
        proof {
            assert forall|j: int| 0 <= j < fixtures@.len() implies is_fixture_of(
                #[trigger] fixtures@[j],
                season_id,
                team_ids@,
                start_time as int,
                j / h,
                j % h,
            ) by {
                assert(is_fixture_of(before[j], season_id, team_ids@, start_time as int, j / h, j % h));
            }
        }
        k = k + 1;
    }
    Ok(fixtures)
}

/// In a generated season every team hosts every other team exactly once:
/// for two different roster positions `i` and `j` there is one fixture,
/// and only one, in which team `i` is at home to team `j`.
pub proof fn lemma_schedule_is_double_round_robin(
    fixtures: Seq<Fixture>,
    season_id: u128,
    team_ids: Seq<u128>,
    start: int,
    i: int,
    j: int,
)
    requires
        valid_team_count(team_ids.len() as int),
        is_schedule(fixtures, season_id, team_ids, start),
        0 <= i < team_ids.len(),
        0 <= j < team_ids.len(),
        i != j,
    ensures
        ({
            let n = team_ids.len() as int;
            let k = fixture_index(n, meeting_round(n, i, j), meeting_slot(n, i, j));
            &&& 0 <= k < fixtures.len()
            &&& fixtures[k].home_team_id == team_ids[i]
            &&& fixtures[k].away_team_id == team_ids[j]
            &&& forall|other: int|
                0 <= other < fixtures.len() && #[trigger] fixture_pairing(n, other) == (i, j)
                    ==> other == k
        }),
{
    let n = team_ids.len() as int;
    let h = games_per_round(n);
    let round = meeting_round(n, i, j);
    let slot = meeting_slot(n, i, j);
    let k = fixture_index(n, round, slot);
    lemma_every_pair_scheduled(n, i, j);
    lemma_fixture_index(n, round, slot);
    assert forall|other: int|
        0 <= other < fixtures.len() && #[trigger] fixture_pairing(n, other) == (i, j) implies other
        == k by {
        lemma_fixture_position(n, other);
        lemma_pair_scheduled_once(n, other / h, other % h);
    }
}

/// Every fixture of a schedule is well formed: scheduled, without result.
pub proof fn lemma_schedule_well_formed(
    fixtures: Seq<Fixture>,
    season_id: u128,
    team_ids: Seq<u128>,
    start: int,
)
    requires
        is_schedule(fixtures, season_id, team_ids, start),
    ensures
        forall|k: int| 0 <= k < fixtures.len() ==> (#[trigger] fixtures[k]).well_formed(),
{
}

/// A generated season spans `2 * (n - 1)` weekly rounds: the games of a
/// round kick off together, one week after those of the round before, and
/// the last round is played `2 * (n - 1) - 1` weeks after the first.
pub proof fn lemma_schedule_rounds(
    fixtures: Seq<Fixture>,
    season_id: u128,
    team_ids: Seq<u128>,
    start: int,
    round: int,
    slot: int,
)
    requires
        valid_team_count(team_ids.len() as int),
        is_schedule(fixtures, season_id, team_ids, start),
        valid_slot(team_ids.len() as int, round, slot),
    ensures
        ({
            let n = team_ids.len() as int;
            let k = fixture_index(n, round, slot);
            &&& 0 <= k < fixtures.len()
            &&& fixtures.len() == n * (n - 1)
            &&& fixtures[k].scheduled_time == start + round * SECONDS_PER_WEEK
            &&& is_fixture_of(fixtures[k], season_id, team_ids, start, round, slot)
        }),
{
    let n = team_ids.len() as int;
    lemma_fixture_index(n, round, slot);
}

/// The games of a season fill the fixture list without gaps: the game in
/// `slot` of `round` stands at `fixture_index`, from which round and slot
/// are recovered by division.
pub proof fn lemma_fixture_index(n: int, round: int, slot: int)
    requires
        valid_team_count(n),
        valid_slot(n, round, slot),
    ensures
        0 <= fixture_index(n, round, slot) < fixture_count(n),
        fixture_index(n, round, slot) / games_per_round(n) == round,
        fixture_index(n, round, slot) % games_per_round(n) == slot,
{
    let h = games_per_round(n);
    lemma_fixture_count(n);
    lemma_fundamental_div_mod_converse(fixture_index(n, round, slot), h, round, slot);
    assert(round * h + slot < round_count(n) * h) by (nonlinear_arith)
        requires
            0 <= round < round_count(n),
            0 <= slot < h,
    ;
    assert(0 <= round * h + slot) by (nonlinear_arith)
        requires
            0 <= round,
            0 <= slot,
            0 < h,
    ;
}

/// Every position of the fixture list names a game of the season.
pub proof fn lemma_fixture_position(n: int, k: int)
    requires
        valid_team_count(n),
        0 <= k < fixture_count(n),
    ensures
        valid_slot(n, k / games_per_round(n), k % games_per_round(n)),
        fixture_index(n, k / games_per_round(n), k % games_per_round(n)) == k,
{
    let h = games_per_round(n);
    lemma_fixture_count(n);
    vstd::arithmetic::div_mod::lemma_fundamental_div_mod(k, h);
    vstd::arithmetic::div_mod::lemma_mod_bound(k, h);
    let q = k / h;
    assert(h * q == q * h) by (nonlinear_arith);
    assert(0 <= q < round_count(n)) by (nonlinear_arith)
        requires
            0 <= k < round_count(n) * h,
            k == q * h + k % h,
            0 <= k % h < h,
    ;
}

} // verus!
