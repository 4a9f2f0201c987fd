//! The pairing rule of a double round-robin among an even number of teams.
//!
//! Teams are referred to by their position `0..n` in the roster. The last
//! team stays fixed while the other `n - 1` rotate around it (the circle
//! method). Round `r` of the first leg pairs the fixed team with team `r`,
//! and pairs the teams `s` places ahead of and behind `r` on the circle for
//! every slot `s >= 1`. The second leg repeats the first with home and away
//! exchanged.

use vstd::prelude::*;

verus! {

/// A roster size for which a season can be scheduled: even and at least two.
pub open spec fn valid_team_count(n: int) -> bool {
    n >= 2 && n % 2 == 0
}

/// Position `x` on a circle of `m` places, for `0 <= x < 2 * m`.
pub open spec fn wrap_up(x: int, m: int) -> int {
    if x >= m {
        x - m
    } else {
        x
    }
}

/// Position `x` on a circle of `m` places, for `-m < x < m`.
pub open spec fn wrap_down(x: int, m: int) -> int {
    if x < 0 {
        x + m
    } else {
        x
    }
}

/// Number of rounds of a double round-robin among `n` teams.
pub open spec fn round_count(n: int) -> int {
    2 * (n - 1)
}

/// Number of games played in each round.
pub open spec fn games_per_round(n: int) -> int {
    n / 2
}

/// Number of games of a whole season: every team hosts every other once.
pub open spec fn fixture_count(n: int) -> int {
    n * (n - 1)
}

/// `round` and `slot` name a game of a season among `n` teams.
pub open spec fn valid_slot(n: int, round: int, slot: int) -> bool {
    0 <= round < round_count(n) && 0 <= slot < games_per_round(n)
}

/// The (home, away) roster positions of the game in `slot` of first-leg round `r`.
pub open spec fn first_leg(n: int, r: int, slot: int) -> (int, int) {
    if slot == 0 {
        (r, n - 1)
    } else {
        (wrap_up(r + slot, n - 1), wrap_down(r - slot, n - 1))
    }
}

/// The (home, away) roster positions of the game in `slot` of `round`.
pub open spec fn pairing(n: int, round: int, slot: int) -> (int, int) {
    if round < n - 1 {
        first_leg(n, round, slot)
    } else {
        let p = first_leg(n, round - (n - 1), slot);
        (p.1, p.0)
    }
}

/// The first-leg round in which teams `i` and `j` meet.
pub open spec fn first_leg_round(n: int, i: int, j: int) -> int {
    let m = n - 1;
    if i == m {
        j
    } else if j == m {
        i
    } else if (i + j) % 2 == 0 {
        (i + j) / 2
    } else if i + j < m {
        (i + j + m) / 2
    } else {
        (i + j - m) / 2
    }
}

/// The slot in which teams `i` and `j` meet.
pub open spec fn meeting_slot(n: int, i: int, j: int) -> int {
    let m = n - 1;
    let lo = if i < j { i } else { j };
    let hi = if i < j { j } else { i };
    if hi == m {
        0
    } else if (i + j) % 2 == 0 {
        (hi - lo) / 2
    } else {
        (lo - hi + m) / 2
    }
}

/// The round in which team `i` hosts team `j`.
pub open spec fn meeting_round(n: int, i: int, j: int) -> int {
    let r = first_leg_round(n, i, j);
    if first_leg(n, r, meeting_slot(n, i, j)) == (i, j) {
        r
    } else {
        r + (n - 1)
    }
}

/// The slot in which team `t` plays in `round`.
pub open spec fn team_slot(n: int, round: int, t: int) -> int {
    let m = n - 1;
    let r = if round < m {
        round
    } else {
        round - m
    };
    if t == m || t == r {
        0
    } else {
        let ahead = wrap_down(t - r, m);
        if 2 * ahead <= m - 1 {
            ahead
        } else {
            m - ahead
        }
    }
}

/// The games of a season fill its rounds: `2 * (n - 1)` rounds of `n / 2`
/// games are `n * (n - 1)` games.
pub proof fn lemma_fixture_count(n: int)
    requires
        valid_team_count(n),
    ensures
        fixture_count(n) == round_count(n) * games_per_round(n),
        fixture_count(n) == n * (n - 1),
        round_count(n) == 2 * (n - 1),
{
    let h = n / 2;
    assert(n == 2 * h);
    assert((2 * (n - 1)) * h == (2 * h) * (n - 1)) by (nonlinear_arith);
}

/// Every game is between two different teams of the roster.
pub proof fn lemma_pairing_valid(n: int, round: int, slot: int)
    requires
        valid_team_count(n),
        valid_slot(n, round, slot),
    ensures
        0 <= pairing(n, round, slot).0 < n,
        0 <= pairing(n, round, slot).1 < n,
        pairing(n, round, slot).0 != pairing(n, round, slot).1,
{
    let m = n - 1;
    let r = if round < m {
        round
    } else {
        round - m
    };
    lemma_first_leg_unique(n, r, slot);
}

/// In every round every team plays: team `t` is one of the two teams of
/// the game in slot `team_slot(n, round, t)`.
pub proof fn lemma_every_team_plays(n: int, round: int, t: int)
    requires
        valid_team_count(n),
        0 <= round < round_count(n),
        0 <= t < n,
    ensures
        valid_slot(n, round, team_slot(n, round, t)),
        pairing(n, round, team_slot(n, round, t)).0 == t || pairing(
            n,
            round,
            team_slot(n, round, t),
        ).1 == t,
{
    let m = n - 1;
    let r = if round < m {
        round
    } else {
        round - m
    };
    let slot = team_slot(n, round, t);
    if t != m && t != r {
        let ahead = wrap_down(t - r, m);
        assert(1 <= ahead <= m - 1);
        if 2 * ahead <= m - 1 {
            assert(first_leg(n, r, slot).0 == t);
        } else {
            assert(first_leg(n, r, slot).1 == t);
        }
    }
}

/// Within one round no team plays twice: two different slots share no team.
pub proof fn lemma_round_is_matching(n: int, round: int, s1: int, s2: int)
    requires
        valid_team_count(n),
        valid_slot(n, round, s1),
        valid_slot(n, round, s2),
        s1 != s2,
    ensures
        pairing(n, round, s1).0 != pairing(n, round, s2).0,
        pairing(n, round, s1).0 != pairing(n, round, s2).1,
        pairing(n, round, s1).1 != pairing(n, round, s2).0,
        pairing(n, round, s1).1 != pairing(n, round, s2).1,
{
    let m = n - 1;
    let r = if round < m {
        round
    } else {
        round - m
    };
    lemma_first_leg_offsets(n, r, s1);
    lemma_first_leg_offsets(n, r, s2);
}

/// Where the two teams of a first-leg game stand on the circle, counted
/// from the round's own position: the fixed team aside, slot `s` holds the
/// teams `s` places ahead and `s` places behind.
proof fn lemma_first_leg_offsets(n: int, r: int, slot: int)
    requires
        valid_team_count(n),
        0 <= r < n - 1,
        0 <= slot < games_per_round(n),
    ensures
        ({
            let q = first_leg(n, r, slot);
            let m = n - 1;
            &&& slot == 0 ==> q == (r, m)
            &&& slot > 0 ==> 0 <= q.0 < m && 0 <= q.1 < m
            &&& slot > 0 ==> wrap_down(q.0 - r, m) == slot
            &&& slot > 0 ==> wrap_down(q.1 - r, m) == m - slot
            &&& 2 * slot <= m - 1
        }),
{
    let m = n - 1;
    assert(n == 2 * (n / 2));
    if slot > 0 {
        let ahead = wrap_up(r + slot, m);
        let behind = wrap_down(r - slot, m);
        if r + slot >= m {
            assert(ahead - r == slot - m);
        } else {
            assert(ahead - r == slot);
        }
        if r - slot < 0 {
            assert(behind - r == m - slot);
        } else {
            assert(behind - r == -slot);
        }
    }
}

/// Two different teams meet in the first leg: in round
/// `first_leg_round`, slot `meeting_slot`, one of them is at home to the
/// other.
proof fn lemma_first_leg_meeting(n: int, lo: int, hi: int)
    requires
        valid_team_count(n),
        0 <= lo < hi < n,
    ensures
        first_leg_round(n, lo, hi) == first_leg_round(n, hi, lo),
        meeting_slot(n, lo, hi) == meeting_slot(n, hi, lo),
        0 <= first_leg_round(n, lo, hi) < n - 1,
        0 <= meeting_slot(n, lo, hi) < games_per_round(n),
        first_leg(n, first_leg_round(n, lo, hi), meeting_slot(n, lo, hi)) == (lo, hi) || first_leg(
            n,
            first_leg_round(n, lo, hi),
            meeting_slot(n, lo, hi),
        ) == (hi, lo),
{
    let m = n - 1;
    let r = first_leg_round(n, lo, hi);
    let k = meeting_slot(n, lo, hi);
    if hi == m {
        assert(r == lo && k == 0);
        assert(first_leg(n, r, k) == (lo, hi));
    } else if (lo + hi) % 2 == 0 {
        assert(2 * r == lo + hi);
        assert(2 * k == hi - lo);
        assert(r + k == hi && r - k == lo);
        assert(first_leg(n, r, k) == (hi, lo));
    } else if lo + hi < m {
        assert(2 * r == lo + hi + m);
        assert(2 * k == lo - hi + m);
        assert(r + k == lo + m && r - k == hi);
        assert(first_leg(n, r, k) == (lo, hi));
    } else {
        assert(2 * r == lo + hi - m);
        assert(2 * k == lo - hi + m);
        assert(r + k == lo && r - k == hi - m);
        assert(first_leg(n, r, k) == (lo, hi));
    }
}

/// Every ordered pair of different teams has its game: team `i` hosts team
/// `j` in round `meeting_round(n, i, j)`, slot `meeting_slot(n, i, j)`.
pub proof fn lemma_every_pair_scheduled(n: int, i: int, j: int)
    requires
        valid_team_count(n),
        0 <= i < n,
        0 <= j < n,
        i != j,
    ensures
        valid_slot(n, meeting_round(n, i, j), meeting_slot(n, i, j)),
        pairing(n, meeting_round(n, i, j), meeting_slot(n, i, j)) == (i, j),
{
    if i < j {
        lemma_first_leg_meeting(n, i, j);
    } else {
        lemma_first_leg_meeting(n, j, i);
    }
}

/// No ordered pair of teams is scheduled twice: a game in which `i` hosts
/// `j` is the one in round `meeting_round(n, i, j)`, slot `meeting_slot(n, i, j)`.
pub proof fn lemma_pair_scheduled_once(n: int, round: int, slot: int)
    requires
        valid_team_count(n),
        valid_slot(n, round, slot),
    ensures
        ({
            let p = pairing(n, round, slot);
            round == meeting_round(n, p.0, p.1) && slot == meeting_slot(n, p.0, p.1)
        }),
{
    let m = n - 1;
    let r = if round < m {
        round
    } else {
        round - m
    };
    let q = first_leg(n, r, slot);
    lemma_first_leg_unique(n, r, slot);
    let p = pairing(n, round, slot);
    if round < m {
        assert(p == q);
    } else {
        assert(p == (q.1, q.0));
        assert(first_leg_round(n, p.0, p.1) == first_leg_round(n, p.1, p.0));
        assert(meeting_slot(n, p.0, p.1) == meeting_slot(n, p.1, p.0));
    }
}

/// A game of the first leg is found again from its two teams.
proof fn lemma_first_leg_unique(n: int, r: int, slot: int)
    requires
        valid_team_count(n),
        0 <= r < n - 1,
        0 <= slot < games_per_round(n),
    ensures
        ({
            let q = first_leg(n, r, slot);
            &&& 0 <= q.0 < n
            &&& 0 <= q.1 < n
            &&& q.0 != q.1
            &&& first_leg_round(n, q.0, q.1) == r
            &&& first_leg_round(n, q.1, q.0) == r
            &&& meeting_slot(n, q.0, q.1) == slot
            &&& meeting_slot(n, q.1, q.0) == slot
        }),
{
    let m = n - 1;
    let q = first_leg(n, r, slot);
    if slot == 0 {
        assert(q == (r, m));
    } else {
        let ahead = wrap_up(r + slot, m);
        let behind = wrap_down(r - slot, m);
        assert(q == (ahead, behind));
        assert(2 * slot <= m - 1);
        if r + slot >= m {
            assert(ahead == r + slot - m);
            assert(behind == r - slot);
            assert(ahead + behind == 2 * r - m);
            assert((ahead + behind) % 2 != 0);
            assert(ahead < behind);
            assert(ahead + behind < m);
            assert((ahead + behind + m) / 2 == r);
            assert((ahead - behind + m) / 2 == slot);
        } else if r - slot < 0 {
            assert(ahead == r + slot);
            assert(behind == r - slot + m);
            assert(ahead + behind == 2 * r + m);
            assert((ahead + behind) % 2 != 0);
            assert(ahead < behind);
            assert(ahead + behind >= m);
            assert((ahead + behind - m) / 2 == r);
            assert((ahead - behind + m) / 2 == slot);
        } else {
            assert(ahead == r + slot);
            assert(behind == r - slot);
            assert(ahead + behind == 2 * r);
            assert((ahead + behind) % 2 == 0);
            assert((ahead + behind) / 2 == r);
            assert((ahead - behind) / 2 == slot);
        }
    }
}

} // verus!
