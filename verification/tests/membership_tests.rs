use fitness_league::evaluation::{EvaluationFailure, League};
use fitness_league::game_evaluator::{
    GameEvaluator, MemberStats, StatsUnavailable, TeamPower, TeamStatsRow,
};
use fitness_league::live::{
    LiveError, LiveGame, LiveGameService, Membership, PlayerContribution, ScoringPolicy,
    StatChanges,
};
use fitness_league::model::{Fixture, GameStatus, MatchResult};
use fitness_league::schedule::generate_schedule;
use fitness_league::standings::StandingsLedger;

// Saturday 2024-01-06 22:00:00 UTC, and the day it falls on.
const SATURDAY_22: i64 = 1_704_578_400;
const FIRST_DAY: i64 = 19_728;

fn member(user_id: u128, team_id: u128, stamina: i32, strength: i32) -> MemberStats {
    MemberStats { user_id, team_id, active: true, stamina, strength }
}

#[test]
fn team_figures_are_counted_and_summed() {
    let members = vec![
        member(1, 10, 50, 70),
        member(2, 20, 40, 40),
        member(3, 10, 60, 60),
        MemberStats { user_id: 4, team_id: 10, active: false, stamina: 900, strength: 900 },
    ];
    assert_eq!(
        GameEvaluator::read_team_stats(&members, 10),
        Ok(Some(TeamStatsRow { team_id: 10, member_count: Some(2), total_power: Some(240) }))
    );
    assert_eq!(
        GameEvaluator::team_power_from_members(&members, 10),
        Ok(TeamPower { team_id: 10, total_power: 240, member_count: 2, average_power: 120 })
    );
    assert_eq!(
        GameEvaluator::team_power_from_members(&members, 20),
        Ok(TeamPower { team_id: 20, total_power: 80, member_count: 1, average_power: 80 })
    );
}

#[test]
fn team_without_active_members_has_no_line_and_no_power() {
    let members = vec![MemberStats { user_id: 4, team_id: 10, active: false, stamina: 9, strength: 9 }];
    assert_eq!(GameEvaluator::read_team_stats(&members, 10), Ok(None));
    assert_eq!(GameEvaluator::read_team_stats(&vec![], 10), Ok(None));
    assert_eq!(
        GameEvaluator::team_power_from_members(&members, 10),
        Ok(TeamPower { team_id: 10, total_power: 0, member_count: 0, average_power: 0 })
    );
}

#[test]
fn extreme_stats_are_summed_exactly() {
    let members = vec![member(1, 10, i32::MAX, i32::MAX), member(2, 10, i32::MAX, i32::MAX)];
    assert_eq!(
        GameEvaluator::read_team_stats(&members, 10),
        Ok(Some(TeamStatsRow {
            team_id: 10,
            member_count: Some(2),
            total_power: Some(4 * (i32::MAX as i64)),
        }))
    );
    let low = vec![member(1, 10, i32::MIN, i32::MIN)];
    assert_eq!(
        GameEvaluator::read_team_stats(&low, 10),
        Ok(Some(TeamStatsRow {
            team_id: 10,
            member_count: Some(1),
            total_power: Some(2 * (i32::MIN as i64)),
        }))
    );
    assert_ne!(GameEvaluator::read_team_stats(&low, 10), Err(StatsUnavailable));
}

#[test]
fn a_day_is_evaluated_from_the_membership_table() {
    let teams: Vec<u128> = vec![10, 20, 30, 40];
    let fixtures = generate_schedule(1, &teams, SATURDAY_22).unwrap();
    let mut ledger = StandingsLedger::new();
    ledger.seed(1, &teams);
    let mut league = League { fixtures, ledger };
    let members = vec![
        member(1, 10, 60, 60),
        member(2, 40, 40, 40),
        member(3, 20, 50, 50),
        member(4, 30, 100, 0),
        member(5, 30, 50, 50),
    ];
    let readings = league.read_powers(&members);
    assert_eq!(readings.len(), 12);
    assert_eq!(readings[0].game_id, league.fixtures[0].id);
    assert_eq!(readings[0].powers.unwrap().0.average_power, 120);
    assert_eq!(readings[0].powers.unwrap().1.average_power, 80);

    let summary = league.evaluate_day(FIRST_DAY, &members);
    assert_eq!(summary.games_evaluated, 2);
    assert_eq!(summary.games_updated, 2);
    assert!(summary.errors.is_empty());
    assert_eq!(summary.game_results[0].home_result, MatchResult::Win);
    assert_eq!(summary.game_results[0].away_result, MatchResult::Loss);
    assert_eq!(summary.game_results[0].winner_team_id, Some(10));
    assert_eq!(summary.game_results[1].home_result, MatchResult::Draw);
    assert_eq!(summary.game_results[1].away_result, MatchResult::Draw);
    assert_eq!(summary.game_results[1].winner_team_id, None);
    let points = |l: &League, team: u128| l.ledger.rows[l.ledger.find(1, team).unwrap()].points;
    let draws = |l: &League, team: u128| l.ledger.rows[l.ledger.find(1, team).unwrap()].draws;
    assert_eq!((points(&league, 10), points(&league, 40)), (3, 0));
    assert_eq!((points(&league, 20), points(&league, 30)), (1, 1));
    assert_eq!((draws(&league, 20), draws(&league, 30)), (1, 1));

    let again = league.evaluate_day(FIRST_DAY, &members);
    assert_eq!(again.games_evaluated, 0);
    assert_eq!((points(&league, 20), points(&league, 30)), (1, 1));
}

#[test]
fn unknown_teams_fail_their_fixture_only() {
    let teams: Vec<u128> = vec![10, 20, 30, 40];
    let fixtures = generate_schedule(1, &teams, SATURDAY_22).unwrap();
    let mut ledger = StandingsLedger::new();
    ledger.seed(1, &vec![20, 30]);
    let mut league = League { fixtures, ledger };
    let summary = league.evaluate_day(FIRST_DAY, &vec![]);
    assert_eq!(summary.games_evaluated, 2);
    assert_eq!(summary.games_updated, 1);
    assert_eq!(summary.errors.len(), 1);
    assert_eq!(summary.errors[0].game_id, league.fixtures[0].id);
    assert_eq!(summary.errors[0].reason, EvaluationFailure::UnknownTeam);
    assert_eq!(league.fixtures[0].status, GameStatus::Scheduled);
    assert_eq!(league.fixtures[1].status, GameStatus::Finished);
}

#[test]
fn live_game_starts_without_score() {
    let fixture = Fixture {
        id: 11,
        season_id: 1,
        home_team_id: 100,
        away_team_id: 200,
        scheduled_time: SATURDAY_22,
        status: GameStatus::Scheduled,
        home_score: None,
        away_score: None,
        winner_team_id: None,
    };
    let game = LiveGame::kick_off(5, &fixture, String::from("Lions"), String::from("Tigers"));
    assert_eq!(
        game,
        LiveGame {
            id: 5,
            game_id: 11,
            home_team_id: 100,
            away_team_id: 200,
            home_team_name: String::from("Lions"),
            away_team_name: String::from("Tigers"),
            home_score: 0,
            away_score: 0,
            home_power: 0,
            away_power: 0,
            status: GameStatus::InProgress,
            contributions: vec![],
        }
    );
}

#[test]
fn contribution_goes_to_the_users_side() {
    let service = LiveGameService::new(ScoringPolicy {
        score_per_stamina: 2,
        score_per_strength: 3,
        power_per_stamina: 1,
        power_per_strength: 1,
    });
    let fixture = Fixture {
        id: 11,
        season_id: 1,
        home_team_id: 100,
        away_team_id: 200,
        scheduled_time: SATURDAY_22,
        status: GameStatus::InProgress,
        home_score: None,
        away_score: None,
        winner_team_id: None,
    };
    let mut game = LiveGame::kick_off(5, &fixture, String::from("Lions"), String::from("Tigers"));
    let memberships = vec![Membership { user_id: 1, team_id: 200, active: true }];
    let changes = StatChanges { stamina_change: 5, strength_change: 3 };
    assert_eq!(service.apply_contribution(&mut game, 1, "ann", &changes, &memberships), Ok(200));
    assert_eq!((game.away_score, game.away_power), (19, 8));
    assert_eq!((game.home_score, game.home_power), (0, 0));
    assert_eq!(game.contributions, vec![PlayerContribution { user_id: 1, team_id: 200 }]);

    // The user has moved to the other team and still plays for the first side.
    let moved = vec![Membership { user_id: 1, team_id: 100, active: true }];
    assert_eq!(service.apply_contribution(&mut game, 1, "ann", &changes, &moved), Ok(200));
    assert_eq!((game.away_score, game.away_power), (38, 16));

    let before = game.clone();
    assert_eq!(
        service.apply_contribution(&mut game, 2, "bob", &changes, &moved),
        Err(LiveError::NotParticipant)
    );
    assert_eq!(game, before);
    game.status = GameStatus::Finished;
    assert_eq!(
        service.apply_contribution(&mut game, 1, "ann", &changes, &moved),
        Err(LiveError::NotInProgress)
    );
}
