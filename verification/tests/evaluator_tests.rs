use fitness_league::game_evaluator::{
    GameEvaluator, GameOutcome, PendingGame, TeamPower, TeamStatsRow,
};
use fitness_league::model::MatchResult;

fn power(team_id: u128, average_power: u32) -> TeamPower {
    TeamPower { team_id, total_power: average_power * 2, member_count: 2, average_power }
}

fn stats(team_id: u128, members: i64, total: i64) -> Option<TeamStatsRow> {
    Some(TeamStatsRow { team_id, member_count: Some(members), total_power: Some(total) })
}

fn pending(game_id: u128, home: i64, away: i64) -> PendingGame {
    PendingGame {
        game_id,
        home_team_id: 1,
        away_team_id: 2,
        scheduled_time: 0,
        home_team_name: String::from("Lions"),
        away_team_name: String::from("Tigers"),
        home_stats: stats(1, 2, home),
        away_stats: stats(2, 2, away),
    }
}

#[test]
fn stronger_home_team_wins() {
    let stats = GameEvaluator::calc_game_outcome(&power(1, 120), &power(2, 80));
    assert_eq!(stats.home_team_result, MatchResult::Win);
    assert_eq!(stats.away_team_result, MatchResult::Loss);
    assert_eq!(stats.winner_team_id, Some(1));
    assert_eq!(stats.home_team_score, 120);
    assert_eq!(stats.away_team_score, 80);
    assert_eq!(stats.home_score, 120);
    assert_eq!(stats.away_score, 80);
    assert_eq!(stats.game_id, 0);
    assert_eq!(stats.home_team_name, "");
    assert_eq!(stats.away_team_name, "");
}

#[test]
fn stronger_away_team_wins() {
    let stats = GameEvaluator::calc_game_outcome(&power(1, 79), &power(2, 80));
    assert_eq!(stats.home_team_result, MatchResult::Loss);
    assert_eq!(stats.away_team_result, MatchResult::Win);
    assert_eq!(stats.winner_team_id, Some(2));
}

#[test]
fn equal_power_is_a_draw_without_winner() {
    let stats = GameEvaluator::calc_game_outcome(&power(1, 100), &power(2, 100));
    assert_eq!(stats.home_team_result, MatchResult::Draw);
    assert_eq!(stats.away_team_result, MatchResult::Draw);
    assert_eq!(stats.winner_team_id, None);
    assert_eq!(stats.home_team_score, 100);
    assert_eq!(stats.away_team_score, 100);
}

#[test]
fn evaluation_from_the_other_side_is_the_mirror_image() {
    for (a, b) in [(120u32, 80u32), (80, 120), (100, 100), (0, 0), (0, 1), (u32::MAX, 0)] {
        let x = GameOutcome::decide(3, &power(1, a), &power(2, b));
        let y = GameOutcome::decide(3, &power(2, b), &power(1, a));
        assert_eq!(x.home_score, y.away_score);
        assert_eq!(x.away_score, y.home_score);
        assert_eq!(x.home_result, y.away_result);
        assert_eq!(x.away_result, y.home_result);
        assert_eq!(x.home_result.opposite(), x.away_result);
        assert_eq!(x.winner_team_id, y.winner_team_id);
        assert_eq!(x.game_id, 3);
    }
}

#[test]
fn average_power_is_rounded_down() {
    let p = GameEvaluator::calc_team_power(9, stats(9, 3, 100));
    assert_eq!(p, TeamPower { team_id: 9, total_power: 100, member_count: 3, average_power: 33 });
    let q = GameEvaluator::calc_team_power(9, stats(9, 4, 3));
    assert_eq!(q.average_power, 0);
    let r = GameEvaluator::calc_team_power(9, stats(9, 1, 250));
    assert_eq!(r.average_power, 250);
}

#[test]
fn team_without_members_has_no_power() {
    let p = GameEvaluator::calc_team_power(9, stats(9, 0, 500));
    assert_eq!(p.average_power, 0);
    assert_eq!(p.total_power, 500);
    let q = GameEvaluator::calc_team_power(9, None);
    assert_eq!(q, TeamPower { team_id: 9, total_power: 0, member_count: 0, average_power: 0 });
    let r = GameEvaluator::calc_team_power(
        9,
        Some(TeamStatsRow { team_id: 9, member_count: None, total_power: None }),
    );
    assert_eq!(r, TeamPower { team_id: 9, total_power: 0, member_count: 0, average_power: 0 });
}

#[test]
fn team_power_takes_the_team_of_the_row() {
    let p = GameEvaluator::calc_team_power(9, stats(12, 2, 10));
    assert_eq!(p.team_id, 12);
}

#[test]
fn stored_figures_keep_their_low_32_bits() {
    let p = GameEvaluator::calc_team_power(9, stats(9, 2, (1i64 << 32) + 10));
    assert_eq!(p.total_power, 10);
    assert_eq!(p.average_power, 5);
    let q = GameEvaluator::calc_team_power(9, stats(9, 1, -1));
    assert_eq!(q.total_power, u32::MAX);
}

#[test]
fn evaluate_game_reads_both_teams() {
    let s = GameEvaluator::evaluate_game(1, stats(1, 2, 240), 2, stats(2, 2, 160));
    assert_eq!(s.home_team_score, 120);
    assert_eq!(s.away_team_score, 80);
    assert_eq!(s.winner_team_id, Some(1));
    let t = GameEvaluator::evaluate_game(1, None, 2, None);
    assert_eq!(t.home_team_result, MatchResult::Draw);
    assert_eq!(t.winner_team_id, None);
    assert_eq!(t.outcome().home_score, 0);
}

#[test]
fn todays_games_are_evaluated_in_order() {
    let games = vec![pending(11, 240, 160), pending(12, 100, 100), pending(13, 10, 30)];
    let results = GameEvaluator::evaluate_todays_games(&games);
    assert_eq!(results.len(), 3);
    assert_eq!(results[0].0, 11);
    assert_eq!(results[0].1.winner_team_id, Some(1));
    assert_eq!(results[0].1.game_id, 0);
    assert_eq!(results[0].1.home_team_name, "");
    assert_eq!(results[1].0, 12);
    assert_eq!(results[1].1.winner_team_id, None);
    assert_eq!(results[2].0, 13);
    assert_eq!(results[2].1.winner_team_id, Some(2));
    assert_eq!(results[2].1.home_team_score, 5);
    assert_eq!(results[2].1.away_team_score, 15);
    assert!(GameEvaluator::evaluate_todays_games(&vec![]).is_empty());
}

#[test]
fn games_for_a_date_carry_identifier_and_names() {
    let games = vec![pending(11, 240, 160), pending(12, 100, 100)];
    let results = GameEvaluator::evaluate_games_for_date(&games);
    assert_eq!(results.len(), 2);
    assert_eq!(results[0].game_id, 11);
    assert_eq!(results[0].home_team_name, "Lions");
    assert_eq!(results[0].away_team_name, "Tigers");
    assert_eq!(results[0].home_team_result, MatchResult::Win);
    assert_eq!(results[0].home_score, 120);
    assert_eq!(results[1].game_id, 12);
    assert_eq!(results[1].home_team_result, MatchResult::Draw);
    assert_eq!(results[1].outcome().game_id, 12);
}

#[test]
fn results_have_labels() {
    assert_eq!(MatchResult::Win.label(), "win");
    assert_eq!(MatchResult::Draw.label(), "draw");
    assert_eq!(MatchResult::Loss.label(), "loss");
    assert_eq!(MatchResult::Win.opposite(), MatchResult::Loss);
    assert_eq!(MatchResult::Draw.opposite(), MatchResult::Draw);
}
