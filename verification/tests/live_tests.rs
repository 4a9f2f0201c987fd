use fitness_league::live::{
    check_and_update_live_games, get_user_team_id, LiveError, LiveGame, LiveGameScoreUpdate,
    LiveGameService, Membership, PlayerContribution, ScoringPolicy, StatChanges,
};
use fitness_league::model::GameStatus;

const HOME: u128 = 100;
const AWAY: u128 = 200;

fn service() -> LiveGameService {
    LiveGameService::new(ScoringPolicy {
        score_per_stamina: 2,
        score_per_strength: 3,
        power_per_stamina: 1,
        power_per_strength: 1,
    })
}

fn game(status: GameStatus) -> LiveGame {
    LiveGame {
        id: 1,
        game_id: 11,
        home_team_id: HOME,
        away_team_id: AWAY,
        home_team_name: String::from("Lions"),
        away_team_name: String::from("Tigers"),
        home_score: 0,
        away_score: 0,
        home_power: 0,
        away_power: 0,
        status,
        contributions: vec![],
    }
}

fn member(user_id: u128, team_id: u128) -> Membership {
    Membership { user_id, team_id, active: true }
}

fn update(user_id: u128, team_id: u128, score: u64, power: u64) -> LiveGameScoreUpdate {
    LiveGameScoreUpdate {
        user_id,
        username: String::from("ann"),
        team_id,
        score_increase: score,
        power_increase: power,
        stamina_gained: 0,
        strength_gained: 0,
        description: String::new(),
    }
}

#[test]
fn increments_follow_the_policy() {
    let s = service();
    assert_eq!(s.calculate_score_from_stats(5, 3), 19);
    assert_eq!(s.calculate_power_from_stats(5, 3), 8);
    assert_eq!(s.calculate_score_from_stats(0, 0), 0);
    assert_eq!(s.calculate_score_from_stats(-5, 3), 9);
    assert_eq!(s.calculate_score_from_stats(5, -3), 10);
    assert_eq!(s.calculate_score_from_stats(i32::MIN, i32::MIN), 0);
}

#[test]
fn increments_never_run_over() {
    let s = LiveGameService::new(ScoringPolicy {
        score_per_stamina: u32::MAX,
        score_per_strength: u32::MAX,
        power_per_stamina: 0,
        power_per_strength: 0,
    });
    assert_eq!(
        s.calculate_score_from_stats(i32::MAX, i32::MAX),
        2 * (i32::MAX as u64) * (u32::MAX as u64)
    );
    assert_eq!(s.calculate_power_from_stats(i32::MAX, i32::MAX), 0);
}

#[test]
fn larger_gains_never_earn_less() {
    let s = service();
    let mut last = 0;
    for stamina in -3..20 {
        let score = s.calculate_score_from_stats(stamina, 4);
        assert!(score >= last);
        last = score;
    }
}

#[test]
fn side_is_taken_from_membership() {
    let g = game(GameStatus::InProgress);
    let memberships = vec![member(1, HOME), member(2, AWAY), member(3, 300)];
    assert_eq!(get_user_team_id(1, &g, &memberships), Ok(HOME));
    assert_eq!(get_user_team_id(2, &g, &memberships), Ok(AWAY));
    assert_eq!(get_user_team_id(3, &g, &memberships), Err(LiveError::NotParticipant));
    assert_eq!(get_user_team_id(4, &g, &memberships), Err(LiveError::NotParticipant));
}

#[test]
fn inactive_membership_does_not_count() {
    let g = game(GameStatus::InProgress);
    let memberships = vec![Membership { user_id: 1, team_id: HOME, active: false }];
    assert_eq!(get_user_team_id(1, &g, &memberships), Err(LiveError::NotParticipant));
    let both = vec![Membership { user_id: 1, team_id: HOME, active: false }, member(1, AWAY)];
    assert_eq!(get_user_team_id(1, &g, &both), Ok(AWAY));
}

#[test]
fn earlier_contribution_pins_the_side() {
    let mut g = game(GameStatus::InProgress);
    g.contributions.push(PlayerContribution { user_id: 1, team_id: HOME });
    let moved = vec![member(1, AWAY)];
    assert_eq!(get_user_team_id(1, &g, &moved), Ok(HOME));
    assert_eq!(get_user_team_id(1, &g, &vec![]), Ok(HOME));
}

#[test]
fn contribution_is_added_to_its_side() {
    let s = service();
    let mut g = game(GameStatus::InProgress);
    assert_eq!(s.handle_score_update(&mut g, &update(1, HOME, 19, 8)), Ok(()));
    assert_eq!((g.home_score, g.home_power, g.away_score, g.away_power), (19, 8, 0, 0));
    assert_eq!(s.handle_score_update(&mut g, &update(2, AWAY, 5, 2)), Ok(()));
    assert_eq!(s.handle_score_update(&mut g, &update(1, HOME, 1, 1)), Ok(()));
    assert_eq!((g.home_score, g.home_power, g.away_score, g.away_power), (20, 9, 5, 2));
    assert_eq!(
        g.contributions,
        vec![
            PlayerContribution { user_id: 1, team_id: HOME },
            PlayerContribution { user_id: 2, team_id: AWAY }
        ]
    );
    assert_eq!(g.home_team_name, "Lions");
    assert_eq!(g.away_team_name, "Tigers");
    assert_eq!(g.status, GameStatus::InProgress);
}

#[test]
fn contribution_outside_a_running_game_is_turned_down() {
    let s = service();
    for status in [GameStatus::Scheduled, GameStatus::Finished] {
        let mut g = game(status);
        let before = g.clone();
        assert_eq!(
            s.handle_score_update(&mut g, &update(1, HOME, 1, 1)),
            Err(LiveError::NotInProgress)
        );
        assert_eq!(g, before);
    }
}

#[test]
fn contribution_for_a_third_team_is_turned_down() {
    let s = service();
    let mut g = game(GameStatus::InProgress);
    let before = g.clone();
    assert_eq!(s.handle_score_update(&mut g, &update(1, 300, 1, 1)), Err(LiveError::NotParticipant));
    assert_eq!(g, before);
}

#[test]
fn contribution_that_would_run_over_is_turned_down() {
    let s = service();
    let mut g = game(GameStatus::InProgress);
    g.away_power = u64::MAX - 1;
    let before = g.clone();
    assert_eq!(s.handle_score_update(&mut g, &update(1, AWAY, 1, 2)), Err(LiveError::CounterFull));
    assert_eq!(g, before);
    assert_eq!(s.handle_score_update(&mut g, &update(1, AWAY, 1, 1)), Ok(()));
    assert_eq!(g.away_power, u64::MAX);
}

#[test]
fn totals_do_not_depend_on_arrival_order() {
    let s = service();
    let updates = vec![
        update(1, HOME, 19, 8),
        update(2, AWAY, 5, 2),
        update(3, HOME, 7, 1),
        update(4, AWAY, 11, 9),
        update(1, HOME, 2, 2),
    ];
    let orders: [[usize; 5]; 4] = [[0, 1, 2, 3, 4], [4, 3, 2, 1, 0], [2, 0, 4, 1, 3], [1, 3, 0, 2, 4]];
    for order in orders {
        let mut g = game(GameStatus::InProgress);
        for k in order {
            assert_eq!(s.handle_score_update(&mut g, &updates[k]), Ok(()));
        }
        assert_eq!((g.home_score, g.home_power), (28, 11));
        assert_eq!((g.away_score, g.away_power), (16, 11));
    }
}

#[test]
fn active_games_are_running_games_of_the_users_teams() {
    let s = service();
    let mut other = game(GameStatus::InProgress);
    other.home_team_id = 300;
    other.away_team_id = 400;
    let games = vec![
        game(GameStatus::InProgress),
        game(GameStatus::Scheduled),
        other,
        game(GameStatus::Finished),
    ];
    let memberships = vec![member(1, AWAY), member(2, 400)];
    assert_eq!(s.get_user_active_games(1, &games, &memberships), vec![true, false, false, false]);
    assert_eq!(s.get_user_active_games(2, &games, &memberships), vec![false, false, true, false]);
    assert_eq!(s.get_user_active_games(3, &games, &memberships), vec![false; 4]);
}

#[test]
fn upload_is_credited_to_every_active_game() {
    let s = service();
    let mut full = game(GameStatus::InProgress);
    full.home_score = u64::MAX;
    let mut games = vec![game(GameStatus::InProgress), game(GameStatus::Finished), full];
    let memberships = vec![member(1, HOME)];
    let changes = StatChanges { stamina_change: 5, strength_change: 3 };
    let outcomes = check_and_update_live_games(1, "ann", &changes, &s, &mut games, &memberships);
    assert_eq!(outcomes, vec![Some(Ok(HOME)), None, Some(Err(LiveError::CounterFull))]);
    assert_eq!((games[0].home_score, games[0].home_power), (19, 8));
    assert_eq!((games[0].away_score, games[0].away_power), (0, 0));
    assert_eq!(games[0].contributions, vec![PlayerContribution { user_id: 1, team_id: HOME }]);
    assert_eq!(games[1], game(GameStatus::Finished));
    assert_eq!(games[2].home_score, u64::MAX);
    assert!(games[2].contributions.is_empty());
}

#[test]
fn upload_of_a_stranger_changes_nothing() {
    let s = service();
    let mut games = vec![game(GameStatus::InProgress)];
    let changes = StatChanges { stamina_change: 5, strength_change: 3 };
    let outcomes = check_and_update_live_games(9, "zed", &changes, &s, &mut games, &vec![]);
    assert_eq!(outcomes, vec![None]);
    assert_eq!(games[0], game(GameStatus::InProgress));
}

#[test]
fn pinned_side_outside_the_game_is_skipped() {
    let s = service();
    let mut g = game(GameStatus::InProgress);
    g.contributions.push(PlayerContribution { user_id: 1, team_id: 300 });
    let mut games = vec![g.clone()];
    let changes = StatChanges { stamina_change: 1, strength_change: 1 };
    let outcomes =
        check_and_update_live_games(1, "ann", &changes, &s, &mut games, &vec![member(1, HOME)]);
    assert_eq!(outcomes, vec![Some(Err(LiveError::NotParticipant))]);
    assert_eq!(games[0], g);
}

#[test]
fn score_update_is_written_up() {
    let s = service();
    let changes = StatChanges { stamina_change: 5, strength_change: 3 };
    let u = s.score_update_for(1, "ann", HOME, &changes);
    assert_eq!(
        u,
        LiveGameScoreUpdate {
            user_id: 1,
            username: String::from("ann"),
            team_id: HOME,
            score_increase: 19,
            power_increase: 8,
            stamina_gained: 5,
            strength_gained: 3,
            description: String::from("Workout upload: +5 stamina, +3 strength"),
        }
    );
    let v = s.score_update_for(1, "ann", HOME, &StatChanges { stamina_change: -2, strength_change: 0 });
    assert_eq!(v.description, "Workout upload: +-2 stamina, +0 strength");
    assert_eq!(v.score_increase, 0);
}
