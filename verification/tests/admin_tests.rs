use fitness_league::admin::{
    assign_team_to_league, create_league, create_league_season, delete_league_season,
    plan_season, remove_team_from_league, update_league, update_league_season, AdminError,
    CreateLeagueRequest, CreateSeasonRequest, UpdateLeagueRequest, UpdateSeasonRequest,
};
use fitness_league::standings::{StandingsLedger, StandingsRow};

// Saturday 2024-01-06 22:00:00 UTC.
const SATURDAY_22: i64 = 1_704_578_400;
const NOW: i64 = 1_700_000_000;

fn league_request(max_teams: i32) -> CreateLeagueRequest {
    CreateLeagueRequest {
        name: String::from("Premier"),
        description: Some(String::from("Top flight")),
        max_teams,
    }
}

fn season_request(start_date: i64) -> CreateSeasonRequest {
    CreateSeasonRequest { name: String::from("Spring"), start_date }
}

#[test]
fn league_needs_room_for_a_team() {
    assert_eq!(create_league(&league_request(0), 1, NOW), Err(AdminError::InvalidMaxTeams));
    assert_eq!(create_league(&league_request(-4), 1, NOW), Err(AdminError::InvalidMaxTeams));
    let league = create_league(&league_request(4), 77, NOW).unwrap();
    assert_eq!(league.id, 77);
    assert_eq!(league.name, "Premier");
    assert_eq!(league.description, Some(String::from("Top flight")));
    assert_eq!(league.max_teams, 4);
    assert_eq!(league.current_team_count, 0);
    assert_eq!(league.created_at, NOW);
}

#[test]
fn league_update_must_change_something() {
    let empty = UpdateLeagueRequest { name: None, season_start_date: None, season_end_date: None };
    assert_eq!(update_league(&empty), Err(AdminError::NoFieldsToUpdate));
    let name = UpdateLeagueRequest {
        name: Some(String::from("x")),
        season_start_date: None,
        season_end_date: None,
    };
    assert_eq!(update_league(&name), Ok(false));
    let dates = UpdateLeagueRequest { name: None, season_start_date: None, season_end_date: Some(5) };
    assert_eq!(update_league(&dates), Ok(true));
}

#[test]
fn season_update_must_change_something() {
    assert_eq!(
        update_league_season(&UpdateSeasonRequest { name: None, start_date: None }),
        Err(AdminError::NoFieldsToUpdate)
    );
    assert_eq!(
        update_league_season(&UpdateSeasonRequest { name: None, start_date: Some(1) }),
        Ok(())
    );
}

#[test]
fn team_assignment_checks_in_order() {
    assert_eq!(assign_team_to_league(false, false, true), Err(AdminError::LeagueNotFound));
    assert_eq!(assign_team_to_league(true, false, true), Err(AdminError::TeamNotFound));
    assert_eq!(assign_team_to_league(true, true, true), Err(AdminError::TeamAlreadyAssigned));
    assert_eq!(assign_team_to_league(true, true, false), Ok(()));
}

#[test]
fn team_removal_needs_a_removed_row() {
    assert_eq!(remove_team_from_league(&vec![]), Err(AdminError::TeamNotInLeague));
    assert_eq!(remove_team_from_league(&vec![0, 0, 0]), Err(AdminError::TeamNotInLeague));
    assert_eq!(remove_team_from_league(&vec![0, 2, 0]), Ok(()));
    assert_eq!(remove_team_from_league(&vec![u64::MAX, u64::MAX]), Ok(()));
}

#[test]
fn season_deletion_needs_the_season() {
    assert_eq!(delete_league_season(false, 1), Err(AdminError::SeasonNotFound));
    assert_eq!(delete_league_season(true, 0), Err(AdminError::SeasonNotFound));
    assert_eq!(delete_league_season(true, 1), Ok(()));
}

#[test]
fn season_of_four_teams_ends_six_weeks_after_its_start() {
    assert_eq!(plan_season(SATURDAY_22, NOW, 4), Ok(SATURDAY_22 + 6 * 604_800));
    assert_eq!(plan_season(SATURDAY_22, NOW, 2), Ok(SATURDAY_22 + 2 * 604_800));
    assert_eq!(plan_season(SATURDAY_22, NOW, 10), Ok(SATURDAY_22 + 18 * 604_800));
}

#[test]
fn season_checks_come_in_order() {
    assert_eq!(plan_season(NOW, NOW, 3), Err(AdminError::StartNotInFuture));
    assert_eq!(plan_season(NOW - 1, NOW, 4), Err(AdminError::StartNotInFuture));
    assert_eq!(plan_season(SATURDAY_22 + 3_600, NOW, 3), Err(AdminError::InvalidGameTime));
    assert_eq!(plan_season(SATURDAY_22, NOW, 1), Err(AdminError::TooFewTeams));
    assert_eq!(plan_season(SATURDAY_22, NOW, 0), Err(AdminError::TooFewTeams));
    assert_eq!(plan_season(SATURDAY_22, NOW, -2), Err(AdminError::TooFewTeams));
    assert_eq!(plan_season(SATURDAY_22, NOW, 5), Err(AdminError::OddTeamCount));
}

#[test]
fn created_season_has_fixtures_and_standings() {
    let mut ledger = StandingsLedger::new();
    let teams: Vec<u128> = vec![10, 20, 30, 40];
    let created =
        create_league_season(&mut ledger, 3, 9, &season_request(SATURDAY_22), &teams, NOW).unwrap();
    assert_eq!(created.season.id, 9);
    assert_eq!(created.season.league_id, 3);
    assert_eq!(created.season.name, "Spring");
    assert_eq!(created.season.start_date, SATURDAY_22);
    assert_eq!(created.season.end_date, SATURDAY_22 + 6 * 604_800);
    assert_eq!(created.season.total_teams, 4);
    assert_eq!(created.season.games_count, 12);
    assert_eq!(created.season.created_at, NOW);
    assert_eq!(created.fixtures.len(), 12);
    assert!(created.fixtures.iter().all(|f| f.season_id == 9));
    let last = created.fixtures.iter().map(|f| f.scheduled_time).max().unwrap();
    assert_eq!(last, SATURDAY_22 + 5 * 604_800);
    let rows: Vec<StandingsRow> = teams.iter().map(|t| StandingsRow::new(9, *t)).collect();
    assert_eq!(ledger.rows, rows);
}

#[test]
fn rejected_season_creates_nothing() {
    let mut ledger = StandingsLedger::new();
    ledger.seed(1, &vec![10, 20]);
    let before = ledger.clone();
    let odd: Vec<u128> = vec![10, 20, 30];
    assert_eq!(
        create_league_season(&mut ledger, 3, 9, &season_request(SATURDAY_22), &odd, NOW),
        Err(AdminError::OddTeamCount)
    );
    let one: Vec<u128> = vec![10];
    assert_eq!(
        create_league_season(&mut ledger, 3, 9, &season_request(SATURDAY_22), &one, NOW),
        Err(AdminError::TooFewTeams)
    );
    let even: Vec<u128> = vec![10, 20];
    assert_eq!(
        create_league_season(&mut ledger, 3, 9, &season_request(SATURDAY_22 + 1_000), &even, NOW),
        Err(AdminError::InvalidGameTime)
    );
    assert_eq!(
        create_league_season(&mut ledger, 3, 9, &season_request(SATURDAY_22), &even, SATURDAY_22),
        Err(AdminError::StartNotInFuture)
    );
    assert_eq!(ledger, before);
}

#[test]
fn errors_have_messages() {
    assert_eq!(AdminError::InvalidMaxTeams.message(), "max_teams must be greater than 0");
    assert_eq!(AdminError::InvalidGameTime.message(), "Start date must be a Saturday at 22:00 UTC");
    assert_eq!(
        AdminError::OddTeamCount.message(),
        "League must have an even number of teams to create a season"
    );
    assert_eq!(AdminError::TeamNotInLeague.message(), "Team not found in this league");
}
