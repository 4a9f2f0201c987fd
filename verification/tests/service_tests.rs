use fitness_league::auth::{
    login_user, role_from_name, status_from_name, token_expiration, LoginOutcome, UserRole,
    UserStatus,
};
use fitness_league::ids::{parse_user_id, user_id_from, InvalidId};
use fitness_league::ingestion::{
    total_stat_points, upload_health_data, UploadAction, UploadEvent, UploadReply, UploadStage,
};
use fitness_league::live::StatChanges;
use fitness_league::sync::{
    check_workout_sync_status, contains_text, CheckSyncStatusRequest, SyncStatusResponse,
};
use fitness_league::teams::{page_limit, register_new_team, update_team_information, TeamError};

fn strings(items: &[&str]) -> Vec<String> {
    items.iter().map(|s| String::from(*s)).collect()
}

#[test]
fn user_id_is_read_from_a_uuid() {
    assert_eq!(
        parse_user_id("550e8400-e29b-41d4-a716-446655440000"),
        Ok(0x550e8400_e29b_41d4_a716_446655440000u128)
    );
    assert_eq!(
        parse_user_id("550e8400e29b41d4a716446655440000"),
        Ok(0x550e8400_e29b_41d4_a716_446655440000u128)
    );
    assert_eq!(parse_user_id("00000000-0000-0000-0000-000000000000"), Ok(0));
    let id = uuid::Uuid::from_u128(0xa1a2a3a4_b1b2_c1c2_d1d2_d3d4d5d6d7d8);
    assert_eq!(parse_user_id(&id.to_string()), Ok(0xa1a2a3a4_b1b2_c1c2_d1d2_d3d4d5d6d7d8));
}

#[test]
fn other_text_is_no_user_id() {
    assert_eq!(parse_user_id(""), Err(InvalidId));
    assert_eq!(parse_user_id("ann"), Err(InvalidId));
    assert_eq!(parse_user_id("550e8400-e29b-41d4-a716-44665544000"), Err(InvalidId));
    assert_eq!(parse_user_id("550e8400-e29b-41d4-a716-44665544000g"), Err(InvalidId));
    assert_eq!(user_id_from(None), Err(InvalidId));
    assert_eq!(user_id_from(Some(7)), Ok(7));
}

#[test]
fn unsynced_workouts_are_those_not_stored() {
    let request = CheckSyncStatusRequest { workout_uuids: strings(&["a", "b", "c", "b", "d"]) };
    let response = check_workout_sync_status(&request, strings(&["b", "x", "d"]));
    assert_eq!(
        response,
        SyncStatusResponse {
            synced_workouts: strings(&["b", "x", "d"]),
            unsynced_workouts: strings(&["a", "c"]),
        }
    );
    let nothing = check_workout_sync_status(&CheckSyncStatusRequest { workout_uuids: vec![] }, vec![]);
    assert!(nothing.synced_workouts.is_empty());
    assert!(nothing.unsynced_workouts.is_empty());
    let all = check_workout_sync_status(&request, vec![]);
    assert_eq!(all.unsynced_workouts, strings(&["a", "b", "c", "b", "d"]));
    assert!(contains_text(&strings(&["a", "b"]), &String::from("b")));
    assert!(!contains_text(&strings(&["a", "b"]), &String::from("ab")));
}

#[test]
fn upload_runs_through_its_stages() {
    let arrived = UploadEvent::Arrived { user_known: true, names_workout: true };
    assert_eq!(
        upload_health_data(UploadStage::Received, arrived),
        Some((UploadStage::CheckingDuplicate, UploadAction::CheckDuplicate))
    );
    assert_eq!(
        upload_health_data(
            UploadStage::CheckingDuplicate,
            UploadEvent::DuplicateChecked { known: Some(false) }
        ),
        Some((UploadStage::ApplyingStats, UploadAction::ApplyStats))
    );
    assert_eq!(
        upload_health_data(UploadStage::ApplyingStats, UploadEvent::StatsApplied { stored: true }),
        Some((UploadStage::Storing, UploadAction::UpdateLiveGamesAndStore))
    );
    assert_eq!(
        upload_health_data(UploadStage::Storing, UploadEvent::DataStored { stored: true }),
        Some((UploadStage::Answered, UploadAction::PublishAndReply(UploadReply::Synced)))
    );
}

#[test]
fn upload_without_workout_name_skips_the_duplicate_check() {
    let arrived = UploadEvent::Arrived { user_known: true, names_workout: false };
    assert_eq!(
        upload_health_data(UploadStage::Received, arrived),
        Some((UploadStage::ApplyingStats, UploadAction::ApplyStats))
    );
}

#[test]
fn upload_failures_are_answered_at_once() {
    let reply = |r| Some((UploadStage::Answered, UploadAction::Reply(r)));
    assert_eq!(
        upload_health_data(
            UploadStage::Received,
            UploadEvent::Arrived { user_known: false, names_workout: true }
        ),
        reply(UploadReply::InvalidUserId)
    );
    assert_eq!(
        upload_health_data(
            UploadStage::CheckingDuplicate,
            UploadEvent::DuplicateChecked { known: Some(true) }
        ),
        reply(UploadReply::Duplicate)
    );
    assert_eq!(
        upload_health_data(
            UploadStage::CheckingDuplicate,
            UploadEvent::DuplicateChecked { known: None }
        ),
        reply(UploadReply::DuplicateCheckFailed)
    );
    assert_eq!(
        upload_health_data(UploadStage::ApplyingStats, UploadEvent::StatsApplied { stored: false }),
        reply(UploadReply::StatsUpdateFailed)
    );
    assert_eq!(
        upload_health_data(UploadStage::Storing, UploadEvent::DataStored { stored: false }),
        reply(UploadReply::SyncFailed)
    );
}

#[test]
fn events_out_of_turn_are_ignored() {
    assert_eq!(
        upload_health_data(UploadStage::Received, UploadEvent::DataStored { stored: true }),
        None
    );
    assert_eq!(
        upload_health_data(
            UploadStage::Answered,
            UploadEvent::Arrived { user_known: true, names_workout: true }
        ),
        None
    );
    assert_eq!(
        upload_health_data(UploadStage::Storing, UploadEvent::StatsApplied { stored: true }),
        None
    );
}

#[test]
fn replies_have_status_and_message() {
    assert_eq!(UploadReply::Synced.status_code(), 200);
    assert_eq!(UploadReply::Duplicate.status_code(), 200);
    assert_eq!(UploadReply::InvalidUserId.status_code(), 500);
    assert_eq!(UploadReply::SyncFailed.status_code(), 500);
    assert_eq!(UploadReply::InvalidUserId.message(), "Invalid user ID");
    assert_eq!(UploadReply::StatsUpdateFailed.message(), "Failed to update avatar stats");
    assert_eq!(total_stat_points(&StatChanges { stamina_change: 5, strength_change: 3 }), 8);
    assert_eq!(
        total_stat_points(&StatChanges { stamina_change: i32::MAX, strength_change: i32::MAX }),
        4_294_967_294
    );
}

#[test]
fn roles_and_statuses_are_read_from_their_names() {
    assert_eq!(role_from_name("superadmin"), UserRole::SuperAdmin);
    assert_eq!(role_from_name("admin"), UserRole::Admin);
    assert_eq!(role_from_name("moderator"), UserRole::Moderator);
    assert_eq!(role_from_name("user"), UserRole::User);
    assert_eq!(role_from_name("Admin"), UserRole::User);
    assert_eq!(role_from_name(""), UserRole::User);
    assert_eq!(status_from_name("inactive"), UserStatus::Inactive);
    assert_eq!(status_from_name("suspended"), UserStatus::Suspended);
    assert_eq!(status_from_name("banned"), UserStatus::Banned);
    assert_eq!(status_from_name("active"), UserStatus::Active);
    assert_eq!(status_from_name("unknown"), UserStatus::Active);
}

#[test]
fn tokens_last_a_day() {
    assert_eq!(token_expiration(1_700_000_000), Some(1_700_086_400));
    assert_eq!(token_expiration(i64::MAX - 86_400), Some(i64::MAX));
    assert_eq!(token_expiration(i64::MAX - 86_399), None);
}

#[test]
fn sign_in_ends_in_one_of_three_ways() {
    assert_eq!(login_user(None, true, true), LoginOutcome::Failed);
    assert_eq!(login_user(Some(false), true, true), LoginOutcome::Unauthorized);
    assert_eq!(login_user(Some(true), false, true), LoginOutcome::Unauthorized);
    assert_eq!(login_user(Some(true), true, false), LoginOutcome::Failed);
    assert_eq!(login_user(Some(true), true, true), LoginOutcome::Granted);
    assert_eq!(LoginOutcome::Granted.status_code(), 200);
    assert_eq!(LoginOutcome::Unauthorized.status_code(), 401);
    assert_eq!(LoginOutcome::Failed.status_code(), 500);
}

#[test]
fn team_registration_checks_in_order() {
    assert_eq!(register_new_team(false, false, true, true), Err(TeamError::InvalidRequest));
    assert_eq!(register_new_team(true, false, true, true), Err(TeamError::InvalidUserId));
    assert_eq!(register_new_team(true, true, true, true), Err(TeamError::AlreadyHasTeam));
    assert_eq!(register_new_team(true, true, false, true), Err(TeamError::NameTaken));
    assert_eq!(register_new_team(true, true, false, false), Ok(()));
    assert_eq!(TeamError::NameTaken.status_code(), 409);
    assert_eq!(TeamError::InvalidRequest.status_code(), 400);
}

#[test]
fn only_the_owner_changes_a_team() {
    assert_eq!(update_team_information(false, Some(1), Some(1)), Err(TeamError::InvalidRequest));
    assert_eq!(update_team_information(true, None, Some(1)), Err(TeamError::InvalidUserId));
    assert_eq!(update_team_information(true, Some(1), None), Err(TeamError::TeamNotFound));
    assert_eq!(update_team_information(true, Some(1), Some(2)), Err(TeamError::NotOwner));
    assert_eq!(update_team_information(true, Some(1), Some(1)), Ok(()));
    assert_eq!(TeamError::NotOwner.status_code(), 403);
    assert_eq!(TeamError::TeamNotFound.status_code(), 404);
}

#[test]
fn page_limit_is_capped() {
    assert_eq!(page_limit(None), 20);
    assert_eq!(page_limit(Some(5)), 5);
    assert_eq!(page_limit(Some(100)), 100);
    assert_eq!(page_limit(Some(101)), 100);
    assert_eq!(page_limit(Some(-3)), -3);
}
