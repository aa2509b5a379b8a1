use lingchat::memory_test_api::api::{
    authorized, default_request, release_busy, try_acquire_busy, ApiRejection, PersistenceCheck,
    ValidateResponse,
};
use lingchat::memory_test_api::harness::lines;
use lingchat::types::LineAttribute;
use lingchat::memory_test_api::harness::{scripted_sections, validation_summary, ValidationResult};
use lingchat::memory_test_api::scenarios::known;
use lingchat::memory_test_api::temp_db::{is_test_database_path, PRODUCTION_DATABASE_PATH};
use lingchat::memory_test_api::{handle_command, ready_line};
use lingchat::types::GameMemoryBank;

fn result(committed: bool) -> ValidationResult {
    let mut bank = GameMemoryBank::default();
    bank.data.short_term = "s".into();
    bank.data.long_term = "l".into();
    bank.data.user_info = "u".into();
    bank.data.promises = "p".into();
    ValidationResult {
        triggered: true,
        committed,
        calls: 4,
        bank,
        processed_idx: if committed { 4 } else { 0 },
        tail_lines: 0,
        updating: false,
    }
}

#[test]
fn scenario_names_are_known() {
    assert!(known("basic-compression"));
    assert!(known("memory-finishes-after-line-save"));
    assert!(!known("unknown"));
    assert!(!known(""));
}

#[test]
fn bearer_token_is_required() {
    assert!(authorized(Some("Bearer test-token"), "test-token"));
    assert!(!authorized(Some("Bearer other"), "test-token"));
    assert!(!authorized(Some("test-token"), "test-token"));
    assert!(!authorized(None, "test-token"));
}

#[test]
fn unknown_scenario_is_unprocessable() {
    let mut r = default_request();
    r.scenario = "unknown".into();
    let e = r.accept_for_run(None).unwrap_err();
    assert_eq!(e, ApiRejection::UnknownScenario);
    assert_eq!(e.status_code(), 422);
    assert_eq!(e.error_code(), "unknown_scenario");
}

#[test]
fn route_scenario_and_builtin_settings_apply() {
    let r = default_request();
    let a = r.accept_for_run(Some("one-section-fails".into())).unwrap();
    assert_eq!(a.scenario, "one-section-fails");
    assert_eq!(a.fail_section.as_deref(), Some("promises"));
    assert!(a.fails());

    let a = default_request().accept_for_run(Some("append-during-update".into())).unwrap();
    assert!(a.append_during_update);
    assert_eq!(a.delay_ms, 10);

    let a = default_request().accept_for_run(Some("persistence-roundtrip".into())).unwrap();
    assert!(a.persistence_roundtrip);
    assert!(a.needs_persistence_check(&result(true)));
    assert!(!a.needs_persistence_check(&result(false)));
}

#[test]
fn limits_are_checked_in_order() {
    let mut r = default_request();
    r.scenario = "basic-compression".into();
    r.role_id = 0;
    assert_eq!(r.accept_for_run(None).unwrap_err(), ApiRejection::InvalidRoleId);
    let mut r = default_request();
    r.scenario = "basic-compression".into();
    r.line_count = 10_001;
    assert_eq!(r.accept_for_run(None).unwrap_err(), ApiRejection::TooManyLines);
    let mut r = default_request();
    r.scenario = "basic-compression".into();
    r.delay_ms = 60_001;
    assert_eq!(r.accept_for_run(None).unwrap_err(), ApiRejection::InvalidLimits);
    let mut r = default_request();
    r.scenario = "basic-compression".into();
    r.timeout_ms = 0;
    assert_eq!(r.accept_for_run(None).unwrap_err(), ApiRejection::InvalidLimits);
    assert_eq!(ApiRejection::Busy.status_code(), 429);
    assert_eq!(ApiRejection::Unauthorized.status_code(), 401);
    assert_eq!(ApiRejection::TimedOut.error_code(), "timed_out");
}

#[test]
fn single_validation_slot() {
    let mut busy = false;
    assert!(try_acquire_busy(&mut busy));
    assert!(!try_acquire_busy(&mut busy));
    release_busy(&mut busy);
    assert!(try_acquire_busy(&mut busy));
}

#[test]
fn outcomes_of_completed_validations() {
    let mut r = default_request();
    r.scenario = "basic-compression".into();
    let ok = ValidateResponse::completed(r, result(true), PersistenceCheck::NotRun);
    assert_eq!(ok.outcome, "succeeded");
    assert_eq!(ok.error_code, None);
    assert_eq!(ok.calls, 4);

    let mut r = default_request();
    r.panic_section = Some("promises".into());
    let failed = ValidateResponse::completed(r, result(false), PersistenceCheck::NotRun);
    assert_eq!(failed.outcome, "not_committed");
    assert_eq!(failed.error_code.as_deref(), Some("compression_failed"));

    let persisted =
        ValidateResponse::completed(default_request(), result(true), PersistenceCheck::Passed);
    assert_eq!(persisted.persistence_roundtrip, Some(true));
    let broken = ValidateResponse::completed(
        default_request(),
        result(true),
        PersistenceCheck::Failed("round-trip bank mismatch".into()),
    );
    assert_eq!(broken.outcome, "persistence_failed");
    assert_eq!(broken.error_code.as_deref(), Some("persistence_failed"));

    let run_failed = ValidateResponse::run_failed(default_request(), 2);
    assert_eq!(run_failed.outcome, "not_committed");
    assert_eq!(run_failed.unprocessed_tail_lines, 4);
    assert_eq!(run_failed.error_code.as_deref(), Some("validation_failed"));
    assert_eq!(run_failed.bank, GameMemoryBank::default());
}

#[test]
fn harness_summary_and_sections() {
    assert_eq!(validation_summary(4, 4, 5), (true, 1));
    assert_eq!(validation_summary(0, 4, 4), (false, 4));
    assert_eq!(validation_summary(-1, 4, 4), (false, 4));
    assert_eq!(validation_summary(6, 4, 5), (true, 0));
    let sections = scripted_sections(result(true)).unwrap();
    assert_eq!(sections, ["s".to_string(), "l".into(), "u".into(), "p".into()]);
    assert_eq!(
        scripted_sections(result(false)).unwrap_err(),
        "compression was not committed"
    );
}

#[test]
fn line_protocol_commands() {
    assert_eq!(
        handle_command(" health ").reply,
        Some("{\"ok\":true,\"mode\":\"scripted\",\"api_version\":1}")
    );
    let stop = handle_command("shutdown");
    assert!(stop.stop);
    assert_eq!(stop.reply, Some("{\"ok\":true}"));
    assert_eq!(
        handle_command("nope").reply,
        Some("{\"ok\":false,\"error\":\"unknown_command\"}")
    );
    assert_eq!(handle_command("   ").reply, None);
    assert!(ready_line().contains("\"event\":\"ready\""));
}

#[test]
fn production_database_is_never_a_test_database() {
    assert!(!is_test_database_path(PRODUCTION_DATABASE_PATH));
    assert!(!is_test_database_path("data//game_database.db/"));
    assert!(!is_test_database_path("data/./game_database.db"));
    assert!(is_test_database_path("./data/game_database.db"));
    assert!(is_test_database_path("/tmp/x/game_database.db"));
    assert!(is_test_database_path("/data/game_database.db"));
    assert!(is_test_database_path(""));
}

#[test]
fn harness_lines_are_deterministic_player_lines() {
    let ls = lines(7, 3);
    assert_eq!(ls.len(), 3);
    assert_eq!(ls[0].base.content, "deterministic test line 0");
    assert_eq!(ls[2].base.content, "deterministic test line 2");
    assert_eq!(ls[1].base.sender_role_id, Some(0));
    assert_eq!(ls[1].base.attribute, LineAttribute::User);
    assert_eq!(ls[1].perceived_role_ids, vec![7]);
    assert!(lines(7, 0).is_empty());
}
