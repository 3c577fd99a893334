use restore_drill_attestor::attestation::{
    after_attempt, attestation_file_name, build_attestation, candidate_id, config_fingerprint,
    lock_file_name, slug, AttemptDecision, FileAttempt,
};
use restore_drill_attestor::checks::{check_passed, CommandResult, OUTPUT_CAPTURE_LIMIT};
use restore_drill_attestor::config::{Check, CheckKind, Commands, Config, Drill, Target};
use restore_drill_attestor::drill::{start_drill, DrillAction, DrillPhase, DrillProgress, Status};

fn check(name: &str, kind: CheckKind, command: &str) -> Check {
    Check {
        name: name.to_string(),
        kind,
        command: command.to_string(),
        min: None,
        max: None,
        contains: None,
        timeout_seconds: 2,
    }
}

fn valid() -> Config {
    let mut rows = check("rows", CheckKind::RowCount, "printf '12\\n'");
    rows.min = Some(1);
    let mut schema = check("schema", CheckKind::Schema, "printf 'migration-202608\\n'");
    schema.contains = Some("202608".to_string());
    let app = check("app", CheckKind::Application, "true");
    Config {
        version: 1,
        drill: Drill { name: "test database".to_string() },
        target: Target { id: "local-drill".to_string(), isolated: true },
        commands: Commands {
            prepare: Some("true".to_string()),
            restore: "true".to_string(),
            cleanup: "true".to_string(),
            timeout_seconds: 2,
        },
        checks: vec![rows, schema, app],
        attestation_ttl_days: 30,
    }
}

fn outcome(success: bool, stdout: &[u8], duration_ms: u128) -> CommandResult {
    CommandResult { success, stdout: stdout.to_vec(), truncated: false, duration_ms, timed_out: false }
}

/// Runs a drill of `config`, answering each command from `answer`; returns the
/// finished progress and the commands in the order they were asked for.
fn drive(
    config: &Config,
    answer: impl Fn(&str) -> CommandResult,
) -> (DrillProgress, Vec<String>) {
    let mut progress = start_drill(config, &config.target.id, true).unwrap();
    let mut asked = Vec::new();
    loop {
        match progress.next_action(config) {
            DrillAction::Run { command, timeout_seconds, .. } => {
                assert!(timeout_seconds > 0);
                let result = answer(&command);
                asked.push(command);
                progress.record(config, result);
            }
            DrillAction::SkipCleanup => progress.record(config, CommandResult::skipped()),
            DrillAction::Finish => break,
        }
    }
    (progress, asked)
}

fn shell_like(command: &str) -> CommandResult {
    match command {
        "false" => outcome(false, b"", 3),
        "printf '12\\n'" => outcome(true, b"12\n", 4),
        "printf 'migration-202608\\n'" => outcome(true, b"migration-202608\n", 5),
        _ => outcome(true, b"", 1),
    }
}

// 2026-08-28T00:00:00Z
const STARTED: i64 = 1_787_875_200;

#[test]
fn documented_kinds_validate_and_run_without_leaking_values() {
    let cfg = valid();
    let (progress, asked) = drive(&cfg, shell_like);
    assert_eq!(progress.status(), Status::Passed);
    assert_eq!(asked.len(), 6);
    let attestation = build_attestation(&cfg, progress, "source", STARTED, STARTED + 7, 7000);
    assert_eq!(attestation.status, Status::Passed);
    let evidence = format!("{attestation:?}");
    assert!(!evidence.contains("migration-202608"));
    assert!(!evidence.contains("printf"));
    assert!(!evidence.contains("12\\n"));
    assert!(!evidence.contains("test database"));
    assert!(!evidence.contains("local-drill"));
    assert!(!evidence.contains("\"rows\""));
    assert!(!evidence.contains("\"app\""));
}

#[test]
fn cleanup_runs_after_restore_failure_and_attestation_is_written() {
    let mut cfg = valid();
    cfg.commands.restore = "false".to_string();
    let (progress, asked) = drive(&cfg, shell_like);
    assert_eq!(asked, vec!["true", "false", "true"]);
    assert!(progress.checks.is_empty());
    let attestation = build_attestation(&cfg, progress, "source", STARTED, STARTED, 10);
    assert_eq!(attestation.status, Status::Failed);
    assert_eq!(attestation.stages.last().unwrap().stage, "cleanup");
    assert_eq!(attestation.stages.last().unwrap().status, "passed");
}

#[test]
fn failed_prepare_skips_restore_and_checks_but_not_cleanup() {
    let mut cfg = valid();
    cfg.commands.prepare = Some("false".to_string());
    let (progress, asked) = drive(&cfg, shell_like);
    assert_eq!(asked, vec!["false", "true"]);
    let stages: Vec<&str> = progress.stages.iter().map(|s| s.stage).collect();
    assert_eq!(stages, vec!["prepare", "cleanup"]);
    assert_eq!(progress.stages[0].status, "failed");
    assert_eq!(progress.status(), Status::Failed);
    assert_eq!(progress.status().exit_code(), 3);
}

#[test]
fn failed_check_keeps_running_later_checks() {
    let mut cfg = valid();
    cfg.checks[0].max = Some(11);
    let (progress, asked) = drive(&cfg, shell_like);
    assert_eq!(asked.len(), 6);
    let statuses: Vec<&str> = progress.checks.iter().map(|c| c.status).collect();
    assert_eq!(statuses, vec!["failed", "passed", "passed"]);
    assert_eq!(progress.checks[1].name, "check-2");
    assert_eq!(progress.checks[1].kind, CheckKind::Schema);
    assert_eq!(progress.checks[1].duration_ms, 5);
    assert_eq!(progress.status(), Status::Failed);
}

#[test]
fn failed_cleanup_outranks_everything() {
    let mut cfg = valid();
    cfg.commands.cleanup = "false".to_string();
    cfg.commands.restore = "false".to_string();
    let (progress, _) = drive(&cfg, shell_like);
    assert_eq!(progress.status(), Status::CleanupFailed);
    assert_eq!(progress.status().exit_code(), 4);
    assert_eq!(progress.status().label(), "CLEANUP FAILED");
}

#[test]
fn drill_without_prepare_starts_with_restore() {
    let mut cfg = valid();
    cfg.commands.prepare = None;
    let progress = start_drill(&cfg, "local-drill", true).unwrap();
    assert_eq!(progress.phase, DrillPhase::Restore);
    let (progress, asked) = drive(&cfg, shell_like);
    assert_eq!(asked.len(), 5);
    assert_eq!(progress.status(), Status::Passed);
    assert_eq!(progress.status().exit_code(), 0);
    assert_eq!(progress.status().label(), "PASSED");
}

#[test]
fn timed_out_stage_is_recorded_as_such() {
    let cfg = valid();
    let (progress, _) = drive(&cfg, |command| {
        if command == "printf '12\\n'" {
            CommandResult { success: false, stdout: b"12\n".to_vec(), truncated: false, duration_ms: 2000, timed_out: true }
        } else {
            shell_like(command)
        }
    });
    assert_eq!(progress.checks[0].status, "failed");
    let mut cfg = valid();
    cfg.commands.restore = "slow".to_string();
    let (progress, _) = drive(&cfg, |command| {
        if command == "slow" {
            CommandResult { success: false, stdout: Vec::new(), truncated: false, duration_ms: 2000, timed_out: true }
        } else {
            shell_like(command)
        }
    });
    assert_eq!(progress.stages[1].stage, "restore");
    assert_eq!(progress.stages[1].status, "timed_out");
    assert_eq!(progress.stages[1].duration_ms, 2000);
}

#[test]
fn skipped_result_is_a_quiet_success() {
    let r = CommandResult::skipped();
    assert!(r.success);
    assert!(!r.timed_out);
    assert!(r.stdout.is_empty());
    assert_eq!(r.duration_ms, 0);
}

#[test]
fn row_count_reads_an_integer_within_bounds() {
    let mut rows = check("rows", CheckKind::RowCount, "c");
    rows.min = Some(1);
    rows.max = Some(12);
    let passes = |out: &[u8]| check_passed(&rows, &outcome(true, out, 1));
    assert!(passes(b"12\n"));
    assert!(passes(b"  +7\t\r\n"));
    assert!(passes(b"0001"));
    assert!(!passes(b"13"));
    assert!(!passes(b"0"));
    assert!(!passes(b"1 2"));
    assert!(!passes(b"+"));
    assert!(!passes(b""));
    assert!(!passes(b"twelve"));
    assert!(!passes(b"\xff12"));
    assert!(passes("\u{3000}5\u{a0}".as_bytes()));
    assert!(!check_passed(&rows, &outcome(false, b"5", 1)));

    let mut low = check("low", CheckKind::RowCount, "c");
    low.max = Some(0);
    let passes = |out: &[u8]| check_passed(&low, &outcome(true, out, 1));
    assert!(passes(b"-9223372036854775808"));
    assert!(!passes(b"-9223372036854775809"));
    assert!(!passes(b"99999999999999999999999"));
    assert!(passes(b"-0"));

    let mut high = check("high", CheckKind::RowCount, "c");
    high.min = Some(0);
    let passes = |out: &[u8]| check_passed(&high, &outcome(true, out, 1));
    assert!(passes(b"9223372036854775807"));
    assert!(!passes(b"9223372036854775808"));
}

#[test]
fn schema_check_looks_for_its_text() {
    let mut schema = check("schema", CheckKind::Schema, "c");
    schema.contains = Some("account_id".to_string());
    let passes = |out: &[u8]| check_passed(&schema, &outcome(true, out, 1));
    assert!(passes(b"id\taccount_id\tname\n"));
    assert!(!passes(b"id\taccount\tname\n"));
    assert!(!passes(b"\xc3account_id"));
    assert!(!check_passed(&schema, &CommandResult {
        success: true,
        stdout: b"account_id".to_vec(),
        truncated: false,
        duration_ms: 1,
        timed_out: true,
    }));
    schema.contains = None;
    assert!(!check_passed(&schema, &outcome(true, b"account_id", 1)));
}

#[test]
fn command_checks_pass_on_success_only() {
    let app = check("app", CheckKind::Application, "c");
    assert!(check_passed(&app, &outcome(true, b"anything", 1)));
    assert!(!check_passed(&app, &outcome(false, b"", 1)));
    let cmd = check("cmd", CheckKind::Command, "c");
    assert!(check_passed(&cmd, &outcome(true, b"\xff", 1)));
}

#[test]
fn attestation_records_times_fingerprint_and_id() {
    let cfg = valid();
    let (progress, _) = drive(&cfg, shell_like);
    let attestation = build_attestation(&cfg, progress, "", STARTED, STARTED + 61, 61_000);
    assert_eq!(attestation.schema_version, 1);
    assert_eq!(attestation.attestation_id, "drill-20260828T000000Z");
    assert_eq!(attestation.started_at, "2026-08-28T00:00:00Z");
    assert_eq!(attestation.completed_at, "2026-08-28T00:01:01Z");
    assert_eq!(attestation.fresh_until, "2026-09-27T00:01:01Z");
    assert_eq!(
        attestation.config_sha256,
        "e3b0c44298fc1c149afbf4c8996fb92427ae41e4649b934ca495991b7852b855"
    );
    assert_eq!(attestation.tool.name, "restore-drill-attestor");
    assert_eq!(attestation.tool.version, "0.1.0");
    assert_eq!(attestation.drill, "drill");
    assert_eq!(attestation.target_id, "target");
    let names: Vec<&str> = attestation.checks.iter().map(|c| c.name.as_str()).collect();
    assert_eq!(names, vec!["check-1", "check-2", "check-3"]);
    assert_eq!(attestation.duration_ms, 61_000);
    assert_eq!(attestation.stages.len(), 3);
    assert_eq!(attestation.checks.len(), 3);
    assert_eq!(
        attestation.privacy,
        "No commands, stdout, stderr, query results, schema values, or secrets recorded."
    );
}

#[test]
fn fresh_until_stays_at_completion_past_the_calendar() {
    let mut cfg = valid();
    cfg.attestation_ttl_days = u64::MAX;
    let (progress, _) = drive(&cfg, shell_like);
    let attestation = build_attestation(&cfg, progress, "x", STARTED, STARTED, 1);
    assert_eq!(attestation.fresh_until, attestation.completed_at);
}

#[test]
fn fingerprint_is_the_sha256_of_the_file() {
    assert_eq!(
        config_fingerprint("abc"),
        "ba7816bf8f01cfea414140de5dae2223b00361a396177a9cb410ff61f20015ad"
    );
}

#[test]
fn slugs_keep_lowercase_letters_and_digits() {
    assert_eq!(slug("test database"), "test-database");
    assert_eq!(slug("  Primary__Postgres 2 "), "primary-postgres-2");
    assert_eq!(slug("---"), "");
    assert_eq!(slug(""), "");
    assert_eq!(slug("Ünïcode db"), "n-code-db");
}

#[test]
fn immediate_runs_get_distinct_candidate_ids() {
    assert_eq!(candidate_id("drill-20260828T000000Z", 1), "drill-20260828T000000Z");
    assert_eq!(candidate_id("drill-20260828T000000Z", 2), "drill-20260828T000000Z-2");
    assert_eq!(candidate_id("d", 10), "d-10");
    assert_eq!(attestation_file_name("d-10"), "d-10.json");
}

#[test]
fn unrunnable_command_still_leads_to_cleanup() {
    for broken in ["true-prepare", "false-restore", "printf 'migration-202608\\n'"] {
        let mut cfg = valid();
        cfg.commands.prepare = Some("true-prepare".to_string());
        cfg.commands.restore = "false-restore".to_string();
        cfg.commands.restore = if broken == "false-restore" { broken.to_string() } else { "true".to_string() };
        let mut progress = start_drill(&cfg, "local-drill", true).unwrap();
        let mut asked = Vec::new();
        loop {
            match progress.next_action(&cfg) {
                DrillAction::Run { command, .. } => {
                    asked.push(command.clone());
                    if command == broken {
                        progress.record_unfinished(&cfg, 9);
                    } else {
                        progress.record(&cfg, shell_like(&command));
                    }
                }
                DrillAction::SkipCleanup => progress.record(&cfg, CommandResult::skipped()),
                DrillAction::Finish => break,
            }
        }
        assert_eq!(asked.last().unwrap(), "true");
        assert_eq!(progress.stages.last().unwrap().stage, "cleanup");
        assert_eq!(progress.status(), Status::Failed);
        assert!(asked.iter().filter(|c| c.as_str() == broken).count() == 1);
    }
    let cfg = valid();
    let mut progress = start_drill(&cfg, "local-drill", true).unwrap();
    progress.record(&cfg, shell_like("true"));
    progress.record_unfinished(&cfg, 4);
    assert_eq!(progress.phase, DrillPhase::Cleanup);
    assert_eq!(progress.stages[1].status, "failed");
    assert_eq!(progress.stages[1].duration_ms, 4);
    progress.record_unfinished(&cfg, 5);
    assert_eq!(progress.stages[2].stage, "cleanup");
    assert_eq!(progress.stages[2].duration_ms, 5);
    assert_eq!(progress.phase, DrillPhase::Complete);
    assert_eq!(progress.status(), Status::CleanupFailed);
}

#[test]
fn held_lock_refuses_before_any_command() {
    let cfg = valid();
    let error = start_drill(&cfg, "local-drill", false).unwrap_err();
    assert_eq!(
        error.message(),
        "another drill run holds the lock of target.id \"local-drill\"; refusing to start"
    );
    assert_eq!(error.exit_code(), 2);
    let name = lock_file_name("local-drill");
    assert!(name.starts_with("restore-drill-") && name.ends_with(".lock"));
    assert!(!name.contains("local-drill"));
    assert_eq!(name.len(), "restore-drill-".len() + 64 + ".lock".len());
    assert_ne!(name, lock_file_name("local-drill2"));
}

#[test]
fn only_row_and_schema_checks_capture_output() {
    let cfg = valid();
    let mut progress = start_drill(&cfg, "local-drill", true).unwrap();
    let mut captures = Vec::new();
    loop {
        match progress.next_action(&cfg) {
            DrillAction::Run { command, capture_output, .. } => {
                captures.push(capture_output);
                progress.record(&cfg, shell_like(&command));
            }
            DrillAction::SkipCleanup => progress.record(&cfg, CommandResult::skipped()),
            DrillAction::Finish => break,
        }
    }
    assert_eq!(captures, vec![false, false, true, true, false, false]);
}

#[test]
fn cut_off_output_fails_row_and_schema_checks() {
    let mut schema = check("schema", CheckKind::Schema, "c");
    schema.contains = Some("account_id".to_string());
    let mut long = b"account_id\n".to_vec();
    long.resize(OUTPUT_CAPTURE_LIMIT + 1, b'x');
    assert!(!check_passed(&schema, &outcome(true, &long, 1)));
    long.truncate(OUTPUT_CAPTURE_LIMIT);
    assert!(check_passed(&schema, &outcome(true, &long, 1)));
    let cut = CommandResult { truncated: true, ..outcome(true, b"account_id", 1) };
    assert!(!check_passed(&schema, &cut));

    let mut rows = check("rows", CheckKind::RowCount, "c");
    rows.min = Some(1);
    let cut = CommandResult { truncated: true, ..outcome(true, b"5", 1) };
    assert!(!check_passed(&rows, &cut));
    let app = check("app", CheckKind::Application, "c");
    let cut = CommandResult { truncated: true, ..outcome(true, b"5", 1) };
    assert!(check_passed(&app, &cut));
}

#[test]
fn attempts_move_past_taken_files_only() {
    assert_eq!(after_attempt(1, FileAttempt::Created), AttemptDecision::Write);
    assert_eq!(after_attempt(1, FileAttempt::AlreadyExists), AttemptDecision::TryNext(2));
    assert_eq!(after_attempt(7, FileAttempt::Failed), AttemptDecision::GiveUp);
    assert_eq!(after_attempt(u32::MAX, FileAttempt::AlreadyExists), AttemptDecision::GiveUp);
}

#[test]
fn slug_of_a_slug_is_the_same() {
    for v in ["test database", "  A__b 2 ", "x", "---", "Ünïcode db"] {
        assert_eq!(slug(&slug(v)), slug(v));
    }
}
