use restore_drill_attestor::config::{
    default_timeout, default_ttl, validate_config, Check, CheckKind, Commands, Config, Drill,
    Error, Target, DEFAULT_TIMEOUT_SECONDS,
};
use restore_drill_attestor::drill::start_drill;

fn check(name: &str, kind: CheckKind, command: &str) -> Check {
    Check {
        name: name.to_string(),
        kind,
        command: command.to_string(),
        min: None,
        max: None,
        contains: None,
        timeout_seconds: 2,
    }
}

/// A drill file that meets every rule: one check of each documented kind.
fn valid() -> Config {
    let mut rows = check("rows", CheckKind::RowCount, "printf '12\\n'");
    rows.min = Some(1);
    let mut schema = check("schema", CheckKind::Schema, "printf 'migration-202608\\n'");
    schema.contains = Some("202608".to_string());
    let app = check("app", CheckKind::Application, "true");
    Config {
        version: 1,
        drill: Drill { name: "test database".to_string() },
        target: Target { id: "local-drill".to_string(), isolated: true },
        commands: Commands {
            prepare: Some("true".to_string()),
            restore: "true".to_string(),
            cleanup: "true".to_string(),
            timeout_seconds: 2,
        },
        checks: vec![rows, schema, app],
        attestation_ttl_days: 30,
    }
}

fn refusal(config: &Config) -> String {
    match validate_config(config) {
        Ok(()) => panic!("configuration was accepted"),
        Err(error) => {
            assert_eq!(error.exit_code(), 2);
            assert_eq!(error.kind_label(), "configuration");
            error.message()
        }
    }
}

#[test]
fn refuses_non_isolated_and_production_named_targets() {
    let mut cfg = valid();
    cfg.target.isolated = false;
    assert!(validate_config(&cfg).is_err());
    cfg.target.isolated = true;
    cfg.target.id = "customer-production".into();
    assert!(validate_config(&cfg).is_err());
}

#[test]
fn refuses_concatenated_production_named_targets() {
    for target in ["production01", "prodwest", "livedb", "myproductionbackup"] {
        let mut cfg = valid();
        cfg.target.id = target.into();
        let error = validate_config(&cfg).unwrap_err();
        assert!(
            error.message().contains("production-like"),
            "unexpected error for {target}: {}",
            error.message()
        );
    }
}

#[test]
fn exact_confirmation_is_mandatory() {
    let cfg = valid();
    let error = start_drill(&cfg, "almost-local-drill", true).unwrap_err();
    assert!(error.message().contains("exactly equal"));
}

#[test]
fn confirmation_refusal_names_the_target() {
    let cfg = valid();
    let error = start_drill(&cfg, "local-drill ", true).unwrap_err();
    assert_eq!(
        error.message(),
        "confirmation refused: --confirm must exactly equal target.id \"local-drill\""
    );
    assert!(start_drill(&cfg, "local-drill", true).is_ok());
}

#[test]
fn unsafe_configuration_is_refused_before_confirmation() {
    let mut cfg = valid();
    cfg.target.id = "production01".into();
    let error = start_drill(&cfg, "production01", false).unwrap_err();
    assert!(matches!(error, Error::Config(_)));
    assert_eq!(
        error.message(),
        "target.id looks production-like; use a clearly disposable drill target"
    );
}

#[test]
fn documented_configuration_is_accepted() {
    assert!(validate_config(&valid()).is_ok());
}

#[test]
fn defaults_match_the_documentation() {
    assert_eq!(default_ttl(), 30);
    assert_eq!(default_timeout(), 900);
    assert_eq!(DEFAULT_TIMEOUT_SECONDS, 900);
}

#[test]
fn unsupported_version_is_named() {
    let mut cfg = valid();
    cfg.version = 2;
    assert_eq!(refusal(&cfg), "unsupported config version 2; expected 1");
    cfg.version = 0;
    assert_eq!(refusal(&cfg), "unsupported config version 0; expected 1");
    cfg.version = 255;
    assert_eq!(refusal(&cfg), "unsupported config version 255; expected 1");
}

#[test]
fn blank_fields_are_refused_in_order() {
    let mut cfg = valid();
    cfg.drill.name = " \t\n".into();
    cfg.target.id = String::new();
    assert_eq!(refusal(&cfg), "drill.name must not be empty");
    cfg.drill.name = "d".into();
    assert_eq!(refusal(&cfg), "target.id must not be empty");
    cfg.target.id = "t".into();
    cfg.commands.restore = "\u{3000}".into();
    assert_eq!(refusal(&cfg), "commands.restore must not be empty");
    cfg.commands.restore = "true".into();
    cfg.commands.cleanup = "\u{a0} ".into();
    assert_eq!(refusal(&cfg), "commands.cleanup must not be empty");
}

#[test]
fn isolation_is_checked_before_the_target_name() {
    let mut cfg = valid();
    cfg.target.id = "LIVE-db".into();
    cfg.target.isolated = false;
    assert_eq!(
        refusal(&cfg),
        "target.isolated must be true; production and shared targets are refused"
    );
    cfg.target.isolated = true;
    assert_eq!(
        refusal(&cfg),
        "target.id looks production-like; use a clearly disposable drill target"
    );
    cfg.target.id = "pro-d".into();
    assert!(validate_config(&cfg).is_ok());
}

#[test]
fn zero_limits_and_missing_checks_are_refused() {
    let mut cfg = valid();
    cfg.commands.timeout_seconds = 0;
    assert_eq!(refusal(&cfg), "commands.timeout_seconds must be greater than zero");
    cfg.commands.timeout_seconds = 5;
    cfg.attestation_ttl_days = 0;
    assert_eq!(refusal(&cfg), "attestation_ttl_days must be greater than zero");
    cfg.checks.clear();
    assert_eq!(refusal(&cfg), "at least one recovery check is required");
}

#[test]
fn check_rules_name_the_check() {
    let mut cfg = valid();
    cfg.checks[1].name = "rows".into();
    assert_eq!(refusal(&cfg), "check name \"rows\" is duplicated");

    let mut cfg = valid();
    cfg.checks[0].name = " ".into();
    assert_eq!(refusal(&cfg), "checks[].name must not be empty");

    let mut cfg = valid();
    cfg.checks[2].command = String::new();
    assert_eq!(refusal(&cfg), "checks[].command must not be empty");

    let mut cfg = valid();
    cfg.checks[1].timeout_seconds = 0;
    assert_eq!(refusal(&cfg), "check \"schema\" timeout_seconds must be greater than zero");

    let mut cfg = valid();
    cfg.checks[0].min = None;
    assert_eq!(refusal(&cfg), "row_count check \"rows\" needs min, max, or both");

    let mut cfg = valid();
    cfg.checks[0].min = Some(5);
    cfg.checks[0].max = Some(4);
    assert_eq!(refusal(&cfg), "row_count check \"rows\" has min greater than max");

    let mut cfg = valid();
    cfg.checks[1].contains = Some(String::new());
    assert_eq!(refusal(&cfg), "schema check \"schema\" needs a non-empty contains value");

    let mut cfg = valid();
    cfg.checks[1].contains = None;
    assert_eq!(refusal(&cfg), "schema check \"schema\" needs a non-empty contains value");

    let mut cfg = valid();
    cfg.checks[2].max = Some(1);
    assert_eq!(refusal(&cfg), "check \"app\" has fields that do not apply to its kind");

    let mut cfg = valid();
    cfg.checks[2].kind = CheckKind::Command;
    cfg.checks[2].name = "say \"hi\"".into();
    cfg.checks[2].contains = Some("x".into());
    assert_eq!(
        refusal(&cfg),
        "check \"say \\\"hi\\\"\" has fields that do not apply to its kind"
    );
}

#[test]
fn first_broken_check_wins() {
    let mut cfg = valid();
    cfg.checks[1].timeout_seconds = 0;
    cfg.checks[2].min = Some(1);
    assert_eq!(refusal(&cfg), "check \"schema\" timeout_seconds must be greater than zero");
}

#[test]
fn io_errors_keep_their_message() {
    let error = Error::Io("could not read x".to_string());
    assert_eq!(error.message(), "could not read x");
    assert_eq!(error.exit_code(), 3);
    assert_eq!(error.kind_label(), "io");
}

#[test]
fn target_id_case_does_not_matter() {
    for id in ["Staging-LIVE", "PROD01", "ProductionCopy"] {
        let mut cfg = valid();
        cfg.target.id = id.into();
        assert!(refusal(&cfg).contains("production-like"));
        cfg.target.id = id.to_ascii_lowercase();
        assert!(refusal(&cfg).contains("production-like"));
    }
    let mut cfg = valid();
    cfg.target.id = "LOCAL-DRILL".into();
    assert!(validate_config(&cfg).is_ok());
}
