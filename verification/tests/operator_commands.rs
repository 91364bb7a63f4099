use lagbot::executor::{trade_hour_ok, trusted_command_source, OperatorControl};
use lagbot::packet::OperatorAction;
use lagbot::panel::{auth_step, bearer_token, command_age_ms, halt_action, jwt_required, AuthStep};
use lagbot::telegram::parse_command;

#[test]
fn parses_operator_commands() {
    assert_eq!(parse_command("/pause"), Some(OperatorAction::HaltEntries));
    assert_eq!(parse_command("/resume@my_bot"), Some(OperatorAction::ResumeEntries));
    assert_eq!(parse_command("/flatten now"), Some(OperatorAction::FlattenAll));
    assert_eq!(parse_command("/status"), Some(OperatorAction::StatusPing));
    assert_eq!(parse_command("/unknown"), None);
}

#[test]
fn parses_aliases_and_whitespace() {
    assert_eq!(parse_command("  /halt"), Some(OperatorAction::HaltEntries));
    assert_eq!(parse_command("\t/flush\nx"), Some(OperatorAction::FlattenAll));
    assert_eq!(parse_command("\u{3000}/cancel"), Some(OperatorAction::FlattenAll));
    assert_eq!(parse_command(""), None);
    assert_eq!(parse_command("   "), None);
    assert_eq!(parse_command("@bot /pause"), None);
    assert_eq!(parse_command("/PAUSE"), None);
    assert_eq!(parse_command("pause /pause"), None);
    assert_eq!(parse_command("/status@bot extra"), Some(OperatorAction::StatusPing));
}

#[test]
fn panel_halt_actions() {
    assert_eq!(halt_action(true, false), OperatorAction::FlattenAll);
    assert_eq!(halt_action(true, true), OperatorAction::FlattenAll);
    assert_eq!(halt_action(false, true), OperatorAction::HaltEntries);
    assert_eq!(halt_action(false, false), OperatorAction::ResumeEntries);
}

#[test]
fn panel_auth_steps() {
    assert!(jwt_required("JWT"));
    assert!(!jwt_required("none"));
    assert_eq!(bearer_token("Bearer abc"), "abc");
    assert_eq!(bearer_token("bearer abc"), "abc");
    assert_eq!(bearer_token("Basic abc"), "");
    assert_eq!(bearer_token("Bearer"), "");
    assert_eq!(auth_step("/health", true, None, ""), AuthStep::Allow);
    assert_eq!(auth_step("/api/v1/dashboard", false, None, ""), AuthStep::Allow);
    assert_eq!(auth_step("/api/v1/dashboard", true, None, "Bearer s3"), AuthStep::Reject);
    assert_eq!(auth_step("/api/v1/dashboard", true, Some("s3"), ""), AuthStep::Reject);
    assert_eq!(auth_step("/api/v1/dashboard", true, Some("s3"), "Bearer s3"), AuthStep::Allow);
    assert_eq!(auth_step("/api/v1/dashboard", true, Some("s3"), "Bearer eyJ"), AuthStep::VerifyJwt);
}

#[test]
fn command_age() {
    assert_eq!(command_age_ms(0, 5_000_000_000), -1);
    assert_eq!(command_age_ms(1_000_000, 3_500_000), 2);
    assert_eq!(command_age_ms(9_000_000, 3_000_000), 0);
}

#[test]
fn command_sources() {
    assert!(trusted_command_source("panel"));
    assert!(trusted_command_source("Telegram"));
    assert!(trusted_command_source("CLI"));
    assert!(!trusted_command_source("web"));
    assert!(!trusted_command_source(""));
}

#[test]
fn trade_hours() {
    let hour = 3_600_000_000_000u64;
    assert!(trade_hour_ok(&[], 0));
    assert!(trade_hour_ok(&[13, 14, 15], 14 * hour + 5));
    assert!(!trade_hour_ok(&[13, 14, 15], 16 * hour));
    assert!(trade_hour_ok(&[1], 25 * hour));
}

#[test]
fn kill_switch_controls_entries() {
    let mut c = OperatorControl::new();
    assert!(c.entries_allowed(false, false));
    assert_eq!(c.apply(OperatorAction::HaltEntries, false), Some(true));
    assert!(!c.entries_allowed(false, false));
    assert_eq!(c.apply(OperatorAction::StatusPing, false), None);
    assert!(c.operator_halt);
    assert_eq!(c.apply(OperatorAction::ResumeEntries, true), Some(true));
    assert!(!c.entries_allowed(true, false));
    assert!(c.entries_allowed(false, false));
    assert_eq!(c.apply(OperatorAction::FlattenAll, false), Some(true));
    assert!(c.flatten_request);
    assert!(!c.take_flatten(false, false));
    assert!(c.flatten_request);
    assert!(c.take_flatten(false, true));
    assert!(!c.flatten_request);
    assert!(c.take_flatten(true, true));
    assert!(c.halted_by_safety(false));
}
