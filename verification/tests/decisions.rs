// The loop's decisions on concrete events: filtering by entry name, the
// no-password mode, the quiet flag, and an unreadable target file.

use watchc::default_secret;
use watchc::gate::{on_event, should_print, verify_first_line, Config, EventDecision};
use watchc::totp::current_window;

fn config(quiet: bool, nopass: bool) -> Config {
    Config {
        file_name: Some(b"watched.txt".to_vec()),
        secret: b"12345678901234567890".to_vec(),
        command: "echo ran".to_string(),
        quiet,
        nopass,
    }
}

// Runs the decision pipeline for one event exactly as the loop does and
// reports whether the command would be executed.
fn iteration_executes(cfg: &Config, name: Option<&[u8]>, line: Option<&str>, now: u64) -> bool {
    let name = name.map(|n| n.to_vec());
    match on_event(cfg, &name) {
        EventDecision::Ignore => false,
        EventDecision::Execute => true,
        EventDecision::VerifyCode => {
            let line = line.map(|l| l.to_string());
            verify_first_line(&cfg.secret, &line, now)
        }
    }
}

#[test]
fn unrelated_events_are_ignored() {
    let cfg = config(false, false);
    let names: &[Option<&[u8]>] = &[
        Some(b"other.txt"),
        Some(b"watched.txt.bak"),
        Some(b""),
        None,
    ];
    let mut executions = 0;
    for name in names {
        if iteration_executes(&cfg, *name, Some("287082"), 59) {
            executions += 1;
        }
    }
    assert_eq!(executions, 0);
}

#[test]
fn matching_event_asks_for_verification_when_gated() {
    let cfg = config(false, false);
    let name = Some(b"watched.txt".to_vec());
    assert!(matches!(on_event(&cfg, &name), EventDecision::VerifyCode));
}

#[test]
fn no_password_executes_every_qualifying_event() {
    let cfg = config(false, true);
    let contents: &[Option<&str>] = &[Some("287082"), Some("garbage"), None, Some("")];
    let mut executions = 0;
    for line in contents {
        if iteration_executes(&cfg, Some(b"watched.txt"), *line, 59) {
            executions += 1;
        }
    }
    assert_eq!(executions, contents.len());
}

#[test]
fn no_password_still_ignores_unrelated_events() {
    let cfg = config(false, true);
    assert!(!iteration_executes(&cfg, Some(b"other.txt"), None, 59));
}

#[test]
fn valid_code_in_first_line_executes_exactly_once_per_event() {
    // The scenario: with the reference secret, at second 59 the three window
    // codes are the reference codes; a first line carrying one of them makes
    // a qualifying event execute, once per event.
    let cfg = config(false, false);
    let w = current_window(&cfg.secret, 59);
    let mut executions = 0;
    for code in [w[0].as_str(), w[1].as_str(), w[2].as_str()] {
        if iteration_executes(&cfg, Some(b"watched.txt"), Some(code), 59) {
            executions += 1;
        }
    }
    assert_eq!(executions, 3);
}

#[test]
fn wrong_code_does_not_execute() {
    let cfg = config(false, false);
    assert!(!iteration_executes(&cfg, Some(b"watched.txt"), Some("005924"), 59));
    assert!(!iteration_executes(&cfg, Some(b"watched.txt"), Some(""), 59));
}

#[test]
fn unreadable_file_does_not_execute_and_loop_recovers() {
    let cfg = config(false, false);
    // The file vanished before it could be re-read: no line, no execution.
    assert!(!iteration_executes(&cfg, Some(b"watched.txt"), None, 59));
    // The next event with a readable, valid line still executes.
    assert!(iteration_executes(&cfg, Some(b"watched.txt"), Some("287082"), 59));
}

#[test]
fn quiet_changes_printing_only() {
    let loud = config(false, false);
    let quiet = config(true, false);
    let events: &[(Option<&[u8]>, Option<&str>)] = &[
        (Some(b"watched.txt"), Some("287082")),
        (Some(b"watched.txt"), Some("wrong")),
        (Some(b"other.txt"), Some("287082")),
        (Some(b"watched.txt"), None),
    ];
    let mut loud_count = 0;
    let mut quiet_count = 0;
    for (name, line) in events {
        if iteration_executes(&loud, *name, *line, 59) {
            loud_count += 1;
        }
        if iteration_executes(&quiet, *name, *line, 59) {
            quiet_count += 1;
        }
    }
    assert_eq!(loud_count, quiet_count);
    assert!(should_print(&loud));
    assert!(!should_print(&quiet));
}

#[test]
fn default_secret_is_the_documented_fallback() {
    assert_eq!(default_secret(), b"secret".to_vec());
}
