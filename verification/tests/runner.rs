use rogcat::runner::{Runner, RunnerPhase, DEFAULT_LOOKBACK};

#[test]
fn restart_with_skip_suppresses_redelivered_history() {
    // A command emits [A, B, C] then exits; on respawn it emits
    // [B, C, D, E]. With skip enabled the delivered sequence is exactly
    // [A, B, C, D, E] - no duplicate B or C.
    let mut runner = Runner::new(true, true, DEFAULT_LOOKBACK);
    let mut delivered: Vec<String> = Vec::new();
    for line in ["A", "B", "C"] {
        if runner.on_line(line) {
            delivered.push(line.to_string());
        }
    }
    assert!(runner.on_exit()); // respawn
    for line in ["B", "C", "D", "E"] {
        if runner.on_line(line) {
            delivered.push(line.to_string());
        }
    }
    assert_eq!(delivered, ["A", "B", "C", "D", "E"]);
}

#[test]
fn without_skip_history_is_redelivered() {
    let mut runner = Runner::new(true, false, DEFAULT_LOOKBACK);
    let mut delivered: Vec<String> = Vec::new();
    for line in ["A", "B"] {
        if runner.on_line(line) {
            delivered.push(line.to_string());
        }
    }
    assert!(runner.on_exit());
    for line in ["A", "B", "C"] {
        if runner.on_line(line) {
            delivered.push(line.to_string());
        }
    }
    assert_eq!(delivered, ["A", "B", "A", "B", "C"]);
}

#[test]
fn exit_without_restart_stops() {
    let mut runner = Runner::new(false, false, DEFAULT_LOOKBACK);
    assert!(runner.on_line("A"));
    assert!(!runner.on_exit());
    assert_eq!(runner.phase, RunnerPhase::Stopped);
}

#[test]
fn skip_window_is_abandoned_after_the_lookback_budget() {
    // Remembered line "Z" never reappears; with a budget of 2 the third
    // line after the respawn is delivered again.
    let mut runner = Runner::new(true, true, 2);
    assert!(runner.on_line("Z"));
    assert!(runner.on_exit());
    assert_eq!(runner.phase, RunnerPhase::Skipping);
    assert!(!runner.on_line("a")); // suppressed, 1 of 2
    assert!(!runner.on_line("b")); // suppressed, 2 of 2
    assert!(runner.on_line("c")); // budget spent: delivered
    assert_eq!(runner.phase, RunnerPhase::Running);
    assert!(runner.on_line("d"));
}

#[test]
fn match_resumes_with_the_line_after_it() {
    let mut runner = Runner::new(true, true, DEFAULT_LOOKBACK);
    assert!(runner.on_line("last"));
    assert!(runner.on_exit());
    assert!(!runner.on_line("older")); // suppressed
    assert!(!runner.on_line("last")); // the match itself is suppressed
    assert_eq!(runner.phase, RunnerPhase::Running);
    assert!(runner.on_line("fresh"));
}

#[test]
fn skip_without_history_respawns_running() {
    // Nothing was delivered before the exit, so there is nothing to skip.
    let mut runner = Runner::new(true, true, DEFAULT_LOOKBACK);
    assert!(runner.on_exit());
    assert_eq!(runner.phase, RunnerPhase::Running);
    assert!(runner.on_line("A"));
}

#[test]
fn shutdown_reports_stopped() {
    let mut runner = Runner::new(true, true, DEFAULT_LOOKBACK);
    runner.shutdown();
    assert_eq!(runner.phase, RunnerPhase::Stopped);
}
