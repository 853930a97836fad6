//! Answers, log lines and effects, on handles that stand for processes.

use run_http::boot::bind_address;
use run_http::cli::{Args, ParsedArgs};
use run_http::effects::{Effect, Outcome, Status};
use run_http::monitor::{ExitReport, Monitor, MonitorNext, Poll};
use run_http::output::{receive_line, render_output, stream_output, StreamStep};
use run_http::restart::{
    condition_met, run_restart_condition, RelaunchNext, RestartLatch, RestartNext, RestartStep,
};
use run_http::routes::Endpoint;
use run_http::start::StartNext;
use run_http::state::{run_command, AppState, Invocation};
use run_http::stop::StopNext;
use run_http::text::decimal;

fn words(list: &[&str]) -> Vec<String> {
    list.iter().map(|w| w.to_string()).collect()
}

fn state(quiet: bool) -> AppState<u32> {
    AppState {
        command: words(&["echo", "a", "b c"]),
        child_process: None,
        restart_condition: None,
        fail_atleast_once: false,
        restart_condition_sleep: 250,
        quiet,
    }
}

fn show(effects: &[Effect]) -> Vec<String> {
    effects
        .iter()
        .map(|e| match e {
            Effect::Info(s) => format!("info {}", s),
            Effect::Error(s) => format!("error {}", s),
            Effect::Output(s) => format!("output {}", s),
            Effect::SpawnMonitor => "monitor".to_string(),
        })
        .collect()
}

fn assert_outcome(outcome: &Outcome, effects: &[&str], status: Status, body: &str) {
    assert_eq!(show(&outcome.effects), effects);
    assert_eq!(outcome.response.status, status);
    assert_eq!(outcome.response.body, body);
}

fn assert_echo(invocation: &Invocation) {
    assert_eq!(invocation.program, "echo");
    assert_eq!(invocation.args, vec!["a", "b c"]);
}

fn assert_settings_kept(s: &AppState<u32>, quiet: bool) {
    assert_eq!(s.command, vec!["echo", "a", "b c"]);
    assert_eq!(s.restart_condition, None);
    assert_eq!(s.fail_atleast_once, false);
    assert_eq!(s.restart_condition_sleep, 250);
    assert_eq!(s.quiet, quiet);
}

#[test]
fn state_is_set_up_from_the_command_line() {
    let args = Args::from_parsed(ParsedArgs {
        port: Some(1),
        host: Some("h".to_string()),
        command: Some(words(&["x", "y"])),
        markdown_help: false,
        restart_condition: Some("c".to_string()),
        fail_atleast_once: true,
        restart_condition_sleep: Some(7),
        quiet: true,
    })
    .unwrap();
    let s: AppState<u32> = AppState::new(args);
    assert_eq!(s.command, vec!["x", "y"]);
    assert_eq!(s.child_process, None);
    assert_eq!(s.restart_condition, Some("c".to_string()));
    assert_eq!(s.fail_atleast_once, true);
    assert_eq!(s.restart_condition_sleep, 7);
    assert_eq!(s.quiet, true);
}

#[test]
fn first_word_is_the_program() {
    assert_echo(&run_command(&words(&["echo", "a", "b c"])));
    let alone = run_command(&words(&["true"]));
    assert_eq!(alone.program, "true");
    assert_eq!(alone.args, Vec::<String>::new());
}

#[test]
fn start_that_goes_well() {
    let mut s = state(false);
    let step = s.start_command();
    assert_eq!(show(&step.effects), vec!["info Received request to start command"]);
    match step.next {
        StartNext::Spawn(invocation) => assert_echo(&invocation),
        StartNext::Respond(_) => panic!("refused"),
    }
    let outcome = s.start_spawned(11);
    assert_outcome(
        &outcome,
        &[
            "info Command started successfully, monitoring child",
            "output Command started successfully",
            "monitor",
        ],
        Status::Success,
        "Command started successfully",
    );
    assert_eq!(s.child_process, Some(11));
    assert_settings_kept(&s, false);
}

#[test]
fn start_while_running_is_refused() {
    let mut s = state(false);
    s.child_process = Some(3);
    let step = s.start_command();
    assert_eq!(
        show(&step.effects),
        vec!["info Received request to start command", "info Command is already running"]
    );
    match step.next {
        StartNext::Respond(response) => {
            assert_eq!(response.status, Status::BadRequest);
            assert_eq!(response.body, "Command is already running");
        }
        StartNext::Spawn(_) => panic!("accepted"),
    }
    assert_eq!(s.child_process, Some(3));
}

#[test]
fn start_that_fails() {
    let s = state(false);
    assert_outcome(
        &s.start_failed("no such file"),
        &[
            "error Failed to start command: no such file",
            "output Failed to start command: no such file",
        ],
        Status::InternalServerError,
        "Failed to start command: no such file",
    );
    assert_eq!(s.child_process, None);
}

#[test]
fn status_follows_the_slot() {
    let mut s = state(false);
    assert_outcome(
        &s.get_status(),
        &["info Received request to get command status", "info Command is not running"],
        Status::Success,
        "Command is not running",
    );
    s.child_process = Some(1);
    assert_outcome(
        &s.get_status(),
        &["info Received request to get command status", "info Command is running"],
        Status::Success,
        "Command is running",
    );
}

#[test]
fn stop_of_a_running_command() {
    let mut s = state(false);
    s.child_process = Some(9);
    let step = s.stop_command(Some(4242));
    assert_eq!(
        show(&step.effects),
        vec![
            "info Stop - Received request to stop command",
            "info Stop - Got lock, child process state: true",
            "info Stop - Found child process, attempting to kill",
            "info Stop - Child PID: Some(4242)",
        ]
    );
    match step.next {
        StopNext::Kill(child) => assert_eq!(child, 9),
        other => panic!("{:?}", other),
    }
    assert_eq!(s.child_process, None);
    assert_settings_kept(&s, false);
    let step = s.stop_killed(9, false);
    assert_eq!(show(&step.effects), vec!["info Stop - Kill result: false"]);
    assert!(matches!(step.next, StopNext::Wait(9)));
    let step = s.stop_killed(9, true);
    assert_eq!(show(&step.effects), vec!["info Stop - Kill result: true"]);
    assert!(matches!(step.next, StopNext::Wait(9)));
    assert_outcome(
        &s.stop_waited("Ok(done)"),
        &["info Stop - Wait result: Ok(done)", "info Stop - Command stopped successfully"],
        Status::Success,
        "Command stopped successfully",
    );
}

#[test]
fn stop_without_a_command_is_refused() {
    let mut s = state(false);
    let step = s.stop_command(None);
    assert_eq!(
        show(&step.effects),
        vec![
            "info Stop - Received request to stop command",
            "info Stop - Got lock, child process state: false",
            "info Stop - No command is running",
        ]
    );
    match step.next {
        StopNext::Respond(response) => {
            assert_eq!(response.status, Status::BadRequest);
            assert_eq!(response.body, "No command is running");
        }
        other => panic!("{:?}", other),
    }
}

#[test]
fn stop_of_a_command_without_process_id() {
    let mut s = state(false);
    s.child_process = Some(9);
    let step = s.stop_command(None);
    assert_eq!(show(&step.effects)[3], "info Stop - Child PID: None");
}

#[test]
fn a_start_after_a_stop_is_accepted() {
    let mut s = state(true);
    s.start_spawned(1);
    s.stop_command(None);
    assert_eq!(s.get_status().response.body, "Command is not running");
    assert!(matches!(s.start_command().next, StartNext::Spawn(_)));
    s.start_spawned(2);
    assert_eq!(s.get_status().response.body, "Command is running");
    assert_eq!(s.child_process, Some(2));
}

#[test]
fn restart_without_a_condition_goes_ahead_at_once() {
    let mut s = state(false);
    s.child_process = Some(5);
    let step = s.restart_command();
    assert_eq!(show(&step.effects), vec!["info Received request to restart command"]);
    assert!(matches!(step.next, RestartNext::Relaunch));
    let step = s.restart_relaunch();
    assert_eq!(show(&step.effects), vec!["info Killing existing child process"]);
    assert!(matches!(step.next, RelaunchNext::Kill(5)));
    assert_eq!(s.child_process, None);
    assert!(matches!(s.restart_killed(5, true), RelaunchNext::Wait(5)));
    assert!(matches!(s.restart_killed(5, false), RelaunchNext::Wait(5)));
    match s.restart_waited() {
        RelaunchNext::Spawn(invocation) => assert_echo(&invocation),
        other => panic!("{:?}", other),
    }
    assert_eq!(s.child_process, None);
    assert_outcome(
        &s.restart_spawned(6),
        &["monitor", "info Command restarted successfully"],
        Status::Success,
        "Command restarted successfully",
    );
    assert_eq!(s.child_process, Some(6));
    assert_settings_kept(&s, false);
}

#[test]
fn restart_of_nothing_kills_nothing() {
    let mut s = state(false);
    let step = s.restart_relaunch();
    assert_eq!(show(&step.effects), Vec::<String>::new());
    match step.next {
        RelaunchNext::Spawn(invocation) => assert_echo(&invocation),
        other => panic!("{:?}", other),
    }
}

#[test]
fn restart_that_fails_leaves_nothing_running() {
    let mut s = state(false);
    s.child_process = Some(5);
    s.restart_relaunch();
    assert_outcome(
        &s.restart_failed("denied"),
        &["error Failed to restart command: denied"],
        Status::InternalServerError,
        "Failed to restart command: denied",
    );
    assert_eq!(s.child_process, None);
}

fn conditional(fail_atleast_once: bool, quiet: bool) -> AppState<u32> {
    let mut s = state(quiet);
    s.restart_condition = Some("test -f x".to_string());
    s.fail_atleast_once = fail_atleast_once;
    s
}

fn assert_checks(step: &RestartStep) {
    match &step.next {
        RestartNext::CheckCondition(shell) => {
            assert_eq!(shell.program, "sh");
            assert_eq!(shell.args, vec!["-c", "test -f x"]);
        }
        other => panic!("{:?}", other),
    }
}

#[test]
fn restart_with_a_condition_checks_it_first() {
    let s = conditional(false, false);
    let step = s.restart_command();
    assert_eq!(
        show(&step.effects),
        vec![
            "info Received request to restart command",
            "info Checking restart condition: test -f x",
        ]
    );
    assert_checks(&step);
    let mut latch = RestartLatch::new(false);
    let step = s.restart_checked(&mut latch, false);
    assert_eq!(show(&step.effects), Vec::<String>::new());
    assert!(matches!(step.next, RestartNext::Sleep(250)));
    let step = s.restart_slept();
    assert_eq!(show(&step.effects), vec!["info Checking restart condition: test -f x"]);
    assert_checks(&step);
    let step = s.restart_checked(&mut latch, true);
    assert_eq!(show(&step.effects), vec!["info Restart condition met"]);
    assert!(matches!(step.next, RestartNext::Relaunch));
}

fn goes_ahead_after(fail_atleast_once: bool, results: &[bool]) -> Option<usize> {
    let s = conditional(fail_atleast_once, true);
    let mut latch = RestartLatch::new(fail_atleast_once);
    results
        .iter()
        .position(|met| matches!(s.restart_checked(&mut latch, *met).next, RestartNext::Relaunch))
}

#[test]
fn condition_has_to_succeed() {
    assert_eq!(goes_ahead_after(false, &[true]), Some(0));
    assert_eq!(goes_ahead_after(false, &[false, false, true]), Some(2));
    assert_eq!(goes_ahead_after(false, &[false, false]), None);
}

#[test]
fn condition_has_to_fail_first_where_that_is_asked_for() {
    assert_eq!(goes_ahead_after(true, &[true, true, true]), None);
    assert_eq!(goes_ahead_after(true, &[true, true, false, true]), Some(3));
    assert_eq!(goes_ahead_after(true, &[false, true]), Some(1));
    assert_eq!(goes_ahead_after(true, &[false, false]), None);
}

#[test]
fn condition_is_met_by_success_alone() {
    assert!(condition_met(Ok(true)));
    assert!(!condition_met(Ok(false)));
    assert!(!condition_met(Err("no shell".to_string())));
    let shell = run_restart_condition("exit 0");
    assert_eq!(shell.program, "sh");
    assert_eq!(shell.args, vec!["-c", "exit 0"]);
}

#[test]
fn watch_of_a_running_command() {
    let mut s = state(false);
    s.child_process = Some(1);
    let start = s.monitor_child(Some(77), 1_000);
    assert_eq!(
        show(&start.effects),
        vec![
            "info Monitor - Getting child process, current state: true",
            "info Monitor - Found child process with PID: Some(77)",
        ]
    );
    assert_eq!(start.monitor.unwrap().last_log, 1_000);
}

#[test]
fn watch_of_nothing() {
    let start = state(false).monitor_child(None, 0);
    assert_eq!(
        show(&start.effects),
        vec![
            "info Monitor - Getting child process, current state: false",
            "info Monitor - No child process found to monitor",
            "error Error: No child process found to monitor",
            "output Error: No child process found to monitor",
        ]
    );
    assert!(start.monitor.is_none());
    let start = state(true).monitor_child(None, 0);
    assert_eq!(show(&start.effects), Vec::<String>::new());
    assert!(start.monitor.is_none());
}

fn exited(success: bool) -> Poll {
    Poll::Exited(ExitReport { success, text: "status(1)".to_string() })
}

#[test]
fn command_that_ends_well_leaves_the_slot() {
    let mut s = state(false);
    s.child_process = Some(1);
    let step = s.monitor_poll(&mut Monitor { last_log: 0 }, exited(true), 5);
    assert_eq!(
        show(&step.effects),
        vec![
            "info Monitor - Child process exited with status: status(1)",
            "info Monitor - Finished monitoring process with final status: Some(status(1))",
        ]
    );
    assert_eq!(step.next, MonitorNext::Finish);
    assert_eq!(s.child_process, None);
    assert_settings_kept(&s, false);
}

#[test]
fn command_that_ends_badly_is_reported() {
    let mut s = state(true);
    s.child_process = Some(1);
    let step = s.monitor_poll(&mut Monitor { last_log: 0 }, exited(false), 5);
    assert_eq!(show(&step.effects), Vec::<String>::new());
    assert_eq!(step.next, MonitorNext::Finish);
    assert_eq!(s.child_process, None);
    let mut s = state(false);
    s.child_process = Some(1);
    let step = s.monitor_poll(&mut Monitor { last_log: 0 }, exited(false), 5);
    assert_eq!(step.effects.len(), 3);
    assert_eq!(show(&step.effects)[2], "output Command exited with error: status(1)");
}

#[test]
fn watch_ends_when_the_slot_is_empty() {
    let mut s = state(false);
    let step = s.monitor_poll(&mut Monitor { last_log: 0 }, Poll::NoChild, 5);
    assert_eq!(
        show(&step.effects),
        vec![
            "info Monitor - Child process no longer in state",
            "info Monitor - Finished monitoring process with final status: None",
        ]
    );
    assert_eq!(step.next, MonitorNext::Finish);
}

#[test]
fn running_command_is_logged_every_two_seconds() {
    let mut s = state(false);
    s.child_process = Some(1);
    let mut monitor = Monitor { last_log: 500 };
    let mut times = Vec::new();
    for now in [500, 2_000_000_499, 2_000_000_500, 3_000_000_000, 4_000_000_500u128] {
        let step = s.monitor_poll(&mut monitor, Poll::Running, now);
        assert_eq!(step.next, MonitorNext::Sleep(100));
        if show(&step.effects) == vec!["info Monitor - Child process still running"] {
            times.push(now);
        } else {
            assert_eq!(show(&step.effects), Vec::<String>::new());
        }
    }
    assert_eq!(times, vec![2_000_000_500, 4_000_000_500]);
    assert_eq!(monitor.last_log, 4_000_000_500);
    assert_eq!(s.child_process, Some(1));
}

#[test]
fn clock_behind_the_last_line_logs_nothing() {
    let mut s = state(false);
    s.child_process = Some(1);
    let mut monitor = Monitor { last_log: 9_000_000_000 };
    let step = s.monitor_poll(&mut monitor, Poll::Running, 1);
    assert_eq!(show(&step.effects), Vec::<String>::new());
    assert_eq!(monitor.last_log, 9_000_000_000);
}

#[test]
fn command_that_cannot_be_asked_is_asked_again() {
    let mut s = state(false);
    s.child_process = Some(1);
    let poll = Poll::Failed("gone".to_string());
    let step = s.monitor_poll(&mut Monitor { last_log: 0 }, poll, 5);
    assert_eq!(show(&step.effects), vec!["error Monitor - Error checking process status: gone"]);
    assert_eq!(step.next, MonitorNext::Sleep(100));
    assert_eq!(s.child_process, Some(1));
}

#[test]
fn quiet_shows_only_the_command() {
    let mut all = Vec::new();
    let mut s = conditional(false, true);
    all.extend(show(&s.booting()));
    all.extend(show(&s.boot_failed("e")));
    all.extend(show(&s.binding("a")));
    all.extend(show(&s.bound("a")));
    all.extend(show(&s.bind_failed("a", "e")));
    all.extend(show(&s.get_status().effects));
    all.extend(show(&s.start_command().effects));
    all.extend(show(&s.start_failed("e").effects));
    all.extend(show(&s.start_spawned(1).effects));
    all.extend(show(&s.start_command().effects));
    all.extend(show(&s.monitor_child(Some(1), 0).effects));
    let mut monitor = Monitor { last_log: 0 };
    all.extend(show(&s.monitor_poll(&mut monitor, Poll::Running, 5_000_000_000).effects));
    let failed = Poll::Failed("e".to_string());
    all.extend(show(&s.monitor_poll(&mut monitor, failed, 0).effects));
    all.extend(show(&s.restart_command().effects));
    let mut latch = RestartLatch::new(false);
    all.extend(show(&s.restart_checked(&mut latch, true).effects));
    all.extend(show(&s.restart_relaunch().effects));
    all.extend(show(&s.restart_failed("e").effects));
    all.extend(show(&s.restart_spawned(2).effects));
    all.extend(show(&s.stop_command(Some(1)).effects));
    all.extend(show(&s.stop_killed(2, true).effects));
    all.extend(show(&s.stop_waited("w").effects));
    all.extend(show(&s.stop_command(None).effects));
    all.extend(show(&s.monitor_poll(&mut monitor, Poll::NoChild, 0).effects));
    all.extend(show(&s.monitor_child(None, 0).effects));
    all.extend(show(&s.boot_spawned(3)));
    all.extend(show(&s.monitor_poll(&mut monitor, exited(false), 0).effects));
    assert_eq!(all, vec!["monitor", "monitor", "monitor"]);
}

#[test]
fn quiet_changes_no_answer() {
    let mut loud = state(false);
    let mut quiet = state(true);
    assert_eq!(loud.start_failed("e").response.body, quiet.start_failed("e").response.body);
    assert_eq!(loud.start_spawned(1).response.body, quiet.start_spawned(1).response.body);
    assert_eq!(loud.get_status().response.body, quiet.get_status().response.body);
    assert_eq!(loud.restart_spawned(1).response.body, quiet.restart_spawned(1).response.body);
    assert_eq!(loud.stop_waited("w").response.body, quiet.stop_waited("w").response.body);
}

#[test]
fn coming_up() {
    let mut s = state(false);
    assert_eq!(show(&s.booting()), vec!["info \n\n\nBooting up..."]);
    assert_echo(&s.boot_command());
    assert_eq!(
        show(&s.boot_failed("no")),
        vec![
            "error Failed to start command on boot: no",
            "output Failed to start command on boot: no",
        ]
    );
    assert_eq!(
        show(&s.boot_spawned(8)),
        vec![
            "info Command started successfully on boot",
            "output Command started successfully on boot",
            "monitor",
        ]
    );
    assert_eq!(s.child_process, Some(8));
    assert_eq!(show(&s.binding("h:1")), vec!["info Attempting to bind to http://h:1"]);
    assert_eq!(show(&s.bound("h:1")), vec!["info Server successfully bound to http://h:1"]);
    assert_eq!(show(&s.bind_failed("h:1", "in use")), vec!["error Failed to bind to h:1: in use"]);
}

#[test]
fn address_of_host_and_port() {
    assert_eq!(bind_address("127.0.0.1", 30067), "127.0.0.1:30067");
    assert_eq!(bind_address("", 0), ":0");
    assert_eq!(bind_address("localhost", 65535), "localhost:65535");
}

#[test]
fn decimal_notation() {
    assert_eq!(decimal(0), "0");
    assert_eq!(decimal(9), "9");
    assert_eq!(decimal(10), "10");
    assert_eq!(decimal(1234567890), "1234567890");
    assert_eq!(decimal(u64::MAX), "18446744073709551615");
}

#[test]
fn lines_of_output() {
    assert_eq!(render_output(true, "x"), "x");
    assert_eq!(render_output(true, "x\n"), "x\n");
    assert_eq!(render_output(false, "x"), "Output: x\n");
    let items = vec![
        Some(Ok("one".to_string())),
        Some(Err("invalid".to_string())),
        Some(Ok("two".to_string())),
        None,
    ];
    let steps: Vec<String> = items
        .into_iter()
        .map(|item| match stream_output(item) {
            StreamStep::Forward(line) => line,
            StreamStep::Skip => "skip".to_string(),
            StreamStep::Done => "done".to_string(),
        })
        .collect();
    assert_eq!(steps, vec!["one", "skip", "two", "done"]);
}

#[test]
fn lines_as_they_are_received() {
    assert_eq!(receive_line(true, "x\n"), "x\n");
    assert_eq!(receive_line(true, "x"), "x");
    assert_eq!(receive_line(true, "x\r\n"), "x\r\n");
    assert_eq!(receive_line(false, "x\n"), "x");
    assert_eq!(receive_line(false, "x"), "x");
    assert_eq!(receive_line(false, "x\r\n"), "x");
    assert_eq!(receive_line(false, "x\r"), "x\r");
    assert_eq!(receive_line(false, "x\r\r\n"), "x\r");
    assert_eq!(receive_line(false, "\n"), "");
    assert_eq!(receive_line(false, ""), "");
    assert_eq!(receive_line(false, "h\u{e9}\u{1f600}\n"), "h\u{e9}\u{1f600}");
}

#[test]
fn requests_and_their_paths() {
    let paths: Vec<&str> = Endpoint::all().iter().map(|e| e.path()).collect();
    assert_eq!(paths, vec!["/start", "/restart", "/stop", "/status"]);
}

#[test]
fn codes_of_statuses() {
    assert_eq!(Status::Success.code(), 200);
    assert_eq!(Status::BadRequest.code(), 400);
    assert_eq!(Status::InternalServerError.code(), 500);
}
