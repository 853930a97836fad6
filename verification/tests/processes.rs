//! The supervisor at work on real processes.

use run_http::effects::{Effect, Outcome, Response};
use run_http::monitor::{ExitReport, MonitorNext, Poll};
use run_http::output::{receive_line, render_output, stream_output, StreamStep};
use run_http::restart::{condition_met, RelaunchNext, RestartLatch, RestartNext};
use run_http::start::StartNext;
use run_http::state::{run_command, AppState, Invocation};
use run_http::stop::StopNext;
use std::sync::{Arc, Mutex};
use std::time::{Duration, Instant};
use tokio::io::{AsyncBufReadExt, BufReader};
use tokio::net::unix::pipe;
use tokio::process::{Child, Command};
use tokio::runtime::Runtime;
use tokio::sync::mpsc;
use tokio::time::sleep;

#[derive(Clone)]
struct Shared {
    state: Arc<Mutex<AppState<Child>>>,
    output_tx: mpsc::Sender<String>,
}

fn create_runtime() -> Runtime {
    tokio::runtime::Builder::new_multi_thread().enable_all().build().unwrap()
}

fn shared(state: AppState<Child>, output_tx: mpsc::Sender<String>) -> Shared {
    Shared { state: Arc::new(Mutex::new(state)), output_tx }
}

fn echo_state() -> AppState<Child> {
    AppState {
        command: vec!["echo".to_string(), "test".to_string()],
        child_process: None,
        restart_condition: None,
        fail_atleast_once: false,
        restart_condition_sleep: 100,
        quiet: false,
    }
}

async fn forward(stream: pipe::Receiver, quiet: bool, tx: mpsc::Sender<String>) {
    let mut reader = BufReader::new(stream);
    loop {
        let mut raw = String::new();
        let item = match reader.read_line(&mut raw).await {
            Ok(0) => None,
            Ok(_) => Some(Ok(receive_line(quiet, &raw))),
            Err(e) => Some(Err(e.to_string())),
        };
        match stream_output(item) {
            StreamStep::Forward(line) => {
                let _ = tx.send(line).await;
            }
            StreamStep::Skip => {}
            StreamStep::Done => return,
        }
    }
}

async fn launch(
    invocation: Invocation,
    quiet: bool,
    tx: mpsc::Sender<String>,
) -> Result<Child, String> {
    let (out_tx, out_rx) = pipe::pipe().map_err(|e| e.to_string())?;
    let (err_tx, err_rx) = pipe::pipe().map_err(|e| e.to_string())?;
    let child = Command::new(&invocation.program)
        .args(&invocation.args)
        .stdout(out_tx.into_blocking_fd().map_err(|e| e.to_string())?)
        .stderr(err_tx.into_blocking_fd().map_err(|e| e.to_string())?)
        .spawn()
        .map_err(|e| e.to_string())?;
    tokio::spawn(forward(out_rx, quiet, tx.clone()));
    tokio::spawn(forward(err_rx, quiet, tx.clone()));
    Ok(child)
}

async fn perform(shared: &Shared, effects: Vec<Effect>) -> bool {
    let mut watch = false;
    for effect in effects {
        match effect {
            Effect::Info(line) | Effect::Error(line) => println!("{}", line),
            Effect::Output(line) => {
                let _ = shared.output_tx.send(line).await;
            }
            Effect::SpawnMonitor => watch = true,
        }
    }
    watch
}

async fn finish(shared: &Shared, outcome: Outcome) -> Response {
    if perform(shared, outcome.effects).await {
        tokio::spawn(monitor_child(shared.clone()));
    }
    outcome.response
}

async fn monitor_child(shared: Shared) {
    let clock = Instant::now();
    let start = {
        let guard = shared.state.lock().unwrap();
        let pid = guard.child_process.as_ref().and_then(|child| child.id());
        guard.monitor_child(pid, clock.elapsed().as_nanos())
    };
    perform(&shared, start.effects).await;
    let mut monitor = match start.monitor {
        Some(monitor) => monitor,
        None => return,
    };
    loop {
        let step = {
            let mut guard = shared.state.lock().unwrap();
            let poll = match guard.child_process.as_mut() {
                None => Poll::NoChild,
                Some(child) => match child.try_wait() {
                    Ok(Some(status)) => Poll::Exited(ExitReport {
                        success: status.success(),
                        text: format!("{:?}", status),
                    }),
                    Ok(None) => Poll::Running,
                    Err(e) => Poll::Failed(e.to_string()),
                },
            };
            guard.monitor_poll(&mut monitor, poll, clock.elapsed().as_nanos())
        };
        perform(&shared, step.effects).await;
        match step.next {
            MonitorNext::Sleep(ms) => sleep(Duration::from_millis(ms)).await,
            MonitorNext::Finish => return,
        }
    }
}

async fn start_command(shared: &Shared) -> Response {
    let step = shared.state.lock().unwrap().start_command();
    let quiet = shared.state.lock().unwrap().quiet;
    perform(shared, step.effects).await;
    match step.next {
        StartNext::Respond(response) => response,
        StartNext::Spawn(invocation) => {
            let outcome = match launch(invocation, quiet, shared.output_tx.clone()).await {
                Ok(child) => shared.state.lock().unwrap().start_spawned(child),
                Err(e) => shared.state.lock().unwrap().start_failed(&e),
            };
            finish(shared, outcome).await
        }
    }
}

async fn stop_command(shared: &Shared) -> Response {
    let mut step = {
        let mut guard = shared.state.lock().unwrap();
        let pid = guard.child_process.as_ref().and_then(|child| child.id());
        guard.stop_command(pid)
    };
    loop {
        perform(shared, step.effects).await;
        step = match step.next {
            StopNext::Kill(mut child) => {
                let killed = child.kill().await.is_ok();
                shared.state.lock().unwrap().stop_killed(child, killed)
            }
            StopNext::Wait(mut child) => {
                let waited = format!("{:?}", child.wait().await);
                let outcome = shared.state.lock().unwrap().stop_waited(&waited);
                return finish(shared, outcome).await;
            }
            StopNext::Respond(response) => return response,
        };
    }
}

async fn restart_command(shared: &Shared) -> Response {
    let mut latch = RestartLatch::new(shared.state.lock().unwrap().fail_atleast_once);
    let mut step = shared.state.lock().unwrap().restart_command();
    loop {
        perform(shared, step.effects).await;
        step = match step.next {
            RestartNext::CheckCondition(shell) => {
                let output = Command::new(&shell.program).args(&shell.args).output().await;
                let met = condition_met(
                    output.map(|o| o.status.success()).map_err(|e| e.to_string()),
                );
                shared.state.lock().unwrap().restart_checked(&mut latch, met)
            }
            RestartNext::Sleep(ms) => {
                sleep(Duration::from_millis(ms)).await;
                shared.state.lock().unwrap().restart_slept()
            }
            RestartNext::Relaunch => break,
        };
    }
    let step = shared.state.lock().unwrap().restart_relaunch();
    perform(shared, step.effects).await;
    let mut next = step.next;
    let invocation = loop {
        next = match next {
            RelaunchNext::Kill(mut child) => {
                let killed = child.kill().await.is_ok();
                shared.state.lock().unwrap().restart_killed(child, killed)
            }
            RelaunchNext::Wait(mut child) => {
                let _ = child.wait().await;
                shared.state.lock().unwrap().restart_waited()
            }
            RelaunchNext::Spawn(invocation) => break invocation,
        };
    };
    let quiet = shared.state.lock().unwrap().quiet;
    let outcome = match launch(invocation, quiet, shared.output_tx.clone()).await {
        Ok(child) => shared.state.lock().unwrap().restart_spawned(child),
        Err(e) => shared.state.lock().unwrap().restart_failed(&e),
    };
    finish(shared, outcome).await
}

async fn get_status(shared: &Shared) -> Response {
    let outcome = shared.state.lock().unwrap().get_status();
    finish(shared, outcome).await
}

fn words(list: &[&str]) -> Vec<String> {
    list.iter().map(|w| w.to_string()).collect()
}

#[test]
fn test_start_stop_command() {
    create_runtime().block_on(async {
        let (tx, _rx) = mpsc::channel(100);
        let shared = shared(echo_state(), tx);

        let command = vec!["sleep".to_string(), "2".to_string()];
        let child = launch(run_command(&command), false, shared.output_tx.clone())
            .await
            .expect("Failed to start sleep command");
        shared.state.lock().unwrap().child_process = Some(child);
        tokio::spawn(monitor_child(shared.clone()));

        // Give the command a moment to start
        sleep(Duration::from_millis(100)).await;

        // Verify command is running
        let status_body = get_status(&shared).await.body;
        assert!(status_body.contains("running"), "Command should be running");
        assert_eq!(status_body, "Command is running");

        // Test stopping
        let stop_body = stop_command(&shared).await.body;
        assert!(stop_body.contains("successfully"), "Stop command failed: {}", stop_body);

        // Give the command a moment to stop
        sleep(Duration::from_millis(100)).await;

        // Verify command is stopped
        let status_body = get_status(&shared).await.body;
        assert!(status_body.contains("not running"), "Command should not be running");
    });
}

#[test]
fn test_restart_with_condition() {
    create_runtime().block_on(async {
        let (tx, mut rx) = mpsc::channel(100);
        let state = AppState {
            command: vec!["echo".to_string(), "test".to_string()],
            child_process: None,
            restart_condition: Some("exit 0".to_string()),
            fail_atleast_once: false,
            restart_condition_sleep: 100,
            quiet: false,
        };
        let shared = shared(state, tx);

        // Start command
        let _ = start_command(&shared).await;

        // Test restart
        let restart_body = restart_command(&shared).await.body;
        assert!(restart_body.contains("successfully"));

        // Check output
        let mut found = false;
        while let Ok(msg) = rx.try_recv() {
            if msg.contains("successfully") {
                found = true;
            }
        }
        assert!(found, "The start should be reported in the output");
    });
}

#[test]
fn test_long_running_command() {
    create_runtime().block_on(async {
        let (tx, _rx) = mpsc::channel(100);
        let shared = shared(echo_state(), tx);

        // Start a long-running command
        let command = vec!["sleep".to_string(), "1".to_string()];
        let child = launch(run_command(&command), false, shared.output_tx.clone())
            .await
            .expect("Failed to start sleep command");
        shared.state.lock().unwrap().child_process = Some(child);
        tokio::spawn(monitor_child(shared.clone()));

        // Give the command a moment to start
        sleep(Duration::from_millis(100)).await;

        // Verify it's running
        let status_body = get_status(&shared).await.body;
        assert!(status_body.contains("running"), "Command should be running initially");
        assert!(!status_body.contains("not running"));

        // Wait longer than the sleep command
        sleep(Duration::from_millis(1200)).await;

        let status_body = get_status(&shared).await.body;
        assert!(status_body.contains("not running"), "Command should have finished");
    });
}

#[test]
fn test_quiet_state_propagation() {
    create_runtime().block_on(async {
        let (tx, mut rx) = mpsc::channel(100);
        let state = AppState {
            command: vec!["echo".to_string(), "test".to_string()],
            child_process: None,
            restart_condition: None,
            fail_atleast_once: false,
            restart_condition_sleep: 100,
            quiet: true,
        };
        let shared = shared(state, tx);

        // Start command and verify output is still sent despite quiet mode
        let start_body = start_command(&shared).await.body;
        assert!(
            start_body.contains("successfully"),
            "Command should start successfully even in quiet mode"
        );

        // Check that command output is received
        sleep(Duration::from_millis(500)).await;
        let mut lines = Vec::new();
        while let Ok(msg) = rx.try_recv() {
            lines.push(msg);
        }
        assert!(lines.iter().any(|msg| msg.contains("test")));
        assert_eq!(lines, vec!["test\n"]);
    });
}

#[test]
fn a_command_that_fails_is_reported_in_the_output() {
    create_runtime().block_on(async {
        let (tx, mut rx) = mpsc::channel(100);
        let mut state = echo_state();
        state.command = words(&["sh", "-c", "exit 3"]);
        let shared = shared(state, tx);
        assert_eq!(start_command(&shared).await.body, "Command started successfully");
        sleep(Duration::from_millis(600)).await;
        let mut lines = Vec::new();
        while let Ok(line) = rx.try_recv() {
            lines.push(line);
        }
        assert!(
            lines.iter().any(|l| l.starts_with("Command exited with error: ExitStatus(")),
            "{:?}",
            lines
        );
        assert_eq!(get_status(&shared).await.body, "Command is not running");
    });
}

#[test]
fn a_quiet_supervisor_passes_on_nothing_but_the_output() {
    create_runtime().block_on(async {
        let (tx, mut rx) = mpsc::channel(100);
        let mut state = echo_state();
        state.command = words(&["sh", "-c", "echo out; echo err >&2; exit 3"]);
        state.quiet = true;
        let shared = shared(state, tx);
        assert_eq!(start_command(&shared).await.body, "Command started successfully");
        sleep(Duration::from_millis(600)).await;
        let mut lines = Vec::new();
        while let Ok(line) = rx.try_recv() {
            lines.push(line);
        }
        lines.sort();
        assert_eq!(lines, vec!["err\n", "out\n"]);
        assert_eq!(get_status(&shared).await.body, "Command is not running");
    });
}

async fn written_by(script: &str, quiet: bool) -> String {
    let (tx, mut rx) = mpsc::channel(100);
    let command = words(&["sh", "-c", script]);
    let mut child = launch(run_command(&command), quiet, tx).await.unwrap();
    let mut text = String::new();
    while let Some(line) = rx.recv().await {
        text.push_str(&render_output(quiet, &line));
    }
    child.wait().await.unwrap();
    text
}

#[test]
fn a_quiet_supervisor_writes_what_the_command_wrote() {
    create_runtime().block_on(async {
        assert_eq!(written_by("printf 'a\\nb'", true).await, "a\nb");
        assert_eq!(written_by("printf 'a\\r\\n\\nb\\n'", true).await, "a\r\n\nb\n");
        assert_eq!(written_by("true", true).await, "");
        assert_eq!(written_by("printf 'a\\nb'", false).await, "Output: a\nOutput: b\n");
        assert_eq!(
            written_by("printf 'a\\r\\n\\nb\\n'", false).await,
            "Output: a\nOutput: \nOutput: b\n"
        );
    });
}

async fn is_alive(pid: u32) -> bool {
    let probe = format!("kill -0 {} 2>/dev/null", pid);
    Command::new("sh").arg("-c").arg(probe).status().await.unwrap().success()
}

fn running_pid(shared: &Shared) -> u32 {
    shared.state.lock().unwrap().child_process.as_ref().and_then(|child| child.id()).unwrap()
}

#[test]
fn a_restart_ends_the_old_command() {
    create_runtime().block_on(async {
        let (tx, _rx) = mpsc::channel(100);
        let mut state = echo_state();
        state.command = words(&["sleep", "10"]);
        let shared = shared(state, tx);
        assert_eq!(start_command(&shared).await.body, "Command started successfully");
        let old = running_pid(&shared);
        assert!(is_alive(old).await);
        assert_eq!(restart_command(&shared).await.body, "Command restarted successfully");
        let new = running_pid(&shared);
        assert_ne!(old, new);
        assert!(!is_alive(old).await);
        assert!(is_alive(new).await);
        assert_eq!(stop_command(&shared).await.body, "Command stopped successfully");
        assert!(!is_alive(new).await);
    });
}

#[test]
fn a_command_that_does_not_exist_cannot_be_started() {
    create_runtime().block_on(async {
        let (tx, mut rx) = mpsc::channel(100);
        let mut state = echo_state();
        state.command = words(&["/nonexistent/program"]);
        let shared = shared(state, tx);
        let response = start_command(&shared).await;
        assert_eq!(response.status.code(), 500);
        assert!(response.body.starts_with("Failed to start command: "));
        assert_eq!(rx.try_recv().unwrap(), response.body);
        let response = restart_command(&shared).await;
        assert_eq!(response.status.code(), 500);
        assert!(response.body.starts_with("Failed to restart command: "));
        assert_eq!(get_status(&shared).await.body, "Command is not running");
    });
}

#[test]
fn a_second_start_is_refused_while_the_first_runs() {
    create_runtime().block_on(async {
        let (tx, _rx) = mpsc::channel(100);
        let mut state = echo_state();
        state.command = words(&["sleep", "5"]);
        let shared = shared(state, tx);
        assert_eq!(start_command(&shared).await.status.code(), 200);
        let second = start_command(&shared).await;
        assert_eq!(second.status.code(), 400);
        assert_eq!(second.body, "Command is already running");
        assert_eq!(stop_command(&shared).await.body, "Command stopped successfully");
        let again = stop_command(&shared).await;
        assert_eq!(again.status.code(), 400);
        assert_eq!(again.body, "No command is running");
    });
}
