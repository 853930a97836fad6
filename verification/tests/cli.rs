//! The command line.

use run_http::cli::{help_markdown, markdown_document, Args, ParsedArgs, UsageError};

fn argv(words: &[&str]) -> Vec<String> {
    words.iter().map(|w| w.to_string()).collect()
}

fn parse_from(words: &[&str]) -> Args {
    Args::parse_from(&argv(words)).expect("an accepted command line")
}

fn reject(words: &[&str]) -> UsageError {
    Args::parse_from(&argv(words)).expect_err("a rejected command line")
}

#[test]
fn test_cli_args() {
    let args = parse_from(&[
        "run-http",
        "--port",
        "8080",
        "--host",
        "127.0.0.1",
        "--",
        "echo",
        "hello",
    ]);

    assert_eq!(args.port, 8080);
    assert_eq!(args.host, "127.0.0.1");
    assert_eq!(args.command, vec!["echo", "hello"]);
    assert_eq!(args.fail_atleast_once, false);
    assert_eq!(args.restart_condition_sleep, 300);
    assert_eq!(args.restart_condition, None);
}

#[test]
fn test_cli_restart_condition() {
    let args = parse_from(&[
        "run-http",
        "--restart-condition",
        "test -f file.txt",
        "--fail-atleast-once",
        "--restart-condition-sleep",
        "100",
        "--",
        "echo",
        "hello",
    ]);

    assert_eq!(args.restart_condition.unwrap(), "test -f file.txt");
    assert_eq!(args.fail_atleast_once, true);
    assert_eq!(args.restart_condition_sleep, 100);
}

#[test]
fn test_cli_quiet_flag() {
    let args = parse_from(&["run-http", "--quiet", "--", "echo", "hello"]);

    assert_eq!(args.quiet, true);
    assert_eq!(args.command, vec!["echo", "hello"]);
}

#[test]
fn defaults_apply_to_what_is_not_mentioned() {
    let args = parse_from(&["run-http", "--", "sleep", "1"]);
    assert_eq!(args.port, 30067);
    assert_eq!(args.host, "127.0.0.1");
    assert_eq!(args.command, vec!["sleep", "1"]);
    assert_eq!(args.markdown_help, false);
    assert_eq!(args.restart_condition, None);
    assert_eq!(args.fail_atleast_once, false);
    assert_eq!(args.restart_condition_sleep, 300);
    assert_eq!(args.quiet, false);
}

#[test]
fn short_names_of_port_and_host() {
    let args = parse_from(&["run-http", "-p", "81", "-h", "0.0.0.0", "--", "true"]);
    assert_eq!(args.port, 81);
    assert_eq!(args.host, "0.0.0.0");
}

#[test]
fn attached_values() {
    let args = parse_from(&["run-http", "--port=65535", "-h::1", "--", "true"]);
    assert_eq!(args.port, 65535);
    assert_eq!(args.host, "::1");
    let args = parse_from(&["run-http", "-p8080", "-h=localhost", "--", "true"]);
    assert_eq!(args.port, 8080);
    assert_eq!(args.host, "localhost");
    let args = parse_from(&["run-http", "-p=8080", "-h==a=b", "--", "true"]);
    assert_eq!(args.port, 8080);
    assert_eq!(args.host, "=a=b");
    assert_eq!(parse_from(&["run-http", "-h=", "--", "x"]).host, "");
    assert_eq!(parse_from(&["run-http", "-h-p", "--", "x"]).host, "-p");
    assert_eq!(parse_from(&["run-http", "--host=--", "--", "x"]).host, "--");
    assert_eq!(parse_from(&["run-http", "-hV", "--", "x"]).host, "V");
}

#[test]
fn numbers_with_a_sign() {
    assert_eq!(parse_from(&["run-http", "--port", "+80", "--", "x"]).port, 80);
    assert_eq!(parse_from(&["run-http", "-p+080", "--", "x"]).port, 80);
    assert_eq!(parse_from(&["run-http", "--port=-0", "--", "x"]).port, 0);
    assert_eq!(parse_from(&["run-http", "-p-00", "--", "x"]).port, 0);
    let args = parse_from(&["run-http", "--restart-condition-sleep=+7", "--", "x"]);
    assert_eq!(args.restart_condition_sleep, 7);
    let zeros = "0000000000000000000000000000000080";
    assert_eq!(parse_from(&["run-http", "--port", zeros, "--", "x"]).port, 80);
    assert_eq!(parse_from(&["run-http", "-p-0000000000000000000000", "--", "x"]).port, 0);
    for port in ["+", "-", "", "-1", "++1", "+-0", "1 ", " 1", "0x1", "1_0", "+65536"] {
        let word = format!("--port={}", port);
        assert_eq!(reject(&["run-http", &word, "--", "x"]).exit_code, 2);
        assert_eq!(reject(&["run-http", "--port", port, "--", "x"]).exit_code, 2);
    }
    assert_eq!(reject(&["run-http", "--port", "-0", "--", "x"]).exit_code, 2);
    assert_eq!(reject(&["run-http", "--restart-condition-sleep=-0", "--", "x"]).exit_code, 2);
    let over = "--restart-condition-sleep=18446744073709551616";
    assert_eq!(reject(&["run-http", over, "--", "x"]).exit_code, 2);
}

#[test]
fn options_are_given_once_and_by_their_names() {
    assert_eq!(reject(&["run-http", "-p1", "--port", "1", "--", "x"]).exit_code, 2);
    assert_eq!(reject(&["run-http", "-p", "1", "-p=1", "--", "x"]).exit_code, 2);
    assert_eq!(reject(&["run-http", "-ph", "--", "x"]).exit_code, 2);
    assert_eq!(reject(&["run-http", "-p=", "--", "x"]).exit_code, 2);
    assert_eq!(reject(&["run-http", "-q", "--", "x"]).exit_code, 2);
    assert_eq!(reject(&["run-http", "-1", "--", "x"]).exit_code, 2);
    assert_eq!(reject(&["run-http", "-", "--", "x"]).exit_code, 2);
    assert_eq!(reject(&["run-http", "", "--", "x"]).exit_code, 2);
    assert_eq!(reject(&["run-http", "--=x", "--", "x"]).exit_code, 2);
    assert_eq!(reject(&["run-http", "--hos", "a", "--", "x"]).exit_code, 2);
    assert_eq!(reject(&["run-http", "--quiet=", "--", "x"]).exit_code, 2);
    assert_eq!(reject(&["run-http", "--host", "-1", "--", "x"]).exit_code, 2);
    assert_eq!(reject(&["run-http", "--host", "a", "b", "--", "x"]).exit_code, 2);
}

#[test]
fn help_is_given_where_nothing_before_it_is_wrong() {
    assert_eq!(reject(&["run-http", "--quiet", "-p80", "--help", "--nothing"]).exit_code, 0);
    assert_eq!(reject(&["run-http", "--help", "--port", "x", "--", "y"]).exit_code, 0);
    assert_eq!(reject(&["run-http", "-Vx", "--", "y"]).exit_code, 0);
    assert_eq!(reject(&["run-http", "--nothing", "--help"]).exit_code, 2);
    assert_eq!(reject(&["run-http", "--port", "x", "--help"]).exit_code, 2);
    assert_eq!(reject(&["run-http", "--port", "--help"]).exit_code, 2);
    assert_eq!(reject(&["run-http", "--quiet", "--quiet", "--version"]).exit_code, 2);
    assert_eq!(reject(&["run-http", "--host", "a", "--host=b", "-V"]).exit_code, 2);
    assert_eq!(reject(&["run-http", "--help=x"]).exit_code, 2);
    assert_eq!(reject(&["run-http", "--version=", "--", "x"]).exit_code, 2);
    assert_eq!(parse_from(&["run-http", "--", "--help"]).command, vec!["--help"]);
}

#[test]
fn everything_after_the_first_escape_is_the_command() {
    let args = parse_from(&["run-http", "--quiet", "--", "sh", "--port", "--", "--help", "-h"]);
    assert_eq!(args.command, vec!["sh", "--port", "--", "--help", "-h"]);
    assert_eq!(args.port, 30067);
    assert_eq!(args.quiet, true);
}

#[test]
fn an_option_is_not_mentioned_by_a_longer_one() {
    let args = parse_from(&["run-http", "--restart-condition-sleep", "0100", "--", "x"]);
    assert_eq!(args.restart_condition, None);
    assert_eq!(args.restart_condition_sleep, 100);
}

#[test]
fn values_as_they_are_written() {
    let args = parse_from(&[
        "run-http",
        "--host",
        "",
        "--restart-condition=a=b",
        "--restart-condition-sleep",
        "18446744073709551615",
        "--fail-atleast-once",
        "-p",
        "0",
        "--",
        "",
    ]);
    assert_eq!(args.host, "");
    assert_eq!(args.restart_condition, Some("a=b".to_string()));
    assert_eq!(args.restart_condition_sleep, u64::MAX);
    assert_eq!(args.fail_atleast_once, true);
    assert_eq!(args.port, 0);
    assert_eq!(args.command, vec![""]);
    assert_eq!(parse_from(&["run-http", "--host=", "--", "x"]).host, "");
    assert_eq!(parse_from(&["run-http", "-h", "-", "--", "x"]).host, "-");
    assert_eq!(parse_from(&["run-http", "--host", "help", "--", "x"]).host, "help");
}

#[test]
fn flags_are_set_by_their_names() {
    let args = parse_from(&["run-http", "--markdown-help", "--", "x"]);
    assert_eq!(args.markdown_help, true);
    assert_eq!(args.quiet, false);
    assert_eq!(args.fail_atleast_once, false);
}

#[test]
fn rejected_command_lines() {
    assert_eq!(reject(&["run-http"]).exit_code, 2);
    assert_eq!(reject(&["run-http", "--"]).exit_code, 2);
    assert_eq!(reject(&["run-http", "echo", "hello"]).exit_code, 2);
    assert_eq!(reject(&["run-http", "--port", "65536", "--", "x"]).exit_code, 2);
    assert_eq!(reject(&["run-http", "--port", "abc", "--", "x"]).exit_code, 2);
    assert_eq!(reject(&["run-http", "--port", "--", "x"]).exit_code, 2);
    assert_eq!(reject(&["run-http", "--quiet", "--quiet", "--", "x"]).exit_code, 2);
    assert_eq!(reject(&["run-http", "--quiet=true", "--", "x"]).exit_code, 2);
    assert_eq!(reject(&["run-http", "--host", "--quiet", "--", "x"]).exit_code, 2);
    assert_eq!(reject(&["run-http", "--host", "a", "--host=b", "--", "x"]).exit_code, 2);
    assert_eq!(reject(&["run-http", "-h", "-p", "--", "x"]).exit_code, 2);
    assert_eq!(reject(&["run-http", "--quietly", "--", "x"]).exit_code, 2);
    assert_eq!(reject(&["run-http", "help", "--", "x"]).exit_code, 2);
    assert_eq!(reject(&["run-http", "--nothing", "--", "x"]).exit_code, 2);
    assert_eq!(reject(&["run-http", "--restart-condition-sleep", "-1", "--", "x"]).exit_code, 2);
    assert_eq!(reject(&["run-http", "--markdown-help"]).exit_code, 2);
    assert_eq!(reject(&[]).exit_code, 2);
}

#[test]
fn rejections_say_why() {
    let missing = reject(&["run-http", "--quiet"]);
    assert!(missing.message.contains("required arguments were not provided"));
    assert!(missing.message.contains("Usage: run-http"));
    let bad_port = reject(&["run-http", "--port", "65536", "--", "x"]);
    assert!(bad_port.message.contains("65536"));
}

#[test]
fn help_and_version_are_printed_with_success() {
    let help = reject(&["run-http", "--help"]);
    assert_eq!(help.exit_code, 0);
    assert!(help.message.contains("A CLI tool to run and control commands via http"));
    assert!(help.message.contains("-h, --host <HOST>"));
    assert!(help.message.contains("-p, --port <PORT>"));
    assert!(help.message.contains("[default: 30067]"));
    assert!(help.message.contains("--quiet"));
    assert!(help.message.contains("--help"));
    assert!(!help.message.contains("--markdown-help"));
    let version = reject(&["run-http", "--version"]);
    assert_eq!(version.exit_code, 0);
    assert_eq!(version.message, "run-http 0.1.0\n");
    assert_eq!(reject(&["run-http", "-V"]).message, "run-http 0.1.0\n");
}

fn parsed() -> ParsedArgs {
    ParsedArgs {
        port: Some(1),
        host: Some("h".to_string()),
        command: Some(argv(&["a", "b"])),
        markdown_help: true,
        restart_condition: Some("c".to_string()),
        fail_atleast_once: true,
        restart_condition_sleep: Some(2),
        quiet: true,
    }
}

#[test]
fn values_are_put_together() {
    let args = Args::from_parsed(parsed()).unwrap();
    assert_eq!(args.port, 1);
    assert_eq!(args.host, "h");
    assert_eq!(args.command, vec!["a", "b"]);
    assert_eq!(args.markdown_help, true);
    assert_eq!(args.restart_condition, Some("c".to_string()));
    assert_eq!(args.fail_atleast_once, true);
    assert_eq!(args.restart_condition_sleep, 2);
    assert_eq!(args.quiet, true);
}

#[test]
fn the_first_missing_value_is_named() {
    let message = |p: ParsedArgs| {
        let e = Args::from_parsed(p).unwrap_err();
        assert_eq!(e.exit_code, 2);
        e.message
    };
    let prefix = "the following required argument was not provided: ";
    assert_eq!(
        message(ParsedArgs { port: None, host: None, ..parsed() }),
        format!("{}port", prefix)
    );
    assert_eq!(message(ParsedArgs { host: None, ..parsed() }), format!("{}host", prefix));
    assert_eq!(message(ParsedArgs { command: None, ..parsed() }), format!("{}command", prefix));
    assert_eq!(
        message(ParsedArgs { restart_condition_sleep: None, ..parsed() }),
        format!("{}restart_condition_sleep", prefix)
    );
}

#[test]
fn markdown_help_lists_the_documented_arguments() {
    let text = help_markdown();
    assert!(text.starts_with("# Command-Line Help for `run-http`\n"));
    assert!(text.contains("**Usage:** `run-http [OPTIONS] -- <COMMAND>...`"));
    assert!(text.contains("* `<COMMAND>` — The command to run and monitor"));
    assert!(text.contains(
        "* `-p`, `--port <PORT>` — Port to run the web server on\n\n  Default value: `30067`\n"
    ));
    assert!(text.contains(
        "* `-h`, `--host <HOST>` — Host address to bind the web server to\n\n  Default value: `127.0.0.1`\n"
    ));
    assert!(text.contains(
        "* `--restart-condition <RESTART_CONDITION>` — Condition command to run before restarting\n"
    ));
    assert!(text.contains(
        "* `--fail-atleast-once` — Ensure restart condition fails at least once before passing\n"
    ));
    assert!(text.contains(
        "* `--restart-condition-sleep <RESTART_CONDITION_SLEEP>` — Sleep duration in milliseconds between restart condition checks\n\n  Default value: `300`\n"
    ));
    assert!(!text.contains("--markdown-help"));
    assert!(!text.contains("--help"));
}

#[test]
fn markdown_help_ends_with_examples() {
    let text = help_markdown();
    assert!(text.ends_with(
        "</i></small>\n\n# Examples\n\n```\nrun-http -- python -c 'import time; i=0; while True: print(f\"Count: {i}\"); i+=1; time.sleep(1)'\ncurl http://localhost:30067/start\ncurl http://localhost:30067/status\ncurl http://localhost:30067/stop\ncurl http://localhost:30067/restart\n```\n"
    ));
    assert!(markdown_document("x").starts_with("x\n# Examples\n\n```\nrun-http -- python"));
}

#[test]
fn full_command_knows_more_than_the_documented_one() {
    let line = ["run-http", "--markdown-help", "--", "x"];
    assert!(Args::full_command().try_get_matches_from(line).is_ok());
    assert!(Args::command().try_get_matches_from(line).is_err());
    let help = Args::full_command().try_get_matches_from(["run-http", "--help"]).unwrap_err();
    assert_eq!(help.exit_code(), 0);
}
