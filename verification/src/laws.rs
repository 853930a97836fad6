//! What holds of the supervisor as a whole.

use crate::boot::{
    address, bind_error_log, binding_log, boot_done, boot_error, booting_log, bound_log,
};
use crate::clap_items::escape_at;
use crate::cli::{says, ArgsV};
use crate::effects::{writes_nothing, EffectV, Status};
use crate::monitor::{
    log_due, monitor_start_effects, poll_change, poll_effects, poll_last_log, poll_next,
    ExitReportV, MonitorNext, PollV, STILL_RUNNING_LOG_NS,
};
use crate::restart::{
    check_step, checked_step, latch_after, law_latch_follows_series, law_latch_opens_iff,
    relaunch_killed_next, relaunch_log, relaunch_next, relaunch_waited_next, restart_done,
    restart_error, restart_first_step, RelaunchNextV, RestartNextV,
};
use crate::start::{start_done, start_error, start_first_step, StartNextV};
use crate::state::{
    after, initial_state, invocation_of, status_outcome, SlotChange, StateV,
};
use crate::stop::{
    killed_log, killed_next, stop_done, stop_log, stop_next, stop_refusal, StopNextV,
};
use crate::text::{digits, digits_value, law_digits_denote_the_number, law_digits_are_decimal};
use vstd::prelude::*;

verus! {

/// The state after a series of changes to the slot, made by requests and watchers in any order.
pub open spec fn after_all<C>(s: StateV<C>, changes: Seq<SlotChange<C>>) -> StateV<C>
    decreases changes.len(),
{
    if changes.len() == 0 {
        s
    } else {
        after(after_all(s, changes.drop_last()), changes.last())
    }
}

/// Whatever requests and watchers do, in whatever order, the settings stay as they were, and a
/// state that has a command to run keeps it.
pub proof fn law_settings_never_change<C>(s: StateV<C>, changes: Seq<SlotChange<C>>)
    ensures
        after_all(s, changes) == (StateV {
            child_process: after_all(s, changes).child_process,
            ..s
        }),
        after_all(s, changes).well_formed() == s.well_formed(),
        invocation_of(after_all(s, changes).command) == invocation_of(s.command),
    decreases changes.len(),
{
    if changes.len() > 0 {
        law_settings_never_change(s, changes.drop_last());
    }
}

/// The slot always holds what was put into it last and has not left it since: where the change
/// at `i` is the last one that touched the slot, the slot is as that change left it, and where
/// none touched it, it is as it was.
pub proof fn law_slot_holds_the_last_start<C>(s: StateV<C>, changes: Seq<SlotChange<C>>, i: int)
    requires
        -1 <= i < changes.len(),
        forall|j: int| i < j < changes.len() ==> #[trigger] changes[j] is Kept,
    ensures
        i >= 0 ==> (changes[i] matches SlotChange::Filled(child) ==> after_all(
            s,
            changes,
        ).child_process == Some(child)),
        i >= 0 ==> (changes[i] is Emptied ==> !after_all(s, changes).running()),
        i == -1 ==> after_all(s, changes) == s,
    decreases changes.len(),
{
    if changes.len() > 0 && i < changes.len() - 1 {
        let before = changes.drop_last();
        assert(changes.last() is Kept);
        assert forall|j: int| i < j < before.len() implies #[trigger] before[j] is Kept by {
            assert(changes[j] is Kept);
        }
        law_slot_holds_the_last_start(s, before, i);
    }
}

/// With the log suppressed, only the output of the command is shown: whatever any request, any
/// watcher or the beginning of the program asks for is the start of a watcher, never a line of
/// its own for the log or for the output.
pub proof fn law_quiet_shows_only_the_command<C>(
    s: StateV<C>,
    running: bool,
    pid: Option<u32>,
    last_log: u128,
    poll: PollV,
    now: u128,
    has_failed: bool,
    met: bool,
    killed: bool,
    text: Seq<char>,
    address: Seq<char>,
)
    requires
        s.quiet,
    ensures
        writes_nothing(start_first_step(s).effects),
        writes_nothing(start_done(s.quiet).effects),
        writes_nothing(start_error(s.quiet, text).effects),
        writes_nothing(restart_first_step(s).effects),
        writes_nothing(check_step(s).effects),
        writes_nothing(checked_step(s, has_failed, met).effects),
        writes_nothing(relaunch_log(s.quiet, running)),
        writes_nothing(restart_done(s.quiet).effects),
        writes_nothing(restart_error(s.quiet, text).effects),
        writes_nothing(stop_log(s.quiet, running, pid)),
        writes_nothing(killed_log(s.quiet, killed)),
        writes_nothing(stop_done(s.quiet, text).effects),
        writes_nothing(status_outcome(s.quiet, running).effects),
        writes_nothing(monitor_start_effects(s.quiet, running, pid)),
        writes_nothing(poll_effects(s.quiet, last_log, poll, now)),
        writes_nothing(booting_log(s.quiet)),
        writes_nothing(boot_done(s.quiet)),
        writes_nothing(boot_error(s.quiet, text)),
        writes_nothing(binding_log(s.quiet, address)),
        writes_nothing(bound_log(s.quiet, address)),
        writes_nothing(bind_error_log(s.quiet, address, text)),
{
}

/// Suppressing the log changes no answer, and nothing of what is started, checked, waited for
/// or killed: two states that differ in nothing else are served alike.
pub proof fn law_quiet_changes_no_decision<C>(
    s: StateV<C>,
    t: StateV<C>,
    has_failed: bool,
    met: bool,
    running: bool,
    text: Seq<char>,
)
    requires
        t == (StateV { quiet: t.quiet, ..s }),
    ensures
        start_first_step(s).next == start_first_step(t).next,
        start_done(s.quiet).response == start_done(t.quiet).response,
        start_error(s.quiet, text).response == start_error(t.quiet, text).response,
        restart_first_step(s).next == restart_first_step(t).next,
        check_step(s).next == check_step(t).next,
        checked_step(s, has_failed, met).next == checked_step(t, has_failed, met).next,
        restart_done(s.quiet).response == restart_done(t.quiet).response,
        restart_error(s.quiet, text).response == restart_error(t.quiet, text).response,
        relaunch_next(s) == relaunch_next(t),
        stop_next(s) == stop_next(t),
        stop_done(s.quiet, text).response == stop_done(t.quiet, text).response,
        status_outcome(s.quiet, running).response == status_outcome(t.quiet, running).response,
{
}

/// The command that a start, a restart or the beginning of the program puts into the slot gets
/// a watcher, with or without a log.
pub proof fn law_every_started_command_is_watched(quiet: bool)
    ensures
        start_done(quiet).effects.contains(EffectV::SpawnMonitor),
        restart_done(quiet).effects.contains(EffectV::SpawnMonitor),
        boot_done(quiet).contains(EffectV::SpawnMonitor),
{
    let started = start_done(quiet).effects;
    let restarted = restart_done(quiet).effects;
    let booted = boot_done(quiet);
    assert(started[started.len() - 1] == EffectV::SpawnMonitor);
    assert(restarted[0] == EffectV::SpawnMonitor);
    assert(booted[booted.len() - 1] == EffectV::SpawnMonitor);
}

/// A start is refused exactly while a command is running; else it starts the command that the
/// state was set up with.
pub proof fn law_start_is_refused_iff_running<C>(s: StateV<C>)
    ensures
        s.running() <==> start_first_step(s).next is Respond,
        start_first_step(s).next matches StartNextV::Respond(r) ==> r.status
            == Status::BadRequest,
        start_first_step(s).next matches StartNextV::Spawn(i) ==> i == invocation_of(s.command),
{
}

/// Once a command has started it is reported as running, another start is refused, and a stop
/// gets hold of that command; after the stop nothing is reported as running, another stop is
/// refused, and a start is accepted again.
pub proof fn law_start_stop_status<C>(s: StateV<C>, child: C)
    ensures
        ({
            let started = after(s, SlotChange::Filled(child));
            let stopped = after(started, SlotChange::Emptied);
            &&& status_outcome(started.quiet, started.running()).response.body
                == "Command is running"@
            &&& start_first_step(started).next is Respond
            &&& stop_next(started) == StopNextV::Kill(child)
            &&& status_outcome(stopped.quiet, stopped.running()).response.body
                == "Command is not running"@
            &&& stop_next(stopped) == StopNextV::<C>::Respond(stop_refusal())
            &&& start_first_step(stopped).next == StartNextV::Spawn(invocation_of(s.command))
        }),
{
}

/// The status of an answer: a failure to start is an internal error, a request that does not
/// fit the state is a bad one, and everything else goes well.
pub proof fn law_status_of_answers(quiet: bool, running: bool, text: Seq<char>)
    ensures
        start_done(quiet).response.status.spec_code() == 200,
        start_error(quiet, text).response.status.spec_code() == 500,
        restart_done(quiet).response.status.spec_code() == 200,
        restart_error(quiet, text).response.status.spec_code() == 500,
        stop_done(quiet, text).response.status.spec_code() == 200,
        stop_refusal().status.spec_code() == 400,
        status_outcome(quiet, running).response.status.spec_code() == 200,
{
}

/// A restart without a condition goes ahead at once. One with a condition first checks it, and
/// after a series of checks goes ahead exactly when the last one succeeded and, where at least
/// one failure is asked for, an earlier one failed; else it waits for the time that is set and
/// checks again.
pub proof fn law_restart_goes_ahead_iff<C>(s: StateV<C>, results: Seq<bool>)
    requires
        results.len() > 0,
    ensures
        s.restart_condition is None <==> restart_first_step(s).next is Relaunch,
        s.restart_condition is Some <==> restart_first_step(s).next is CheckCondition,
        ({
            let step = checked_step(
                s,
                latch_after(s.fail_atleast_once, results),
                results.last(),
            );
            let ahead = results.last() && (s.fail_atleast_once ==> exists|i: int|
                0 <= i < results.len() - 1 && !results[i]);
            &&& ahead ==> step.next is Relaunch
            &&& !ahead ==> step.next == RestartNextV::Sleep(s.restart_condition_sleep)
        }),
{
    law_latch_opens_iff(s.fail_atleast_once, results);
    law_latch_follows_series(s.fail_atleast_once, results.drop_last(), results.last());
    assert(results.drop_last().push(results.last()) =~= results);
}

/// A command that is running when a restart goes ahead is killed and, whether or not that went
/// well, waited for before the command is started again: it leaves the slot, and nothing is
/// started first. Only where nothing is running is the command started at once.
pub proof fn law_restart_ends_the_old_command_first<C>(s: StateV<C>, killed: bool)
    ensures
        relaunch_next(s) is Spawn <==> !s.running(),
        relaunch_next(s) matches RelaunchNextV::Spawn(i) ==> i == invocation_of(s.command),
        s.child_process matches Some(child) ==> relaunch_next(s) == RelaunchNextV::Kill(child)
            && relaunch_killed_next(child, killed) == RelaunchNextV::Wait(child),
        !after(s, SlotChange::<C>::Emptied).running(),
        relaunch_waited_next(after(s, SlotChange::<C>::Emptied)) == RelaunchNextV::<C>::Spawn(
            invocation_of(s.command),
        ),
{
}

/// A stop kills a running command and, whether or not that went well, waits for it before it
/// answers; it answers at once only where nothing is running.
pub proof fn law_stop_ends_the_command<C>(s: StateV<C>, killed: bool)
    ensures
        stop_next(s) is Respond <==> !s.running(),
        s.child_process matches Some(child) ==> stop_next(s) == StopNextV::Kill(child)
            && killed_next(child, killed) == StopNextV::Wait(child),
        !after(s, SlotChange::<C>::Emptied).running(),
{
}

/// A watch ends exactly when its command has ended or has left the slot, and then nothing is
/// reported as running; where there is a log, a command that ended without success is reported
/// in the output.
pub proof fn law_watch_ends_with_the_command<C>(
    s: StateV<C>,
    last_log: u128,
    poll: PollV,
    now: u128,
)
    requires
        poll is NoChild <==> !s.running(),
    ensures
        poll_next(poll) is Finish <==> !after(s, poll_change(poll)).running(),
        poll_next(poll) is Finish <==> poll is NoChild || poll is Exited,
        poll matches PollV::Exited(report) ==> !s.quiet && !report.success ==> poll_effects(
            s.quiet,
            last_log,
            poll,
            now,
        ).last() == EffectV::Output("Command exited with error: "@ + report.text),
{
}

/// When the lines on a command that goes on running are written, in a series of looks at it.
pub open spec fn log_times(quiet: bool, last_log: u128, polls: Seq<(PollV, u128)>) -> Seq<u128>
    decreases polls.len(),
{
    if polls.len() == 0 {
        Seq::empty()
    } else {
        let (poll, now) = polls[0];
        let rest = log_times(quiet, poll_last_log(quiet, last_log, poll, now), polls.drop_first());
        if poll is Running && log_due(quiet, last_log, now) {
            seq![now] + rest
        } else {
            rest
        }
    }
}

/// However often a running command is looked at, the lines on it are at least two seconds
/// apart, and the first comes no sooner than two seconds after the beginning of the watch.
pub proof fn law_running_lines_are_apart(quiet: bool, last_log: u128, polls: Seq<(PollV, u128)>)
    ensures
        ({
            let times = log_times(quiet, last_log, polls);
            &&& times.len() > 0 ==> times[0] - last_log >= STILL_RUNNING_LOG_NS
            &&& forall|i: int, j: int|
                0 <= i < j < times.len() ==> #[trigger] times[j] - #[trigger] times[i]
                    >= STILL_RUNNING_LOG_NS
        }),
    decreases polls.len(),
{
    if polls.len() > 0 {
        let (poll, now) = polls[0];
        let next = poll_last_log(quiet, last_log, poll, now);
        let rest = log_times(quiet, next, polls.drop_first());
        law_running_lines_are_apart(quiet, next, polls.drop_first());
        if poll is Running && log_due(quiet, last_log, now) {
            let times = log_times(quiet, last_log, polls);
            assert(times =~= seq![now] + rest);
            assert forall|i: int, j: int| 0 <= i < j < times.len() implies #[trigger] times[j]
                - #[trigger] times[i] >= STILL_RUNNING_LOG_NS by {
                assert(times[j] == rest[j - 1]);
                if i > 0 {
                    assert(times[i] == rest[i - 1]);
                } else if j > 1 {
                    assert(rest[j - 1] - rest[0] >= STILL_RUNNING_LOG_NS);
                }
            }
        }
    }
}

/// A command line that is accepted can be run: the state that it sets up has a command, which
/// is what the command line says after its first lone `--`, and nothing is running yet.
pub proof fn law_accepted_command_line_can_be_run<C>(argv: Seq<Seq<char>>, k: int, args: ArgsV)
    requires
        escape_at(argv, k),
        says(argv, k, args),
    ensures
        initial_state::<C>(args).well_formed(),
        initial_state::<C>(args).command == argv.skip(k + 1),
        !initial_state::<C>(args).running(),
        start_first_step(initial_state::<C>(args)).next is Spawn,
{
}

/// What is started is the whole command, word for word: the program followed by its arguments
/// are the words of the command.
pub proof fn law_invocation_is_the_whole_command(command: Seq<Seq<char>>)
    requires
        command.len() > 0,
    ensures
        seq![invocation_of(command).program] + invocation_of(command).args == command,
{
    assert(seq![invocation_of(command).program] + invocation_of(command).args =~= command);
}

/// Every start runs the whole command, word for word: a start where nothing is running, and a
/// restart, whether or not something was running before.
pub proof fn law_every_start_runs_the_whole_command<C>(s: StateV<C>)
    requires
        s.command.len() > 0,
    ensures
        s.child_process is None ==> (start_first_step(s).next matches StartNextV::Spawn(i)
            && seq![i.program] + i.args == s.command),
        s.child_process is None ==> (relaunch_next(s) matches RelaunchNextV::Spawn(i)
            && seq![i.program] + i.args == s.command),
        relaunch_waited_next(s) matches RelaunchNextV::Spawn(i) && seq![i.program] + i.args
            == s.command,
{
    law_invocation_is_the_whole_command(s.command);
}

/// A state has a command to run exactly when it has a word of one, and is running exactly when
/// its slot holds something.
pub proof fn law_running_means_a_filled_slot<C>(s: StateV<C>)
    ensures
        s.running() <==> s.child_process is Some,
        s.well_formed() <==> s.command.len() > 0,
{
}

/// What a change does to the slot, and that it does nothing else.
pub proof fn law_changes_touch_only_the_slot<C>(s: StateV<C>, child: C, change: SlotChange<C>)
    ensures
        after(s, SlotChange::Filled(child)).child_process == Some(child),
        after(s, SlotChange::<C>::Emptied).child_process is None,
        after(s, SlotChange::<C>::Kept).child_process == s.child_process,
        after(s, change).command == s.command,
        after(s, change).restart_condition == s.restart_condition,
        after(s, change).fail_atleast_once == s.fail_atleast_once,
        after(s, change).restart_condition_sleep == s.restart_condition_sleep,
        after(s, change).quiet == s.quiet,
{
}

/// The supervisor is run by what the command line comes to: each setting of the state is the one
/// of the command line, and nothing is running.
pub proof fn law_state_is_set_up_by_the_command_line<C>(args: ArgsV)
    ensures
        initial_state::<C>(args).command == args.command,
        initial_state::<C>(args).restart_condition == args.restart_condition,
        initial_state::<C>(args).fail_atleast_once == args.fail_atleast_once,
        initial_state::<C>(args).restart_condition_sleep == args.restart_condition_sleep,
        initial_state::<C>(args).quiet == args.quiet,
        initial_state::<C>(args).child_process is None,
{
}

/// Where there is a restart condition, it is checked first and again after every wait, whatever
/// else is set, and the check runs it in a shell; where there is none, nothing is checked.
pub proof fn law_condition_is_checked_in_a_shell<C>(s: StateV<C>)
    ensures
        s.restart_condition matches Some(condition) ==> {
            &&& check_step(s).next matches RestartNextV::CheckCondition(i) && i.program == "sh"@
                && i.args == seq!["-c"@, condition]
            &&& restart_first_step(s).next == check_step(s).next
        },
        s.restart_condition is None ==> check_step(s).next is Relaunch && restart_first_step(
            s,
        ).next is Relaunch,
{
}

/// A failure that a series of steps of a restart has come across before the step at `i`.
spec fn failed_before(nexts: Seq<RestartNextV>, met: Seq<bool>, i: int) -> bool {
    exists|j: int| 0 <= j < i && #[trigger] nexts[j] is CheckCondition && !met[j]
}

/// A whole restart, step by step: `nexts` are its steps, `met[i]` is the result of the check at
/// step `i`, where that is one, and `latch[i]` is the latch when step `i` is taken. The restart
/// goes ahead only directly after a check that succeeded, and, where a failure is asked for, only
/// after an earlier check that failed. A check that does not let it go ahead is followed by the
/// wait that is set, and every wait by another check of the same condition.
pub proof fn law_whole_restart<C>(
    s: StateV<C>,
    nexts: Seq<RestartNextV>,
    met: Seq<bool>,
    latch: Seq<bool>,
    condition: Seq<char>,
    i: int,
)
    requires
        s.restart_condition == Some(condition),
        nexts.len() == met.len() == latch.len(),
        0 <= i < nexts.len(),
        nexts[0] == restart_first_step(s).next,
        latch[0] == !s.fail_atleast_once,
        forall|j: int|
            0 < j < nexts.len() && (#[trigger] nexts[j - 1]) is CheckCondition ==> latch[j] == (
            latch[j - 1] || !met[j - 1]) && nexts[j] == checked_step(
                s,
                latch[j],
                met[j - 1],
            ).next,
        forall|j: int|
            0 < j < nexts.len() && (#[trigger] nexts[j - 1]) is Sleep ==> latch[j] == latch[j - 1]
                && nexts[j] == check_step(s).next,
        forall|j: int| 0 < j < nexts.len() ==> !((#[trigger] nexts[j - 1]) is Relaunch),
    ensures
        nexts[i] is Relaunch ==> i > 0 && nexts[i - 1] is CheckCondition && met[i - 1] && (
        s.fail_atleast_once ==> exists|j: int|
            0 <= j < i - 1 && #[trigger] nexts[j] is CheckCondition && !met[j]),
        nexts[i] matches RestartNextV::CheckCondition(inv) ==> inv.program == "sh"@ && inv.args
            == seq!["-c"@, condition],
        nexts[i] is CheckCondition <==> i == 0 || nexts[i - 1] is Sleep,
        nexts[i] matches RestartNextV::Sleep(ms) ==> i > 0 && nexts[i - 1] is CheckCondition && ms
            == s.restart_condition_sleep,
        i > 0 && nexts[i - 1] is CheckCondition && met[i - 1] && (s.fail_atleast_once
            ==> exists|j: int|
            0 <= j < i - 1 && #[trigger] nexts[j] is CheckCondition && !met[j])
            ==> nexts[i] is Relaunch,
{
    lemma_latch_in_restart(s, nexts, met, latch, condition, i);
    if i > 0 {
        lemma_latch_in_restart(s, nexts, met, latch, condition, i - 1);
        assert(nexts[i - 1] is CheckCondition || nexts[i - 1] is Sleep);
    }
}

/// The latch of a restart has seen a failure exactly when a check has failed, or none is asked
/// for.
proof fn lemma_latch_in_restart<C>(
    s: StateV<C>,
    nexts: Seq<RestartNextV>,
    met: Seq<bool>,
    latch: Seq<bool>,
    condition: Seq<char>,
    i: int,
)
    requires
        s.restart_condition == Some(condition),
        nexts.len() == met.len() == latch.len(),
        0 <= i < nexts.len(),
        nexts[0] == restart_first_step(s).next,
        latch[0] == !s.fail_atleast_once,
        forall|j: int|
            0 < j < nexts.len() && (#[trigger] nexts[j - 1]) is CheckCondition ==> latch[j] == (
            latch[j - 1] || !met[j - 1]) && nexts[j] == checked_step(
                s,
                latch[j],
                met[j - 1],
            ).next,
        forall|j: int|
            0 < j < nexts.len() && (#[trigger] nexts[j - 1]) is Sleep ==> latch[j] == latch[j - 1]
                && nexts[j] == check_step(s).next,
        forall|j: int| 0 < j < nexts.len() ==> !((#[trigger] nexts[j - 1]) is Relaunch),
    ensures
        latch[i] <==> !s.fail_atleast_once || failed_before(nexts, met, i),
    decreases i,
{
    if i > 0 {
        lemma_latch_in_restart(s, nexts, met, latch, condition, i - 1);
        assert(nexts[i - 1] is CheckCondition || nexts[i - 1] is Sleep);
        if failed_before(nexts, met, i - 1) {
            let j = choose|j: int|
                0 <= j < i - 1 && #[trigger] nexts[j] is CheckCondition && !met[j];
            assert(nexts[j] is CheckCondition && !met[j]);
        }
        if failed_before(nexts, met, i) {
            let j = choose|j: int| 0 <= j < i && #[trigger] nexts[j] is CheckCondition && !met[j];
            assert(j == i - 1 || failed_before(nexts, met, i - 1));
        }
    }
}

/// With a log, each step of a restart says what it does: that it was asked for, each check with
/// its condition, that the condition was met just where the restart goes ahead, and that a
/// command which is running is killed.
pub proof fn law_restart_is_logged<C>(s: StateV<C>, has_failed: bool, met: bool)
    requires
        !s.quiet,
    ensures
        s.restart_condition matches Some(condition) ==> {
            &&& check_step(s).effects == seq![
                EffectV::Info("Checking restart condition: "@ + condition),
            ]
            &&& restart_first_step(s).effects == seq![
                EffectV::Info("Received request to restart command"@),
                EffectV::Info("Checking restart condition: "@ + condition),
            ]
        },
        s.restart_condition is None ==> check_step(s).effects.len() == 0 && restart_first_step(
            s,
        ).effects == seq![EffectV::Info("Received request to restart command"@)],
        checked_step(s, has_failed, met).effects == if checked_step(
            s,
            has_failed,
            met,
        ).next is Relaunch {
            seq![EffectV::Info("Restart condition met"@)]
        } else {
            Seq::<EffectV>::empty()
        },
        relaunch_log(false, true) == seq![EffectV::Info("Killing existing child process"@)],
        relaunch_log(false, false).len() == 0,
{
    assert(restart_first_step(s).effects =~= seq![
        EffectV::Info("Received request to restart command"@),
    ] + check_step(s).effects);
}

/// What is answered to a start, a restart, a stop and a question about the command, in words
/// and by code; the error of a start or restart that failed is part of the answer.
pub proof fn law_answers<C>(s: StateV<C>, quiet: bool, running: bool, text: Seq<char>)
    ensures
        s.child_process is Some ==> (start_first_step(s).next matches StartNextV::Respond(r)
            && r.status.spec_code() == 400 && r.body == "Command is already running"@),
        start_done(quiet).response.body == "Command started successfully"@,
        start_error(quiet, text).response.body == "Failed to start command: "@ + text,
        restart_done(quiet).response.body == "Command restarted successfully"@,
        restart_error(quiet, text).response.body == "Failed to restart command: "@ + text,
        s.child_process is None ==> (stop_next(s) matches StopNextV::Respond(r)
            && r.status.spec_code() == 400 && r.body == "No command is running"@),
        stop_done(quiet, text).response.body == "Command stopped successfully"@,
        status_outcome(quiet, true).response.body == "Command is running"@,
        status_outcome(quiet, false).response.body == "Command is not running"@,
{
}

/// With a log, each step of a start and of a question about the command is logged, what is
/// answered is logged too, and how a start went is also put among the output.
pub proof fn law_start_and_status_are_logged<C>(s: StateV<C>, running: bool, text: Seq<char>)
    requires
        !s.quiet,
    ensures
        start_first_step(s).effects[0] == EffectV::Info("Received request to start command"@),
        start_first_step(s).next matches StartNextV::Respond(r) ==> start_first_step(s).effects
            == seq![EffectV::Info("Received request to start command"@), EffectV::Info(r.body)],
        start_first_step(s).next is Spawn ==> start_first_step(s).effects.len() == 1,
        start_done(false).effects == seq![
            EffectV::Info("Command started successfully, monitoring child"@),
            EffectV::Output(start_done(false).response.body),
            EffectV::SpawnMonitor,
        ],
        start_error(false, text).effects == seq![
            EffectV::Error(start_error(false, text).response.body),
            EffectV::Output(start_error(false, text).response.body),
        ],
        restart_done(false).effects == seq![
            EffectV::SpawnMonitor,
            EffectV::Info(restart_done(false).response.body),
        ],
        restart_error(false, text).effects == seq![
            EffectV::Error(restart_error(false, text).response.body),
        ],
        status_outcome(false, running).effects == seq![
            EffectV::Info("Received request to get command status"@),
            EffectV::Info(status_outcome(false, running).response.body),
        ],
{
}

/// With a log, each step of a stop is logged: whether a command is there and which process it
/// is, how the attempt to kill it went, and how the wait for it ended.
pub proof fn law_stop_is_logged(pid: u32, any: Option<u32>, text: Seq<char>)
    ensures
        stop_log(false, true, Some(pid)) == seq![
            EffectV::Info("Stop - Received request to stop command"@),
            EffectV::Info("Stop - Got lock, child process state: "@ + "true"@),
            EffectV::Info("Stop - Found child process, attempting to kill"@),
            EffectV::Info("Stop - Child PID: "@ + ("Some("@ + digits(pid as nat) + ")"@)),
        ],
        stop_log(false, true, None) == stop_log(false, true, Some(pid)).update(
            3,
            EffectV::Info("Stop - Child PID: "@ + "None"@),
        ),
        stop_log(false, false, any) == seq![
            EffectV::Info("Stop - Received request to stop command"@),
            EffectV::Info("Stop - Got lock, child process state: "@ + "false"@),
            EffectV::Info("Stop - No command is running"@),
        ],
        killed_log(false, true) == seq![EffectV::Info("Stop - Kill result: "@ + "true"@)],
        killed_log(false, false) == seq![EffectV::Info("Stop - Kill result: "@ + "false"@)],
        stop_done(false, text).effects == seq![
            EffectV::Info("Stop - Wait result: "@ + text),
            EffectV::Info("Stop - "@ + stop_done(false, text).response.body),
        ],
{
    reveal_strlit("Stop - ");
    reveal_strlit("Command stopped successfully");
    reveal_strlit("Stop - Command stopped successfully");
    assert("Stop - "@ + "Command stopped successfully"@
        =~= "Stop - Command stopped successfully"@);
    assert(stop_log(false, true, None) =~= stop_log(false, true, Some(pid)).update(
        3,
        EffectV::Info("Stop - Child PID: "@ + "None"@),
    ));
}

/// With a log, the beginning of a watch says whether there is a command and which process it is;
/// that there is none is an error, and the one thing that is also put among the output.
pub proof fn law_beginning_of_a_watch_is_logged(pid: u32, any: Option<u32>)
    ensures
        monitor_start_effects(false, true, Some(pid)) == seq![
            EffectV::Info("Monitor - Getting child process, current state: "@ + "true"@),
            EffectV::Info(
                "Monitor - Found child process with PID: "@ + ("Some("@ + digits(pid as nat)
                    + ")"@),
            ),
        ],
        monitor_start_effects(false, true, None) == seq![
            EffectV::Info("Monitor - Getting child process, current state: "@ + "true"@),
            EffectV::Info("Monitor - Found child process with PID: "@ + "None"@),
        ],
        monitor_start_effects(false, false, any) == seq![
            EffectV::Info("Monitor - Getting child process, current state: "@ + "false"@),
            EffectV::Info("Monitor - No child process found to monitor"@),
            EffectV::Error("Error: No child process found to monitor"@),
            EffectV::Output("Error: No child process found to monitor"@),
        ],
{
}

/// A command that has ended is reported among the output exactly when it ended without success,
/// whatever its status says: once, as the last thing, with the status. A success puts nothing
/// among the output. With a log, either end is logged with its status.
pub proof fn law_only_a_failure_is_reported(last_log: u128, now: u128, report: ExitReportV)
    ensures
        ({
            let effects = poll_effects(false, last_log, PollV::Exited(report), now);
            &&& report.success ==> effects.len() == 2 && forall|i: int|
                0 <= i < effects.len() ==> !((#[trigger] effects[i]) is Output)
            &&& !report.success ==> effects.len() == 3 && effects[2] == EffectV::Output(
                "Command exited with error: "@ + report.text,
            )
            &&& effects[0] == EffectV::Info(
                "Monitor - Child process exited with status: "@ + report.text,
            )
            &&& effects[1] == EffectV::Info(
                "Monitor - Finished monitoring process with final status: "@ + ("Some("@
                    + report.text + ")"@),
            )
        }),
{
}

/// What a look at the slot asks for where no command has ended: with a log, that the slot is
/// empty or that the command could not be asked is logged every time, and that it goes on
/// running once two seconds have passed since it was last logged, which is then noted. Nothing
/// of it is put among the output, and the watcher looks again after a tenth of a second unless
/// the slot is empty.
pub proof fn law_looks_without_an_end(last_log: u128, now: u128, error: Seq<char>, quiet: bool)
    ensures
        poll_effects(false, last_log, PollV::NoChild, now) == seq![
            EffectV::Info("Monitor - Child process no longer in state"@),
            EffectV::Info("Monitor - Finished monitoring process with final status: "@ + "None"@),
        ],
        poll_effects(false, last_log, PollV::Failed(error), now) == seq![
            EffectV::Error("Monitor - Error checking process status: "@ + error),
        ],
        now - last_log >= 2_000_000_000 ==> poll_effects(false, last_log, PollV::Running, now)
            == seq![EffectV::Info("Monitor - Child process still running"@)],
        now - last_log < 2_000_000_000 ==> poll_effects(
            false,
            last_log,
            PollV::Running,
            now,
        ).len() == 0,
        poll_last_log(quiet, last_log, PollV::Running, now) == if !quiet && now - last_log
            >= 2_000_000_000 {
            now
        } else {
            last_log
        },
        poll_last_log(quiet, last_log, PollV::Failed(error), now) == last_log,
        poll_next(PollV::Running) == MonitorNext::Sleep(100),
        poll_next(PollV::Failed(error)) == MonitorNext::Sleep(100),
        poll_next(PollV::NoChild) is Finish,
{
}

/// A look frees the slot exactly when it finds that the command has ended, and then the watch is
/// over; otherwise the slot keeps what it holds.
pub proof fn law_only_an_end_frees_the_slot<C>(s: StateV<C>, poll: PollV)
    ensures
        poll is Exited ==> after(s, poll_change(poll)).child_process is None && poll_next(
            poll,
        ) is Finish,
        !(poll is Exited) ==> after(s, poll_change(poll)).child_process == s.child_process,
{
}

/// Without a log nothing is asked for, but for one watcher of a command that has just been
/// started.
pub proof fn law_quiet_asks_for_one_watcher<C>(
    s: StateV<C>,
    running: bool,
    pid: Option<u32>,
    last_log: u128,
    poll: PollV,
    now: u128,
    has_failed: bool,
    met: bool,
    killed: bool,
    text: Seq<char>,
    place: Seq<char>,
)
    requires
        s.quiet,
    ensures
        start_done(true).effects == seq![EffectV::SpawnMonitor],
        restart_done(true).effects == seq![EffectV::SpawnMonitor],
        boot_done(true) == seq![EffectV::SpawnMonitor],
        start_first_step(s).effects.len() == 0,
        start_error(true, text).effects.len() == 0,
        restart_first_step(s).effects.len() == 0,
        check_step(s).effects.len() == 0,
        checked_step(s, has_failed, met).effects.len() == 0,
        relaunch_log(true, running).len() == 0,
        restart_error(true, text).effects.len() == 0,
        stop_log(true, running, pid).len() == 0,
        killed_log(true, killed).len() == 0,
        stop_done(true, text).effects.len() == 0,
        status_outcome(true, running).effects.len() == 0,
        monitor_start_effects(true, running, pid).len() == 0,
        poll_effects(true, last_log, poll, now).len() == 0,
        booting_log(true).len() == 0,
        boot_error(true, text).len() == 0,
        binding_log(true, place).len() == 0,
        bound_log(true, place).len() == 0,
        bind_error_log(true, place, text).len() == 0,
{
}

/// With a log, coming up is logged: its beginning, how the first start went, which is also put
/// among the output, and the address, which is that of a web server.
pub proof fn law_coming_up_is_logged(place: Seq<char>, error: Seq<char>)
    ensures
        booting_log(false) == seq![EffectV::Info("\n\n\nBooting up..."@)],
        boot_done(false) == seq![
            EffectV::Info("Command started successfully on boot"@),
            EffectV::Output("Command started successfully on boot"@),
            EffectV::SpawnMonitor,
        ],
        boot_error(false, error) == seq![
            EffectV::Error("Failed to start command on boot: "@ + error),
            EffectV::Output("Failed to start command on boot: "@ + error),
        ],
        binding_log(false, place) == seq![
            EffectV::Info("Attempting to bind to http://"@ + place),
        ],
        bound_log(false, place) == seq![
            EffectV::Info("Server successfully bound to http://"@ + place),
        ],
        bind_error_log(false, place, error) == seq![
            EffectV::Error("Failed to bind to "@ + place + ": "@ + error),
        ],
{
}

/// The address is the host, a colon and the port in decimal digits: host and port can be read
/// off it again.
pub proof fn law_address_is_host_and_port(host: Seq<char>, port: u16)
    ensures
        ({
            let whole = address(host, port);
            let number = whole.skip(host.len() as int + 1);
            &&& whole.len() > host.len() + 1
            &&& whole.take(host.len() as int) == host
            &&& whole[host.len() as int] == ':'
            &&& digits_value(number) == port
            &&& forall|i: int| 0 <= i < number.len() ==> '0' <= #[trigger] number[i] <= '9'
            &&& number[0] == '0' ==> port == 0 && number.len() == 1
        }),
{
    reveal_strlit(":");
    law_digits_denote_the_number(port as nat);
    law_digits_are_decimal(port as nat);
    let whole = address(host, port);
    assert(whole.take(host.len() as int) =~= host);
    assert(whole.skip(host.len() as int + 1) =~= digits(port as nat));
}

} // verus!
