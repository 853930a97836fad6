//! Watching the running command until it ends or leaves the slot.

use crate::effects::{
    effect_views, no_effects, note_error, note_info, note_output, Effect, EffectV,
};
use crate::state::{after, AppState, SlotChange};
use crate::text::{bool_text, bool_word, join, option_text, pid_text, pid_word, some_of};
use vstd::prelude::*;

verus! {

/// Milliseconds between two looks at the running command.
pub const POLL_INTERVAL_MS: u64 = 100;

/// Nanoseconds that have to pass between two log lines on a command that goes on running.
pub const STILL_RUNNING_LOG_NS: u128 = 2_000_000_000;

/// How a command ended.
#[derive(Debug)]
pub struct ExitReport {
    /// Whether it ended with success.
    pub success: bool,
    /// The exit status in words.
    pub text: String,
}

/// What an [`ExitReport`] says.
pub struct ExitReportV {
    pub success: bool,
    pub text: Seq<char>,
}

impl View for ExitReport {
    type V = ExitReportV;

    open spec fn view(&self) -> ExitReportV {
        ExitReportV { success: self.success, text: self.text@ }
    }
}

/// What a look into the slot found.
#[derive(Debug)]
pub enum Poll {
    /// The slot is empty.
    NoChild,
    /// The command in the slot has ended.
    Exited(ExitReport),
    /// The command in the slot goes on running.
    Running,
    /// The command in the slot could not be asked.
    Failed(String),
}

/// What a [`Poll`] says.
pub enum PollV {
    NoChild,
    Exited(ExitReportV),
    Running,
    Failed(Seq<char>),
}

impl View for Poll {
    type V = PollV;

    open spec fn view(&self) -> PollV {
        match self {
            Poll::NoChild => PollV::NoChild,
            Poll::Exited(report) => PollV::Exited(report@),
            Poll::Running => PollV::Running,
            Poll::Failed(error) => PollV::Failed(error@),
        }
    }
}

/// A watcher. Times are nanoseconds on a clock that never goes back.
#[derive(Debug)]
pub struct Monitor {
    /// When the last line on a command that goes on running was due.
    pub last_log: u128,
}

/// The beginning of a watch: what to do, and the watcher where there is something to watch.
#[derive(Debug)]
pub struct MonitorStart {
    pub effects: Vec<Effect>,
    pub monitor: Option<Monitor>,
}

/// What a watcher does next.
#[derive(Debug, Clone, Copy, PartialEq, Eq, Structural)]
pub enum MonitorNext {
    /// Wait for this many milliseconds, then look again.
    Sleep(u64),
    /// The watch is over.
    Finish,
}

/// A step of a watcher.
#[derive(Debug)]
pub struct MonitorStep {
    pub effects: Vec<Effect>,
    pub next: MonitorNext,
}

/// The effects at the beginning of a watch.
pub open spec fn monitor_start_effects(quiet: bool, running: bool, pid: Option<u32>) -> Seq<
    EffectV,
> {
    let look = EffectV::Info(
        "Monitor - Getting child process, current state: "@ + bool_text(running),
    );
    let missing = "Error: No child process found to monitor"@;
    if quiet {
        Seq::empty()
    } else if running {
        seq![look, EffectV::Info("Monitor - Found child process with PID: "@ + pid_text(pid))]
    } else {
        seq![
            look,
            EffectV::Info("Monitor - No child process found to monitor"@),
            EffectV::Error(missing),
            EffectV::Output(missing),
        ]
    }
}

/// Whether a line on a command that goes on running is due.
pub open spec fn log_due(quiet: bool, last_log: u128, now: u128) -> bool {
    !quiet && now - last_log >= STILL_RUNNING_LOG_NS
}

/// The log line at the end of a watch.
pub open spec fn finish_line(status: Option<Seq<char>>) -> EffectV {
    EffectV::Info(
        "Monitor - Finished monitoring process with final status: "@ + option_text(status),
    )
}

/// The line of output that reports a command that ended without success; without a log there is
/// none.
pub open spec fn exit_error(quiet: bool, report: ExitReportV) -> Seq<EffectV> {
    if quiet || report.success {
        Seq::empty()
    } else {
        seq![EffectV::Output("Command exited with error: "@ + report.text)]
    }
}

/// The effects of a look into the slot.
pub open spec fn poll_effects(quiet: bool, last_log: u128, poll: PollV, now: u128) -> Seq<EffectV> {
    match poll {
        PollV::NoChild => if quiet {
            Seq::empty()
        } else {
            seq![EffectV::Info("Monitor - Child process no longer in state"@), finish_line(None)]
        },
        PollV::Exited(report) => if quiet {
            Seq::empty()
        } else {
            seq![
                EffectV::Info("Monitor - Child process exited with status: "@ + report.text),
                finish_line(Some(report.text)),
            ] + exit_error(quiet, report)
        },
        PollV::Running => if log_due(quiet, last_log, now) {
            seq![EffectV::Info("Monitor - Child process still running"@)]
        } else {
            Seq::empty()
        },
        PollV::Failed(error) => if quiet {
            Seq::empty()
        } else {
            seq![EffectV::Error("Monitor - Error checking process status: "@ + error)]
        },
    }
}

/// What a watcher does after a look into the slot.
pub open spec fn poll_next(poll: PollV) -> MonitorNext {
    if poll is NoChild || poll is Exited {
        MonitorNext::Finish
    } else {
        MonitorNext::Sleep(POLL_INTERVAL_MS)
    }
}

/// What a look into the slot does to it: a command that has ended leaves it.
pub open spec fn poll_change<C>(poll: PollV) -> SlotChange<C> {
    if poll is Exited {
        SlotChange::Emptied
    } else {
        SlotChange::Kept
    }
}

/// When the next line on a command that goes on running is counted from.
pub open spec fn poll_last_log(quiet: bool, last_log: u128, poll: PollV, now: u128) -> u128 {
    if poll is Running && log_due(quiet, last_log, now) {
        now
    } else {
        last_log
    }
}

impl<C> AppState<C> {
    /// Begins to watch whatever is in the slot; `pid` is the process id of that command, where
    /// there is one.
    pub fn monitor_child(&self, pid: Option<u32>, now: u128) -> (res: MonitorStart)
        ensures
            effect_views(res.effects@) == monitor_start_effects(self.quiet, self@.running(), pid),
            res.monitor is Some <==> self@.running(),
            res.monitor matches Some(m) ==> m.last_log == now,
    {
        let running = self.child_process.is_some();
        let mut effects = no_effects();
        if !self.quiet {
            note_info(
                &mut effects,
                join(
                    "Monitor - Getting child process, current state: ",
                    bool_word(running),
                ).as_str(),
            );
        }
        if running {
            if !self.quiet {
                note_info(
                    &mut effects,
                    join(
                        "Monitor - Found child process with PID: ",
                        pid_word(pid).as_str(),
                    ).as_str(),
                );
            }
            assert(effect_views(effects@) =~= monitor_start_effects(self.quiet, true, pid));
            MonitorStart { effects, monitor: Some(Monitor { last_log: now }) }
        } else {
            let missing = "Error: No child process found to monitor";
            if !self.quiet {
                note_info(&mut effects, "Monitor - No child process found to monitor");
                note_error(&mut effects, missing);
                note_output(&mut effects, missing);
            }
            assert(effect_views(effects@) =~= monitor_start_effects(self.quiet, false, pid));
            MonitorStart { effects, monitor: None }
        }
    }

    /// The watcher has looked into the slot, which it still holds, and found `poll`.
    pub fn monitor_poll(&mut self, monitor: &mut Monitor, poll: Poll, now: u128) -> (res:
        MonitorStep)
        requires
            poll is NoChild <==> !old(self)@.running(),
        ensures
            final(self)@ == after(old(self)@, poll_change(poll@)),
            effect_views(res.effects@) == poll_effects(
                old(self).quiet,
                old(monitor).last_log,
                poll@,
                now,
            ),
            res.next == poll_next(poll@),
            final(monitor).last_log == poll_last_log(
                old(self).quiet,
                old(monitor).last_log,
                poll@,
                now,
            ),
    {
        let mut effects = no_effects();
        let ghost expected = poll_effects(self.quiet, monitor.last_log, poll@, now);
        match poll {
            Poll::NoChild => {
                if !self.quiet {
                    note_info(&mut effects, "Monitor - Child process no longer in state");
                    note_info(
                        &mut effects,
                        join(
                            "Monitor - Finished monitoring process with final status: ",
                            "None",
                        ).as_str(),
                    );
                }
                assert(effect_views(effects@) =~= expected);
                MonitorStep { effects, next: MonitorNext::Finish }
            },
            Poll::Exited(report) => {
                let text = report.text.as_str();
                if !self.quiet {
                    note_info(
                        &mut effects,
                        join("Monitor - Child process exited with status: ", text).as_str(),
                    );
                    note_info(
                        &mut effects,
                        join(
                            "Monitor - Finished monitoring process with final status: ",
                            some_of(text).as_str(),
                        ).as_str(),
                    );
                }
                self.child_process = None;
                if !self.quiet && !report.success {
                    note_output(&mut effects, join("Command exited with error: ", text).as_str());
                }
                assert(effect_views(effects@) =~= expected);
                MonitorStep { effects, next: MonitorNext::Finish }
            },
            Poll::Running => {
                if !self.quiet && now >= monitor.last_log && now - monitor.last_log
                    >= STILL_RUNNING_LOG_NS {
                    note_info(&mut effects, "Monitor - Child process still running");
                    monitor.last_log = now;
                }
                assert(effect_views(effects@) =~= expected);
                MonitorStep { effects, next: MonitorNext::Sleep(POLL_INTERVAL_MS) }
            },
            Poll::Failed(error) => {
                if !self.quiet {
                    note_error(
                        &mut effects,
                        join("Monitor - Error checking process status: ", error.as_str()).as_str(),
                    );
                }
                assert(effect_views(effects@) =~= expected);
                MonitorStep { effects, next: MonitorNext::Sleep(POLL_INTERVAL_MS) }
            },
        }
    }
}

} // verus!
