//! Stopping the command.

use crate::effects::{
    effect_views, no_effects, note_info, Effect, EffectV, Outcome, OutcomeV, Response, ResponseV,
    Status,
};
use crate::state::{after, AppState, SlotChange, StateV};
use crate::text::{bool_text, bool_word, join, pid_text, pid_word};
use vstd::prelude::*;

verus! {

/// What a stop does next.
#[derive(Debug)]
pub enum StopNext<C> {
    /// Kill this command; the slot stays held.
    Kill(C),
    /// Wait for the end of this command; the slot stays held.
    Wait(C),
    /// Answer; the request is done.
    Respond(Response),
}

/// What a [`StopNext`] says.
pub enum StopNextV<C> {
    Kill(C),
    Wait(C),
    Respond(ResponseV),
}

impl<C> View for StopNext<C> {
    type V = StopNextV<C>;

    open spec fn view(&self) -> StopNextV<C> {
        match self {
            StopNext::Kill(child) => StopNextV::Kill(*child),
            StopNext::Wait(child) => StopNextV::Wait(*child),
            StopNext::Respond(r) => StopNextV::Respond(r@),
        }
    }
}

/// A step of a stop.
#[derive(Debug)]
pub struct StopStep<C> {
    pub effects: Vec<Effect>,
    pub next: StopNext<C>,
}

/// The log lines of the first step of a stop.
pub open spec fn stop_log(quiet: bool, running: bool, pid: Option<u32>) -> Seq<EffectV> {
    let received = EffectV::Info("Stop - Received request to stop command"@);
    let look = EffectV::Info("Stop - Got lock, child process state: "@ + bool_text(running));
    if quiet {
        Seq::empty()
    } else if running {
        seq![
            received,
            look,
            EffectV::Info("Stop - Found child process, attempting to kill"@),
            EffectV::Info("Stop - Child PID: "@ + pid_text(pid)),
        ]
    } else {
        seq![received, look, EffectV::Info("Stop - No command is running"@)]
    }
}

/// The answer where there is nothing to stop.
pub open spec fn stop_refusal() -> ResponseV {
    ResponseV { status: Status::BadRequest, body: "No command is running"@ }
}

/// What a stop does next: a running command is killed.
pub open spec fn stop_next<C>(s: StateV<C>) -> StopNextV<C> {
    match s.child_process {
        Some(child) => StopNextV::Kill(child),
        None => StopNextV::Respond(stop_refusal()),
    }
}

/// The log line on the attempt to kill.
pub open spec fn killed_log(quiet: bool, killed: bool) -> Seq<EffectV> {
    if quiet {
        Seq::empty()
    } else {
        seq![EffectV::Info("Stop - Kill result: "@ + bool_text(killed))]
    }
}

/// What a stop does once it has tried to kill the command, whether or not that went well: the
/// command is waited for.
pub open spec fn killed_next<C>(child: C, killed: bool) -> StopNextV<C> {
    StopNextV::Wait(child)
}

/// The answer once the command has been waited for.
pub open spec fn stop_done(quiet: bool, wait_result: Seq<char>) -> OutcomeV {
    OutcomeV {
        effects: if quiet {
            Seq::empty()
        } else {
            seq![
                EffectV::Info("Stop - Wait result: "@ + wait_result),
                EffectV::Info("Stop - Command stopped successfully"@),
            ]
        },
        response: ResponseV { status: Status::Success, body: "Command stopped successfully"@ },
    }
}

impl<C> AppState<C> {
    /// A request to stop the command has come in, and the slot is held; `pid` is the process id
    /// of the command in it, where there is one. A running command leaves the slot.
    pub fn stop_command(&mut self, pid: Option<u32>) -> (res: StopStep<C>)
        ensures
            final(self)@ == after(old(self)@, SlotChange::Emptied),
            effect_views(res.effects@) == stop_log(old(self).quiet, old(self)@.running(), pid),
            res.next@ == stop_next(old(self)@),
    {
        let running = self.child_process.is_some();
        let mut effects = no_effects();
        if !self.quiet {
            note_info(&mut effects, "Stop - Received request to stop command");
            note_info(
                &mut effects,
                join("Stop - Got lock, child process state: ", bool_word(running)).as_str(),
            );
        }
        let ghost expected = stop_log(self.quiet, running, pid);
        match self.child_process.take() {
            Some(child) => {
                if !self.quiet {
                    note_info(&mut effects, "Stop - Found child process, attempting to kill");
                    note_info(
                        &mut effects,
                        join("Stop - Child PID: ", pid_word(pid).as_str()).as_str(),
                    );
                }
                assert(effect_views(effects@) =~= expected);
                StopStep { effects, next: StopNext::Kill(child) }
            },
            None => {
                if !self.quiet {
                    note_info(&mut effects, "Stop - No command is running");
                }
                assert(effect_views(effects@) =~= expected);
                let response = Response {
                    status: Status::BadRequest,
                    body: "No command is running".to_string(),
                };
                StopStep { effects, next: StopNext::Respond(response) }
            },
        }
    }

    /// The attempt to kill `child` is over; `killed` says whether it went well. Either way the
    /// command is waited for next.
    pub fn stop_killed(&self, child: C, killed: bool) -> (res: StopStep<C>)
        ensures
            effect_views(res.effects@) == killed_log(self.quiet, killed),
            res.next@ == killed_next(child, killed),
    {
        let mut effects = no_effects();
        if !self.quiet {
            note_info(&mut effects, join("Stop - Kill result: ", bool_word(killed)).as_str());
        }
        assert(effect_views(effects@) =~= killed_log(self.quiet, killed));
        StopStep { effects, next: StopNext::Wait(child) }
    }

    /// The wait for the end of the command is over; `wait_result` is its result in words.
    pub fn stop_waited(&self, wait_result: &str) -> (res: Outcome)
        ensures
            res@ == stop_done(self.quiet, wait_result@),
    {
        let mut effects = no_effects();
        if !self.quiet {
            note_info(&mut effects, join("Stop - Wait result: ", wait_result).as_str());
            note_info(&mut effects, "Stop - Command stopped successfully");
        }
        assert(effect_views(effects@) =~= stop_done(self.quiet, wait_result@).effects);
        let response = Response {
            status: Status::Success,
            body: "Command stopped successfully".to_string(),
        };
        Outcome { effects, response }
    }
}

} // verus!
