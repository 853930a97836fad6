//! Restarting the command: the condition that has to be met first, and the relaunch.

use crate::effects::{
    effect_views, no_effects, note, note_error, note_info, Effect, EffectV, Outcome, OutcomeV,
    Response, ResponseV, Status,
};
use crate::state::{
    after, invocation_of, run_command, AppState, Invocation, InvocationV, SlotChange, StateV,
};
use crate::text::join;
use vstd::prelude::*;

verus! {

/// How far the checks of a restart condition have come.
#[derive(Debug)]
pub struct RestartLatch {
    /// Whether a failure has been seen, or none is asked for.
    pub has_failed: bool,
}

/// Whether a check of the condition lets the restart go ahead.
pub open spec fn latch_opens(fail_atleast_once: bool, has_failed: bool, met: bool) -> bool {
    met && (!fail_atleast_once || has_failed)
}

/// The latch after a series of checks, from its beginning.
pub open spec fn latch_after(fail_atleast_once: bool, results: Seq<bool>) -> bool
    decreases results.len(),
{
    if results.len() == 0 {
        !fail_atleast_once
    } else {
        latch_after(fail_atleast_once, results.drop_last()) || !results.last()
    }
}

/// Whether the last check of a series lets the restart go ahead.
pub open spec fn latch_opens_at_end(fail_atleast_once: bool, results: Seq<bool>) -> bool {
    &&& results.len() > 0
    &&& latch_opens(fail_atleast_once, latch_after(fail_atleast_once, results), results.last())
}

impl RestartLatch {
    /// The latch before the first check.
    pub fn new(fail_atleast_once: bool) -> (res: RestartLatch)
        ensures
            res.has_failed == latch_after(fail_atleast_once, Seq::<bool>::empty()),
            res.has_failed == !fail_atleast_once,
    {
        RestartLatch { has_failed: !fail_atleast_once }
    }

    /// Takes in the result of a check, and says whether the restart goes ahead.
    pub fn check(&mut self, fail_atleast_once: bool, met: bool) -> (opens: bool)
        ensures
            final(self).has_failed == (old(self).has_failed || !met),
            opens == latch_opens(fail_atleast_once, final(self).has_failed, met),
    {
        if !met {
            self.has_failed = true;
        }
        met && (!fail_atleast_once || self.has_failed)
    }
}

/// How the shell is asked to check a condition.
pub open spec fn condition_invocation(condition: Seq<char>) -> InvocationV {
    InvocationV { program: "sh"@, args: seq!["-c"@, condition] }
}

/// How the shell is asked to check a condition.
pub fn run_restart_condition(condition: &str) -> (res: Invocation)
    ensures
        res@ == condition_invocation(condition@),
{
    let mut args: Vec<String> = Vec::new();
    args.push("-c".to_string());
    args.push(condition.to_string());
    let res = Invocation { program: "sh".to_string(), args };
    assert(res@.args =~= condition_invocation(condition@).args);
    res
}

/// Whether the condition is met: the shell ran, and it ended with success. `Err` says that it
/// could not be run, which counts as a failure of the condition.
pub fn condition_met(exit: Result<bool, String>) -> (res: bool)
    ensures
        res == (exit matches Ok(success) && success),
{
    match exit {
        Ok(success) => success,
        Err(_) => false,
    }
}

/// What a restart does next.
#[derive(Debug)]
pub enum RestartNext {
    /// Run this to its end, and report how it ended.
    CheckCondition(Invocation),
    /// Wait for this many milliseconds.
    Sleep(u64),
    /// Take hold of the slot and relaunch the command.
    Relaunch,
}

/// What a [`RestartNext`] says.
pub enum RestartNextV {
    CheckCondition(InvocationV),
    Sleep(u64),
    Relaunch,
}

impl View for RestartNext {
    type V = RestartNextV;

    open spec fn view(&self) -> RestartNextV {
        match self {
            RestartNext::CheckCondition(i) => RestartNextV::CheckCondition(i@),
            RestartNext::Sleep(ms) => RestartNextV::Sleep(*ms),
            RestartNext::Relaunch => RestartNextV::Relaunch,
        }
    }
}

/// A step of a restart before the relaunch.
#[derive(Debug)]
pub struct RestartStep {
    pub effects: Vec<Effect>,
    pub next: RestartNext,
}

/// What a [`RestartStep`] says.
pub struct RestartStepV {
    pub effects: Seq<EffectV>,
    pub next: RestartNextV,
}

impl View for RestartStep {
    type V = RestartStepV;

    open spec fn view(&self) -> RestartStepV {
        RestartStepV { effects: effect_views(self.effects@), next: self.next@ }
    }
}

/// The step that checks the condition, or goes straight to the relaunch where there is none.
pub open spec fn check_step<C>(s: StateV<C>) -> RestartStepV {
    match s.restart_condition {
        Some(condition) => RestartStepV {
            effects: if s.quiet {
                Seq::empty()
            } else {
                seq![EffectV::Info("Checking restart condition: "@ + condition)]
            },
            next: RestartNextV::CheckCondition(condition_invocation(condition)),
        },
        None => RestartStepV { effects: Seq::empty(), next: RestartNextV::Relaunch },
    }
}

/// The first step of a restart.
pub open spec fn restart_first_step<C>(s: StateV<C>) -> RestartStepV {
    RestartStepV {
        effects: if s.quiet {
            Seq::empty()
        } else {
            seq![EffectV::Info("Received request to restart command"@)] + check_step(s).effects
        },
        next: check_step(s).next,
    }
}

/// The step after a check of the condition.
pub open spec fn checked_step<C>(s: StateV<C>, has_failed: bool, met: bool) -> RestartStepV {
    if latch_opens(s.fail_atleast_once, has_failed, met) {
        RestartStepV {
            effects: if s.quiet {
                Seq::empty()
            } else {
                seq![EffectV::Info("Restart condition met"@)]
            },
            next: RestartNextV::Relaunch,
        }
    } else {
        RestartStepV {
            effects: Seq::empty(),
            next: RestartNextV::Sleep(s.restart_condition_sleep),
        }
    }
}

/// What a relaunch does next; the slot stays held until the command has been started again.
#[derive(Debug)]
pub enum RelaunchNext<C> {
    /// Kill this command.
    Kill(C),
    /// Wait for the end of this command.
    Wait(C),
    /// Start the command.
    Spawn(Invocation),
}

/// What a [`RelaunchNext`] says.
pub enum RelaunchNextV<C> {
    Kill(C),
    Wait(C),
    Spawn(InvocationV),
}

impl<C> View for RelaunchNext<C> {
    type V = RelaunchNextV<C>;

    open spec fn view(&self) -> RelaunchNextV<C> {
        match self {
            RelaunchNext::Kill(child) => RelaunchNextV::Kill(*child),
            RelaunchNext::Wait(child) => RelaunchNextV::Wait(*child),
            RelaunchNext::Spawn(invocation) => RelaunchNextV::Spawn(invocation@),
        }
    }
}

/// A step of a relaunch.
#[derive(Debug)]
pub struct RelaunchStep<C> {
    pub effects: Vec<Effect>,
    pub next: RelaunchNext<C>,
}

/// What a relaunch does first: a running command is killed, else the command is started.
pub open spec fn relaunch_next<C>(s: StateV<C>) -> RelaunchNextV<C> {
    match s.child_process {
        Some(child) => RelaunchNextV::Kill(child),
        None => RelaunchNextV::Spawn(invocation_of(s.command)),
    }
}

/// What a relaunch does once it has tried to kill the command, whether or not that went well:
/// the command is waited for.
pub open spec fn relaunch_killed_next<C>(child: C, killed: bool) -> RelaunchNextV<C> {
    RelaunchNextV::Wait(child)
}

/// What a relaunch does once the command has been waited for: the command is started.
pub open spec fn relaunch_waited_next<C>(s: StateV<C>) -> RelaunchNextV<C> {
    RelaunchNextV::Spawn(invocation_of(s.command))
}

/// The log lines of a relaunch.
pub open spec fn relaunch_log(quiet: bool, running: bool) -> Seq<EffectV> {
    if quiet || !running {
        Seq::empty()
    } else {
        seq![EffectV::Info("Killing existing child process"@)]
    }
}

/// The answer once the command is running again.
pub open spec fn restart_done(quiet: bool) -> OutcomeV {
    OutcomeV {
        effects: if quiet {
            seq![EffectV::SpawnMonitor]
        } else {
            seq![EffectV::SpawnMonitor, EffectV::Info("Command restarted successfully"@)]
        },
        response: ResponseV {
            status: Status::Success,
            body: "Command restarted successfully"@,
        },
    }
}

/// The answer where the command could not be started again.
pub open spec fn restart_error(quiet: bool, error: Seq<char>) -> OutcomeV {
    let line = "Failed to restart command: "@ + error;
    OutcomeV {
        effects: if quiet {
            Seq::empty()
        } else {
            seq![EffectV::Error(line)]
        },
        response: ResponseV { status: Status::InternalServerError, body: line },
    }
}

impl<C> AppState<C> {
    /// A request to restart the command has come in.
    pub fn restart_command(&self) -> (res: RestartStep)
        ensures
            res@ == restart_first_step(self@),
    {
        let mut effects = no_effects();
        if !self.quiet {
            note_info(&mut effects, "Received request to restart command");
        }
        let mut step = self.restart_slept();
        let ghost first = effect_views(effects@);
        let ghost rest = effect_views(step.effects@);
        effects.append(&mut step.effects);
        assert(effect_views(effects@) =~= first + rest);
        assert(first + rest =~= restart_first_step(self@).effects);
        RestartStep { effects, next: step.next }
    }

    /// The wait between two checks is over.
    pub fn restart_slept(&self) -> (res: RestartStep)
        ensures
            res@ == check_step(self@),
    {
        let mut effects = no_effects();
        match &self.restart_condition {
            Some(condition) => {
                if !self.quiet {
                    note_info(
                        &mut effects,
                        join("Checking restart condition: ", condition.as_str()).as_str(),
                    );
                }
                let next = RestartNext::CheckCondition(run_restart_condition(condition.as_str()));
                assert(effect_views(effects@) =~= check_step(self@).effects);
                RestartStep { effects, next }
            },
            None => RestartStep { effects, next: RestartNext::Relaunch },
        }
    }

    /// The condition has been checked.
    pub fn restart_checked(&self, latch: &mut RestartLatch, met: bool) -> (res: RestartStep)
        ensures
            final(latch).has_failed == (old(latch).has_failed || !met),
            res@ == checked_step(self@, final(latch).has_failed, met),
    {
        let mut effects = no_effects();
        if latch.check(self.fail_atleast_once, met) {
            if !self.quiet {
                note_info(&mut effects, "Restart condition met");
            }
            assert(effect_views(effects@) =~= checked_step(self@, latch.has_failed, met).effects);
            RestartStep { effects, next: RestartNext::Relaunch }
        } else {
            RestartStep { effects, next: RestartNext::Sleep(self.restart_condition_sleep) }
        }
    }

    /// The slot is held for the relaunch: the running command leaves it, to be killed.
    pub fn restart_relaunch(&mut self) -> (res: RelaunchStep<C>)
        requires
            old(self)@.well_formed(),
        ensures
            final(self)@ == after(old(self)@, SlotChange::Emptied),
            effect_views(res.effects@) == relaunch_log(old(self).quiet, old(self)@.running()),
            res.next@ == relaunch_next(old(self)@),
    {
        let mut effects = no_effects();
        match self.child_process.take() {
            Some(child) => {
                if !self.quiet {
                    note_info(&mut effects, "Killing existing child process");
                }
                assert(effect_views(effects@) =~= relaunch_log(self.quiet, true));
                RelaunchStep { effects, next: RelaunchNext::Kill(child) }
            },
            None => {
                assert(effect_views(effects@) =~= relaunch_log(self.quiet, false));
                RelaunchStep { effects, next: RelaunchNext::Spawn(run_command(&self.command)) }
            },
        }
    }

    /// The attempt to kill `child` is over; `killed` says whether it went well. Either way the
    /// command is waited for next.
    pub fn restart_killed(&self, child: C, killed: bool) -> (res: RelaunchNext<C>)
        ensures
            res@ == relaunch_killed_next(child, killed),
    {
        RelaunchNext::Wait(child)
    }

    /// The wait for the end of the command that was running is over: the command is started in
    /// its place.
    pub fn restart_waited(&self) -> (res: RelaunchNext<C>)
        requires
            self@.well_formed(),
        ensures
            res@ == relaunch_waited_next(self@),
    {
        RelaunchNext::Spawn(run_command(&self.command))
    }

    /// The relaunched command has started; the slot is still held.
    pub fn restart_spawned(&mut self, child: C) -> (res: Outcome)
        ensures
            final(self)@ == after(old(self)@, SlotChange::Filled(child)),
            res@ == restart_done(old(self).quiet),
    {
        self.child_process = Some(child);
        let mut effects = no_effects();
        note(&mut effects, Effect::SpawnMonitor);
        if !self.quiet {
            note_info(&mut effects, "Command restarted successfully");
        }
        assert(effect_views(effects@) =~= restart_done(self.quiet).effects);
        Outcome {
            effects,
            response: Response {
                status: Status::Success,
                body: "Command restarted successfully".to_string(),
            },
        }
    }

    /// The relaunched command could not be started; the slot stays empty.
    pub fn restart_failed(&self, error: &str) -> (res: Outcome)
        ensures
            res@ == restart_error(self.quiet, error@),
    {
        let line = join("Failed to restart command: ", error);
        let mut effects = no_effects();
        if !self.quiet {
            note_error(&mut effects, line.as_str());
        }
        assert(effect_views(effects@) =~= restart_error(self.quiet, error@).effects);
        Outcome { effects, response: Response { status: Status::InternalServerError, body: line } }
    }
}

/// One check more takes the latch one step further: a latch that has taken in `results` and
/// then takes in `met` stands as [`latch_after`] says, and opens as [`latch_opens_at_end`] says.
pub proof fn law_latch_follows_series(fail_atleast_once: bool, results: Seq<bool>, met: bool)
    ensures
        latch_after(fail_atleast_once, results.push(met)) == (latch_after(fail_atleast_once, results)
            || !met),
        latch_opens_at_end(fail_atleast_once, results.push(met)) == latch_opens(
            fail_atleast_once,
            latch_after(fail_atleast_once, results.push(met)),
            met,
        ),
{
    assert(results.push(met).drop_last() =~= results);
}

/// A latch that asks for a failure has one exactly when the series holds one.
proof fn lemma_latch_remembers_failure(results: Seq<bool>)
    ensures
        latch_after(true, results) <==> exists|i: int| 0 <= i < results.len() && !results[i],
    decreases results.len(),
{
    if results.len() > 0 {
        let before = results.drop_last();
        lemma_latch_remembers_failure(before);
        if latch_after(true, before) {
            let i = choose|i: int| 0 <= i < before.len() && !before[i];
            assert(!results[i]);
        }
        if exists|i: int| 0 <= i < results.len() && !results[i] {
            let i = choose|i: int| 0 <= i < results.len() && !results[i];
            if i < before.len() {
                assert(!before[i]);
            }
        }
    }
}

/// The restart condition lets a restart go ahead on a check exactly when that check succeeds
/// and, where at least one failure is asked for, an earlier check has failed.
pub proof fn law_latch_opens_iff(fail_atleast_once: bool, results: Seq<bool>)
    requires
        results.len() > 0,
    ensures
        latch_opens_at_end(fail_atleast_once, results) <==> results.last() && (fail_atleast_once
            ==> exists|i: int| 0 <= i < results.len() - 1 && !results[i]),
{
    if fail_atleast_once {
        let before = results.drop_last();
        lemma_latch_remembers_failure(before);
        if latch_after(true, before) {
            let i = choose|i: int| 0 <= i < before.len() && !before[i];
            assert(!results[i]);
        }
        if exists|i: int| 0 <= i < results.len() - 1 && !results[i] {
            let i = choose|i: int| 0 <= i < results.len() - 1 && !results[i];
            assert(!before[i]);
        }
    } else {
        lemma_latch_open_from_start(results.drop_last());
    }
}

/// A latch that asks for no failure counts as having seen one.
proof fn lemma_latch_open_from_start(results: Seq<bool>)
    ensures
        latch_after(false, results),
    decreases results.len(),
{
    if results.len() > 0 {
        lemma_latch_open_from_start(results.drop_last());
    }
}

} // verus!
