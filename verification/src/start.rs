//! Starting the command.

use crate::effects::{
    effect_views, no_effects, note, note_error, note_info, note_output, Effect, EffectV, Outcome,
    OutcomeV, Response, ResponseV, Status,
};
use crate::state::{
    after, invocation_of, run_command, AppState, Invocation, InvocationV, SlotChange, StateV,
};
use crate::text::join;
use vstd::prelude::*;

verus! {

/// What a start does next.
#[derive(Debug)]
pub enum StartNext {
    /// Start this, and report how that went.
    Spawn(Invocation),
    /// Answer; the request is done.
    Respond(Response),
}

/// What a [`StartNext`] says.
pub enum StartNextV {
    Spawn(InvocationV),
    Respond(ResponseV),
}

impl View for StartNext {
    type V = StartNextV;

    open spec fn view(&self) -> StartNextV {
        match self {
            StartNext::Spawn(i) => StartNextV::Spawn(i@),
            StartNext::Respond(r) => StartNextV::Respond(r@),
        }
    }
}

/// The first step of a start.
#[derive(Debug)]
pub struct StartStep {
    pub effects: Vec<Effect>,
    pub next: StartNext,
}

/// What a [`StartStep`] says.
pub struct StartStepV {
    pub effects: Seq<EffectV>,
    pub next: StartNextV,
}

impl View for StartStep {
    type V = StartStepV;

    open spec fn view(&self) -> StartStepV {
        StartStepV { effects: effect_views(self.effects@), next: self.next@ }
    }
}

/// The first step of a start: a command that is running is left alone.
pub open spec fn start_first_step<C>(s: StateV<C>) -> StartStepV {
    let received = EffectV::Info("Received request to start command"@);
    let refusal = "Command is already running"@;
    if s.running() {
        StartStepV {
            effects: if s.quiet {
                Seq::empty()
            } else {
                seq![received, EffectV::Info(refusal)]
            },
            next: StartNextV::Respond(ResponseV { status: Status::BadRequest, body: refusal }),
        }
    } else {
        StartStepV {
            effects: if s.quiet {
                Seq::empty()
            } else {
                seq![received]
            },
            next: StartNextV::Spawn(invocation_of(s.command)),
        }
    }
}

/// The answer once the command is running.
pub open spec fn start_done(quiet: bool) -> OutcomeV {
    let line = "Command started successfully"@;
    OutcomeV {
        effects: if quiet {
            seq![EffectV::SpawnMonitor]
        } else {
            seq![
                EffectV::Info("Command started successfully, monitoring child"@),
                EffectV::Output(line),
                EffectV::SpawnMonitor,
            ]
        },
        response: ResponseV { status: Status::Success, body: line },
    }
}

/// The answer where the command could not be started.
pub open spec fn start_error(quiet: bool, error: Seq<char>) -> OutcomeV {
    let line = "Failed to start command: "@ + error;
    OutcomeV {
        effects: if quiet {
            Seq::empty()
        } else {
            seq![EffectV::Error(line), EffectV::Output(line)]
        },
        response: ResponseV { status: Status::InternalServerError, body: line },
    }
}

impl<C> AppState<C> {
    /// A request to start the command has come in.
    pub fn start_command(&self) -> (res: StartStep)
        requires
            !self@.running() ==> self@.well_formed(),
        ensures
            res@ == start_first_step(self@),
    {
        let mut effects = no_effects();
        if !self.quiet {
            note_info(&mut effects, "Received request to start command");
        }
        let ghost expected = start_first_step(self@).effects;
        if self.child_process.is_some() {
            let refusal = "Command is already running";
            if !self.quiet {
                note_info(&mut effects, refusal);
            }
            assert(effect_views(effects@) =~= expected);
            let response = Response { status: Status::BadRequest, body: refusal.to_string() };
            StartStep { effects, next: StartNext::Respond(response) }
        } else {
            assert(effect_views(effects@) =~= expected);
            StartStep { effects, next: StartNext::Spawn(run_command(&self.command)) }
        }
    }

    /// The command has started.
    pub fn start_spawned(&mut self, child: C) -> (res: Outcome)
        ensures
            final(self)@ == after(old(self)@, SlotChange::Filled(child)),
            res@ == start_done(old(self).quiet),
    {
        self.child_process = Some(child);
        let line = "Command started successfully";
        let mut effects = no_effects();
        if !self.quiet {
            note_info(&mut effects, "Command started successfully, monitoring child");
            note_output(&mut effects, line);
        }
        note(&mut effects, Effect::SpawnMonitor);
        assert(effect_views(effects@) =~= start_done(self.quiet).effects);
        Outcome { effects, response: Response { status: Status::Success, body: line.to_string() } }
    }

    /// The command could not be started; the slot stays as it is.
    pub fn start_failed(&self, error: &str) -> (res: Outcome)
        ensures
            res@ == start_error(self.quiet, error@),
    {
        let line = join("Failed to start command: ", error);
        let mut effects = no_effects();
        if !self.quiet {
            note_error(&mut effects, line.as_str());
            note_output(&mut effects, line.as_str());
        }
        assert(effect_views(effects@) =~= start_error(self.quiet, error@).effects);
        Outcome { effects, response: Response { status: Status::InternalServerError, body: line } }
    }
}

} // verus!
