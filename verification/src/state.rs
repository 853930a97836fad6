//! The state that all requests share, and the command that is supervised.

use crate::cli::{Args, ArgsV};
use crate::effects::{
    effect_views, no_effects, note_info, EffectV, Outcome, OutcomeV, Response, ResponseV, Status,
};
use crate::text::{opt_text, words};
use vstd::prelude::*;

verus! {

/// The state that all requests share.
///
/// `C` is the handle of a running command: the state keeps it and hands it out, and never
/// looks inside.
#[derive(Debug)]
pub struct AppState<C> {
    /// The program to run, followed by its arguments.
    pub command: Vec<String>,
    /// The slot for the running command.
    pub child_process: Option<C>,
    /// The shell command that has to succeed before a restart goes ahead.
    pub restart_condition: Option<String>,
    /// Whether the restart condition has to fail once before it may succeed.
    pub fail_atleast_once: bool,
    /// Milliseconds between two checks of the restart condition.
    pub restart_condition_sleep: u64,
    /// Whether the log is suppressed.
    pub quiet: bool,
}

/// What an [`AppState`] holds.
pub struct StateV<C> {
    pub command: Seq<Seq<char>>,
    pub child_process: Option<C>,
    pub restart_condition: Option<Seq<char>>,
    pub fail_atleast_once: bool,
    pub restart_condition_sleep: u64,
    pub quiet: bool,
}

impl<C> View for AppState<C> {
    type V = StateV<C>;

    open spec fn view(&self) -> StateV<C> {
        StateV {
            command: words(self.command@),
            child_process: self.child_process,
            restart_condition: opt_text(self.restart_condition),
            fail_atleast_once: self.fail_atleast_once,
            restart_condition_sleep: self.restart_condition_sleep,
            quiet: self.quiet,
        }
    }
}

impl<C> StateV<C> {
    /// Whether there is a program to run.
    pub open spec fn well_formed(self) -> bool {
        self.command.len() > 0
    }

    /// Whether the slot holds a running command.
    pub open spec fn running(self) -> bool {
        self.child_process is Some
    }
}

/// What one step of a request or of a watcher does to the slot.
pub enum SlotChange<C> {
    /// A started command is put into the slot, in the place of whatever was there.
    Filled(C),
    /// The slot is emptied.
    Emptied,
    /// The slot stays as it is.
    Kept,
}

/// The state after a change to the slot; nothing else of the state ever changes.
pub open spec fn after<C>(s: StateV<C>, change: SlotChange<C>) -> StateV<C> {
    match change {
        SlotChange::Filled(child) => StateV { child_process: Some(child), ..s },
        SlotChange::Emptied => StateV { child_process: None, ..s },
        SlotChange::Kept => s,
    }
}

/// The state before anything has been started, as the command line sets it up.
pub open spec fn initial_state<C>(args: ArgsV) -> StateV<C> {
    StateV {
        command: args.command,
        child_process: None,
        restart_condition: args.restart_condition,
        fail_atleast_once: args.fail_atleast_once,
        restart_condition_sleep: args.restart_condition_sleep,
        quiet: args.quiet,
    }
}

/// A program and the arguments it is run with.
#[derive(Debug)]
pub struct Invocation {
    pub program: String,
    pub args: Vec<String>,
}

/// What an [`Invocation`] says.
pub struct InvocationV {
    pub program: Seq<char>,
    pub args: Seq<Seq<char>>,
}

impl View for Invocation {
    type V = InvocationV;

    open spec fn view(&self) -> InvocationV {
        InvocationV { program: self.program@, args: words(self.args@) }
    }
}

/// The invocation that a command line stands for: its first word is the program.
pub open spec fn invocation_of(command: Seq<Seq<char>>) -> InvocationV
    recommends
        command.len() > 0,
{
    InvocationV { program: command[0], args: command.skip(1) }
}

/// How a command line is run.
pub fn run_command(command: &Vec<String>) -> (res: Invocation)
    requires
        command@.len() > 0,
    ensures
        res@ == invocation_of(words(command@)),
{
    let mut args: Vec<String> = Vec::new();
    let mut i: usize = 1;
    while i < command.len()
        invariant
            1 <= i <= command@.len(),
            args@.len() == i - 1,
            forall|j: int| 0 <= j < args@.len() ==> (#[trigger] args@[j])@ == command@[j + 1]@,
        decreases command@.len() - i,
    {
        args.push(command[i].clone());
        i += 1;
    }
    let res = Invocation { program: command[0].clone(), args };
    assert(res@.args =~= words(command@).skip(1));
    res
}

/// The answer to a question about the running command.
pub open spec fn status_outcome(quiet: bool, running: bool) -> OutcomeV {
    let line = if running {
        "Command is running"@
    } else {
        "Command is not running"@
    };
    OutcomeV {
        effects: if quiet {
            Seq::empty()
        } else {
            seq![EffectV::Info("Received request to get command status"@), EffectV::Info(line)]
        },
        response: ResponseV { status: Status::Success, body: line },
    }
}

impl<C> AppState<C> {
    /// The state before anything has been started.
    pub fn new(args: Args) -> (res: AppState<C>)
        ensures
            res@ == initial_state::<C>(args@),
    {
        AppState {
            command: args.command,
            child_process: None,
            restart_condition: args.restart_condition,
            fail_atleast_once: args.fail_atleast_once,
            restart_condition_sleep: args.restart_condition_sleep,
            quiet: args.quiet,
        }
    }

    /// Answers whether the command is running.
    pub fn get_status(&self) -> (res: Outcome)
        ensures
            res@ == status_outcome(self.quiet, self@.running()),
    {
        let line = if self.child_process.is_some() {
            "Command is running"
        } else {
            "Command is not running"
        };
        let mut effects = no_effects();
        if !self.quiet {
            note_info(&mut effects, "Received request to get command status");
            note_info(&mut effects, line);
        }
        assert(effect_views(effects@) =~= status_outcome(self.quiet, self@.running()).effects);
        Outcome { effects, response: Response { status: Status::Success, body: line.to_string() } }
    }
}

} // verus!
