//! Coming up: the first start of the command, and the address that is listened on.

use crate::effects::{
    effect_views, no_effects, note, note_error, note_info, note_output, Effect, EffectV,
};
use crate::state::{after, invocation_of, run_command, AppState, Invocation, SlotChange};
use crate::text::{decimal, digits, join};
use vstd::prelude::*;

verus! {

/// The log line at the very beginning.
pub open spec fn booting_log(quiet: bool) -> Seq<EffectV> {
    if quiet {
        Seq::empty()
    } else {
        seq![EffectV::Info("\n\n\nBooting up..."@)]
    }
}

/// The effects of a first start that went well.
pub open spec fn boot_done(quiet: bool) -> Seq<EffectV> {
    let line = "Command started successfully on boot"@;
    if quiet {
        seq![EffectV::SpawnMonitor]
    } else {
        seq![EffectV::Info(line), EffectV::Output(line), EffectV::SpawnMonitor]
    }
}

/// The effects of a first start that failed.
pub open spec fn boot_error(quiet: bool, error: Seq<char>) -> Seq<EffectV> {
    let line = "Failed to start command on boot: "@ + error;
    if quiet {
        Seq::empty()
    } else {
        seq![EffectV::Error(line), EffectV::Output(line)]
    }
}

/// The address that a host and a port make up.
pub open spec fn address(host: Seq<char>, port: u16) -> Seq<char> {
    host + ":"@ + digits(port as nat)
}

/// The log line before the address is bound.
pub open spec fn binding_log(quiet: bool, address: Seq<char>) -> Seq<EffectV> {
    if quiet {
        Seq::empty()
    } else {
        seq![EffectV::Info("Attempting to bind to http://"@ + address)]
    }
}

/// The log line once the address is bound.
pub open spec fn bound_log(quiet: bool, address: Seq<char>) -> Seq<EffectV> {
    if quiet {
        Seq::empty()
    } else {
        seq![EffectV::Info("Server successfully bound to http://"@ + address)]
    }
}

/// The log line where the address could not be bound.
pub open spec fn bind_error_log(quiet: bool, address: Seq<char>, error: Seq<char>) -> Seq<EffectV> {
    if quiet {
        Seq::empty()
    } else {
        seq![EffectV::Error("Failed to bind to "@ + address + ": "@ + error)]
    }
}

/// The address to listen on.
pub fn bind_address(host: &str, port: u16) -> (res: String)
    ensures
        res@ == address(host@, port),
{
    let mut res = join(host, ":");
    res.append(decimal(port as u64).as_str());
    res
}

impl<C> AppState<C> {
    /// The program is coming up.
    pub fn booting(&self) -> (res: Vec<Effect>)
        ensures
            effect_views(res@) == booting_log(self.quiet),
    {
        let mut effects = no_effects();
        if !self.quiet {
            note_info(&mut effects, "\n\n\nBooting up...");
        }
        assert(effect_views(effects@) =~= booting_log(self.quiet));
        effects
    }

    /// What is started when the program comes up.
    pub fn boot_command(&self) -> (res: Invocation)
        requires
            self@.well_formed(),
        ensures
            res@ == invocation_of(self@.command),
    {
        run_command(&self.command)
    }

    /// The first start went well.
    pub fn boot_spawned(&mut self, child: C) -> (res: Vec<Effect>)
        ensures
            final(self)@ == after(old(self)@, SlotChange::Filled(child)),
            effect_views(res@) == boot_done(old(self).quiet),
    {
        self.child_process = Some(child);
        let mut effects = no_effects();
        if !self.quiet {
            let line = "Command started successfully on boot";
            note_info(&mut effects, line);
            note_output(&mut effects, line);
        }
        note(&mut effects, Effect::SpawnMonitor);
        assert(effect_views(effects@) =~= boot_done(self.quiet));
        effects
    }

    /// The first start failed; requests are served nevertheless.
    pub fn boot_failed(&self, error: &str) -> (res: Vec<Effect>)
        ensures
            effect_views(res@) == boot_error(self.quiet, error@),
    {
        let mut effects = no_effects();
        if !self.quiet {
            let line = join("Failed to start command on boot: ", error);
            note_error(&mut effects, line.as_str());
            note_output(&mut effects, line.as_str());
        }
        assert(effect_views(effects@) =~= boot_error(self.quiet, error@));
        effects
    }

    /// The address is about to be bound.
    pub fn binding(&self, address: &str) -> (res: Vec<Effect>)
        ensures
            effect_views(res@) == binding_log(self.quiet, address@),
    {
        let mut effects = no_effects();
        if !self.quiet {
            note_info(&mut effects, join("Attempting to bind to http://", address).as_str());
        }
        assert(effect_views(effects@) =~= binding_log(self.quiet, address@));
        effects
    }

    /// The address is bound.
    pub fn bound(&self, address: &str) -> (res: Vec<Effect>)
        ensures
            effect_views(res@) == bound_log(self.quiet, address@),
    {
        let mut effects = no_effects();
        if !self.quiet {
            note_info(&mut effects, join("Server successfully bound to http://", address).as_str());
        }
        assert(effect_views(effects@) =~= bound_log(self.quiet, address@));
        effects
    }

    /// The address could not be bound.
    pub fn bind_failed(&self, address: &str, error: &str) -> (res: Vec<Effect>)
        ensures
            effect_views(res@) == bind_error_log(self.quiet, address@, error@),
    {
        let mut effects = no_effects();
        if !self.quiet {
            let mut line = join("Failed to bind to ", address);
            line.append(": ");
            line.append(error);
            note_error(&mut effects, line.as_str());
        }
        assert(effect_views(effects@) =~= bind_error_log(self.quiet, address@, error@));
        effects
    }
}

} // verus!
