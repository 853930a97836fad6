//! What the views show: all that a value holds, and nothing else.

use crate::clap_items::{opt_literal, ArgSpec, Header};
use crate::cli::Args;
use crate::effects::{effect_views, Effect, EffectV, Outcome, Response, Status};
use crate::monitor::{ExitReport, Poll, PollV};
use crate::output::{StreamStep, StreamStepV};
use crate::restart::{RelaunchNext, RelaunchNextV, RestartNext, RestartNextV, RestartStep};
use crate::routes::Endpoint;
use crate::start::{StartNext, StartNextV, StartStep};
use crate::state::{AppState, Invocation};
use crate::stop::{StopNext, StopNextV};
use crate::text::{opt_text, words};
use vstd::prelude::*;

verus! {

/// The texts of a list are those of its strings, one for one.
pub proof fn law_words_are_the_strings(list: Seq<String>)
    ensures
        words(list).len() == list.len(),
        forall|i: int| 0 <= i < list.len() ==> #[trigger] words(list)[i] == list[i]@,
{
}

/// The text of an optional string is there exactly when the string is.
pub proof fn law_optional_text_is_the_string(text: String)
    ensures
        opt_text(Some(text)) == Some(text@),
        opt_text(None) is None,
{
}

/// A state shows its settings and its slot.
pub proof fn law_state_shows_its_settings<C>(s: AppState<C>)
    ensures
        s@.command.len() == s.command@.len(),
        forall|i: int| 0 <= i < s.command@.len() ==> #[trigger] s@.command[i] == s.command@[i]@,
        s@.child_process == s.child_process,
        s.restart_condition is None ==> s@.restart_condition is None,
        s.restart_condition matches Some(condition) ==> s@.restart_condition == Some(condition@),
        s@.fail_atleast_once == s.fail_atleast_once,
        s@.restart_condition_sleep == s.restart_condition_sleep,
        s@.quiet == s.quiet,
{
}

/// What the command line comes to shows each of its values.
pub proof fn law_args_show_their_values(args: Args)
    ensures
        args@.port == args.port,
        args@.host == args.host@,
        args@.command.len() == args.command@.len(),
        forall|i: int| 0 <= i < args.command@.len() ==> #[trigger] args@.command[i]
            == args.command@[i]@,
        args@.markdown_help == args.markdown_help,
        args.restart_condition is None ==> args@.restart_condition is None,
        args.restart_condition matches Some(condition) ==> args@.restart_condition == Some(
            condition@,
        ),
        args@.fail_atleast_once == args.fail_atleast_once,
        args@.restart_condition_sleep == args.restart_condition_sleep,
        args@.quiet == args.quiet,
{
}

/// An invocation shows its program and each of its arguments.
pub proof fn law_invocation_shows_its_words(i: Invocation)
    ensures
        i@.program == i.program@,
        i@.args.len() == i.args@.len(),
        forall|j: int| 0 <= j < i.args@.len() ==> #[trigger] i@.args[j] == i.args@[j]@,
{
}

/// A list of effects shows each of them, in order, with its text.
pub proof fn law_effects_show_their_texts(list: Seq<Effect>, text: String)
    ensures
        effect_views(list).len() == list.len(),
        forall|i: int| 0 <= i < list.len() ==> #[trigger] effect_views(list)[i] == list[i]@,
        Effect::Info(text)@ == EffectV::Info(text@),
        Effect::Error(text)@ == EffectV::Error(text@),
        Effect::Output(text)@ == EffectV::Output(text@),
        Effect::SpawnMonitor@ is SpawnMonitor,
{
}

/// An answer and an outcome show their parts.
pub proof fn law_answers_show_their_parts(response: Response, outcome: Outcome)
    ensures
        response@.status == response.status,
        response@.body == response.body@,
        outcome@.response == outcome.response@,
        outcome@.effects == effect_views(outcome.effects@),
{
}

/// Each step shows what it asks for and what it does next.
pub proof fn law_steps_show_what_is_next<C>(
    start: StartStep,
    restart: RestartStep,
    i: Invocation,
    r: Response,
    child: C,
    ms: u64,
)
    ensures
        start@.effects == effect_views(start.effects@),
        start@.next == start.next@,
        StartNext::Spawn(i)@ == StartNextV::Spawn(i@),
        StartNext::Respond(r)@ == StartNextV::Respond(r@),
        restart@.effects == effect_views(restart.effects@),
        restart@.next == restart.next@,
        RestartNext::CheckCondition(i)@ == RestartNextV::CheckCondition(i@),
        RestartNext::Sleep(ms)@ == RestartNextV::Sleep(ms),
        RestartNext::Relaunch@ is Relaunch,
        RelaunchNext::<C>::Kill(child)@ == RelaunchNextV::<C>::Kill(child),
        RelaunchNext::<C>::Wait(child)@ == RelaunchNextV::<C>::Wait(child),
        RelaunchNext::<C>::Spawn(i)@ == RelaunchNextV::<C>::Spawn(i@),
        StopNext::<C>::Kill(child)@ == StopNextV::<C>::Kill(child),
        StopNext::<C>::Wait(child)@ == StopNextV::<C>::Wait(child),
        StopNext::<C>::Respond(r)@ == StopNextV::<C>::Respond(r@),
{
}

/// A look at the slot and a step of a stream show what was found.
pub proof fn law_findings_show_their_texts(report: ExitReport, text: String)
    ensures
        report@.success == report.success,
        report@.text == report.text@,
        Poll::Exited(report)@ == PollV::Exited(report@),
        Poll::Failed(text)@ == PollV::Failed(text@),
        Poll::Running@ is Running,
        Poll::NoChild@ is NoChild,
        StreamStep::Forward(text)@ == StreamStepV::Forward(text@),
        StreamStep::Skip@ is Skip,
        StreamStep::Done@ is Done,
{
}

/// Each request has the path that bears its name, and each status the code of its name in HTTP.
pub proof fn law_paths_and_codes()
    ensures
        Endpoint::Start.spec_path() == "/start"@,
        Endpoint::Restart.spec_path() == "/restart"@,
        Endpoint::Stop.spec_path() == "/stop"@,
        Endpoint::Status.spec_path() == "/status"@,
        Status::Success.spec_code() == 200,
        Status::BadRequest.spec_code() == 400,
        Status::InternalServerError.spec_code() == 500,
{
}

/// The description of a command and of an argument show each of their parts.
pub proof fn law_descriptions_show_their_parts(h: Header, a: ArgSpec, text: &'static str)
    ensures
        h@.name == h.name@,
        h@.version == h.version@,
        h@.author == h.author@,
        h@.about == h.about@,
        h@.disable_help_flag == h.disable_help_flag,
        opt_literal(Some(text)) == Some(text@),
        opt_literal(None) is None,
        a@.id == a.id@,
        a@.short == a.short,
        a@.long == opt_literal(a.long),
        a@.value_name == opt_literal(a.value_name),
        a@.default == opt_literal(a.default),
        a@.help == a.help@,
        a@.required == a.required,
        a@.last == a.last,
        a@.hide_short_help == a.hide_short_help,
{
}

} // verus!
