//! What the program is asked to do besides answering: lines for the log, lines for the
//! output of the command, and the start of a watcher.

use vstd::prelude::*;

verus! {

/// Something to carry out, in the order in which it is listed.
#[derive(Debug)]
pub enum Effect {
    /// Write a line to the log.
    Info(String),
    /// Write a line to the log as an error.
    Error(String),
    /// Put a line among the lines of the command's output.
    Output(String),
    /// Start a watcher of the running command.
    SpawnMonitor,
}

/// What an [`Effect`] says.
pub enum EffectV {
    Info(Seq<char>),
    Error(Seq<char>),
    Output(Seq<char>),
    SpawnMonitor,
}

impl View for Effect {
    type V = EffectV;

    open spec fn view(&self) -> EffectV {
        match self {
            Effect::Info(s) => EffectV::Info(s@),
            Effect::Error(s) => EffectV::Error(s@),
            Effect::Output(s) => EffectV::Output(s@),
            Effect::SpawnMonitor => EffectV::SpawnMonitor,
        }
    }
}

/// What a list of effects says.
pub open spec fn effect_views(list: Seq<Effect>) -> Seq<EffectV> {
    Seq::new(list.len(), |i: int| list[i]@)
}

/// No effect of the list writes anything, to the log or to the output: all that the list asks
/// for is watchers.
pub open spec fn writes_nothing(list: Seq<EffectV>) -> bool {
    forall|i: int| 0 <= i < list.len() ==> #[trigger] list[i] is SpawnMonitor
}

/// The outcome of a request, as HTTP names it.
#[derive(Debug, Clone, Copy, PartialEq, Eq, Structural)]
pub enum Status {
    Success,
    BadRequest,
    InternalServerError,
}

impl Status {
    /// The numeric code of the status.
    pub open spec fn spec_code(self) -> u16 {
        match self {
            Status::Success => 200,
            Status::BadRequest => 400,
            Status::InternalServerError => 500,
        }
    }

    /// The numeric code of the status.
    pub fn code(self) -> (res: u16)
        ensures
            res == self.spec_code(),
    {
        match self {
            Status::Success => 200,
            Status::BadRequest => 400,
            Status::InternalServerError => 500,
        }
    }
}

/// The answer to a request.
#[derive(Debug)]
pub struct Response {
    pub status: Status,
    pub body: String,
}

/// What a [`Response`] says.
pub struct ResponseV {
    pub status: Status,
    pub body: Seq<char>,
}

impl View for Response {
    type V = ResponseV;

    open spec fn view(&self) -> ResponseV {
        ResponseV { status: self.status, body: self.body@ }
    }
}

/// The end of a request: what is still to do, and the answer.
#[derive(Debug)]
pub struct Outcome {
    pub effects: Vec<Effect>,
    pub response: Response,
}

/// What an [`Outcome`] says.
pub struct OutcomeV {
    pub effects: Seq<EffectV>,
    pub response: ResponseV,
}

impl View for Outcome {
    type V = OutcomeV;

    open spec fn view(&self) -> OutcomeV {
        OutcomeV { effects: effect_views(self.effects@), response: self.response@ }
    }
}

/// Adds an effect at the end.
pub(crate) fn note(effects: &mut Vec<Effect>, effect: Effect)
    ensures
        effect_views(final(effects)@) == effect_views(old(effects)@).push(effect@),
{
    effects.push(effect);
    assert(effect_views(effects@) =~= effect_views(old(effects)@).push(effect@));
}

/// Adds a log line at the end.
pub(crate) fn note_info(effects: &mut Vec<Effect>, text: &str)
    ensures
        effect_views(final(effects)@) == effect_views(old(effects)@).push(EffectV::Info(text@)),
{
    note(effects, Effect::Info(text.to_string()));
}

/// Adds a log line for an error at the end.
pub(crate) fn note_error(effects: &mut Vec<Effect>, text: &str)
    ensures
        effect_views(final(effects)@) == effect_views(old(effects)@).push(EffectV::Error(text@)),
{
    note(effects, Effect::Error(text.to_string()));
}

/// Adds a line of output at the end.
pub(crate) fn note_output(effects: &mut Vec<Effect>, text: &str)
    ensures
        effect_views(final(effects)@) == effect_views(old(effects)@).push(EffectV::Output(text@)),
{
    note(effects, Effect::Output(text.to_string()));
}

/// No effects yet.
pub(crate) fn no_effects() -> (res: Vec<Effect>)
    ensures
        effect_views(res@) == Seq::<EffectV>::empty(),
{
    let res: Vec<Effect> = Vec::new();
    assert(effect_views(res@) =~= Seq::<EffectV>::empty());
    res
}

} // verus!
