//! The requests that are served.

use vstd::prelude::*;

verus! {

/// A request that is served, by a GET of its path.
#[derive(Debug, Clone, Copy, PartialEq, Eq, Structural)]
pub enum Endpoint {
    Start,
    Restart,
    Stop,
    Status,
}

impl Endpoint {
    /// The path of the request.
    pub open spec fn spec_path(self) -> Seq<char> {
        match self {
            Endpoint::Start => "/start"@,
            Endpoint::Restart => "/restart"@,
            Endpoint::Stop => "/stop"@,
            Endpoint::Status => "/status"@,
        }
    }

    /// The path of the request.
    pub fn path(self) -> (res: &'static str)
        ensures
            res@ == self.spec_path(),
    {
        match self {
            Endpoint::Start => "/start",
            Endpoint::Restart => "/restart",
            Endpoint::Stop => "/stop",
            Endpoint::Status => "/status",
        }
    }

    /// All requests that are served.
    pub fn all() -> (res: [Endpoint; 4])
        ensures
            res@ == seq![Endpoint::Start, Endpoint::Restart, Endpoint::Stop, Endpoint::Status],
    {
        let res = [Endpoint::Start, Endpoint::Restart, Endpoint::Stop, Endpoint::Status];
        assert(res@ =~= seq![
            Endpoint::Start,
            Endpoint::Restart,
            Endpoint::Stop,
            Endpoint::Status,
        ]);
        res
    }
}

/// No two requests share a path.
pub proof fn law_paths_are_distinct(a: Endpoint, b: Endpoint)
    ensures
        a.spec_path() == b.spec_path() ==> a == b,
{
    reveal_strlit("/start");
    reveal_strlit("/restart");
    reveal_strlit("/stop");
    reveal_strlit("/status");
    if a != b {
        assert(a.spec_path().len() != b.spec_path().len() || a.spec_path()[2]
            != b.spec_path()[2] || a.spec_path()[3] != b.spec_path()[3] || a.spec_path()[4]
            != b.spec_path()[4]);
    }
}

} // verus!
