//! The delivery transport towards a cord: a pipe names the endpoint whose
//! consuming loop runs the work pushed through it.
use vstd::prelude::*;

verus! {

/// What a receive reports when no value can ever arrive.
#[derive(Debug, Clone, Copy, PartialEq, Eq, Structural)]
pub enum RecvError {
    /// The sending half went away without sending.
    Disconnected,
}

/// A handle on the transport towards one cord endpoint. Work pushed through
/// it runs later, once, on the cord whose loop consumes that endpoint.
pub struct LCPipe {
    endpoint: String,
}

impl LCPipe {
    /// The name of the endpoint this pipe delivers to.
    pub closed spec fn endpoint(&self) -> Seq<char> {
        self.endpoint@
    }

    /// Binds a pipe to the endpoint named `endpoint`.
    pub fn new(endpoint: &str) -> (r: LCPipe)
        ensures
            r.endpoint() == endpoint@,
    {
        LCPipe { endpoint: endpoint.to_owned() }
    }
}

} // verus!
