//! Sample categories and the latency sample record handed to the stats sink.

use vstd::prelude::*;
use vstd::string::StringExecFns;

verus! {

/// Category tag attached to counts and latency samples that the relay hands
/// to the statistics sink.
///
/// `Frontend` tags the interval between a response being read from the
/// backend and the following request being fully forwarded to the backend;
/// `Backend` tags the interval between a response being delivered to the
/// client and the next request being fully received from it.  The remaining
/// variants are plain event counters.
#[derive(Clone, Copy, Debug, PartialEq, Eq, Hash, Structural)]
pub enum Metric {
    Okay,
    Error,
    Close,
    Connect,
    Frontend,
    Backend,
}

impl Metric {
    /// The short lower-case label under which the stats sink reports this
    /// category.
    pub open spec fn label_spec(self) -> Seq<char> {
        match self {
            Metric::Okay => "ok"@,
            Metric::Error => "error"@,
            Metric::Close => "close"@,
            Metric::Connect => "connect"@,
            Metric::Frontend => "frontend"@,
            Metric::Backend => "backend"@,
        }
    }

    /// Executable form of [`Metric::label_spec`].
    pub fn label(&self) -> (r: String)
        ensures
            r@ == self.label_spec(),
    {
        match self {
            Metric::Okay => String::from_str("ok"),
            Metric::Error => String::from_str("error"),
            Metric::Close => String::from_str("close"),
            Metric::Connect => String::from_str("connect"),
            Metric::Frontend => String::from_str("frontend"),
            Metric::Backend => String::from_str("backend"),
        }
    }
}

/// One measured interval: a start and an end reading of the shared monotonic
/// counter, tagged with the category it belongs to.
#[derive(Clone, Copy, Debug, PartialEq, Eq, Structural)]
pub struct Sample {
    pub start: u64,
    pub stop: u64,
    pub metric: Metric,
}

} // verus!
