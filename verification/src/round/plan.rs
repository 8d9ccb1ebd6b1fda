//! The planning contract: a backend turns a round graph into its own plan or
//! refuses it with the reason.
//!
//! Refusal is a result, not a fallback: a backend never runs part of a graph
//! it cannot plan on the host instead. The operator reads which backend
//! refused, and at which fragment, and chooses another graph.
use vstd::prelude::*;
use vstd::string::*;
use crate::round::fragment::DraftWidth;
use crate::round::graph::build_failure_text;
use crate::round::graph::fragment_name;
use crate::round::graph::BuildFailure;
use crate::round::graph::FragmentId;
use crate::round::graph::RoundGraph;

verus! {

/// The backends infinitum plans rounds for.
#[derive(Debug, Clone, Copy, PartialEq, Eq, Structural, Hash)]
pub enum BackendName {
    /// ninfer on CUDA, reached through its C++ engine.
    Ninfer,
}

/// The name as the operator spells it.
pub open spec fn backend_text(name: BackendName) -> Seq<char> {
    match name {
        BackendName::Ninfer => "ninfer"@,
    }
}

impl BackendName {
    /// Render the name as the operator spells it.
    pub fn render(&self) -> (r: &'static str)
        ensures
            r@ == backend_text(*self),
    {
        match *self {
            BackendName::Ninfer => {
                proof {
                    reveal_strlit("ninfer");
                }
                "ninfer"
            },
        }
    }
}

/// Why a backend refused a graph.
#[derive(Debug, Clone, Copy, PartialEq, Eq, Structural)]
pub enum RefusalReason {
    /// The graph has no drafter whose round the backend knows.
    NoKnownDrafter,
    /// The graph differs from the backend's known fusion at this fragment,
    /// and the backend has no fragment-by-fragment lowering.
    NoKnownFusion(FragmentId),
    /// The backend's fusion does not run at this draft width.
    UnsupportedWidth(DraftWidth),
    /// The backend's canonical graph could not be composed.
    Composition(BuildFailure),
}

/// A backend's refusal of a graph.
#[derive(Debug, Clone, Copy, PartialEq, Eq, Structural)]
pub struct Refusal {
    /// The backend that refused.
    backend: BackendName,
    /// Why.
    reason: RefusalReason,
}

/// The operator's reading of a refusal: the backend's name first, then why.
pub open spec fn refusal_text(backend: BackendName, reason: RefusalReason) -> Seq<char> {
    match reason {
        RefusalReason::NoKnownDrafter => backend_text(backend)
            + " refuses the round: it knows no drafter in it"@,
        RefusalReason::NoKnownFusion(at) => backend_text(backend)
            + " refuses the round: it differs from its known fusion at "@ + fragment_name(at),
        RefusalReason::UnsupportedWidth(width) => backend_text(backend)
            + " refuses the round: draft width "@ + crate::pretty::decimal_digits(width.view())
            + " is out of its range"@,
        RefusalReason::Composition(failure) => backend_text(backend)
            + " could not compose its own round: "@ + build_failure_text(failure),
    }
}

impl Refusal {
    /// The backend that refused.
    pub closed spec fn spec_backend(self) -> BackendName {
        self.backend
    }

    /// Why it refused.
    pub closed spec fn spec_reason(self) -> RefusalReason {
        self.reason
    }

    /// `backend` refuses for `reason`.
    pub fn new(backend: BackendName, reason: RefusalReason) -> (r: Self)
        ensures
            r.spec_backend() == backend,
            r.spec_reason() == reason,
    {
        Refusal { backend, reason }
    }

    /// Why.
    pub fn reason(&self) -> (r: RefusalReason)
        ensures
            r == self.spec_reason(),
    {
        self.reason
    }

    /// Render the refusal with the backend's name first.
    pub fn render(&self) -> (r: String)
        ensures
            r@ == refusal_text(self.spec_backend(), self.spec_reason()),
    {
        let mut out = String::from_str(self.backend.render());
        match self.reason {
            RefusalReason::NoKnownDrafter => {
                out.append(" refuses the round: it knows no drafter in it");
            },
            RefusalReason::NoKnownFusion(at) => {
                out.append(" refuses the round: it differs from its known fusion at ");
                let at_text = at.render();
                out.append(at_text.as_str());
            },
            RefusalReason::UnsupportedWidth(width) => {
                out.append(" refuses the round: draft width ");
                let width_text = width.render();
                out.append(width_text.as_str());
                out.append(" is out of its range");
            },
            RefusalReason::Composition(failure) => {
                out.append(" could not compose its own round: ");
                let failure_text = failure.render();
                out.append(failure_text.as_str());
            },
        }
        out
    }
}

/// A backend that plans round graphs: on success the plan runs the graph
/// exactly, and the backend never substitutes a different round; otherwise it
/// refuses, naming itself and the reason.
pub trait Backend {
    /// What a successful plan yields.
    type Plan;

    /// Plan `graph`, or refuse it.
    fn plan(&self, graph: &RoundGraph) -> (r: Result<Self::Plan, Refusal>);
}

} // verus!
