//! ninfer's planner: the DFlash2 round, run whole by ninfer's fused Engine.
//!
//! ninfer implements one round as a single fusion and has no
//! fragment-by-fragment lowering, so a graph plans exactly when it is the
//! canonical DFlash2 round at a width ninfer supports. Anything else is
//! refused with the fragment where it leaves that round.
use vstd::prelude::*;
use crate::round::component::canonical_dflash2;
use crate::round::component::dflash2;
use crate::round::fragment::DraftWidth;
use crate::round::fragment::DrafterModel;
use crate::round::fragment::FragmentKind;
use crate::round::graph::is_divergence;
use crate::round::graph::FragmentView;
use crate::round::graph::RoundGraph;
use crate::round::maybe::Maybe;
use crate::round::plan::Backend;
use crate::round::plan::BackendName;
use crate::round::plan::Refusal;
use crate::round::plan::RefusalReason;

verus! {

/// The widest DFlash2 round ninfer runs: `K` up to 15, a verify of 16 query
/// columns.
pub const MAX_WIDTH: u32 = 15;

/// The ninfer backend, as a planner.
#[derive(Debug, Clone, Copy, PartialEq, Eq, Structural)]
pub struct Ninfer;

/// A graph ninfer runs: its fused DFlash2 round at one width.
#[derive(Debug, Clone, Copy, PartialEq, Eq, Structural)]
pub struct DFlash2Plan {
    /// The draft width the Engine is opened with.
    width: DraftWidth,
}

impl DFlash2Plan {
    /// The draft width.
    pub closed spec fn spec_width(self) -> DraftWidth {
        self.width
    }

    /// The draft width.
    pub fn width(&self) -> (r: DraftWidth)
        ensures
            r == self.spec_width(),
    {
        self.width
    }
}

/// The width of the first DFlash2 block forward at or after position `i`.
pub open spec fn first_dflash2_width_from(frags: Seq<FragmentView>, i: int) -> Option<DraftWidth>
    decreases frags.len() - i,
{
    if i < 0 || i >= frags.len() {
        None
    } else {
        match frags[i].0 {
            FragmentKind::DraftBlockForward { model: DrafterModel::DFlash2, width } => Some(width),
            _ => first_dflash2_width_from(frags, i + 1),
        }
    }
}

/// The width of a round's first DFlash2 block forward, if it has one.
pub open spec fn first_dflash2_width(frags: Seq<FragmentView>) -> Option<DraftWidth> {
    first_dflash2_width_from(frags, 0)
}

/// What ninfer answers for a round: the plan at the width of its first
/// DFlash2 block forward when the round is the canonical DFlash2 round at a
/// width of at most 15, else a refusal for the first reason that applies.
/// `fusion_gap` is where the round leaves the canonical round, when it does.
pub open spec fn ninfer_answer(
    frags: Seq<FragmentView>,
    answer: Result<DFlash2Plan, Refusal>,
) -> bool {
    match first_dflash2_width(frags) {
        None => answer matches Err(refusal) && refusal.spec_backend() == BackendName::Ninfer
            && refusal.spec_reason() == RefusalReason::NoKnownDrafter,
        Some(width) => if width.view() > MAX_WIDTH {
            answer matches Err(refusal) && refusal.spec_backend() == BackendName::Ninfer
                && refusal.spec_reason() == RefusalReason::UnsupportedWidth(width)
        } else if frags == canonical_dflash2(width) {
            answer matches Ok(plan) && plan.spec_width() == width
        } else {
            &&& answer matches Err(refusal)
            &&& refusal.spec_backend() == BackendName::Ninfer
            &&& refusal.spec_reason() matches RefusalReason::NoKnownFusion(at)
            &&& is_divergence(frags, canonical_dflash2(width), Maybe::Present(at))
        },
    }
}

impl Ninfer {
    /// The width of the first DFlash2 block forward in `graph`.
    fn first_dflash2_width(graph: &RoundGraph) -> (r: Option<DraftWidth>)
        ensures
            r == first_dflash2_width(graph@),
    {
        let fragments = graph.fragments();
        let ghost frags = graph@;
        let mut i: usize = 0;
        while i < fragments.len()
            invariant
                i <= fragments@.len(),
                frags == graph@,
                fragments@.len() == frags.len(),
                fragments@.map_values(|f: crate::round::graph::Fragment| f@) == frags,
                first_dflash2_width_from(frags, 0) == first_dflash2_width_from(frags, i as int),
            decreases fragments@.len() - i,
        {
            let kind = fragments[i].kind();
            assert(frags[i as int] == fragments@[i as int]@);
            if let FragmentKind::DraftBlockForward { model, width } = kind {
                if model == DrafterModel::DFlash2 {
                    return Some(width);
                }
            }
            i = i + 1;
        }
        None
    }
}

impl Backend for Ninfer {
    type Plan = DFlash2Plan;

    /// Plan `graph` as ninfer's fused DFlash2 round.
    fn plan(&self, graph: &RoundGraph) -> (r: Result<DFlash2Plan, Refusal>)
        ensures
            ninfer_answer(graph@, r),
    {
        let width = match Ninfer::first_dflash2_width(graph) {
            Some(width) => width,
            None => return Err(Refusal::new(BackendName::Ninfer, RefusalReason::NoKnownDrafter)),
        };
        if width.get() > MAX_WIDTH {
            return Err(Refusal::new(BackendName::Ninfer, RefusalReason::UnsupportedWidth(width)));
        }
        let canonical = match dflash2(width) {
            Ok(canonical) => canonical,
            Err(failure) => return Err(
                Refusal::new(BackendName::Ninfer, RefusalReason::Composition(failure)),
            ),
        };
        match graph.divergence(&canonical) {
            Maybe::Absent(_) => Ok(DFlash2Plan { width }),
            Maybe::Present(at) => Err(Refusal::new(BackendName::Ninfer, RefusalReason::NoKnownFusion(at))),
        }
    }
}

/// A plan runs exactly the graph it was made from: ninfer plans a round only
/// when it is the canonical DFlash2 round at the plan's width, and that width
/// is at most 15.
pub proof fn law_plan_is_the_canonical_round(frags: Seq<FragmentView>, answer: Result<DFlash2Plan, Refusal>)
    requires
        ninfer_answer(frags, answer),
        answer is Ok,
    ensures
        frags == canonical_dflash2(answer->Ok_0.spec_width()),
        answer->Ok_0.spec_width().view() <= MAX_WIDTH,
        first_dflash2_width(frags) == Some(answer->Ok_0.spec_width()),
{
}

/// Every canonical DFlash2 round of a width ninfer supports plans, at that
/// width; every wider one is refused for its width.
pub proof fn law_canonical_rounds_plan(width: DraftWidth, answer: Result<DFlash2Plan, Refusal>)
    requires
        ninfer_answer(canonical_dflash2(width), answer),
    ensures
        width.view() <= MAX_WIDTH ==> (answer matches Ok(plan) && plan.spec_width() == width),
        width.view() > MAX_WIDTH ==> (answer matches Err(refusal) && refusal.spec_reason()
            == RefusalReason::UnsupportedWidth(width)),
{
    let c = canonical_dflash2(width);
    assert(first_dflash2_width_from(c, 1) == Some(width));
    assert(first_dflash2_width_from(c, 0) == first_dflash2_width_from(c, 1));
}

} // verus!
