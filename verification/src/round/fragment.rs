//! Fragments: the typed nodes a round graph is built from.
//!
//! A fragment kind names what the node computes; the kind fixes the node's
//! effect, and the effect fixes its phase, so a node cannot claim a phase its
//! effect forbids.
use vstd::prelude::*;
use crate::numeral::numeral_value;
use crate::numeral::parse_positive_u32;
use crate::numeral::spells_at_most;

verus! {

/// The number of tokens a drafter proposes per round, `K`; at least one.
#[derive(Debug, Clone, Copy, PartialEq, Eq, Structural, PartialOrd, Ord, Hash)]
pub struct DraftWidth(u32);

impl DraftWidth {
    #[verifier::type_invariant]
    spec fn positive(self) -> bool {
        self.0 > 0
    }

    /// The width as a number.
    pub closed spec fn view(self) -> nat {
        self.0 as nat
    }

    /// Two widths of one value are one width.
    pub proof fn lemma_view_injective(a: DraftWidth, b: DraftWidth)
        ensures
            a.view() == b.view() <==> a == b,
    {
    }

    /// The width `width`, when it is positive.
    pub fn new(width: u32) -> (r: Option<Self>)
        ensures
            r is Some <==> width > 0,
            r matches Some(w) ==> w.view() == width,
    {
        if width > 0 {
            Some(DraftWidth(width))
        } else {
            None
        }
    }

    /// The width as a number, at least one.
    pub fn get(self) -> (r: u32)
        ensures
            r == self.view(),
            r > 0,
    {
        proof {
            use_type_invariant(&self);
        }
        self.0
    }

    /// Parse a positive decimal width.
    pub fn parse(text: &str) -> (r: Result<Self, core::num::ParseIntError>)
        ensures
            r is Ok <==> (spells_at_most(text@, u32::MAX as nat) && numeral_value(text@) != Some(
                0nat,
            )),
            r matches Ok(w) ==> numeral_value(text@) == Some(w.view()),
    {
        match parse_positive_u32(text) {
            Ok(value) => Ok(DraftWidth(value)),
            Err(failure) => Err(failure),
        }
    }

    /// The decimal rendering of the width.
    pub fn render(&self) -> (r: String)
        ensures
            r@ == crate::pretty::decimal_digits(self.view()),
    {
        crate::pretty::decimal(self.0 as u64)
    }
}

impl core::str::FromStr for DraftWidth {
    type Err = core::num::ParseIntError;

    /// As [`DraftWidth::parse`]: a positive decimal width.
    fn from_str(text: &str) -> (r: Result<Self, Self::Err>)
        ensures
            r is Ok <==> (spells_at_most(text@, u32::MAX as nat) && numeral_value(text@) != Some(
                0nat,
            )),
            r matches Ok(w) ==> numeral_value(text@) == Some(w.view()),
    {
        DraftWidth::parse(text)
    }
}

/// The drafter a block forward runs.
#[derive(Debug, Clone, Copy, PartialEq, Eq, Structural, Hash)]
pub enum DrafterModel {
    /// DFlash2: a block-diffusion drafter conditioned on target features.
    DFlash2,
}

/// How a proposal is selected from the drafter's hidden states.
#[derive(Debug, Clone, Copy, PartialEq, Eq, Structural, Hash)]
pub enum Selector {
    /// The top sixteen candidates per position, then DFlash2's conditional
    /// selector.
    Top16Conditional,
}

/// The attention mask a target forward verifies under.
#[derive(Debug, Clone, Copy, PartialEq, Eq, Structural, Hash)]
pub enum VerifyMask {
    /// A causal block over the anchor and the drafts in order.
    CausalBlock,
}

/// The rule that turns a verification into licensed tokens.
#[derive(Debug, Clone, Copy, PartialEq, Eq, Structural, Hash)]
pub enum AcceptRule {
    /// Rejection sampling over the sparse candidate set.
    SparseRejection,
}

/// How recurrent state is folded forward over the accepted prefix.
#[derive(Debug, Clone, Copy, PartialEq, Eq, Structural, Hash)]
pub enum RecurrentFold {
    /// Replay the recorded gated-delta-net transitions of the accepted prefix.
    GdnReplay,
}

/// What a fragment computes.
#[derive(Debug, Clone, Copy, PartialEq, Eq, Structural, Hash)]
pub enum FragmentKind {
    /// Bring the drafter's context up to the target's committed prefix.
    ContextCatchUp,
    /// Run the drafter over one block of `width` positions.
    DraftBlockForward { model: DrafterModel, width: DraftWidth },
    /// Select the proposal and its candidate distribution.
    ProposalSelect { selector: Selector },
    /// Lay out the verify's ids and positions.
    VerifyInputs,
    /// Run the target over the anchor and the drafts.
    TargetForward { mask: VerifyMask },
    /// Decide the licensed tokens and the accepted length.
    Accept { rule: AcceptRule },
    /// Advance the committed KV frontier by the accepted length.
    CommitKv,
    /// Fold recurrent state over the accepted prefix.
    FoldRecurrent { fold: RecurrentFold },
    /// Publish the accepted positions' target features to the next round.
    PublishFeatures,
}

/// What a fragment may change.
#[derive(Debug, Clone, Copy, PartialEq, Eq, Structural, Hash)]
pub enum Effect {
    /// Round-scoped buffers only.
    Scratch,
    /// State that stays invisible until a commit.
    Provisional,
    /// Committed state, at positions the target has already committed.
    CommittedPrefixMaintenance,
    /// Committed state, advanced by the accepted length.
    Commit,
}

/// The side of a round's one host boundary a fragment runs on.
#[derive(Debug, Clone, Copy, PartialEq, Eq, Structural, Hash)]
pub enum Phase {
    /// Before the host's decision.
    Execute,
    /// After it.
    Commit,
}

/// The effect of a kind: the three commit kinds commit, the target forward is
/// provisional, the catch-up maintains the committed prefix, and every other
/// kind writes scratch.
pub open spec fn kind_effect(kind: FragmentKind) -> Effect {
    match kind {
        FragmentKind::ContextCatchUp => Effect::CommittedPrefixMaintenance,
        FragmentKind::DraftBlockForward { .. } => Effect::Scratch,
        FragmentKind::ProposalSelect { .. } => Effect::Scratch,
        FragmentKind::VerifyInputs => Effect::Scratch,
        FragmentKind::Accept { .. } => Effect::Scratch,
        FragmentKind::TargetForward { .. } => Effect::Provisional,
        FragmentKind::CommitKv => Effect::Commit,
        FragmentKind::FoldRecurrent { .. } => Effect::Commit,
        FragmentKind::PublishFeatures => Effect::Commit,
    }
}

/// The phase of a kind: commit exactly for a committing effect.
pub open spec fn kind_phase(kind: FragmentKind) -> Phase {
    if kind_effect(kind) == Effect::Commit {
        Phase::Commit
    } else {
        Phase::Execute
    }
}

impl FragmentKind {
    /// The kind's effect.
    pub fn effect(self) -> (r: Effect)
        ensures
            r == kind_effect(self),
    {
        match self {
            FragmentKind::ContextCatchUp => Effect::CommittedPrefixMaintenance,
            FragmentKind::DraftBlockForward { .. }
            | FragmentKind::ProposalSelect { .. }
            | FragmentKind::VerifyInputs
            | FragmentKind::Accept { .. } => Effect::Scratch,
            FragmentKind::TargetForward { .. } => Effect::Provisional,
            FragmentKind::CommitKv
            | FragmentKind::FoldRecurrent { .. }
            | FragmentKind::PublishFeatures => Effect::Commit,
        }
    }

    /// The phase the kind's effect places it in.
    pub fn phase(self) -> (r: Phase)
        ensures
            r == kind_phase(self),
    {
        match self.effect() {
            Effect::Commit => Phase::Commit,
            Effect::Scratch | Effect::Provisional | Effect::CommittedPrefixMaintenance => {
                Phase::Execute
            },
        }
    }

    /// The kind's name, without parameters.
    pub fn render(&self) -> (r: &'static str)
        ensures
            r@ == kind_name(*self),
    {
        match self {
            FragmentKind::ContextCatchUp => "context catch-up",
            FragmentKind::DraftBlockForward { .. } => "draft block forward",
            FragmentKind::ProposalSelect { .. } => "proposal select",
            FragmentKind::VerifyInputs => "verify inputs",
            FragmentKind::TargetForward { .. } => "target forward",
            FragmentKind::Accept { .. } => "accept",
            FragmentKind::CommitKv => "KV commit",
            FragmentKind::FoldRecurrent { .. } => "recurrent fold",
            FragmentKind::PublishFeatures => "feature publication",
        }
    }
}

/// The name a kind is rendered by.
pub open spec fn kind_name(kind: FragmentKind) -> Seq<char> {
    match kind {
        FragmentKind::ContextCatchUp => "context catch-up"@,
        FragmentKind::DraftBlockForward { .. } => "draft block forward"@,
        FragmentKind::ProposalSelect { .. } => "proposal select"@,
        FragmentKind::VerifyInputs => "verify inputs"@,
        FragmentKind::TargetForward { .. } => "target forward"@,
        FragmentKind::Accept { .. } => "accept"@,
        FragmentKind::CommitKv => "KV commit"@,
        FragmentKind::FoldRecurrent { .. } => "recurrent fold"@,
        FragmentKind::PublishFeatures => "feature publication"@,
    }
}

impl Phase {
    /// The phase's name.
    pub fn render(&self) -> (r: &'static str)
        ensures
            r@ == (match *self {
                Phase::Execute => "execute"@,
                Phase::Commit => "commit"@,
            }),
    {
        match self {
            Phase::Execute => "execute",
            Phase::Commit => "commit",
        }
    }
}

} // verus!
