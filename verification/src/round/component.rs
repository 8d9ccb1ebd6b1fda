//! Components: the parts of a speculation method, each emitting its
//! fragments into a round.
//!
//! Components describe; they never execute. A drafter proposes, a verifier
//! scores the proposal on the target, an acceptor turns the score into
//! licensed tokens, and a committer advances committed state by the accepted
//! length. [`compose`] is the one order they are emitted in.
use vstd::prelude::*;
use crate::round::fragment::AcceptRule;
use crate::round::fragment::DraftWidth;
use crate::round::fragment::DrafterModel;
use crate::round::fragment::FragmentKind;
use crate::round::fragment::RecurrentFold;
use crate::round::fragment::Selector;
use crate::round::fragment::VerifyMask;
use crate::round::graph::spec_add;
use crate::round::graph::spec_finish;
use crate::round::graph::BuildFailure;
use crate::round::graph::BuilderView;
use crate::round::graph::FragmentId;
use crate::round::graph::FragmentView;
use crate::round::graph::RoundBuilder;
use crate::round::graph::RoundGraph;

verus! {

/// A drafter's output: the fragment holding the proposal.
#[derive(Debug, Clone, Copy, PartialEq, Eq, Structural)]
pub struct Proposal {
    /// The fragment that selected the proposal.
    pub selection: FragmentId,
}

/// A verifier's output: the fragment holding the target's scores.
#[derive(Debug, Clone, Copy, PartialEq, Eq, Structural)]
pub struct Verification {
    /// The target forward.
    pub target: FragmentId,
}

/// An acceptor's output: the fragment holding the licensed tokens and the
/// accepted length.
#[derive(Debug, Clone, Copy, PartialEq, Eq, Structural)]
pub struct Licensed {
    /// The acceptance.
    pub acceptance: FragmentId,
}

/// Proposes draft tokens.
pub trait Drafter {
    /// What emitting does to a builder: the builder after and the proposal,
    /// or the refusal.
    spec fn drafts(&self, before: BuilderView) -> Result<(BuilderView, Proposal), BuildFailure>;

    /// Emit the drafting fragments.
    fn emit(&self, round: &mut RoundBuilder) -> (r: Result<Proposal, BuildFailure>)
        requires
            old(round).well_formed(),
        ensures
            final(round).well_formed(),
            match self.drafts(old(round).view()) {
                Ok((after, proposal)) => r == Ok::<Proposal, BuildFailure>(proposal) && final(round).view() == after,
                Err(failure) => r == Err::<Proposal, BuildFailure>(failure),
            },
    ;
}

/// Scores a proposal on the target model.
pub trait Verifier {
    /// What emitting does to a builder.
    spec fn verifies(&self, before: BuilderView, proposal: Proposal) -> Result<
        (BuilderView, Verification),
        BuildFailure,
    >;

    /// Emit the verification fragments.
    fn emit(&self, round: &mut RoundBuilder, proposal: Proposal) -> (r: Result<
        Verification,
        BuildFailure,
    >)
        requires
            old(round).well_formed(),
        ensures
            final(round).well_formed(),
            match self.verifies(old(round).view(), proposal) {
                Ok((after, verification)) => r == Ok::<Verification, BuildFailure>(verification)
                    && final(round).view() == after,
                Err(failure) => r == Err::<Verification, BuildFailure>(failure),
            },
    ;
}

/// Turns a verification into licensed tokens.
pub trait Acceptor {
    /// What emitting does to a builder.
    spec fn accepts(&self, before: BuilderView, proposal: Proposal, verification: Verification) -> Result<
        (BuilderView, Licensed),
        BuildFailure,
    >;

    /// Emit the acceptance fragments.
    fn emit(&self, round: &mut RoundBuilder, proposal: Proposal, verification: Verification) -> (r:
        Result<Licensed, BuildFailure>)
        requires
            old(round).well_formed(),
        ensures
            final(round).well_formed(),
            match self.accepts(old(round).view(), proposal, verification) {
                Ok((after, licensed)) => r == Ok::<Licensed, BuildFailure>(licensed) && final(round).view() == after,
                Err(failure) => r == Err::<Licensed, BuildFailure>(failure),
            },
    ;
}

/// Advances committed state by the accepted length.
pub trait Committer {
    /// What emitting does to a builder.
    spec fn commits(&self, before: BuilderView, verification: Verification, licensed: Licensed) -> Result<
        BuilderView,
        BuildFailure,
    >;

    /// Emit the commit fragments.
    fn emit(&self, round: &mut RoundBuilder, verification: Verification, licensed: Licensed) -> (r:
        Result<(), BuildFailure>)
        requires
            old(round).well_formed(),
        ensures
            final(round).well_formed(),
            match self.commits(old(round).view(), verification, licensed) {
                Ok(after) => r == Ok::<(), BuildFailure>(()) && final(round).view() == after,
                Err(failure) => r == Err::<(), BuildFailure>(failure),
            },
    ;
}

/// An empty builder, as the rules read it.
pub open spec fn empty_builder() -> BuilderView {
    BuilderView { fragments: Seq::empty(), committing: false }
}

/// The round the four components compose: the drafter's fragments, then the
/// verifier's, the acceptor's and the committer's, each reading what the
/// earlier ones returned; or the first refusal.
pub open spec fn spec_compose<D: Drafter, V: Verifier, A: Acceptor, C: Committer>(
    drafter: &D,
    verifier: &V,
    acceptor: &A,
    committer: &C,
) -> Result<Seq<FragmentView>, BuildFailure> {
    match drafter.drafts(empty_builder()) {
        Err(failure) => Err(failure),
        Ok((b1, proposal)) => match verifier.verifies(b1, proposal) {
            Err(failure) => Err(failure),
            Ok((b2, verification)) => match acceptor.accepts(b2, proposal, verification) {
                Err(failure) => Err(failure),
                Ok((b3, licensed)) => match committer.commits(b3, verification, licensed) {
                    Err(failure) => Err(failure),
                    Ok(b4) => spec_finish(b4),
                },
            },
        },
    }
}

/// Compose a round from its four components.
pub fn compose<D: Drafter, V: Verifier, A: Acceptor, C: Committer>(
    drafter: &D,
    verifier: &V,
    acceptor: &A,
    committer: &C,
) -> (r: Result<RoundGraph, BuildFailure>)
    ensures
        match spec_compose(drafter, verifier, acceptor, committer) {
            Ok(frags) => r matches Ok(g) && g@ == frags,
            Err(failure) => r == Err::<RoundGraph, BuildFailure>(failure),
        },
{
    let mut round = RoundBuilder::new();
    proof {
        assert(round.view() == empty_builder());
    }
    let proposal = match drafter.emit(&mut round) {
        Ok(p) => p,
        Err(failure) => return Err(failure),
    };
    let verification = match verifier.emit(&mut round, proposal) {
        Ok(v) => v,
        Err(failure) => return Err(failure),
    };
    let licensed = match acceptor.emit(&mut round, proposal, verification) {
        Ok(l) => l,
        Err(failure) => return Err(failure),
    };
    match committer.emit(&mut round, verification, licensed) {
        Ok(()) => {},
        Err(failure) => return Err(failure),
    }
    round.finish()
}

/// The DFlash2 drafter at one draft width.
#[derive(Debug, Clone, Copy, PartialEq, Eq, Structural)]
pub struct DFlash2Drafter {
    /// Tokens drafted per round.
    pub width: DraftWidth,
}

impl DFlash2Drafter {
    /// The drafter at `width`.
    pub fn new(width: DraftWidth) -> (r: Self)
        ensures
            r.width == width,
    {
        DFlash2Drafter { width }
    }
}

impl Drafter for DFlash2Drafter {
    /// The context catch-up, one block forward reading it, and the proposal
    /// selection reading the block.
    open spec fn drafts(&self, before: BuilderView) -> Result<(BuilderView, Proposal), BuildFailure> {
        match spec_add(before, FragmentKind::ContextCatchUp, seq![]) {
            Err(failure) => Err(failure),
            Ok((b1, catch_up)) => match spec_add(
                b1,
                FragmentKind::DraftBlockForward { model: DrafterModel::DFlash2, width: self.width },
                seq![catch_up],
            ) {
                Err(failure) => Err(failure),
                Ok((b2, block)) => match spec_add(
                    b2,
                    FragmentKind::ProposalSelect { selector: Selector::Top16Conditional },
                    seq![block],
                ) {
                    Err(failure) => Err(failure),
                    Ok((b3, selection)) => Ok((b3, Proposal { selection })),
                },
            },
        }
    }

    fn emit(&self, round: &mut RoundBuilder) -> (r: Result<Proposal, BuildFailure>) {
        let reads_nothing: [FragmentId; 0] = [];
        assert(reads_nothing@ == Seq::<FragmentId>::empty());
        let catch_up = match round.add(FragmentKind::ContextCatchUp, &reads_nothing) {
            Ok(id) => id,
            Err(failure) => return Err(failure),
        };
        let reads_catch_up = [catch_up];
        assert(reads_catch_up@ == seq![catch_up]);
        let block = match round.add(
            FragmentKind::DraftBlockForward { model: DrafterModel::DFlash2, width: self.width },
            &reads_catch_up,
        ) {
            Ok(id) => id,
            Err(failure) => return Err(failure),
        };
        let reads_block = [block];
        assert(reads_block@ == seq![block]);
        let selection = match round.add(
            FragmentKind::ProposalSelect { selector: Selector::Top16Conditional },
            &reads_block,
        ) {
            Ok(id) => id,
            Err(failure) => return Err(failure),
        };
        Ok(Proposal { selection })
    }
}

/// Verification of a draft block under a causal mask.
#[derive(Debug, Clone, Copy, PartialEq, Eq, Structural)]
pub struct CausalBlockVerifier;

impl Verifier for CausalBlockVerifier {
    /// The verify inputs reading the proposal, and the target forward reading
    /// the inputs.
    open spec fn verifies(&self, before: BuilderView, proposal: Proposal) -> Result<
        (BuilderView, Verification),
        BuildFailure,
    > {
        match spec_add(before, FragmentKind::VerifyInputs, seq![proposal.selection]) {
            Err(failure) => Err(failure),
            Ok((b1, inputs)) => match spec_add(
                b1,
                FragmentKind::TargetForward { mask: VerifyMask::CausalBlock },
                seq![inputs],
            ) {
                Err(failure) => Err(failure),
                Ok((b2, target)) => Ok((b2, Verification { target })),
            },
        }
    }

    fn emit(&self, round: &mut RoundBuilder, proposal: Proposal) -> (r: Result<
        Verification,
        BuildFailure,
    >) {
        let reads_proposal = [proposal.selection];
        assert(reads_proposal@ == seq![proposal.selection]);
        let inputs = match round.add(FragmentKind::VerifyInputs, &reads_proposal) {
            Ok(id) => id,
            Err(failure) => return Err(failure),
        };
        let reads_inputs = [inputs];
        assert(reads_inputs@ == seq![inputs]);
        let target = match round.add(
            FragmentKind::TargetForward { mask: VerifyMask::CausalBlock },
            &reads_inputs,
        ) {
            Ok(id) => id,
            Err(failure) => return Err(failure),
        };
        Ok(Verification { target })
    }
}

/// Rejection over the sparse candidate set.
#[derive(Debug, Clone, Copy, PartialEq, Eq, Structural)]
pub struct SparseRejectionAcceptor;

impl Acceptor for SparseRejectionAcceptor {
    /// One acceptance reading the proposal and the target forward, in that
    /// order.
    open spec fn accepts(&self, before: BuilderView, proposal: Proposal, verification: Verification) -> Result<
        (BuilderView, Licensed),
        BuildFailure,
    > {
        match spec_add(
            before,
            FragmentKind::Accept { rule: AcceptRule::SparseRejection },
            seq![proposal.selection, verification.target],
        ) {
            Err(failure) => Err(failure),
            Ok((b1, acceptance)) => Ok((b1, Licensed { acceptance })),
        }
    }

    fn emit(&self, round: &mut RoundBuilder, proposal: Proposal, verification: Verification) -> (r:
        Result<Licensed, BuildFailure>) {
        let reads = [proposal.selection, verification.target];
        assert(reads@ == seq![proposal.selection, verification.target]);
        match round.add(FragmentKind::Accept { rule: AcceptRule::SparseRejection }, &reads) {
            Ok(acceptance) => Ok(Licensed { acceptance }),
            Err(failure) => Err(failure),
        }
    }
}

/// The commit of a hybrid attention and gated-delta-net target: KV frontier,
/// recurrent replay, and feature publication.
#[derive(Debug, Clone, Copy, PartialEq, Eq, Structural)]
pub struct GdnReplayCommitter;

impl Committer for GdnReplayCommitter {
    /// The KV commit reading the acceptance, then the fold and the
    /// publication, each reading the acceptance and the target forward.
    open spec fn commits(&self, before: BuilderView, verification: Verification, licensed: Licensed) -> Result<
        BuilderView,
        BuildFailure,
    > {
        match spec_add(before, FragmentKind::CommitKv, seq![licensed.acceptance]) {
            Err(failure) => Err(failure),
            Ok((b1, _)) => match spec_add(
                b1,
                FragmentKind::FoldRecurrent { fold: RecurrentFold::GdnReplay },
                seq![licensed.acceptance, verification.target],
            ) {
                Err(failure) => Err(failure),
                Ok((b2, _)) => match spec_add(
                    b2,
                    FragmentKind::PublishFeatures,
                    seq![licensed.acceptance, verification.target],
                ) {
                    Err(failure) => Err(failure),
                    Ok((b3, _)) => Ok(b3),
                },
            },
        }
    }

    fn emit(&self, round: &mut RoundBuilder, verification: Verification, licensed: Licensed) -> (r:
        Result<(), BuildFailure>) {
        let reads_acceptance = [licensed.acceptance];
        assert(reads_acceptance@ == seq![licensed.acceptance]);
        match round.add(FragmentKind::CommitKv, &reads_acceptance) {
            Ok(_) => {},
            Err(failure) => return Err(failure),
        }
        let reads_both = [licensed.acceptance, verification.target];
        assert(reads_both@ == seq![licensed.acceptance, verification.target]);
        match round.add(FragmentKind::FoldRecurrent { fold: RecurrentFold::GdnReplay }, &reads_both) {
            Ok(_) => {},
            Err(failure) => return Err(failure),
        }
        match round.add(FragmentKind::PublishFeatures, &reads_both) {
            Ok(_) => {},
            Err(failure) => return Err(failure),
        }
        Ok(())
    }
}

/// The canonical DFlash2 round at `width`: catch-up, block forward, proposal
/// selection, verify inputs, target forward, acceptance, KV commit, recurrent
/// fold and feature publication, each reading what its step reads.
pub open spec fn canonical_dflash2(width: DraftWidth) -> Seq<FragmentView> {
    seq![
        (FragmentKind::ContextCatchUp, seq![]),
        (
            FragmentKind::DraftBlockForward { model: DrafterModel::DFlash2, width },
            seq![FragmentId(0)],
        ),
        (FragmentKind::ProposalSelect { selector: Selector::Top16Conditional }, seq![FragmentId(1)]),
        (FragmentKind::VerifyInputs, seq![FragmentId(2)]),
        (FragmentKind::TargetForward { mask: VerifyMask::CausalBlock }, seq![FragmentId(3)]),
        (
            FragmentKind::Accept { rule: AcceptRule::SparseRejection },
            seq![FragmentId(2), FragmentId(4)],
        ),
        (FragmentKind::CommitKv, seq![FragmentId(5)]),
        (
            FragmentKind::FoldRecurrent { fold: RecurrentFold::GdnReplay },
            seq![FragmentId(5), FragmentId(4)],
        ),
        (FragmentKind::PublishFeatures, seq![FragmentId(5), FragmentId(4)]),
    ]
}

/// The DFlash2 components compose the canonical round at every width: the
/// composition never refuses.
pub proof fn law_dflash2_composes_canonically(width: DraftWidth)
    ensures
        spec_compose(
            &DFlash2Drafter { width },
            &CausalBlockVerifier,
            &SparseRejectionAcceptor,
            &GdnReplayCommitter,
        ) == Ok::<Seq<FragmentView>, BuildFailure>(canonical_dflash2(width)),
{
    reveal_with_fuel(crate::round::graph::input_refusal, 3);
    let c = canonical_dflash2(width);
    let b0 = empty_builder();
    let k0 = FragmentKind::ContextCatchUp;
    assert(spec_add(b0, k0, seq![]) == Ok::<(BuilderView, FragmentId), BuildFailure>(
        (BuilderView { fragments: c.take(1), committing: false }, FragmentId(0)),
    )) by {
        assert(seq![(k0, Seq::<FragmentId>::empty())] =~= c.take(1));
        assert(Seq::<FragmentView>::empty().push((k0, seq![])) =~= c.take(1));
    }
    let b1 = BuilderView { fragments: c.take(1), committing: false };
    let k1 = FragmentKind::DraftBlockForward { model: DrafterModel::DFlash2, width };
    assert(spec_add(b1, k1, seq![FragmentId(0)]) == Ok::<(BuilderView, FragmentId), BuildFailure>(
        (BuilderView { fragments: c.take(2), committing: false }, FragmentId(1)),
    )) by {
        assert(seq![FragmentId(0)].take(0) =~= Seq::<FragmentId>::empty());
        assert(c.take(1).push((k1, seq![FragmentId(0)])) =~= c.take(2));
    }
    let b2 = BuilderView { fragments: c.take(2), committing: false };
    let k2 = FragmentKind::ProposalSelect { selector: Selector::Top16Conditional };
    assert(spec_add(b2, k2, seq![FragmentId(1)]) == Ok::<(BuilderView, FragmentId), BuildFailure>(
        (BuilderView { fragments: c.take(3), committing: false }, FragmentId(2)),
    )) by {
        assert(seq![FragmentId(1)].take(0) =~= Seq::<FragmentId>::empty());
        assert(c.take(2).push((k2, seq![FragmentId(1)])) =~= c.take(3));
    }
    let b3 = BuilderView { fragments: c.take(3), committing: false };
    let k3 = FragmentKind::VerifyInputs;
    assert(spec_add(b3, k3, seq![FragmentId(2)]) == Ok::<(BuilderView, FragmentId), BuildFailure>(
        (BuilderView { fragments: c.take(4), committing: false }, FragmentId(3)),
    )) by {
        assert(seq![FragmentId(2)].take(0) =~= Seq::<FragmentId>::empty());
        assert(c.take(3).push((k3, seq![FragmentId(2)])) =~= c.take(4));
    }
    let b4 = BuilderView { fragments: c.take(4), committing: false };
    let k4 = FragmentKind::TargetForward { mask: VerifyMask::CausalBlock };
    assert(spec_add(b4, k4, seq![FragmentId(3)]) == Ok::<(BuilderView, FragmentId), BuildFailure>(
        (BuilderView { fragments: c.take(5), committing: false }, FragmentId(4)),
    )) by {
        assert(seq![FragmentId(3)].take(0) =~= Seq::<FragmentId>::empty());
        assert(c.take(4).push((k4, seq![FragmentId(3)])) =~= c.take(5));
    }
    let b5 = BuilderView { fragments: c.take(5), committing: false };
    let k5 = FragmentKind::Accept { rule: AcceptRule::SparseRejection };
    assert(spec_add(b5, k5, seq![FragmentId(2), FragmentId(4)]) == Ok::<
        (BuilderView, FragmentId),
        BuildFailure,
    >((BuilderView { fragments: c.take(6), committing: false }, FragmentId(5)))) by {
        let inputs = seq![FragmentId(2), FragmentId(4)];
        assert(inputs.take(0) =~= Seq::<FragmentId>::empty());
        assert(inputs.take(1) =~= seq![FragmentId(2)]);
        assert(!inputs.take(1).contains(FragmentId(4)));
        assert(c.take(5).push((k5, inputs)) =~= c.take(6));
    }
    let b6 = BuilderView { fragments: c.take(6), committing: false };
    let k6 = FragmentKind::CommitKv;
    assert(spec_add(b6, k6, seq![FragmentId(5)]) == Ok::<(BuilderView, FragmentId), BuildFailure>(
        (BuilderView { fragments: c.take(7), committing: true }, FragmentId(6)),
    )) by {
        let inputs = seq![FragmentId(5)];
        assert(inputs.take(0) =~= Seq::<FragmentId>::empty());
        assert(inputs[0].0 < c.take(6).len() && c.take(6)[5].0 is Accept);
        assert(c.take(6).push((k6, inputs)) =~= c.take(7));
    }
    let b7 = BuilderView { fragments: c.take(7), committing: true };
    let k7 = FragmentKind::FoldRecurrent { fold: RecurrentFold::GdnReplay };
    assert(spec_add(b7, k7, seq![FragmentId(5), FragmentId(4)]) == Ok::<
        (BuilderView, FragmentId),
        BuildFailure,
    >((BuilderView { fragments: c.take(8), committing: true }, FragmentId(7)))) by {
        let inputs = seq![FragmentId(5), FragmentId(4)];
        assert(inputs.take(0) =~= Seq::<FragmentId>::empty());
        assert(inputs.take(1) =~= seq![FragmentId(5)]);
        assert(!inputs.take(1).contains(FragmentId(4)));
        assert(inputs[0].0 < c.take(7).len() && c.take(7)[5].0 is Accept);
        assert(c.take(7).push((k7, inputs)) =~= c.take(8));
    }
    let b8 = BuilderView { fragments: c.take(8), committing: true };
    let k8 = FragmentKind::PublishFeatures;
    assert(spec_add(b8, k8, seq![FragmentId(5), FragmentId(4)]) == Ok::<
        (BuilderView, FragmentId),
        BuildFailure,
    >((BuilderView { fragments: c, committing: true }, FragmentId(8)))) by {
        let inputs = seq![FragmentId(5), FragmentId(4)];
        assert(inputs.take(0) =~= Seq::<FragmentId>::empty());
        assert(inputs.take(1) =~= seq![FragmentId(5)]);
        assert(!inputs.take(1).contains(FragmentId(4)));
        assert(inputs[0].0 < c.take(8).len() && c.take(8)[5].0 is Accept);
        assert(c.take(8).push((k8, inputs)) =~= c);
    }
    let b9 = BuilderView { fragments: c, committing: true };
    assert(crate::round::graph::has_phase(c, crate::round::fragment::Phase::Execute)) by {
        assert(crate::round::fragment::kind_phase(c[0].0)
            == crate::round::fragment::Phase::Execute);
    }
    assert(spec_finish(b9) == Ok::<Seq<FragmentView>, BuildFailure>(c));
}

/// The DFlash2 round at `width`: its drafter, a causal block verify, sparse
/// rejection, and the replay commit.
pub fn dflash2(width: DraftWidth) -> (r: Result<RoundGraph, BuildFailure>)
    ensures
        r matches Ok(g) && g@ == canonical_dflash2(width),
{
    proof {
        law_dflash2_composes_canonically(width);
    }
    compose(
        &DFlash2Drafter::new(width),
        &CausalBlockVerifier,
        &SparseRejectionAcceptor,
        &GdnReplayCommitter,
    )
}

} // verus!
