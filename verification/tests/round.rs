use core::str::FromStr;

use infinitum::round::component::dflash2;
use infinitum::round::fragment::AcceptRule;
use infinitum::round::fragment::DraftWidth;
use infinitum::round::fragment::DrafterModel;
use infinitum::round::fragment::Effect;
use infinitum::round::fragment::FragmentKind;
use infinitum::round::fragment::Phase;
use infinitum::round::fragment::RecurrentFold;
use infinitum::round::fragment::Selector;
use infinitum::round::fragment::VerifyMask;
use infinitum::round::graph::BuildFailure;
use infinitum::round::graph::Congruence;
use infinitum::round::graph::FragmentId;
use infinitum::round::graph::RoundBuilder;
use infinitum::round::graph::RoundGraph;
use infinitum::round::maybe::Maybe;
use infinitum::round::plan::BackendName;
use infinitum::round::plan::Refusal;
use infinitum::round::plan::RefusalReason;
use infinitum::round::preview::Preview;
use infinitum::round::preview::RoundKind;
use infinitum::round::preview::RoundLimit;
use infinitum::round::preview::RoundOffer;
use infinitum::round::preview::RoundVerdict;
use infinitum::round::token::CountOverflow;
use infinitum::round::token::TokenCount;
use infinitum::round::token::TokenId;

const ACCEPT: FragmentKind = FragmentKind::Accept { rule: AcceptRule::SparseRejection };

const TARGET: FragmentKind = FragmentKind::TargetForward { mask: VerifyMask::CausalBlock };

#[test]
fn a_span_counts_its_tokens() {
    assert_eq!(TokenCount::of(&[]), Ok(TokenCount::zero()), "an empty span counts zero");
    let span = [TokenId::from(3_i32), TokenId::from(-1_i32)];
    assert_eq!(TokenCount::of(&span), Ok(TokenCount::from(2_u32)), "two ids count two");
}

#[test]
fn a_sum_past_the_maximum_overflows() {
    let top = TokenCount::from(u32::MAX);
    assert_eq!(
        TokenCount::from(u32::MAX - 1).checked_add(TokenCount::from(1_u32)),
        Ok(top),
        "the maximum itself is reachable"
    );
    assert_eq!(
        top.checked_add(TokenCount::from(1_u32)),
        Err(CountOverflow),
        "one past the maximum overflows"
    );
}

#[test]
fn a_remainder_saturates_at_zero() {
    assert_eq!(TokenCount::from(5).saturating_sub(TokenCount::from(3)), TokenCount::from(2));
    assert_eq!(TokenCount::from(3).saturating_sub(TokenCount::from(5)), TokenCount::zero());
}

#[test]
fn an_overflow_renders_its_range() {
    assert_eq!(CountOverflow.render(), "a token count exceeds its 32-bit range");
}

#[test]
fn each_kind_has_its_effect_and_phase() {
    let width = DraftWidth::new(1).unwrap();
    let expected = [
        (FragmentKind::ContextCatchUp, Effect::CommittedPrefixMaintenance, Phase::Execute),
        (
            FragmentKind::DraftBlockForward { model: DrafterModel::DFlash2, width },
            Effect::Scratch,
            Phase::Execute,
        ),
        (
            FragmentKind::ProposalSelect { selector: Selector::Top16Conditional },
            Effect::Scratch,
            Phase::Execute,
        ),
        (FragmentKind::VerifyInputs, Effect::Scratch, Phase::Execute),
        (
            FragmentKind::TargetForward { mask: VerifyMask::CausalBlock },
            Effect::Provisional,
            Phase::Execute,
        ),
        (
            FragmentKind::Accept { rule: AcceptRule::SparseRejection },
            Effect::Scratch,
            Phase::Execute,
        ),
        (FragmentKind::CommitKv, Effect::Commit, Phase::Commit),
        (
            FragmentKind::FoldRecurrent { fold: RecurrentFold::GdnReplay },
            Effect::Commit,
            Phase::Commit,
        ),
        (FragmentKind::PublishFeatures, Effect::Commit, Phase::Commit),
    ];
    for (kind, effect, phase) in expected {
        assert_eq!(kind.effect(), effect, "{kind:?} has effect {effect:?}");
        assert_eq!(kind.phase(), phase, "{kind:?} runs in {phase:?}");
    }
}

#[test]
fn a_zero_width_is_refused() {
    assert!(DraftWidth::from_str("0").is_err(), "zero drafts is not a speculative round");
    assert_eq!(
        DraftWidth::from_str("1"),
        Ok(DraftWidth::new(1).unwrap()),
        "one draft is the smallest width"
    );
}

#[test]
fn widths_parse_their_decimal_spelling() {
    assert_eq!(DraftWidth::from_str("+15").map(DraftWidth::get), Ok(15));
    assert!(DraftWidth::from_str("-1").is_err());
    assert!(DraftWidth::from_str("seven").is_err());
    assert!(DraftWidth::from_str("4294967296").is_err());
    assert_eq!(DraftWidth::new(12).unwrap().render(), "12");
}

#[test]
fn kinds_render_their_names() {
    assert_eq!(Phase::Execute.render(), "execute");
    assert_eq!(Phase::Commit.render(), "commit");
    assert_eq!(FragmentKind::CommitKv.render(), "KV commit");
}

#[test]
fn an_input_from_the_future_is_refused() {
    let mut builder = RoundBuilder::new();
    assert_eq!(
        builder.add(ACCEPT, &[FragmentId(0)]),
        Err(BuildFailure::UnknownInput(FragmentId(0))),
        "an empty builder has no fragment #0"
    );
    assert!(builder.finish().is_err(), "the refused fragment was not added");
}

#[test]
fn a_repeated_input_is_refused() {
    let mut builder = RoundBuilder::new();
    let Ok(target) = builder.add(TARGET, &[]) else {
        panic!("a target forward with no inputs is admitted");
    };
    assert_eq!(
        builder.add(ACCEPT, &[target, target]),
        Err(BuildFailure::RepeatedInput(target)),
        "the second mention is the refusal"
    );
}

#[test]
fn execute_after_commit_is_refused() {
    let mut builder = RoundBuilder::new();
    let Ok(accept) = builder.add(ACCEPT, &[]) else {
        panic!("an acceptance with no inputs is admitted");
    };
    assert!(builder.add(FragmentKind::CommitKv, &[accept]).is_ok(), "the commit reads it");
    assert_eq!(
        builder.add(TARGET, &[]),
        Err(BuildFailure::ExecuteAfterCommit(TARGET)),
        "a target forward cannot follow a commit"
    );
}

#[test]
fn a_commit_without_acceptance_is_refused() {
    let mut builder = RoundBuilder::new();
    let Ok(target) = builder.add(TARGET, &[]) else {
        panic!("a target forward with no inputs is admitted");
    };
    assert_eq!(
        builder.add(FragmentKind::CommitKv, &[target]),
        Err(BuildFailure::CommitWithoutAcceptance(FragmentKind::CommitKv)),
        "the target's output is not an accepted length"
    );
}

#[test]
fn an_empty_phase_is_refused() {
    assert_eq!(
        RoundBuilder::new().finish(),
        Err(BuildFailure::EmptyPhase(Phase::Execute)),
        "an empty graph has no execute phase"
    );
    let mut builder = RoundBuilder::new();
    assert!(builder.add(ACCEPT, &[]).is_ok(), "an acceptance alone is admitted");
    assert_eq!(
        builder.finish(),
        Err(BuildFailure::EmptyPhase(Phase::Commit)),
        "a round that never commits is refused"
    );
}

fn round(publish: bool) -> RoundGraph {
    let mut builder = RoundBuilder::new();
    let Ok(accept) = builder.add(ACCEPT, &[]) else {
        panic!("an acceptance with no inputs is admitted");
    };
    assert!(builder.add(FragmentKind::CommitKv, &[accept]).is_ok(), "the commit reads it");
    if publish {
        assert!(builder.add(FragmentKind::PublishFeatures, &[accept]).is_ok(), "the publish reads it");
    }
    let Ok(graph) = builder.finish() else {
        panic!("both phases are present");
    };
    graph
}

#[test]
fn equal_graphs_have_no_divergence() {
    assert_eq!(
        round(true).divergence(&round(true)),
        Maybe::Absent(Congruence::Identical),
        "the same steps build the same graph"
    );
}

#[test]
fn a_changed_fragment_is_the_divergence() {
    let mut builder = RoundBuilder::new();
    let Ok(accept) = builder.add(ACCEPT, &[]) else {
        panic!("an acceptance with no inputs is admitted");
    };
    assert!(builder.add(FragmentKind::PublishFeatures, &[accept]).is_ok(), "reads it");
    let Ok(other) = builder.finish() else {
        panic!("both phases are present");
    };
    assert_eq!(
        round(false).divergence(&other),
        Maybe::Present(FragmentId(1)),
        "the second fragment differs"
    );
}

#[test]
fn a_prefix_diverges_at_its_end() {
    assert_eq!(
        round(false).divergence(&round(true)),
        Maybe::Present(FragmentId(2)),
        "the longer graph's extra fragment is the difference"
    );
    assert_eq!(
        round(true).divergence(&round(false)),
        Maybe::Present(FragmentId(2)),
        "the relation is symmetric"
    );
}

#[test]
fn failures_render_for_the_operator() {
    assert_eq!(BuildFailure::UnknownInput(FragmentId(3)).render(), "fragment #3 does not exist yet");
    assert_eq!(
        BuildFailure::RepeatedInput(FragmentId(12)).render(),
        "fragment #12 is named twice as an input"
    );
    assert_eq!(
        BuildFailure::EmptyPhase(Phase::Commit).render(),
        "the round has no commit fragment"
    );
}

#[test]
fn entries_number_the_fragments() {
    let graph = round(true);
    let entries = graph.entries();
    assert_eq!(entries.len(), 3);
    assert_eq!(entries[2].0, FragmentId(2));
    assert_eq!(entries[2].1.kind(), FragmentKind::PublishFeatures);
    assert_eq!(entries[2].1.inputs(), &[FragmentId(0)]);
}

#[test]
fn dflash2_composes_the_canonical_round() {
    let width = DraftWidth::new(7).unwrap();
    let mut round = RoundBuilder::new();
    let catch_up = round.add(FragmentKind::ContextCatchUp, &[]).unwrap();
    let block = round
        .add(FragmentKind::DraftBlockForward { model: DrafterModel::DFlash2, width }, &[catch_up])
        .unwrap();
    let selection = round
        .add(FragmentKind::ProposalSelect { selector: Selector::Top16Conditional }, &[block])
        .unwrap();
    let inputs = round.add(FragmentKind::VerifyInputs, &[selection]).unwrap();
    let target = round
        .add(FragmentKind::TargetForward { mask: VerifyMask::CausalBlock }, &[inputs])
        .unwrap();
    let acceptance = round
        .add(FragmentKind::Accept { rule: AcceptRule::SparseRejection }, &[selection, target])
        .unwrap();
    round.add(FragmentKind::CommitKv, &[acceptance]).unwrap();
    round
        .add(FragmentKind::FoldRecurrent { fold: RecurrentFold::GdnReplay }, &[acceptance, target])
        .unwrap();
    round.add(FragmentKind::PublishFeatures, &[acceptance, target]).unwrap();
    assert_eq!(dflash2(width), Ok(round.finish().unwrap()), "the DFlash2 round is the reference round");
}

#[test]
fn every_width_composes_nine_fragments() {
    for count in [1_u32, 2, 15, 16, 1000] {
        let graph = dflash2(DraftWidth::new(count).unwrap()).unwrap();
        assert_eq!(graph.fragments().len(), 9, "width {count}");
    }
}

#[test]
fn refusals_name_the_backend_first() {
    let width = DraftWidth::new(16).unwrap();
    assert_eq!(
        Refusal::new(BackendName::Ninfer, RefusalReason::UnsupportedWidth(width)).render(),
        "ninfer refuses the round: draft width 16 is out of its range"
    );
    assert_eq!(
        Refusal::new(BackendName::Ninfer, RefusalReason::NoKnownDrafter).render(),
        "ninfer refuses the round: it knows no drafter in it"
    );
    assert_eq!(
        Refusal::new(
            BackendName::Ninfer,
            RefusalReason::Composition(BuildFailure::EmptyPhase(Phase::Execute))
        )
        .render(),
        "ninfer could not compose its own round: the round has no execute fragment"
    );
    assert_eq!(
        Refusal::new(BackendName::Ninfer, RefusalReason::NoKnownDrafter).reason(),
        RefusalReason::NoKnownDrafter
    );
}

fn ids(range: core::ops::Range<i32>) -> Vec<TokenId> {
    range.map(TokenId::from).collect()
}

#[test]
fn a_round_that_fits_continues() {
    let mut preview = Preview::new(TokenCount::from(4_u32));
    let span = ids(0..4);
    assert_eq!(
        preview.review(RoundOffer::new(&span, RoundKind::Decode)),
        Ok(RoundVerdict::Continue),
        "four tokens fit a budget of four"
    );
    assert_eq!(preview.tokens(), span.as_slice(), "every token is admitted");
    assert_eq!(preview.rounds()[0].admitted(), TokenCount::from(4_u32), "the record agrees");
}

#[test]
fn an_overrunning_round_is_limited_to_the_remainder() {
    let mut preview = Preview::new(TokenCount::from(3_u32));
    let first = ids(0..1);
    assert_eq!(
        preview.review(RoundOffer::new(&first, RoundKind::PrefillFinalization)),
        Ok(RoundVerdict::Continue),
        "the prefill token fits"
    );
    let second = ids(0..3);
    assert_eq!(
        preview.review(RoundOffer::new(&second, RoundKind::Decode)),
        Ok(RoundVerdict::Limit(RoundLimit::new(2).unwrap())),
        "two of three fit"
    );
    assert_eq!(
        preview.tokens(),
        [TokenId::from(0_i32), TokenId::from(0_i32), TokenId::from(1_i32)].as_slice(),
        "the admitted stream is the prefill token then the kept prefix"
    );
    assert_eq!(preview.rounds()[1].licensed(), TokenCount::from(3_u32), "licensed kept");
}

#[test]
fn a_spent_budget_admits_nothing() {
    let mut preview = Preview::new(TokenCount::from(1_u32));
    let span = ids(0..1);
    assert_eq!(
        preview.review(RoundOffer::new(&span, RoundKind::PrefillFinalization)),
        Ok(RoundVerdict::Continue),
        "the budget is spent exactly"
    );
    assert_eq!(
        preview.review(RoundOffer::new(&span, RoundKind::Decode)),
        Ok(RoundVerdict::Continue),
        "a spent budget cannot be expressed as a limit"
    );
    assert_eq!(preview.tokens().len(), 1, "the late round admitted nothing");
    assert_eq!(preview.rounds()[1].admitted(), TokenCount::zero(), "and records so");
}

#[test]
fn the_ledger_never_passes_the_budget() {
    let mut preview = Preview::new(TokenCount::from(10_u32));
    let mut total = 0_u32;
    for length in [3_i32, 0, 4, 5, 2, 7] {
        let span = ids(0..length);
        let verdict = preview.review(RoundOffer::new(&span, RoundKind::Decode)).unwrap();
        let admitted = preview.rounds().last().unwrap().admitted().get();
        if let RoundVerdict::Limit(limit) = verdict {
            assert_eq!(limit.get(), admitted, "a limit is what was admitted");
        }
        total += admitted;
        assert!(preview.tokens().len() <= 10);
    }
    assert_eq!(total, 10);
    assert_eq!(preview.tokens().len(), 10);
    assert_eq!(preview.rounds().len(), 6);
    assert_eq!(preview.rounds()[3].kind(), RoundKind::Decode);
}

#[test]
fn offers_keep_what_they_carry() {
    let span = ids(5..8);
    let offer = RoundOffer::new(&span, RoundKind::PrefillFinalization);
    assert_eq!(offer.licensed(), span.as_slice());
    assert_eq!(offer.kind(), RoundKind::PrefillFinalization);
    assert!(RoundLimit::new(0).is_none());
}

#[test]
fn an_added_fragment_survives_later_steps_into_the_graph() {
    let mut builder = RoundBuilder::new();
    let Ok(target) = builder.add(TARGET, &[]) else {
        panic!("a first fragment is admitted");
    };
    let Ok(accept) = builder.add(ACCEPT, &[target]) else {
        panic!("an acceptance reading the target is admitted");
    };
    assert!(builder.add(ACCEPT, &[FragmentId(9)]).is_err(), "a refused step adds nothing");
    assert!(builder.add(FragmentKind::CommitKv, &[accept, target]).is_ok(), "the commit is admitted");
    let graph = builder.finish().unwrap();
    let kept = &graph.fragments()[accept.0];
    assert_eq!(kept.kind(), ACCEPT, "the kind is kept");
    assert_eq!(kept.inputs(), [target].as_slice(), "the inputs are kept in order");
    assert_eq!(graph.fragments()[2].inputs(), [accept, target].as_slice(), "named order survives");
}

#[test]
fn reviews_append_their_records_and_admitted_tokens() {
    let mut preview = Preview::new(TokenCount::from(5_u32));
    let first = ids(0..2);
    let second = ids(10..14);
    assert!(preview.review(RoundOffer::new(&first, RoundKind::PrefillFinalization)).is_ok());
    let earlier = preview.rounds()[0];
    assert!(preview.review(RoundOffer::new(&second, RoundKind::Decode)).is_ok());
    assert_eq!(preview.rounds().len(), 2, "one record per review");
    assert_eq!(preview.rounds()[0], earlier, "an earlier record is unchanged");
    assert_eq!(preview.rounds()[1].kind(), RoundKind::Decode);
    assert_eq!(preview.rounds()[1].licensed(), TokenCount::from(4_u32));
    assert_eq!(preview.rounds()[1].admitted(), TokenCount::from(3_u32));
    let expected: Vec<TokenId> = first.iter().chain(second[..3].iter()).copied().collect();
    assert_eq!(preview.tokens(), expected.as_slice(), "each offer cut to what it admitted, in order");
}
