use core::str::FromStr;

use infinitum::chat::backend::FailureKind;
use infinitum::chat::outcome::Tally;
use infinitum::chat::request::Automatic;
use infinitum::chat::request::CacheBoundary;
use infinitum::chat::request::CacheMarker;
use infinitum::chat::request::Count;
use infinitum::chat::request::InstructionBytes;
use infinitum::chat::request::Marked;
use infinitum::chat::runtime::ByteSize;
use infinitum::chat::runtime::ContextCache;
use infinitum::chat::runtime::KvSizing;
use infinitum::ninfer::chat::capacity_of;
use infinitum::ninfer::chat::classify;
use infinitum::ninfer::chat::lower_mark;
use infinitum::ninfer::chat::lower_settings;
use infinitum::chat::request::Delivery;
use infinitum::chat::request::PrefixReuse;
use infinitum::chat::request::Seed;
use infinitum::chat::request::SpecialTokens;
use infinitum::chat::request::StopScope;
use infinitum::chat::request::ThinkingBudget;
use infinitum::numeral::Positive;
use infinitum::serve::parse::Directives;
use infinitum::ninfer::options::ContextLimit;
use infinitum::ninfer::options::CudaGraph;
use infinitum::ninfer::options::DeviceOrdinal;
use infinitum::ninfer::options::UnknownCudaGraph;
use infinitum::ninfer::plan::Ninfer;
use infinitum::ninfer::session::check;
use infinitum::ninfer::session::review_round;
use infinitum::ninfer::session::EngineFailure;
use infinitum::ninfer::session::Operation;
use infinitum::ninfer::session::ReviewSink;
use infinitum::ninfer::session::ThrownKind;
use infinitum::ninfer::wire;
use infinitum::round::component::dflash2;
use infinitum::round::fragment::AcceptRule;
use infinitum::round::fragment::DraftWidth;
use infinitum::round::fragment::FragmentKind;
use infinitum::round::graph::RoundBuilder;
use infinitum::round::maybe::Maybe;
use infinitum::round::plan::Backend;
use infinitum::round::plan::RefusalReason;
use infinitum::round::token::CountOverflow;
use infinitum::round::token::TokenCount;
use infinitum::round::token::TokenId;

#[test]
fn options_a_zero_context_is_refused() {
    assert!(ContextLimit::from_str("0").is_err(), "a request needs at least one token");
    assert!(ContextLimit::from_str("1").is_ok(), "one token is a ceiling");
}

#[test]
fn options_a_negative_device_is_refused() {
    assert!(DeviceOrdinal::from_str("-1").is_err(), "no device is negative");
    assert_eq!(DeviceOrdinal::from_str("0").map(i32::from), Ok(0_i32), "device zero");
}

#[test]
fn cuda_graph_parses_its_two_spellings() {
    assert_eq!(CudaGraph::from_str("off"), Ok(CudaGraph::Off), "off");
    assert_eq!(CudaGraph::from_str("on"), Ok(CudaGraph::On), "on");
    assert_eq!(CudaGraph::from_str("On"), Err(UnknownCudaGraph), "case matters");
}

#[test]
fn device_ordinals_stop_at_sixteen_bits() {
    assert_eq!(DeviceOrdinal::from_str("65535").map(|d| d.to_int()), Ok(65535));
    assert!(DeviceOrdinal::from_str("65536").is_err());
    assert_eq!(ContextLimit::from_str("4096").map(ContextLimit::get), Ok(4096));
}

#[test]
fn the_canonical_round_plans() {
    let width = DraftWidth::from_str("15").unwrap();
    let graph = dflash2(width).unwrap();
    assert_eq!(Ninfer.plan(&graph).map(|plan| plan.width()), Ok(width), "K = 15 runs");
}

#[test]
fn a_width_past_fifteen_is_refused() {
    let width = DraftWidth::from_str("16").unwrap();
    let graph = dflash2(width).unwrap();
    assert_eq!(
        Ninfer.plan(&graph).map_err(|refusal| refusal.reason()),
        Err(RefusalReason::UnsupportedWidth(width)),
        "ninfer's verify is at most sixteen columns"
    );
}

#[test]
fn a_round_without_a_drafter_is_refused() {
    let mut builder = RoundBuilder::new();
    let accept = builder.add(FragmentKind::Accept { rule: AcceptRule::SparseRejection }, &[]).unwrap();
    builder.add(FragmentKind::CommitKv, &[accept]).unwrap();
    let graph = builder.finish().unwrap();
    assert_eq!(
        Ninfer.plan(&graph).map_err(|refusal| refusal.reason()),
        Err(RefusalReason::NoKnownDrafter),
        "no drafter, no fusion"
    );
}

#[test]
fn a_different_round_is_refused_where_it_differs() {
    let width = DraftWidth::from_str("7").unwrap();
    let canonical = dflash2(width).unwrap();
    let mut builder = RoundBuilder::new();
    let fragments = canonical.fragments();
    let (_, kept) = fragments.split_last().unwrap();
    for fragment in kept {
        builder.add(fragment.kind(), fragment.inputs()).unwrap();
    }
    let truncated = builder.finish().unwrap();
    let Err(refusal) = Ninfer.plan(&truncated) else {
        panic!("a round without feature publication is not ninfer's fusion");
    };
    assert_eq!(
        refusal.render(),
        "ninfer refuses the round: it differs from its known fusion at fragment #8",
        "the refusal names the backend and the missing fragment"
    );
}

#[test]
fn capacity_records_translate() {
    let mut record = wire::CapacityRecord {
        kv_tokens: 539_520,
        kv_storage: wire::KvStorage::Fp8KeyNvfp4Value,
        kv_sizing: wire::KvSizing::Automatic,
        pages: 2_107,
        max_pages: 2_108,
        runtime_bytes: 3,
        free_bytes: 4,
        cache_enabled: true,
        lanes: 3,
        device_states: 5,
        host_states: 8,
        host_kv_bytes: 9,
        private_continuations: 6,
        shared_prefixes: 4,
        long_anchors: 2,
    };
    let capacity = capacity_of(&record);
    assert_eq!(
        (capacity.kv_tokens, capacity.kv_sizing, capacity.pages, capacity.max_pages),
        (Tally(539_520), KvSizing::Automatic, Tally(2_107), Tally(2_108)),
        "the KV counts and sizing"
    );
    assert_eq!(
        capacity.cache,
        ContextCache::Enabled {
            lanes: Tally(3),
            device_states: Tally(5),
            host_states: Tally(8),
            host_kv: ByteSize(9),
            private: Tally(6),
            shared: Tally(4),
            anchors: Tally(2),
        },
        "an enabled cache's capacities"
    );
    for (storage, name) in [
        (wire::KvStorage::BFloat16, "bf16"),
        (wire::KvStorage::Int8, "int8"),
        (wire::KvStorage::Fp8, "fp8"),
        (wire::KvStorage::Nvfp4, "nvfp4"),
        (wire::KvStorage::Fp8KeyNvfp4Value, "k8v4"),
    ] {
        record.kv_storage = storage;
        assert_eq!(capacity_of(&record).kv_storage, name, "{name}");
    }
    record.cache_enabled = false;
    record.kv_sizing = wire::KvSizing::Explicit;
    let disabled = capacity_of(&record);
    assert_eq!(disabled.cache, ContextCache::RootOnly, "a disabled cache");
    assert_eq!(disabled.kv_sizing, KvSizing::Explicit, "explicit sizing");
}

#[test]
fn cache_marks_lower_to_ninfers_bits() {
    let cases = [
        (
            CacheBoundary::LeadingInstruction(InstructionBytes(12)),
            Marked::Explicit,
            Automatic::Not,
            (wire::MarkLocation::LeadingInstruction, 12_u32, 0_u32, 1_u8),
        ),
        (
            CacheBoundary::MessagePart { message: Count(3), parts: Count(2) },
            Marked::Explicit,
            Automatic::Default,
            (wire::MarkLocation::MessagePart, 3, 2, 5),
        ),
        (
            CacheBoundary::Message(Count(4)),
            Marked::Unmarked,
            Automatic::Default,
            (wire::MarkLocation::Message, 4, 0, 4),
        ),
        (
            CacheBoundary::Tool(Count(1)),
            Marked::Unmarked,
            Automatic::Requested,
            (wire::MarkLocation::Tool, 1, 0, 2),
        ),
    ];
    for (boundary, marked, automatic, expected) in cases {
        let mark = lower_mark(&CacheMarker { boundary, marked, automatic });
        assert_eq!(
            (mark.location, mark.count, mark.parts, mark.evidence),
            expected,
            "{boundary:?} {marked:?} {automatic:?}"
        );
    }
}

fn outcome(status: wire::Status, refusal: wire::Refusal) -> wire::Outcome {
    wire::Outcome { status, refusal, message: String::from("message") }
}

#[test]
fn outcomes_classify_by_status_and_refusal() {
    assert!(
        classify(outcome(wire::Status::Completed, wire::Refusal::NotRefused)).is_ok(),
        "a completed call is not a failure"
    );
    let cases = [
        (wire::Refusal::ContextLength, FailureKind::ContextLength),
        (wire::Refusal::ThinkingBudgetCapacity, FailureKind::ThinkingBudgetCapacity),
        (wire::Refusal::Overloaded, FailureKind::Overloaded),
        (wire::Refusal::QueueTimeout, FailureKind::QueueTimeout),
        (wire::Refusal::Cancelled, FailureKind::Cancelled),
        (wire::Refusal::Unavailable, FailureKind::Unavailable),
        (wire::Refusal::Media, FailureKind::InvalidPrompt),
    ];
    for (refusal, kind) in cases {
        let failure = classify(outcome(wire::Status::Refused, refusal));
        assert_eq!(failure.map_err(|failure| failure.kind), Err(kind), "a refusal maps to its class");
    }
    assert_eq!(
        classify(outcome(wire::Status::InvalidArgument, wire::Refusal::NotRefused))
            .map_err(|failure| failure.kind),
        Err(FailureKind::InvalidPrompt),
        "std::invalid_argument is an invalid prompt"
    );
    assert_eq!(
        classify(outcome(wire::Status::Runtime, wire::Refusal::NotRefused))
            .map_err(|failure| failure.kind),
        Err(FailureKind::Internal),
        "any other exception is internal"
    );
}

#[test]
fn a_failed_call_names_its_operation_and_message() {
    let failure = check(Operation::Generate, outcome(wire::Status::Runtime, wire::Refusal::NotRefused));
    assert_eq!(
        failure,
        Err(EngineFailure::Thrown {
            operation: Operation::Generate,
            kind: ThrownKind::Runtime,
            message: String::from("message"),
        })
    );
    assert_eq!(
        failure.unwrap_err().render(),
        "ninfer failed generating, throwing a std::exception: message"
    );
    assert_eq!(check(Operation::Open, outcome(wire::Status::Completed, wire::Refusal::NotRefused)), Ok(()));
    assert_eq!(
        EngineFailure::Preview(CountOverflow).render(),
        "the round preview failed: a token count exceeds its 32-bit range"
    );
}

#[test]
fn reviews_answer_the_preview_and_keep_the_first_failure() {
    let mut sink = ReviewSink::new(TokenCount::from(3));
    let answer = review_round(&mut sink, &[5, 6], wire::RoundKind::PrefillFinalization);
    assert_eq!(answer, wire::ReviewAnswer { verdict: wire::Verdict::Continue, limit: 0 });
    let answer = review_round(&mut sink, &[7, 8, 9], wire::RoundKind::Decode);
    assert_eq!(answer, wire::ReviewAnswer { verdict: wire::Verdict::Limit, limit: 1 });
    assert_eq!(sink.rounds().len(), 2);
    assert_eq!(sink.rounds()[1].admitted(), TokenCount::from(1));
    assert_eq!(sink.failure(), Maybe::Absent(infinitum::ninfer::session::Reviewing::Clean));
    let record = wire::GenerationRecord {
        generated: vec![5, 6, 7],
        finish: wire::Finish::OutputLimit,
        decode_rounds: 1,
        drafted: 7,
        accepted: 1,
        fallback_steps: 0,
        generation_wall_ns: 1_500,
    };
    let generation = infinitum::ninfer::session::Generation::of(record, &sink).unwrap();
    assert_eq!(generation.generated(), &[TokenId::from(5), TokenId::from(6), TokenId::from(7)]);
    assert_eq!(generation.finish(), infinitum::ninfer::session::Finish::OutputLimit);
    assert_eq!(generation.speculation().drafted().0, 7);
    assert_eq!(generation.wall(), core::time::Duration::from_nanos(1_500));
    assert_eq!(generation.rounds().len(), 2);
}

#[test]
fn settings_lower_to_the_adapters_flags() {
    let directives = Directives {
        output_tokens: TokenCount::from(64),
        seed: 9,
        post_thinking_seed: Seed::Fixed(11),
        thinking_budget: ThinkingBudget::Tokens(Positive::new(32).unwrap()),
        stops: vec![String::from("END")],
        stop_scope: StopScope::ContentAndReasoning,
        special_tokens: SpecialTokens::Preserved,
        tool_name_limit: 64,
        prefix_reuse: PrefixReuse::ReadWrite,
    };
    let lowered = lower_settings(&directives, Delivery::Streaming);
    assert_eq!((lowered.output_tokens, lowered.seed), (64, 9));
    assert_eq!((lowered.post_thinking_seed, lowered.post_thinking_seed_set), (11, true));
    assert_eq!(lowered.thinking_budget, 32);
    assert_eq!(lowered.stops, ["END"]);
    assert!(lowered.stops_end_reasoning && lowered.preserve_special_tokens);
    assert!(lowered.prefix_reuse && lowered.streaming);
    let plain = Directives {
        post_thinking_seed: Seed::Inherited,
        thinking_budget: ThinkingBudget::Unlimited,
        stop_scope: StopScope::Content,
        special_tokens: SpecialTokens::Trimmed,
        prefix_reuse: PrefixReuse::Disabled,
        ..directives
    };
    let lowered = lower_settings(&plain, Delivery::Aggregate);
    assert_eq!((lowered.post_thinking_seed, lowered.post_thinking_seed_set), (0, false));
    assert_eq!(lowered.thinking_budget, 0, "zero is unlimited");
    assert!(!lowered.stops_end_reasoning && !lowered.preserve_special_tokens);
    assert!(!lowered.prefix_reuse && !lowered.streaming);
}
