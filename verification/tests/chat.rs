use infinitum::chat::backend::CancelToken;
use infinitum::chat::backend::Cancellation;
use infinitum::chat::backend::ChatFailure;
use infinitum::chat::backend::FailureKind;
use infinitum::chat::outcome::Finish;
use infinitum::chat::outcome::ReusePath;
use infinitum::chat::outcome::Tally;
use infinitum::chat::request::Automatic;
use infinitum::chat::request::CacheBoundary;
use infinitum::chat::request::CacheMarker;
use infinitum::chat::request::Count;
use infinitum::chat::request::Effort;
use infinitum::chat::request::Marked;
use infinitum::chat::request::Message;
use infinitum::chat::request::Prompt;
use infinitum::chat::request::PromptCache;
use infinitum::chat::request::Role;
use infinitum::chat::request::StructuralPrefixes;
use infinitum::chat::request::Switch;
use infinitum::chat::request::ThinkingBudget;
use infinitum::chat::request::ToolCall;
use infinitum::ninfer::chat::blank_record;
use infinitum::ninfer::chat::chat_outcome;
use infinitum::ninfer::chat::counters_of;
use infinitum::ninfer::chat::lower_prompt;
use infinitum::ninfer::chat::submission_of;
use infinitum::ninfer::session::ReviewSink;
use infinitum::ninfer::wire;
use infinitum::round::token::TokenCount;
use infinitum::round::token::TokenId;

#[test]
fn a_request_through_a_clone_is_seen() {
    let token = CancelToken::new();
    let consumer = token.clone();
    assert_eq!(token.state(), Cancellation::Live, "a fresh token is live");
    consumer.request();
    assert_eq!(token.state(), Cancellation::Requested, "the request is seen through every clone");
}

#[test]
fn a_failure_renders_the_backends_message() {
    let failure = ChatFailure { kind: FailureKind::Overloaded, message: String::from("queue full") };
    assert_eq!(failure.render(), "queue full");
}

#[test]
fn a_prompt_lowers_turn_by_turn() {
    let prompt = Prompt {
        messages: vec![
            Message {
                role: Role::User,
                parts: vec![String::from("hi"), String::from("there")],
                reasoning: String::new(),
                tool_calls: Vec::new(),
                tool_call_id: String::new(),
            },
            Message {
                role: Role::Assistant,
                parts: Vec::new(),
                reasoning: String::from("thought"),
                tool_calls: vec![ToolCall {
                    id: String::from("c1"),
                    name: String::from("f"),
                    arguments: String::from("{}"),
                }],
                tool_call_id: String::new(),
            },
        ],
        tools: vec![String::from("{\"type\":\"function\"}")],
        template_arguments: String::from("{}"),
        thinking: Switch::On,
        preserve_thinking: Switch::ModelDefault,
        effort: Effort::NoEffort,
        cache: PromptCache {
            markers: vec![CacheMarker {
                boundary: CacheBoundary::Message(Count(1)),
                marked: Marked::Explicit,
                automatic: Automatic::Requested,
            }],
            structural: StructuralPrefixes::Withheld,
        },
    };
    let wire = lower_prompt(&prompt);
    assert_eq!(wire.turns.len(), 2);
    assert_eq!(wire.turns[0].role, wire::ChatRole::User);
    assert_eq!(wire.turns[0].parts, vec![String::from("hi"), String::from("there")]);
    assert_eq!(wire.turns[1].reasoning, "thought");
    assert_eq!(wire.turns[1].tool_calls[0].id, "c1");
    assert_eq!(wire.tools, prompt.tools);
    assert_eq!(wire.thinking, wire::TemplateSwitch::On);
    assert_eq!(wire.preserve_thinking, wire::TemplateSwitch::Unset);
    assert_eq!(wire.effort, wire::EffortLevel::NoEffort);
    assert_eq!(wire.cache_marks[0].evidence, 3);
    assert!(!wire.structural_prefixes);
}

#[test]
fn a_submission_reads_zero_as_unlimited() {
    let unlimited = submission_of(true, 0);
    assert_eq!(unlimited.thinking_budget, ThinkingBudget::Unlimited);
    let limited = submission_of(false, 512);
    match limited.thinking_budget {
        ThinkingBudget::Tokens(tokens) => assert_eq!(tokens.get(), 512),
        ThinkingBudget::Unlimited => panic!("a positive budget is a limit"),
    }
}

#[test]
fn a_completed_record_becomes_the_outcome() {
    let mut record = blank_record();
    record.content = String::from("answer");
    record.finish = wire::Finish::Unrecognized;
    record.generated = vec![1, 2];
    record.prompt_tokens = 9;
    record.reuse = wire::ReuseSource::SharedPrefix;
    record.thinking_budget = 64;
    record.accepted_per_position = vec![4, 2];
    record.first_token_ns = 2_000;
    record.tool_calls = vec![wire::GeneratedCall { name: String::from("f"), arguments: String::from("{}") }];
    let sink = ReviewSink::new(TokenCount::from(8));
    let outcome = chat_outcome(record, &sink).unwrap();
    assert_eq!(outcome.content, "answer");
    assert_eq!(outcome.finish, Finish::Unfinished);
    assert_eq!(outcome.generated, vec![TokenId::from(1), TokenId::from(2)]);
    assert_eq!(outcome.admission.prompt_tokens, TokenCount::from(9));
    assert_eq!(outcome.telemetry.reuse, ReusePath::SharedPrefix);
    assert_eq!(outcome.telemetry.accepted_per_position, vec![Tally(4), Tally(2)]);
    assert_eq!(outcome.telemetry.first_token, core::time::Duration::from_nanos(2_000));
    assert_eq!(outcome.tool_calls[0].name, "f");
    match outcome.telemetry.thinking.budget {
        ThinkingBudget::Tokens(tokens) => assert_eq!(tokens.get(), 64),
        ThinkingBudget::Unlimited => panic!("a positive budget is a limit"),
    }
}

#[test]
fn counters_carry_every_gauge() {
    let record = wire::CounterRecord {
        prefill_tokens: 1,
        decode_tokens: 2,
        decode_rounds: 3,
        decode_rows: 4,
        running: 5,
        prefilling: 6,
        decode_ready: 7,
        waiting: 8,
        materializing: 9,
        capture_pending: 10,
        terminal_pending: 11,
        host_active_ns: 12,
        digest: 13,
    };
    let counters = counters_of(&record);
    assert_eq!(counters.decode_rows, Tally(4));
    assert_eq!(counters.requests.terminal_pending, Tally(11));
    assert_eq!(counters.host_active, core::time::Duration::from_nanos(12));
    assert_eq!(counters.digest.0, 13);
}
