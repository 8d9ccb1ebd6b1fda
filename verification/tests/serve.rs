use infinitum::serve::render::unix_seconds_of;
use infinitum::json::quote;
use infinitum::serve::server::unauthorized;
use infinitum::serve::server::versioned;
use infinitum::serve::render::fresh_request_id;
use infinitum::serve::render::request_id;
use infinitum::serve::oplog::engine_start;
use infinitum::serve::oplog::reporting_stopped;
use infinitum::serve::oplog::server_stopped;
use infinitum::chat::backend::ChatFailure;
use infinitum::chat::backend::FailureKind;
use infinitum::chat::backend::ModelName;
use infinitum::chat::backend::Submission;
use infinitum::chat::backend::Thinking;
use infinitum::chat::backend::DeltaText;
use infinitum::chat::outcome::Admission;
use infinitum::chat::outcome::Channel;
use infinitum::chat::outcome::ChatOutcome;
use infinitum::chat::outcome::Finish;
use infinitum::chat::outcome::GeneratedToolCall;
use infinitum::chat::outcome::ReusePath;
use infinitum::chat::outcome::Tally;
use infinitum::chat::outcome::Telemetry;
use infinitum::chat::outcome::ThinkingSpend;
use infinitum::chat::request::Delivery;
use infinitum::chat::request::Effort;
use infinitum::chat::request::PrefixReuse;
use infinitum::chat::request::Switch;
use infinitum::chat::request::ThinkingBudget;
use infinitum::chat::runtime::ByteSize;
use infinitum::chat::runtime::Capacity;
use infinitum::chat::runtime::ContextCache;
use infinitum::chat::runtime::CounterDigest;
use infinitum::chat::runtime::KvSizing;
use infinitum::chat::runtime::LoadReport;
use infinitum::chat::runtime::RequestGauges;
use infinitum::chat::runtime::RuntimeCounters;
use infinitum::numeral::Positive;
use infinitum::pretty::Bytes;
use infinitum::pretty::Count;
use infinitum::pretty::Text;
use infinitum::round::token::TokenCount;
use infinitum::round::token::TokenId;
use infinitum::serve::error::ApiError;
use infinitum::serve::error::Code;
use infinitum::serve::error::Param;
use infinitum::serve::oplog::capacity;
use infinitum::serve::oplog::done;
use infinitum::serve::oplog::engine_ready;
use infinitum::serve::oplog::failed;
use infinitum::serve::oplog::listening;
use infinitum::serve::oplog::service_line;
use infinitum::serve::oplog::started;
use infinitum::serve::oplog::throughput;
use infinitum::serve::oplog::CapacityFigures;
use infinitum::serve::oplog::DoneFigures;
use infinitum::serve::oplog::LoadFigures;
use infinitum::serve::oplog::Phase;
use infinitum::serve::oplog::Record;
use infinitum::serve::oplog::RequestId;
use infinitum::serve::oplog::RequestShape;
use infinitum::serve::oplog::Severity;
use infinitum::serve::oplog::Throughput;
use infinitum::serve::oplog::ThroughputFigures;
use infinitum::serve::parse::Usage;
use infinitum::serve::render::completion_named;
use infinitum::serve::render::Bits;
use infinitum::serve::render::ChunkStream;
use infinitum::serve::render::Identity;
use infinitum::serve::render::TimingFigures;
use infinitum::serve::render::UnixSeconds;
use infinitum::serve::render::DONE;
use infinitum::serve::server::admission;
use infinitum::serve::server::bearer_matches;
use infinitum::serve::server::model_lookup;
use infinitum::serve::server::too_large;
use infinitum::serve::server::warm_up_request;
use infinitum::serve::server::Access;
use infinitum::serve::server::ApiKey;
use infinitum::serve::server::ModelId;
use infinitum::serve::server::RequestBytes;
use infinitum::serve::server::ServeConfig;
use infinitum::serve::server::StatsInterval;
use infinitum::serve::server::Verdict;
use infinitum::serve::parse::Defaults;

/// A one-message streamed request with no tools.
fn shape() -> RequestShape {
    RequestShape {
        id: RequestId(7),
        delivery: Delivery::Streaming,
        messages: Count(1),
        tools: Count(0),
        max_output: TokenCount::zero(),
        effort: Effort::Unrequested,
        preserve_thinking: Switch::ModelDefault,
    }
}

fn quiet_telemetry() -> Telemetry {
    Telemetry {
        first_token: core::time::Duration::ZERO,
        total: core::time::Duration::ZERO,
        prefill: core::time::Duration::ZERO,
        decode: core::time::Duration::ZERO,
        queue_wait: core::time::Duration::ZERO,
        reuse: ReusePath::Root,
        thinking: ThinkingSpend {
            budget: ThinkingBudget::Unlimited,
            model_tokens: TokenCount::zero(),
            injected_tokens: TokenCount::zero(),
        },
        accepted_per_position: Vec::new(),
    }
}

/// An outcome of these texts and length.
fn outcome(reasoning: &str, content: &str, generated: usize) -> ChatOutcome {
    ChatOutcome {
        content: String::from(content),
        reasoning: String::from(reasoning),
        tool_calls: Vec::new(),
        finish: Finish::StopToken,
        admission: Admission {
            prompt_tokens: TokenCount::from(10),
            reused_tokens: TokenCount::from(4),
        },
        generated: vec![TokenId::from(0); generated],
        reasoning_tokens: TokenCount::from(1),
        prompt_wall: core::time::Duration::from_millis(12),
        generation_wall: core::time::Duration::from_millis(40),
        drafted: Tally(0),
        accepted: Tally(0),
        telemetry: quiet_telemetry(),
    }
}

fn figures(per_token: &str, per_second: &str) -> TimingFigures {
    TimingFigures {
        prompt_ms: String::from("12.0"),
        prompt_per_token_ms: String::from("2.0"),
        prompt_per_second: String::from("500.0"),
        predicted_ms: String::from("40.0"),
        predicted_per_token_ms: String::from(per_token),
        predicted_per_second: String::from(per_second),
    }
}

fn payload(event: &str) -> serde_json::Value {
    serde_json::from_str(event.strip_prefix("data: ").unwrap().trim_end()).unwrap()
}

#[test]
fn each_failure_class_maps_to_its_status_and_code() {
    let cases = [
        (FailureKind::InvalidPrompt, 400_u16, "invalid_prompt"),
        (FailureKind::ContextLength, 400, "context_length_exceeded"),
        (FailureKind::ThinkingBudgetCapacity, 400, "thinking_budget_capacity_insufficient"),
        (FailureKind::Overloaded, 429, "server_overloaded"),
        (FailureKind::QueueTimeout, 503, "request_queue_timeout"),
        (FailureKind::Cancelled, 499, "client_disconnected"),
        (FailureKind::Unavailable, 503, "service_unavailable"),
        (FailureKind::Internal, 500, ""),
    ];
    for (kind, status, code) in cases {
        let error = ApiError::from_failure(ChatFailure { kind, message: String::from("m") });
        assert_eq!(error.status, status, "{kind:?} takes its status");
        assert_eq!(error.code, code, "{kind:?} takes its code");
    }
}

#[test]
fn empty_fields_render_as_null() {
    let error = ApiError::internal(String::from("boom"));
    assert_eq!(
        error.body(),
        r#"{"error":{"message":"boom","type":"internal_error","param":null,"code":null}}"#,
        "empty param and code render as null"
    );
    let invalid = ApiError::invalid(String::from("bad"), Param("stop"), Code("x"));
    assert_eq!(
        invalid.body(),
        r#"{"error":{"message":"bad","type":"invalid_request_error","param":"stop","code":"x"}}"#,
        "set param and code render as strings"
    );
}

#[test]
fn request_lines_follow_ninfer() {
    let shape = RequestShape { max_output: TokenCount::from(1_u32 << 17_u32), ..shape() };
    let budget = ThinkingBudget::Tokens(Positive::new(98_304).unwrap());
    assert_eq!(
        started(&shape, Submission { thinking: Thinking::Open, thinking_budget: budget }).message,
        "req#7 started | openai-chat stream | 1 message | max output 131,072 | thinking template default, budget 98,304",
        "thinking on under a budget"
    );
    let tooled = RequestShape {
        messages: Count(3),
        tools: Count(2),
        effort: Effort::Low,
        preserve_thinking: Switch::On,
        delivery: Delivery::Aggregate,
        ..shape
    };
    assert_eq!(
        started(&tooled, Submission { thinking: Thinking::Closed, thinking_budget: ThinkingBudget::Unlimited })
            .message,
        "req#7 started | openai-chat non-stream | 3 messages | max output 131,072 | thinking off | tools 2 | preserve thinking",
        "thinking off with the optional clauses"
    );
    let full = ChatOutcome {
        content: String::new(),
        reasoning: String::new(),
        tool_calls: Vec::new(),
        finish: Finish::StopToken,
        admission: Admission { prompt_tokens: TokenCount::from(2000), reused_tokens: TokenCount::from(1000) },
        generated: vec![TokenId::from(0); 101],
        reasoning_tokens: TokenCount::zero(),
        prompt_wall: core::time::Duration::ZERO,
        generation_wall: core::time::Duration::ZERO,
        drafted: Tally(70),
        accepted: Tally(35),
        telemetry: Telemetry {
            first_token: core::time::Duration::from_millis(250),
            total: core::time::Duration::from_millis(3210),
            prefill: core::time::Duration::from_millis(500),
            decode: core::time::Duration::from_secs(2),
            queue_wait: core::time::Duration::from_millis(20),
            reuse: ReusePath::SharedPrefix,
            thinking: ThinkingSpend {
                budget,
                model_tokens: TokenCount::from(64),
                injected_tokens: TokenCount::from(3),
            },
            accepted_per_position: vec![Tally(9), Tally(7), Tally(5)],
        },
    };
    let rendered = DoneFigures {
        cache_percent: String::from("50.0%"),
        first_token: String::from("250 ms"),
        total: String::from("3.2s"),
        queue: String::from("20.0 ms"),
        prefill_rate: String::from("2.00k tok/s"),
        decode_rate: String::from("50.0 tok/s"),
        accepted_percent: String::from("50.0%"),
    };
    assert_eq!(
        done(&shape, &full, &rendered).message,
        "req#7 done | openai-chat | stop token | prompt 2,000 | output 101 | cache 1,000 (50.0%, shared prefix) | TTFT 250 ms | total 3.2s | queue 20.0 ms | prefill 2.00k tok/s | decode 50.0 tok/s | dflash2 accepted 35/70 (50.0%) | thinking 64/98,304, control 3 | per position 9/7/5",
        "every clause"
    );
    let bare = ChatOutcome {
        drafted: Tally(0),
        accepted: Tally(0),
        telemetry: Telemetry {
            first_token: core::time::Duration::from_millis(250),
            total: core::time::Duration::from_millis(3210),
            queue_wait: core::time::Duration::from_millis(9),
            ..quiet_telemetry()
        },
        ..full
    };
    assert_eq!(
        done(&shape, &bare, &rendered).message,
        "req#7 done | openai-chat | stop token | prompt 2,000 | output 101 | cache 1,000 (50.0%) | TTFT 250 ms | total 3.2s",
        "no optional clause"
    );
}

#[test]
fn startup_lines_follow_ninfer() {
    let mut summary = Capacity {
        kv_tokens: Tally(539_520),
        kv_storage: String::from("nvfp4"),
        kv_sizing: KvSizing::Automatic,
        pages: Tally(2108),
        max_pages: Tally(2108),
        runtime: ByteSize(3 << 30_u32),
        free: ByteSize(1536 << 20_u32),
        cache: ContextCache::Enabled {
            lanes: Tally(3),
            device_states: Tally(3),
            host_states: Tally(8),
            host_kv: ByteSize(36_864 << 20_u32),
            private: Tally(6),
            shared: Tally(4),
            anchors: Tally(2),
        },
    };
    let sizes = CapacityFigures {
        runtime: String::from("3.00 GiB"),
        free: String::from("1.50 GiB"),
        host_kv: String::from("36.0 GiB"),
    };
    let [first, second] = capacity(&summary, &sizes);
    assert_eq!(
        first.message,
        "capacity | KV 539,520 tokens, nvfp4, auto | pages 2,108/2,108 | runtime 3.00 GiB | free 1.50 GiB",
        "the KV line"
    );
    assert_eq!(
        second.message,
        "context cache | 3 active + 3 cached device states | host 8 states, 36.0 GiB KV | private 6 | shared 4 | anchors 2",
        "the enabled cache line"
    );
    let load = LoadReport {
        total: core::time::Duration::from_millis(95_400),
        weights: ByteSize(17 << 30_u32),
        cuda_sync: String::from("blocking"),
    };
    assert_eq!(
        engine_ready(
            &ModelName(String::from("Qwen3.8-27B")),
            &load,
            &LoadFigures { total: String::from("1m 35.4s"), weights: String::from("17.0 GiB") }
        )
        .message,
        "engine ready | Qwen3.8-27B | total 1m 35.4s | weights 17.0 GiB | CUDA sync blocking",
        "the load line"
    );
    summary.cache = ContextCache::RootOnly;
    assert_eq!(capacity(&summary, &sizes)[1].message, "context cache | root only", "a disabled cache");
    let address = core::net::SocketAddr::from(([127, 0, 0, 1], 18_031));
    let model = ModelId(String::from("qwen\n"));
    assert_eq!(
        listening(&address.to_string(), &model, &Access::Open).message,
        "listening on http://127.0.0.1:18031 | model qwen  | auth disabled",
        "an open server, its id made safe"
    );
}

#[test]
fn lines_carry_ninfers_stamp_and_level() {
    let at = jiff::civil::date(2026, 9, 26)
        .at(4, 5, 6, 123_999_999)
        .to_zoned(jiff::tz::TimeZone::UTC)
        .unwrap();
    let stamp = at.strftime("%Y-%m-%d %H:%M:%S%.3f").to_string();
    for (severity, expected) in [
        (Severity::Info, "2026-09-26 04:05:06.123  INFO  ready"),
        (Severity::Warning, "2026-09-26 04:05:06.123  WARN  ready"),
        (Severity::Error, "2026-09-26 04:05:06.123  ERROR ready"),
    ] {
        let record = Record { severity, message: String::from("ready") };
        assert_eq!(service_line(&stamp, &record), expected, "{severity:?}");
    }
}

fn idle() -> RuntimeCounters {
    RuntimeCounters {
        prefill_tokens: Tally(0),
        decode_tokens: Tally(0),
        decode_rounds: Tally(0),
        decode_rows: Tally(0),
        requests: RequestGauges::default(),
        host_active: core::time::Duration::ZERO,
        digest: CounterDigest(0),
    }
}

#[test]
fn throughput_lines_follow_ninfer() {
    let idle = idle();
    let quiet = ThroughputFigures {
        interval: String::from("5.0s"),
        prefill_rate: String::from("0.0 tok/s"),
        decode_rate: String::from("0.0 tok/s"),
        batch: String::from("0.00"),
        host_percent: String::from("0.0%"),
        host_time: String::from("0 us"),
    };
    assert_eq!(throughput(&idle, &idle, &quiet), Throughput::Quiet, "nothing moved");
    let shuffled = RuntimeCounters { digest: CounterDigest(1), ..idle };
    assert_eq!(
        throughput(&idle, &shuffled, &quiet),
        Throughput::Active(Record {
            severity: Severity::Info,
            message: String::from("throughput | 5.0s | running 0 | host 0.0% (0 us)"),
        }),
        "only the digest moved, as a cache eviction does"
    );
    let busy = RuntimeCounters {
        prefill_tokens: Tally(12_000),
        decode_tokens: Tally(400),
        decode_rounds: Tally(80),
        decode_rows: Tally(200),
        requests: RequestGauges {
            running: Tally(3),
            prefilling: Tally(1),
            decode_ready: Tally(2),
            waiting: Tally(1),
            terminal_pending: Tally(1),
            ..RequestGauges::default()
        },
        host_active: core::time::Duration::from_millis(250),
        digest: CounterDigest(0),
    };
    let rendered = ThroughputFigures {
        interval: String::from("5.0s"),
        prefill_rate: String::from("2.40k tok/s"),
        decode_rate: String::from("80.0 tok/s"),
        batch: String::from("2.50"),
        host_percent: String::from("5.0%"),
        host_time: String::from("250 ms"),
    };
    assert_eq!(
        throughput(&idle, &busy, &rendered),
        Throughput::Active(Record {
            severity: Severity::Info,
            message: String::from(
                "throughput | 5.0s | prefill 2.40k tok/s (12,000 tok) | decode 80.0 tok/s (400 tok) | \
                 running 3 (prefill 1, decode-ready 2) | waiting 1 | terminal-pending 1 | batch 2.50 | \
                 host 5.0% (250 ms)"
            ),
        }),
        "a busy interval"
    );
    let behind = RuntimeCounters { decode_tokens: Tally(5), ..idle };
    assert_eq!(throughput(&behind, &idle, &quiet), Throughput::Quiet, "a total that went back reads as zero");
}

#[test]
fn failure_lines_follow_ninfer() {
    let refused = ApiError {
        status: 400,
        kind: "invalid_request_error",
        message: String::new(),
        param: String::new(),
        code: String::from("context_length_exceeded"),
    };
    let line = failed(&shape(), Phase::Prepare, &refused);
    assert_eq!(
        line.message,
        "req#7 rejected during prepare | openai-chat stream | HTTP 400 | context length exceeded | messages 1",
        "client input before submission"
    );
    assert_eq!(line.severity, Severity::Info, "client input is routine");
    let timeout = ApiError { status: 503, code: String::from("request_queue_timeout"), ..refused.clone() };
    let line = failed(&shape(), Phase::Prepare, &timeout);
    assert_eq!(
        line.message,
        "req#7 failed during prepare | openai-chat stream | HTTP 503 | request queue timeout | messages 1",
        "a queue timeout fails"
    );
    assert_eq!(line.severity, Severity::Warning, "a timeout degrades service");
    let internal = ApiError { status: 500, code: String::new(), ..refused };
    let line = failed(&shape(), Phase::Generation, &internal);
    assert_eq!(
        line.message,
        "req#7 failed during generation | openai-chat | HTTP 500 | internal error",
        "a fault after submission names its class"
    );
    assert_eq!(line.severity, Severity::Error, "a fault is an error");
    let gone = ApiError { status: 499, code: String::from("client_disconnected"), ..internal };
    assert_eq!(
        failed(&shape(), Phase::Generation, &gone).message,
        "req#7 cancelled during transport | openai-chat | HTTP 499 | client disconnected"
    );
}

#[test]
fn integral_formats_match_ninfer() {
    for (count, shown) in [(0_u64, "0"), (999, "999"), (1000, "1,000"), (1_234_567, "1,234,567")] {
        assert_eq!(Count(count).render(), shown, "count {count}");
    }
    assert_eq!(Bytes(1023).exact(), Some(String::from("1023 B")));
    assert_eq!(Bytes(1536).exact(), None, "a KiB and more is scaled");
    assert_eq!(Text("a\tb\nc\u{1}\u{7f}é").render(), "a b c??é", "text");
}

#[test]
fn timings_follow_ninfer() {
    let identity = Identity::named(String::from("m"), Bits(1), UnixSeconds(2));
    let plain: serde_json::Value = serde_json::from_str(&completion_named(
        &identity,
        &outcome("", "a", 5),
        &figures("10.0", "100.0"),
        &[],
    ))
    .unwrap();
    let timings = &plain["timings"];
    assert_eq!(timings["cache_n"], 4, "reused tokens are the cache count");
    assert_eq!(timings["prompt_n"], 6, "the rest were prefilled");
    assert_eq!(timings["predicted_per_token_ms"], 10.0, "the rendered rate is carried");
    assert!(timings.get("draft_n").is_none(), "no draft fields without drafting");
    let mut drafted = outcome("", "a", 1);
    drafted.drafted = Tally(14);
    drafted.accepted = Tally(9);
    let drafted: serde_json::Value =
        serde_json::from_str(&completion_named(&identity, &drafted, &figures("0.0", "0.0"), &[])).unwrap();
    assert_eq!(drafted["timings"]["draft_n_accepted"], 9, "draft fields appear once something was drafted");
    assert_eq!(drafted["timings"]["predicted_n"], 1);
}

#[test]
fn a_completion_carries_ninfers_fields() {
    let identity = Identity::new(String::from("m"));
    let plain: serde_json::Value = serde_json::from_str(&completion_named(
        &identity,
        &outcome("r", "a", 3),
        &figures("20.0", "50.0"),
        &[],
    ))
    .unwrap();
    let choice = &plain["choices"][0];
    assert_eq!(choice["message"]["content"], "a", "the content is carried");
    assert_eq!(choice["message"]["reasoning_content"], "r", "the reasoning is carried");
    assert_eq!(choice["finish_reason"], "stop", "a stop token finishes stop");
    assert_eq!(plain["usage"]["total_tokens"], 13, "prompt and completion sum");
    assert_eq!(plain["object"], "chat.completion");
    assert!(plain["id"].as_str().unwrap().starts_with("chatcmpl-"));
    let mut called = outcome("", "", 3);
    called.finish = Finish::OutputLimit;
    called.tool_calls.push(GeneratedToolCall { name: String::from("ls"), arguments: String::from("{}") });
    let called: serde_json::Value = serde_json::from_str(&infinitum::serve::render::completion(
        &identity,
        &called,
        &figures("20.0", "50.0"),
    ))
    .unwrap();
    let choice = &called["choices"][0];
    assert_eq!(choice["message"]["content"], serde_json::Value::Null, "empty content beside calls is null");
    assert_eq!(choice["finish_reason"], "tool_calls", "calls finish tool_calls");
    assert!(choice["message"]["tool_calls"][0].get("index").is_none(), "aggregate calls are unindexed");
    assert!(
        choice["message"]["tool_calls"][0]["id"].as_str().unwrap().starts_with("call_"),
        "calls take fresh ids"
    );
}

#[test]
fn ids_are_sixteen_hex_digits() {
    let identity = Identity::named(String::from("m"), Bits(0xab), UnixSeconds(9));
    let stream = ChunkStream::new(identity, Usage::Omitted);
    let opened = payload(&stream.start());
    assert_eq!(opened["id"], "chatcmpl-00000000000000ab");
    assert_eq!(opened["created"], 9);
    let mut called = outcome("", "", 1);
    called.tool_calls.push(GeneratedToolCall { name: String::from("ls"), arguments: String::from("{}") });
    let body: serde_json::Value = serde_json::from_str(&completion_named(
        &Identity::named(String::from("m"), Bits(1), UnixSeconds(2)),
        &called,
        &figures("0.0", "0.0"),
        &[Bits(u64::MAX)],
    ))
    .unwrap();
    assert_eq!(body["choices"][0]["message"]["tool_calls"][0]["id"], "call_ffffffffffffffff");
}

#[test]
fn a_stream_finishes_with_the_remainder_and_usage() {
    let mut stream = ChunkStream::new(Identity::new(String::from("m")), Usage::Included);
    assert_eq!(payload(&stream.start())["choices"][0]["delta"]["role"], "assistant", "the stream opens");
    let reasoning = stream.delta(Channel::Reasoning, DeltaText("thin"));
    assert_eq!(
        payload(&reasoning)["choices"][0]["delta"]["reasoning_content"],
        "thin",
        "a delta rides its channel"
    );
    let terminal = stream.finish(&outcome("think", "ok", 3), &figures("20.0", "50.0")).unwrap();
    let payloads: Vec<serde_json::Value> =
        terminal.iter().take(terminal.len().saturating_sub(1)).map(|event| payload(event)).collect();
    assert_eq!(payloads[0]["choices"][0]["delta"]["reasoning_content"], "k", "unstreamed reasoning follows");
    assert_eq!(payloads[1]["choices"][0]["delta"]["content"], "ok", "unstreamed content follows");
    assert_eq!(payloads[2]["choices"][0]["finish_reason"], "stop", "the finish chunk");
    assert!(payloads[2].get("timings").is_none(), "timings move to the usage chunk");
    assert_eq!(payloads[3]["usage"]["completion_tokens"], 3, "the usage chunk");
    assert_eq!(terminal.last().unwrap(), DONE, "the stream closes");
    let mut diverged = ChunkStream::new(Identity::new(String::from("m")), Usage::Omitted);
    let _content = diverged.delta(Channel::Content, DeltaText("x"));
    assert_eq!(
        diverged.finish(&outcome("", "y", 1), &figures("0.0", "0.0")).unwrap_err().status,
        500,
        "streamed text must prefix the outcome"
    );
}

#[test]
fn bearer_matching_follows_ninfer() {
    let key = ApiKey(String::from("k"));
    assert_eq!(bearer_matches(b" \tbearer  k \t", &key), Verdict::Admitted, "case and blanks are forgiven");
    assert_eq!(bearer_matches(b"Bearerk", &key), Verdict::Refused, "the separator is required");
    assert_eq!(bearer_matches(b"Bearer j", &key), Verdict::Refused, "a wrong key is refused");
    assert_eq!(bearer_matches(b"Basic k", &key), Verdict::Refused, "another scheme is refused");
}

#[test]
fn an_empty_key_leaves_the_api_open() {
    assert!(
        Access::of(ApiKey(String::new())) == Access::Open,
        "an empty key means no authentication, as ninfer's, never an empty credential"
    );
    assert!(
        Access::of(ApiKey(String::from("k"))) == Access::Key(ApiKey(String::from("k"))),
        "a key gates the API"
    );
}

#[test]
fn the_key_check_admits_health_options_and_either_header() {
    let access = Access::of(ApiKey(String::from("k")));
    assert_eq!(admission(&access, "/health", false, None, None), Verdict::Admitted);
    assert_eq!(admission(&access, "/v1/models", true, None, None), Verdict::Admitted);
    assert_eq!(admission(&access, "/v1/models", false, None, None), Verdict::Refused);
    assert_eq!(admission(&access, "/v1/models", false, None, Some(b"k")), Verdict::Admitted);
    assert_eq!(admission(&access, "/v1/models", false, Some(b"Bearer k"), None), Verdict::Admitted);
    assert_eq!(admission(&access, "/v1/models", false, Some(b"Bearer x"), Some(b"y")), Verdict::Refused);
    assert_eq!(admission(&Access::Open, "/v1/models", false, None, None), Verdict::Admitted);
}

fn config() -> ServeConfig {
    ServeConfig {
        model: ModelId(String::from("m")),
        access: Access::Open,
        max_model_len: TokenCount::from(64),
        defaults: Defaults { output_tokens: TokenCount::from(8), thinking_budget: ThinkingBudget::Unlimited },
        max_request: RequestBytes::new(1024).unwrap(),
        stats: StatsInterval::Off,
    }
}

#[test]
fn models_answer_for_the_served_id_only() {
    let found = model_lookup(&config(), &ModelId(String::from("m")), UnixSeconds(5)).unwrap();
    assert!(found.contains(r#""max_model_len":64"#), "the ceiling is reported: {found}");
    let missing = model_lookup(&config(), &ModelId(String::from("x")), UnixSeconds(5)).unwrap_err();
    assert_eq!((missing.status, missing.code.as_str(), missing.param.as_str()), (404, "model_not_found", ""));
    let refusal = too_large(RequestBytes::new(1024).unwrap());
    assert_eq!(refusal.status, 413);
    assert_eq!(refusal.message, "request body exceeds the configured payload limit of 1024 bytes");
}

#[test]
fn warm_up_neither_reads_nor_writes_the_prefix_cache() {
    let (prompt, directives, delivery) = warm_up_request(ThinkingBudget::Unlimited, Bits(3));
    assert_eq!(directives.output_tokens, TokenCount::from(4));
    assert_eq!(directives.prefix_reuse, PrefixReuse::Disabled);
    assert_eq!(delivery, Delivery::Aggregate);
    assert_eq!(prompt.messages[0].parts, ["hi"]);
    assert_eq!(directives.seed, 3);
}

#[test]
fn a_refused_key_is_answered_with_invalid_api_key() {
    let refusal = unauthorized();
    assert_eq!(refusal.status, 401);
    assert_eq!(refusal.message, "missing or invalid API key");
    assert_eq!(refusal.code, "invalid_api_key");
    assert!(refusal.param.is_empty());
}

#[test]
fn only_versioned_paths_carry_a_request_id() {
    assert!(versioned("/v1/chat/completions"));
    assert!(versioned("/v1/"));
    assert!(!versioned("/v1"));
    assert!(!versioned("/health"));
    assert!(!versioned("/v2/models"));
}

#[test]
fn request_ids_are_two_hex_groups() {
    assert_eq!(request_id(Bits(0xab), Bits(u64::MAX)), "req_00000000000000abffffffffffffffff");
    let fresh = fresh_request_id();
    assert_eq!(fresh.len(), 36, "req_ and thirty-two digits: {fresh}");
    assert!(fresh[4..].chars().all(|c| c.is_ascii_hexdigit()));
}

#[test]
fn lifecycle_lines_follow_ninfer() {
    assert_eq!(engine_start(), Record { severity: Severity::Info, message: String::from("starting engine") });
    assert_eq!(server_stopped().message, "server stopped");
    let stopped = reporting_stopped(&ChatFailure { kind: FailureKind::Unavailable, message: String::from("gone") });
    assert_eq!(stopped.severity, Severity::Warning);
    assert_eq!(stopped.message, "throughput reporting stopped | gone");
}

#[test]
fn quoting_escapes_as_serde_json_does() {
    assert_eq!(quote("a\"b\\c"), r#""a\"b\\c""#);
    assert_eq!(quote("\u{8}\t\n\u{c}\r"), r#""\b\t\n\f\r""#);
    assert_eq!(quote("\u{1}\u{1f}\u{7f}é"), "\"\\u0001\\u001f\u{7f}é\"");
}

#[test]
fn unix_seconds_are_whole_and_zero_before_the_epoch() {
    assert_eq!(unix_seconds_of(Some(core::time::Duration::from_millis(2_999))), UnixSeconds(2));
    assert_eq!(unix_seconds_of(Some(core::time::Duration::from_secs(1_700_000_000))), UnixSeconds(1_700_000_000));
    assert_eq!(unix_seconds_of(None), UnixSeconds(0));
}
