use core::str::FromStr;

use infinitum::driver::generate::execute;
use infinitum::driver::generate::plan;
use infinitum::driver::generate::Completion;
use infinitum::driver::generate::RequestFailure;
use infinitum::driver::generate::TokenBudget;
use infinitum::driver::serve::OutputTokens;
use infinitum::driver::serve::RequestMib;
use infinitum::driver::serve::StatsPeriod;
use infinitum::ninfer::text::RenderedBytes;
use infinitum::round::fragment::DraftWidth;
use infinitum::round::plan::RefusalReason;
use infinitum::round::token::TokenId;

#[test]
fn a_completion_renders_ids_then_bytes() {
    let completion = Completion {
        prompt: [9707_i32, 11_i32].map(TokenId::from).to_vec(),
        generated: [1879_i32, 0_i32, 13_i32].map(TokenId::from).to_vec(),
        text: RenderedBytes::from(b"world\xe4".to_vec()),
    };
    assert_eq!(
        completion.render(),
        b"prompt ids: 9707 11\ngenerated ids: 1879 0 13\ngenerated text:\nworld\xe4\n",
        "ids are space-separated and the bytes pass through unchanged"
    );
}

#[test]
fn an_empty_generation_renders_empty_lines() {
    let completion = Completion {
        prompt: vec![TokenId::from(1_i32)],
        generated: Vec::new(),
        text: RenderedBytes::default(),
    };
    assert_eq!(
        completion.render(),
        b"prompt ids: 1\ngenerated ids:\ngenerated text:\n\n",
        "an empty list writes its label alone"
    );
}

#[test]
fn negative_ids_keep_their_sign() {
    let completion = Completion {
        prompt: vec![TokenId::from(-7_i32)],
        generated: vec![TokenId::from(i32::MIN)],
        text: RenderedBytes::default(),
    };
    assert_eq!(
        completion.render(),
        b"prompt ids: -7\ngenerated ids: -2147483648\ngenerated text:\n\n"
    );
}

#[test]
fn a_width_past_ninfers_range_is_refused_before_anything_opens() {
    let failed = plan(DraftWidth::from_str("16").unwrap());
    assert!(
        matches!(
            failed,
            Err(RequestFailure::Plan(ref refusal))
                if matches!(refusal.reason(), RefusalReason::UnsupportedWidth(_))
        ),
        "the refusal is the width: {failed:?}"
    );
}

#[test]
fn a_planned_request_needs_an_engine() {
    let planned = plan(DraftWidth::from_str("7").unwrap()).unwrap();
    let failure = execute(planned).unwrap_err();
    assert_eq!(
        failure.render(),
        "ninfer plans the DFlash2 round at draft width 7, but this build has no ninfer engine; rebuild with `--features ninfer`"
    );
}

#[test]
fn generation_budgets_refuse_zero() {
    assert!(TokenBudget::from_str("0").is_err());
    assert_eq!(TokenBudget::from_str("32").map(TokenBudget::get), Ok(32));
}

#[test]
fn serve_limits_refuse_zero() {
    assert!(OutputTokens::from_str("0").is_err());
    assert_eq!(OutputTokens::from_str("8192").map(OutputTokens::get), Ok(8192));
    assert!(RequestMib::from_str("0").is_err());
    assert_eq!(RequestMib::from_str("384").map(RequestMib::bytes), Ok(384 << 20));
    assert!(RequestMib::from_str("x").is_err());
    assert!(RequestMib::from_str(&usize::MAX.to_string()).is_err());
}

#[test]
fn stats_interval_zero_turns_reporting_off() {
    assert_eq!(StatsPeriod::from_str("0"), Ok(StatsPeriod::Off));
    assert_eq!(
        StatsPeriod::from_str("5000"),
        Ok(StatsPeriod::Every(core::time::Duration::from_millis(5000)))
    );
    assert!(StatsPeriod::from_str("-1").is_err());
}
