use core::str::FromStr;

use infinitum::facade::fill_next;
use infinitum::facade::opened;
use infinitum::facade::settle;
use infinitum::facade::ContextLimit;
use infinitum::facade::CudaGraph;
use infinitum::facade::DeviceOrdinal;
use infinitum::facade::Failure;
use infinitum::facade::Length;
use infinitum::facade::MessageBuffer;
use infinitum::facade::Next;
use infinitum::facade::NinferFailure;
use infinitum::facade::Operation;
use infinitum::facade::Outcome;
use infinitum::facade::RawStatus;
use infinitum::facade::Stage;
use infinitum::facade::TextArgument;
use infinitum::facade::TokenBudget;

#[test]
fn each_defined_status_is_classified() {
    let expected = [
        (0_i32, Outcome::Completed),
        (1_i32, Outcome::Failed(Failure::InvalidArgument)),
        (2_i32, Outcome::Failed(Failure::NotFound)),
        (3_i32, Outcome::Failed(Failure::BufferTooSmall)),
        (4_i32, Outcome::Failed(Failure::Runtime)),
        (5_i32, Outcome::Failed(Failure::Unknown)),
    ];
    for (value, outcome) in expected {
        assert_eq!(Outcome::of(RawStatus(value)), outcome, "status {value} is classified as the header defines it");
    }
}

#[test]
fn undefined_statuses_are_kept_as_unrecognized() {
    for value in [-1_i32, 6_i32] {
        assert_eq!(
            Outcome::of(RawStatus(value)),
            Outcome::Failed(Failure::Unrecognized(RawStatus(value))),
            "status {value} is unrecognized and carries its value"
        );
    }
    assert_eq!(Failure::Unrecognized(RawStatus(-1)).render(), "unrecognized status -1");
}

#[test]
fn a_terminated_message_stops_at_its_nul() {
    let mut buffer = MessageBuffer::new();
    buffer.0[..6].copy_from_slice(b"no gpu");
    buffer.0[7] = b'x';
    assert_eq!(buffer.message(), "no gpu", "the bytes after the NUL are ignored");
}

#[test]
fn an_unterminated_message_is_read_whole() {
    let buffer = MessageBuffer(b"abc".to_vec());
    assert_eq!(buffer.message(), "abc", "every byte is read");
}

#[test]
fn an_untouched_buffer_reads_as_empty() {
    assert_eq!(MessageBuffer::new().message(), "", "an untouched buffer is empty");
    assert_eq!(MessageBuffer::new().capacity(), Length(1024));
}

#[test]
fn a_zero_budget_is_refused() {
    assert!(TokenBudget::from_str("0").is_err(), "zero is refused");
}

#[test]
fn a_budget_of_one_is_admitted() {
    let budget = TokenBudget::from_str("1").unwrap();
    assert_eq!(budget.get(), 1, "one is kept");
    assert_eq!(budget.length(), Length(1));
}

#[test]
fn ninfer_a_zero_context_is_refused() {
    assert!(ContextLimit::from_str("0").is_err(), "zero is refused");
}

#[test]
fn ninfer_a_negative_device_is_refused() {
    assert!(DeviceOrdinal::from_str("-1").is_err(), "minus one is refused");
}

#[test]
fn device_zero_is_admitted() {
    assert_eq!(DeviceOrdinal::from_str("0").unwrap(), DeviceOrdinal(0), "zero is kept");
}

#[test]
fn cuda_graph_encodes_as_the_facade_flag() {
    assert_eq!(u8::from(CudaGraph::Off), 0, "off is zero");
    assert_eq!(u8::from(CudaGraph::On), 1, "on is one");
}

#[test]
fn a_nul_in_the_prompt_is_refused() {
    match infinitum::facade::c_string(TextArgument::Prompt, b"a\0b") {
        Err(NinferFailure::InteriorNul { argument }) => {
            assert_eq!(argument, TextArgument::Prompt, "the refusal names the prompt")
        },
        other => panic!("a NUL must be refused, got {other:?}"),
    }
    let passed = infinitum::facade::c_string(TextArgument::Prompt, b"ab").unwrap();
    assert_eq!(passed, b"ab\0", "NUL-free text gains one NUL");
}

#[test]
fn an_output_that_fits_is_returned_whole() {
    let message = MessageBuffer::new();
    let attempt = settle(Operation::Tokenize, Length(4), RawStatus(0), Length(2), b"hi\0\0".to_vec(), &message).unwrap();
    match fill_next(Operation::Tokenize, Stage::First, Length(4), attempt).unwrap() {
        Next::Done(output) => assert_eq!(output, b"hi", "exactly the reported elements are returned"),
        Next::Offer(_) => panic!("a fitting output takes one call"),
    }
}

#[test]
fn a_short_offer_is_retried_with_the_requested_length() {
    let message = MessageBuffer::new();
    let first = settle::<u8>(Operation::Detokenize, Length(0), RawStatus(3), Length(3), Vec::new(), &message).unwrap();
    let offer = match fill_next(Operation::Detokenize, Stage::First, Length(0), first).unwrap() {
        Next::Offer(offer) => offer,
        Next::Done(_) => panic!("a short offer is retried"),
    };
    assert_eq!(offer, Length(3), "the retry offers exactly the requested length");
    let second = settle(Operation::Detokenize, offer, RawStatus(0), Length(3), b"abc".to_vec(), &message).unwrap();
    match fill_next(Operation::Detokenize, Stage::Second, offer, second).unwrap() {
        Next::Done(output) => assert_eq!(output, b"abc", "the second attempt's output is returned"),
        Next::Offer(_) => panic!("the second offer is the last"),
    }
}

#[test]
fn a_second_refusal_is_unsettled() {
    let message = MessageBuffer::new();
    let second = settle::<u8>(Operation::Generate, Length(2), RawStatus(3), Length(3), vec![0, 0], &message).unwrap();
    match fill_next(Operation::Generate, Stage::Second, Length(2), second) {
        Err(NinferFailure::UnsettledLength { operation, offered, requested }) => {
            assert_eq!(operation, Operation::Generate, "the entry point is named");
            assert_eq!(offered, Length(2), "the second offer is the first request");
            assert_eq!(requested, Length(3), "the second request is kept");
        },
        other => panic!("a second refusal must be unsettled, got {other:?}"),
    }
}

#[test]
fn a_failure_status_carries_the_message() {
    let mut message = MessageBuffer::new();
    message.0[..4].copy_from_slice(b"bad!");
    match settle::<u8>(Operation::Tokenize, Length(1), RawStatus(1), Length(0), vec![0], &message) {
        Err(NinferFailure::Status { operation, failure, message }) => {
            assert_eq!(operation, Operation::Tokenize, "the entry point is named");
            assert_eq!(failure, Failure::InvalidArgument, "the status is kept");
            assert_eq!(message, "bad!", "the facade's message is kept");
        },
        other => panic!("a failure status must be reported, got {other:?}"),
    }
}

#[test]
fn success_beyond_capacity_is_refused() {
    let message = MessageBuffer::new();
    match settle::<u8>(Operation::Tokenize, Length(2), RawStatus(0), Length(3), vec![0, 0], &message) {
        Err(NinferFailure::LengthBeyondCapacity { capacity, reported, .. }) => {
            assert_eq!(capacity, Length(2), "the offered capacity is kept");
            assert_eq!(reported, Length(3), "the impossible length is kept");
        },
        other => panic!("an impossible length must be refused, got {other:?}"),
    }
}

#[test]
fn a_status_failure_names_the_entry_point_and_message() {
    let failure = NinferFailure::Status {
        operation: Operation::Open,
        failure: Failure::Runtime,
        message: String::from("no device"),
    };
    assert_eq!(
        failure.render(),
        "ninfer_engine_open failed with NINFER_RUNTIME_ERROR: no device",
        "the rendering names what failed and why"
    );
    let silent = NinferFailure::Status {
        operation: Operation::Detokenize,
        failure: Failure::NotFound,
        message: String::new(),
    };
    assert_eq!(silent.render(), "ninfer_detokenize failed with NINFER_NOT_FOUND");
    let unsettled = NinferFailure::UnsettledLength {
        operation: Operation::Generate,
        offered: Length(2),
        requested: Length(3),
    };
    assert_eq!(
        unsettled.render(),
        "ninfer_generate_greedy asked for 3 elements after being offered the 2 it asked for"
    );
}

#[test]
fn ids_and_lengths_render_in_decimal() {
    assert_eq!(infinitum::facade::TokenId::from(-42).render(), "-42");
    assert_eq!(Length(1024).render(), "1024");
    assert_eq!(Operation::Tokenize.render(), "ninfer_tokenize");
    assert_eq!(infinitum::facade::close_symbol().render(), "ninfer_engine_close");
}

#[test]
fn an_open_settles_on_status_then_handle() {
    let mut buffer = MessageBuffer::new();
    buffer.0[..7].copy_from_slice(b"no file");
    match opened(RawStatus(2), false, &buffer) {
        Err(NinferFailure::Status { operation, failure, message }) => {
            assert_eq!((operation, failure, message.as_str()), (Operation::Open, Failure::NotFound, "no file"));
        }
        other => panic!("a failure status is the failure: {other:?}"),
    }
    match opened(RawStatus(0), false, &MessageBuffer::new()) {
        Err(NinferFailure::Status { failure, message, .. }) => {
            assert_eq!(failure, Failure::Unknown);
            assert_eq!(message, "reported success without producing a handle");
        }
        other => panic!("a success without a handle is unknown: {other:?}"),
    }
    assert!(opened(RawStatus(0), true, &MessageBuffer::new()).is_ok());
}
