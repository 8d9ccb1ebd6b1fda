//! One greedy request through infinitum's DFlash2 round on ninfer: its
//! arguments, the planning check it passes before anything opens, and the
//! rendering of its completion. Greedy generation is deterministic, so the
//! ids lines of two runs of one request are the oracle an implementation of
//! the same model is compared against.
use vstd::prelude::*;
use crate::letters::chars_of;
use crate::ninfer::plan::DFlash2Plan;
use crate::ninfer::plan::Ninfer;
use crate::ninfer::text::RenderedBytes;
use crate::numeral::numeral_value;
use crate::numeral::parse_positive_u32;
use crate::numeral::spells_at_most;
use crate::pretty::decimal_digits;
use crate::pretty::signed_decimal_into;
use crate::pretty::signed_digits;
use crate::round::component::dflash2;
use crate::round::fragment::DraftWidth;
use crate::round::graph::build_failure_text;
use crate::round::graph::BuildFailure;
use crate::round::plan::refusal_text;
use crate::round::plan::Backend;
use crate::round::plan::Refusal;
use crate::report::io_error_text;
use crate::round::token::TokenId;

verus! {

/// The positive number of tokens a greedy generation may produce.
#[derive(Debug, Clone, Copy, PartialEq, Eq, Structural)]
pub struct TokenBudget(u32);

impl TokenBudget {
    #[verifier::type_invariant]
    spec fn positive(self) -> bool {
        self.0 > 0
    }

    /// The budget as a number.
    pub closed spec fn view(self) -> nat {
        self.0 as nat
    }

    /// Parse a positive decimal token count.
    pub fn parse(text: &str) -> (r: Result<Self, core::num::ParseIntError>)
        ensures
            r is Ok <==> (spells_at_most(text@, u32::MAX as nat) && numeral_value(text@) != Some(
                0nat,
            )),
            r matches Ok(b) ==> numeral_value(text@) == Some(b.view()),
    {
        match parse_positive_u32(text) {
            Ok(count) => Ok(TokenBudget(count)),
            Err(failure) => Err(failure),
        }
    }

    /// The budget, at least one.
    pub fn get(self) -> (r: u32)
        ensures
            r == self.view(),
            r > 0,
    {
        proof {
            use_type_invariant(&self);
        }
        self.0
    }
}

impl core::str::FromStr for TokenBudget {
    type Err = core::num::ParseIntError;

    /// As [`TokenBudget::parse`].
    fn from_str(text: &str) -> (r: Result<Self, Self::Err>)
        ensures
            r is Ok <==> (spells_at_most(text@, u32::MAX as nat) && numeral_value(text@) != Some(
                0nat,
            )),
            r matches Ok(b) ==> numeral_value(text@) == Some(b.view()),
    {
        TokenBudget::parse(text)
    }
}

/// Prompt text, encoded as raw text: no chat template and no special token
/// is added.
#[derive(Debug, Clone, PartialEq, Eq)]
pub struct Prompt(pub String);

impl Prompt {
    /// Take the text as given.
    pub fn new(text: &str) -> (r: Self)
        ensures
            r.0@ == text@,
    {
        Prompt(String::from_str(text))
    }
}

/// A failure of a request before any output is written.
#[derive(Debug)]
pub enum RequestFailure {
    /// The DFlash2 round could not be composed.
    Compose(BuildFailure),
    /// ninfer refused the round.
    Plan(Refusal),
    /// This build has no ninfer Engine.
    NoEngine(DFlash2Plan),
    /// Writing the result failed.
    Output(std::io::Error),
}

/// The operator's reading of a failure, for the failures the library
/// states; an output failure is the writer's own.
pub open spec fn request_failure_text(failure: RequestFailure) -> Seq<char> {
    match failure {
        RequestFailure::Compose(build) => "cannot compose the DFlash2 round: "@
            + build_failure_text(build),
        RequestFailure::Plan(refusal) => refusal_text(refusal.spec_backend(), refusal.spec_reason()),
        RequestFailure::NoEngine(plan) => "ninfer plans the DFlash2 round at draft width "@
            + decimal_digits(plan.spec_width().view())
            + ", but this build has no ninfer engine; rebuild with `--features ninfer`"@,
        RequestFailure::Output(_) => "cannot write the result: "@,
    }
}

impl RequestFailure {
    /// Render the failure through its own rendering.
    pub fn render(&self) -> (r: String)
        ensures
            !(self is Output) ==> r@ == request_failure_text(*self),
            self is Output ==> request_failure_text(*self).is_prefix_of(r@),
    {
        match self {
            RequestFailure::Compose(failure) => {
                let mut out = String::from_str("cannot compose the DFlash2 round: ");
                let failure_text = failure.render();
                out.append(failure_text.as_str());
                out
            },
            RequestFailure::Plan(refusal) => refusal.render(),
            RequestFailure::NoEngine(plan) => {
                let mut out = String::from_str("ninfer plans the DFlash2 round at draft width ");
                let width_text = plan.width().render();
                out.append(width_text.as_str());
                out.append(", but this build has no ninfer engine; rebuild with `--features ninfer`");
                out
            },
            RequestFailure::Output(failure) => {
                let mut out = String::from_str("cannot write the result: ");
                let ghost stated = out@;
                let cause = io_error_text(failure);
                out.append(cause.as_str());
                assert(out@.take(stated.len() as int) == stated);
                out
            },
        }
    }
}

/// Plan the request's round on ninfer: the canonical DFlash2 round at the
/// request's draft width, refused before anything opens when ninfer cannot
/// run it.
pub fn plan(draft_width: DraftWidth) -> (r: Result<DFlash2Plan, RequestFailure>)
    ensures
        draft_width.view() <= 15 ==> (r matches Ok(plan) && plan.spec_width() == draft_width),
        draft_width.view() > 15 ==> (r matches Err(RequestFailure::Plan(refusal))
            && refusal.spec_reason() == crate::round::plan::RefusalReason::UnsupportedWidth(
            draft_width,
        )),
{
    let graph = match dflash2(draft_width) {
        Ok(graph) => graph,
        Err(failure) => return Err(RequestFailure::Compose(failure)),
    };
    let answer = Ninfer.plan(&graph);
    proof {
        crate::ninfer::plan::law_canonical_rounds_plan(draft_width, answer);
    }
    match answer {
        Ok(plan) => Ok(plan),
        Err(refusal) => Err(RequestFailure::Plan(refusal)),
    }
}

/// Without an Engine, a planned request goes no further and nothing is
/// written.
pub fn execute(plan: DFlash2Plan) -> (r: Result<(), RequestFailure>)
    ensures
        r matches Err(RequestFailure::NoEngine(p)) && p == plan,
{
    Err(RequestFailure::NoEngine(plan))
}

/// The bytes of ASCII text.
pub open spec fn ascii_bytes(text: Seq<char>) -> Seq<u8> {
    text.map_values(|c: char| c as u8)
}

/// Each id preceded by one space, in order.
pub open spec fn spaced_ids(ids: Seq<TokenId>) -> Seq<char>
    decreases ids.len(),
{
    if ids.len() == 0 {
        Seq::empty()
    } else {
        spaced_ids(ids.drop_last()) + seq![' '] + signed_digits(ids.last().0 as int)
    }
}

/// One line of ids after a label: the label, a colon, each id preceded by
/// one space, and a newline; an empty list writes the label and colon alone.
pub open spec fn ids_line(label: Seq<char>, ids: Seq<TokenId>) -> Seq<u8> {
    ascii_bytes(label + ":"@ + spaced_ids(ids) + "\n"@)
}

/// A finished request: the prompt's ids, the generated ids, and the bytes the
/// generated ids render as.
#[derive(Debug, Clone, PartialEq, Eq)]
pub struct Completion {
    /// The tokenizer's encoding of the prompt.
    pub prompt: Vec<TokenId>,
    /// The greedy continuation.
    pub generated: Vec<TokenId>,
    /// The generated ids rendered as bytes.
    pub text: RenderedBytes,
}

/// The driver's output for a completion: the prompt ids line, the generated
/// ids line, a `generated text:` line, the rendered bytes unchanged, and a
/// newline.
pub open spec fn completion_bytes(completion: Completion) -> Seq<u8> {
    ids_line("prompt ids"@, completion.prompt@) + ids_line("generated ids"@, completion.generated@)
        + ascii_bytes("generated text:\n"@) + completion.text@ + ascii_bytes("\n"@)
}

/// Append the bytes of ASCII `text`.
fn push_ascii(out: &mut Vec<u8>, text: &str)
    ensures
        final(out)@ == old(out)@ + ascii_bytes(text@),
{
    let chars = chars_of(text);
    let ghost start = out@;
    let mut i: usize = 0;
    while i < chars.len()
        invariant
            i <= chars@.len(),
            chars@ == text@,
            out@ == start + ascii_bytes(text@.take(i as int)),
        decreases chars@.len() - i,
    {
        out.push(chars[i] as u8);
        i = i + 1;
        assert(text@.take(i as int) == text@.take((i - 1) as int).push(text@[i - 1]));
        assert(ascii_bytes(text@.take(i as int)) == ascii_bytes(text@.take((i - 1) as int)).push(
            text@[i - 1] as u8,
        ));
    }
    assert(text@.take(i as int) == text@);
}

/// Append one line of ids after a label.
fn push_ids_line(out: &mut Vec<u8>, label: &str, ids: &[TokenId])
    ensures
        final(out)@ == old(out)@ + ids_line(label@, ids@),
{
    let mut line = String::from_str(label);
    line.append(":");
    let ghost head = line@;
    let mut i: usize = 0;
    while i < ids.len()
        invariant
            i <= ids@.len(),
            line@ == head + spaced_ids(ids@.take(i as int)),
        decreases ids@.len() - i,
    {
        let ghost before = line@;
        line.append(" ");
        signed_decimal_into(&mut line, ids[i].0 as i64);
        i = i + 1;
        assert(ids@.take(i as int).drop_last() == ids@.take((i - 1) as int));
        assert(ids@.take(i as int).last() == ids@[i - 1]);
        assert(spaced_ids(ids@.take(i as int)) == spaced_ids(ids@.take((i - 1) as int)) + seq![' ']
            + signed_digits(ids@[i - 1].0 as int));
        assert(line@ == before + " "@ + signed_digits(ids@[i - 1].0 as int));
        assert(" "@ == seq![' ']) by {
            reveal_strlit(" ");
        }
    }
    assert(ids@.take(i as int) == ids@);
    line.append("\n");
    push_ascii(out, line.as_str());
}

impl Completion {
    /// The completion's output: the ids lines, byte-comparable between runs,
    /// then the bytes unchanged, so a multi-byte character a budget cut short
    /// arrives as the bytes it is.
    pub fn render(&self) -> (r: Vec<u8>)
        ensures
            r@ == completion_bytes(*self),
    {
        let mut out: Vec<u8> = Vec::new();
        push_ids_line(&mut out, "prompt ids", self.prompt.as_slice());
        push_ids_line(&mut out, "generated ids", self.generated.as_slice());
        push_ascii(&mut out, "generated text:\n");
        let bytes = self.text.as_bytes();
        let ghost before = out@;
        let mut i: usize = 0;
        while i < bytes.len()
            invariant
                i <= bytes@.len(),
                out@ == before + bytes@.take(i as int),
            decreases bytes@.len() - i,
        {
            out.push(bytes[i]);
            i = i + 1;
            assert(bytes@.take(i as int) == bytes@.take((i - 1) as int).push(bytes@[i - 1]));
        }
        assert(bytes@.take(i as int) == bytes@);
        push_ascii(&mut out, "\n");
        out
    }
}

} // verus!
