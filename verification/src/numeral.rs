//! Decimal numerals as the command line spells counts: an optional `+` and
//! at least one ASCII digit, read by std's integer parsers.
use vstd::prelude::*;

verus! {

#[verifier::external_type_specification]
#[verifier::external_body]
pub struct ExParseIntError(core::num::ParseIntError);

/// Whether every character of `s` is an ASCII digit.
pub open spec fn all_digits(s: Seq<char>) -> bool {
    forall|i: int| 0 <= i < s.len() ==> '0' <= #[trigger] s[i] <= '9'
}

/// The value of a run of ASCII digits, most significant first.
pub open spec fn digits_value(s: Seq<char>) -> nat
    decreases s.len(),
{
    if s.len() == 0 {
        0
    } else {
        digits_value(s.drop_last()) * 10 + ((s.last() as nat) - ('0' as nat)) as nat
    }
}

/// The digits of a numeral: the text after an optional leading `+`.
pub open spec fn numeral_digits(s: Seq<char>) -> Seq<char> {
    if s.len() > 0 && s[0] == '+' {
        s.drop_first()
    } else {
        s
    }
}

/// The value a decimal numeral spells, when it spells one: an optional `+`
/// then one or more ASCII digits, and nothing else.
pub open spec fn numeral_value(s: Seq<char>) -> Option<nat> {
    let digits = numeral_digits(s);
    if digits.len() > 0 && all_digits(digits) {
        Some(digits_value(digits))
    } else {
        None
    }
}

/// Whether `s` spells an unsigned value of at most `max`.
pub open spec fn spells_at_most(s: Seq<char>, max: nat) -> bool {
    numeral_value(s) matches Some(v) && v <= max
}

/// std's `str::parse::<u32>`: the value when the text is an optional `+`
/// followed by only ASCII digits whose value fits 32 bits, else its error.
#[verifier::external_body]
pub fn parse_u32(text: &str) -> (r: Result<u32, core::num::ParseIntError>)
    ensures
        r is Ok <==> spells_at_most(text@, u32::MAX as nat),
        r matches Ok(v) ==> numeral_value(text@) == Some(v as nat),
{
    text.parse::<u32>()
}

/// std's `str::parse::<NonZeroU32>`: as `parse_u32`, and zero is an error
/// too; the result is the parsed value.
#[verifier::external_body]
pub fn parse_positive_u32(text: &str) -> (r: Result<u32, core::num::ParseIntError>)
    ensures
        r is Ok <==> (spells_at_most(text@, u32::MAX as nat) && numeral_value(text@) != Some(
            0nat,
        )),
        r matches Ok(v) ==> numeral_value(text@) == Some(v as nat) && v > 0,
{
    match text.parse::<core::num::NonZeroU32>() {
        Ok(value) => Ok(value.get()),
        Err(failure) => Err(failure),
    }
}

/// std's `str::parse::<u16>`: the value when the text is an optional `+`
/// followed by only ASCII digits whose value fits 16 bits, else its error.
#[verifier::external_body]
pub fn parse_u16(text: &str) -> (r: Result<u16, core::num::ParseIntError>)
    ensures
        r is Ok <==> spells_at_most(text@, u16::MAX as nat),
        r matches Ok(v) ==> numeral_value(text@) == Some(v as nat),
{
    text.parse::<u16>()
}

/// std's `str::parse::<usize>`: the value when the text is an optional `+`
/// followed by only ASCII digits whose value fits `usize`, else its error.
#[verifier::external_body]
pub fn parse_usize(text: &str) -> (r: Result<usize, core::num::ParseIntError>)
    ensures
        r is Ok <==> spells_at_most(text@, usize::MAX as nat),
        r matches Ok(v) ==> numeral_value(text@) == Some(v as nat),
{
    text.parse::<usize>()
}

/// A count of at least one.
#[derive(Debug, Clone, Copy, PartialEq, Eq, Structural, PartialOrd, Ord, Hash)]
pub struct Positive(u32);

impl Positive {
    #[verifier::type_invariant]
    spec fn positive(self) -> bool {
        self.0 > 0
    }

    /// The count as a number.
    pub closed spec fn view(self) -> nat {
        self.0 as nat
    }

    /// Two counts of one value are one count.
    pub proof fn lemma_view_injective(a: Positive, b: Positive)
        ensures
            a.view() == b.view() <==> a == b,
    {
    }

    /// The count `count`, when it is at least one.
    pub fn new(count: u32) -> (r: Option<Self>)
        ensures
            r is Some <==> count > 0,
            r matches Some(p) ==> p.view() == count,
    {
        if count > 0 {
            Some(Positive(count))
        } else {
            None
        }
    }

    /// The count as a number, at least one.
    pub fn get(self) -> (r: u32)
        ensures
            r == self.view(),
            r > 0,
    {
        proof {
            use_type_invariant(&self);
        }
        self.0
    }
}

} // verus!
