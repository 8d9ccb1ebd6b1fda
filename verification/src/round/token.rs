//! Token ids and token counts, the two quantities a round moves.
use vstd::prelude::*;

verus! {

/// A token id in the backend tokenizer's vocabulary, a signed 32-bit id.
#[derive(Debug, Clone, Copy, Default, PartialEq, Eq, Structural, PartialOrd, Ord, Hash)]
pub struct TokenId(pub i32);

impl TokenId {
    /// Wrap an id.
    pub fn from(id: i32) -> (r: Self)
        ensures
            r.0 == id,
    {
        TokenId(id)
    }

    /// Unwrap an id.
    pub fn get(self) -> (r: i32)
        ensures
            r == self.0,
    {
        self.0
    }
}

/// A number of tokens: licensed in a round, committed, or still allowed.
#[derive(Debug, Clone, Copy, Default, PartialEq, Eq, Structural, PartialOrd, Ord, Hash)]
pub struct TokenCount(pub u32);

/// A token count left its range.
#[derive(Debug, Clone, Copy, PartialEq, Eq, Structural)]
pub struct CountOverflow;

impl CountOverflow {
    /// The operator's rendering of the failure.
    pub fn render(&self) -> (r: String)
        ensures
            r@ == "a token count exceeds its 32-bit range"@,
    {
        String::from_str("a token count exceeds its 32-bit range")
    }
}

impl TokenCount {
    /// No tokens.
    pub fn zero() -> (r: Self)
        ensures
            r.0 == 0,
    {
        TokenCount(0)
    }

    /// Wrap a count.
    pub fn from(count: u32) -> (r: Self)
        ensures
            r.0 == count,
    {
        TokenCount(count)
    }

    /// Unwrap a count.
    pub fn get(self) -> (r: u32)
        ensures
            r == self.0,
    {
        self.0
    }

    /// The tokens in `tokens`: their number, or an overflow when the span is
    /// longer than a 32-bit count.
    pub fn of(tokens: &[TokenId]) -> (r: Result<Self, CountOverflow>)
        ensures
            tokens@.len() <= u32::MAX ==> r == Ok::<TokenCount, CountOverflow>(
                TokenCount(tokens@.len() as u32),
            ),
            tokens@.len() > u32::MAX ==> r == Err::<TokenCount, CountOverflow>(CountOverflow),
    {
        let length = tokens.len();
        if length <= 0xffff_ffffusize {
            Ok(TokenCount(length as u32))
        } else {
            Err(CountOverflow)
        }
    }

    /// The count plus `other`, or an overflow when the sum leaves 32 bits.
    pub fn checked_add(self, other: Self) -> (r: Result<Self, CountOverflow>)
        ensures
            self.0 + other.0 <= u32::MAX ==> r == Ok::<TokenCount, CountOverflow>(
                TokenCount((self.0 + other.0) as u32),
            ),
            self.0 + other.0 > u32::MAX ==> r == Err::<TokenCount, CountOverflow>(CountOverflow),
    {
        match self.0.checked_add(other.0) {
            Some(sum) => Ok(TokenCount(sum)),
            None => Err(CountOverflow),
        }
    }

    /// The count minus `other`, or zero where `other` is larger.
    pub fn saturating_sub(self, other: Self) -> (r: Self)
        ensures
            r.0 == (if self.0 >= other.0 { self.0 - other.0 } else { 0 }),
    {
        if self.0 >= other.0 {
            TokenCount(self.0 - other.0)
        } else {
            TokenCount(0)
        }
    }
}

} // verus!
