//! The server's flags that carry their own domains.
use vstd::prelude::*;
use crate::clock::duration_from_millis;
use crate::clock::duration_of_millis;
use crate::clock::nanos_of;
use crate::numeral::numeral_value;
use crate::numeral::parse_positive_u32;
use crate::numeral::parse_u32;
use crate::numeral::parse_usize;
use crate::numeral::spells_at_most;

verus! {

/// A positive token count: an output limit or a thinking budget; zero is
/// refused, as ninfer's server refuses it.
#[derive(Debug, Clone, Copy, PartialEq, Eq, Structural)]
pub struct OutputTokens(u32);

impl OutputTokens {
    #[verifier::type_invariant]
    spec fn positive(self) -> bool {
        self.0 > 0
    }

    /// The count as a number.
    pub closed spec fn view(self) -> nat {
        self.0 as nat
    }

    /// Parse a positive decimal token count.
    pub fn parse(text: &str) -> (r: Result<Self, core::num::ParseIntError>)
        ensures
            r is Ok <==> (spells_at_most(text@, u32::MAX as nat) && numeral_value(text@) != Some(
                0nat,
            )),
            r matches Ok(t) ==> numeral_value(text@) == Some(t.view()),
    {
        match parse_positive_u32(text) {
            Ok(count) => Ok(OutputTokens(count)),
            Err(failure) => Err(failure),
        }
    }

    /// The count, at least one.
    pub fn get(self) -> (r: u32)
        ensures
            r == self.view(),
            r > 0,
    {
        proof {
            use_type_invariant(&self);
        }
        self.0
    }
}

impl core::str::FromStr for OutputTokens {
    type Err = core::num::ParseIntError;

    /// As [`OutputTokens::parse`].
    fn from_str(text: &str) -> (r: Result<Self, Self::Err>)
        ensures
            r is Ok <==> (spells_at_most(text@, u32::MAX as nat) && numeral_value(text@) != Some(
                0nat,
            )),
            r matches Ok(t) ==> numeral_value(text@) == Some(t.view()),
    {
        OutputTokens::parse(text)
    }
}

/// How often the server logs throughput.
#[derive(Debug, Clone, Copy, PartialEq, Eq)]
pub enum StatsPeriod {
    /// Never.
    Off,
    /// At this period.
    Every(core::time::Duration),
}

impl StatsPeriod {
    /// Parse a non-negative decimal count of milliseconds: zero is `Off`, as
    /// ninfer's `--log-stats-interval-ms` reads it, and any other count that
    /// many milliseconds.
    pub fn parse(text: &str) -> (r: Result<Self, core::num::ParseIntError>)
        ensures
            r is Ok <==> spells_at_most(text@, u32::MAX as nat),
            numeral_value(text@) == Some(0nat) ==> r == Ok::<StatsPeriod, core::num::ParseIntError>(
                StatsPeriod::Off,
            ),
            r == Ok::<StatsPeriod, core::num::ParseIntError>(StatsPeriod::Off) ==> numeral_value(
                text@,
            ) == Some(0nat),
            r matches Ok(StatsPeriod::Every(period)) ==> exists|millis: u64|
                numeral_value(text@) == Some(millis as nat) && millis > 0 && period
                    == duration_of_millis(millis) && nanos_of(period) == millis as u128 * 1_000_000,
    {
        let milliseconds = match parse_u32(text) {
            Ok(count) => count,
            Err(failure) => return Err(failure),
        };
        if milliseconds == 0 {
            Ok(StatsPeriod::Off)
        } else {
            Ok(StatsPeriod::Every(duration_from_millis(milliseconds as u64)))
        }
    }
}

impl core::str::FromStr for StatsPeriod {
    type Err = core::num::ParseIntError;

    /// As [`StatsPeriod::parse`].
    fn from_str(text: &str) -> (r: Result<Self, Self::Err>)
        ensures
            r is Ok <==> spells_at_most(text@, u32::MAX as nat),
            numeral_value(text@) == Some(0nat) ==> r == Ok::<StatsPeriod, core::num::ParseIntError>(
                StatsPeriod::Off,
            ),
            r == Ok::<StatsPeriod, core::num::ParseIntError>(StatsPeriod::Off) ==> numeral_value(
                text@,
            ) == Some(0nat),
            r matches Ok(StatsPeriod::Every(period)) ==> exists|millis: u64|
                numeral_value(text@) == Some(millis as nat) && millis > 0 && period
                    == duration_of_millis(millis) && nanos_of(period) == millis as u128 * 1_000_000,
    {
        StatsPeriod::parse(text)
    }
}

/// A request-body cap in bytes: a positive whole number of MiB whose byte
/// count fits `usize`.
#[derive(Debug, Clone, Copy, PartialEq, Eq, Structural)]
pub struct RequestMib(usize);

/// A request-body cap that is zero, not a number, or too large to count in
/// bytes.
#[derive(Debug, Clone, Copy, PartialEq, Eq, Structural)]
pub struct RequestMibOutOfRange;

impl RequestMibOutOfRange {
    /// Render the refusal, in ninfer's words.
    pub fn render(&self) -> (r: &'static str)
        ensures
            r@ == "--max-request-mib is out of range"@,
    {
        "--max-request-mib is out of range"
    }
}

/// The bytes in one MiB.
pub const MIB: usize = 1048576;

impl RequestMib {
    #[verifier::type_invariant]
    spec fn positive(self) -> bool {
        self.0 > 0
    }

    /// The cap in bytes.
    pub closed spec fn view(self) -> nat {
        self.0 as nat
    }

    /// Parse a positive decimal count of MiB whose bytes fit `usize`; zero,
    /// a non-numeric string or a count whose bytes overflow is refused.
    pub fn parse(text: &str) -> (r: Result<Self, RequestMibOutOfRange>)
        ensures
            r is Ok <==> (exists|mib: nat|
                numeral_value(text@) == Some(mib) && mib > 0 && mib * MIB <= usize::MAX),
            r matches Ok(cap) ==> numeral_value(text@) == Some((cap.view() / MIB as nat) as nat)
                && cap.view() % MIB as nat == 0,
    {
        let mib = match parse_usize(text) {
            Ok(count) => count,
            Err(_) => {
                return Err(RequestMibOutOfRange);
            },
        };
        if mib == 0 {
            return Err(RequestMibOutOfRange);
        }
        match mib.checked_mul(MIB) {
            Some(bytes) => {
                assert(bytes as nat / MIB as nat == mib as nat) by (nonlinear_arith)
                    requires bytes == mib * MIB;
                assert(bytes as nat % MIB as nat == 0) by (nonlinear_arith)
                    requires bytes == mib * MIB;
                Ok(RequestMib(bytes))
            },
            None => Err(RequestMibOutOfRange),
        }
    }

    /// The cap in bytes, at least one MiB.
    pub fn bytes(self) -> (r: usize)
        ensures
            r == self.view(),
            r > 0,
    {
        proof {
            use_type_invariant(&self);
        }
        self.0
    }
}

impl core::str::FromStr for RequestMib {
    type Err = RequestMibOutOfRange;

    /// As [`RequestMib::parse`].
    fn from_str(text: &str) -> (r: Result<Self, Self::Err>)
        ensures
            r is Ok <==> (exists|mib: nat|
                numeral_value(text@) == Some(mib) && mib > 0 && mib * MIB <= usize::MAX),
            r matches Ok(cap) ==> numeral_value(text@) == Some((cap.view() / MIB as nat) as nat)
                && cap.view() % MIB as nat == 0,
    {
        RequestMib::parse(text)
    }
}

} // verus!
