//! ninfer's integral operational number formats, so a log line reads the same
//! from either server, and the decimal spelling every rendering shares.
use vstd::prelude::*;
use vstd::string::*;

verus! {

/// std's `String::push`: `c` is appended to `text`.
#[verifier::external_body]
pub fn push_char(text: &mut String, c: char)
    ensures
        final(text)@ == old(text)@.push(c),
{
    text.push(c);
}

/// The ASCII digit for `d`, which is below ten.
pub open spec fn digit_char(d: nat) -> char {
    (48 + d) as char
}

/// The decimal digits of `n`, most significant first, without leading zeros.
pub open spec fn decimal_digits(n: nat) -> Seq<char>
    decreases n,
{
    if n < 10 {
        seq![digit_char(n)]
    } else {
        decimal_digits(n / 10).push(digit_char(n % 10))
    }
}

/// The three digits of `n`, which is below a thousand, zero-padded.
pub open spec fn three_digits(n: nat) -> Seq<char> {
    seq![digit_char(n / 100), digit_char((n / 10) % 10), digit_char(n % 10)]
}

/// `n` with a comma before every group of three digits counted from the right.
pub open spec fn grouped_digits(n: nat) -> Seq<char>
    decreases n,
{
    if n < 1000 {
        decimal_digits(n)
    } else {
        grouped_digits(n / 1000) + seq![','] + three_digits(n % 1000)
    }
}

/// The character a log line shows for `c`: a space for a newline, carriage
/// return or tab, `?` for any other C0 control or DEL, else `c` itself.
pub open spec fn shown_char(c: char) -> char {
    if c == '\n' || c == '\r' || c == '\t' {
        ' '
    } else if (c as u32) <= 0x1f || (c as u32) == 0x7f {
        '?'
    } else {
        c
    }
}

/// `text` made safe for one log line.
pub open spec fn shown_text(text: Seq<char>) -> Seq<char> {
    text.map_values(|c: char| shown_char(c))
}

fn digit(d: u64) -> (c: char)
    requires
        d < 10,
    ensures
        c == digit_char(d as nat),
{
    let code: u8 = 48u8 + d as u8;
    code as char
}

/// Append the decimal digits of `n` to `out`.
pub fn decimal_into(out: &mut String, n: u64)
    ensures
        final(out)@ == old(out)@ + decimal_digits(n as nat),
    decreases n,
{
    if n >= 10 {
        decimal_into(out, n / 10);
        push_char(out, digit(n % 10));
        proof {
            assert(decimal_digits(n as nat) == decimal_digits((n / 10) as nat).push(
                digit_char((n % 10) as nat),
            ));
        }
    } else {
        push_char(out, digit(n));
    }
}

/// The decimal digits of `n`.
pub fn decimal(n: u64) -> (r: String)
    ensures
        r@ == decimal_digits(n as nat),
{
    let mut out = String::new();
    decimal_into(&mut out, n);
    out
}

/// The decimal digits of `n`, with a `-` before a negative value.
pub open spec fn signed_digits(n: int) -> Seq<char> {
    if n < 0 {
        seq!['-'] + decimal_digits((-n) as nat)
    } else {
        decimal_digits(n as nat)
    }
}

/// Append the signed decimal digits of `n` to `out`.
pub fn signed_decimal_into(out: &mut String, n: i64)
    ensures
        final(out)@ == old(out)@ + signed_digits(n as int),
{
    if n < 0 {
        push_char(out, '-');
        let magnitude: u64 = if n == i64::MIN {
            9223372036854775808u64
        } else {
            (-n) as u64
        };
        decimal_into(out, magnitude);
        assert(old(out)@.push('-') + decimal_digits(magnitude as nat) == old(out)@ + (seq!['-']
            + decimal_digits(magnitude as nat)));
    } else {
        decimal_into(out, n as u64);
    }
}

/// Append `n` with thousands separators to `out`.
pub fn grouped_into(out: &mut String, n: u64)
    ensures
        final(out)@ == old(out)@ + grouped_digits(n as nat),
    decreases n,
{
    if n >= 1000 {
        grouped_into(out, n / 1000);
        let rest = n % 1000;
        push_char(out, ',');
        push_char(out, digit(rest / 100));
        push_char(out, digit((rest / 10) % 10));
        push_char(out, digit(rest % 10));
    } else {
        decimal_into(out, n);
    }
}

/// A count with thousands separators: `1,234,567`.
#[derive(Debug, Clone, Copy, PartialEq, Eq, Structural)]
pub struct Count(pub u64);

impl Count {
    /// The count's decimal digits, with `,` before each group of three counted
    /// from the right.
    pub fn render(&self) -> (r: String)
        ensures
            r@ == grouped_digits(self.0 as nat),
    {
        let mut out = String::new();
        grouped_into(&mut out, self.0);
        out
    }
}

/// A byte size in binary units: `512 B`, `1.50 KiB`, `36.0 GiB`.
#[derive(Debug, Clone, Copy, PartialEq, Eq, Structural)]
pub struct Bytes(pub u64);

impl Bytes {
    /// The size under a KiB: the exact count and ` B`. A larger size is shown
    /// in the largest binary unit it reaches, scaled as a double, which the
    /// library leaves to its caller: none here.
    pub fn exact(&self) -> (r: Option<String>)
        ensures
            self.0 < 1024 ==> (r matches Some(text) && text@ == decimal_digits(self.0 as nat)
                + " B"@),
            self.0 >= 1024 ==> r is None,
    {
        if self.0 < 1024 {
            let mut out = String::new();
            decimal_into(&mut out, self.0);
            out.append(" B");
            Some(out)
        } else {
            None
        }
    }
}

/// The character a log line shows for `c`.
pub fn shown(c: char) -> (r: char)
    ensures
        r == shown_char(c),
{
    if c == '\n' || c == '\r' || c == '\t' {
        ' '
    } else if (c as u32) <= 0x1f || (c as u32) == 0x7f {
        '?'
    } else {
        c
    }
}

/// Append `text` made safe for one log line to `out`.
pub fn shown_into(out: &mut String, text: &str)
    ensures
        final(out)@ == old(out)@ + shown_text(text@),
{
    let length = text.unicode_len();
    let ghost start = out@;
    let mut i: usize = 0;
    while i < length
        invariant
            length == text@.len(),
            i <= length,
            out@ == start + shown_text(text@.subrange(0, i as int)),
        decreases length - i,
    {
        let c = text.get_char(i);
        push_char(out, shown(c));
        proof {
            assert(text@.subrange(0, i + 1) == text@.subrange(0, i as int).push(c));
            assert(shown_text(text@.subrange(0, i + 1)) == shown_text(
                text@.subrange(0, i as int),
            ).push(shown_char(c)));
        }
        i = i + 1;
    }
    proof {
        assert(text@.subrange(0, length as int) == text@);
    }
}

/// Text made safe for one log line: newlines, carriage returns and tabs
/// become spaces and other control characters `?`.
#[derive(Debug, Clone, Copy, PartialEq, Eq)]
pub struct Text<'text>(pub &'text str);

impl<'text> Text<'text> {
    /// The text with its control characters replaced.
    pub fn render(&self) -> (r: String)
        ensures
            r@ == shown_text(self.0@),
    {
        let mut out = String::new();
        shown_into(&mut out, self.0);
        out
    }
}

} // verus!
