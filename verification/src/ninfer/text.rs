//! Text across the Engine: the raw text a prompt is encoded from, and the
//! bytes generated ids render as.
use vstd::prelude::*;

verus! {

/// Text encoded as given: no chat template and no special token is added.
#[derive(Debug, Clone, Copy, PartialEq, Eq)]
pub struct RawText<'text>(&'text str);

impl<'text> View for RawText<'text> {
    type V = Seq<char>;

    closed spec fn view(&self) -> Seq<char> {
        self.0@
    }
}

impl<'text> RawText<'text> {
    /// The text.
    pub fn as_str(&self) -> (r: &'text str)
        ensures
            r@ == self@,
    {
        self.0
    }
}

impl<'text> From<&'text str> for RawText<'text> {
    fn from(text: &'text str) -> (r: Self) {
        RawText(text)
    }
}

impl<'text> vstd::std_specs::convert::FromSpecImpl<&'text str> for RawText<'text> {
    open spec fn obeys_from_spec() -> bool {
        true
    }

    closed spec fn from_spec(text: &'text str) -> Self {
        RawText(text)
    }
}

impl<'text> AsRef<str> for RawText<'text> {
    /// The text.
    fn as_ref(&self) -> (r: &str)
        ensures
            r@ == self@,
    {
        self.0
    }
}

/// Bytes rendered from token ids: exactly what the ids encode, not UTF-8
/// validated, since a generation budget can end inside a multi-byte
/// character.
#[derive(Debug, Clone, PartialEq, Eq)]
pub struct RenderedBytes(Vec<u8>);

impl View for RenderedBytes {
    type V = Seq<u8>;

    closed spec fn view(&self) -> Seq<u8> {
        self.0@
    }
}

impl RenderedBytes {
    /// The bytes.
    pub fn as_bytes(&self) -> (r: &[u8])
        ensures
            r@ == self@,
    {
        self.0.as_slice()
    }
}

impl Default for RenderedBytes {
    fn default() -> (r: Self)
        ensures
            r@ == Seq::<u8>::empty(),
    {
        RenderedBytes(Vec::new())
    }
}

impl From<Vec<u8>> for RenderedBytes {
    fn from(bytes: Vec<u8>) -> (r: Self) {
        RenderedBytes(bytes)
    }
}

impl vstd::std_specs::convert::FromSpecImpl<Vec<u8>> for RenderedBytes {
    open spec fn obeys_from_spec() -> bool {
        true
    }

    closed spec fn from_spec(bytes: Vec<u8>) -> Self {
        RenderedBytes(bytes)
    }
}

impl AsRef<[u8]> for RenderedBytes {
    /// The bytes.
    fn as_ref(&self) -> (r: &[u8])
        ensures
            r@ == self@,
    {
        self.0.as_slice()
    }
}

} // verus!
