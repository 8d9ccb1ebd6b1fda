//! The ninfer C facade's vocabulary, as the driver reaches it through a
//! shared library loaded at run time: the argument domains, the status word,
//! the failure a call reports and its rendering, the message buffer, and the
//! two-offer sizing protocol of every array-producing entry point.
//!
//! Loading the library and calling through its function pointers stays with
//! the program; everything it decides about what comes back is here.
use vstd::prelude::*;
use crate::letters::lossy_text;
use crate::letters::text_of_bytes;
use crate::numeral::numeral_value;
use crate::numeral::parse_positive_u32;
use crate::numeral::parse_u16;
use crate::numeral::spells_at_most;
use crate::pretty::decimal;
use crate::pretty::decimal_digits;
use crate::pretty::signed_decimal_into;
use crate::pretty::signed_digits;
use vstd::utf8::decode_utf8;
use vstd::utf8::valid_utf8;

verus! {

/// The platform loader's report of a failure to load a library or resolve a
/// symbol.
#[verifier::external_type_specification]
#[verifier::external_body]
pub struct ExLoaderError(libloading::Error);

/// Capacity of the buffer each call offers for the facade's failure message.
/// A longer message arrives truncated and still NUL-terminated.
pub const MESSAGE_CAPACITY: usize = 1024;

/// A token id in the artifact tokenizer's vocabulary, laid out as the
/// facade's `int32_t`.
#[derive(Debug, Clone, Copy, Default, PartialEq, Eq, Structural, PartialOrd, Ord, Hash)]
pub struct TokenId(pub i32);

impl TokenId {
    /// Wrap an id.
    pub fn from(id: i32) -> (r: Self)
        ensures
            r.0 == id,
    {
        TokenId(id)
    }

    /// Render the id as its decimal value.
    pub fn render(&self) -> (r: String)
        ensures
            r@ == signed_digits(self.0 as int),
    {
        let mut out = String::new();
        signed_decimal_into(&mut out, self.0 as i64);
        out
    }
}

/// A count or capacity, laid out as the facade's `size_t`.
#[derive(Debug, Clone, Copy, Default, PartialEq, Eq, Structural, PartialOrd, Ord)]
pub struct Length(pub usize);

impl Length {
    /// Wrap a count.
    pub fn from(count: usize) -> (r: Self)
        ensures
            r.0 == count,
    {
        Length(count)
    }

    /// Unwrap a count.
    pub fn get(self) -> (r: usize)
        ensures
            r == self.0,
    {
        self.0
    }

    /// Render the count as its decimal value.
    pub fn render(&self) -> (r: String)
        ensures
            r@ == decimal_digits(self.0 as nat),
    {
        decimal(self.0 as u64)
    }
}

/// The positive number of tokens a greedy generation may produce, laid out
/// as the facade's `uint32_t`.
#[derive(Debug, Clone, Copy, PartialEq, Eq, Structural)]
pub struct TokenBudget(u32);

impl TokenBudget {
    #[verifier::type_invariant]
    spec fn positive(self) -> bool {
        self.0 > 0
    }

    /// The budget as a number.
    pub closed spec fn view(self) -> nat {
        self.0 as nat
    }

    /// Parse a positive decimal token count: zero, a negative value,
    /// anything above `u32::MAX` or a non-numeric string is refused with the
    /// integer parser's error.
    pub fn parse(text: &str) -> (r: Result<Self, core::num::ParseIntError>)
        ensures
            r is Ok <==> (spells_at_most(text@, u32::MAX as nat) && numeral_value(text@) != Some(
                0nat,
            )),
            r matches Ok(b) ==> numeral_value(text@) == Some(b.view()),
    {
        match parse_positive_u32(text) {
            Ok(count) => Ok(TokenBudget(count)),
            Err(failure) => Err(failure),
        }
    }

    /// The budget as a number, at least one.
    pub fn get(self) -> (r: u32)
        ensures
            r == self.view(),
            r > 0,
    {
        proof {
            use_type_invariant(&self);
        }
        self.0
    }

    /// The output array a whole generation needs: as long as the budget.
    pub fn length(self) -> (r: Length)
        ensures
            r.0 == self.view(),
    {
        Length(self.0 as usize)
    }
}

impl core::str::FromStr for TokenBudget {
    type Err = core::num::ParseIntError;

    /// As [`TokenBudget::parse`].
    fn from_str(text: &str) -> (r: Result<Self, Self::Err>)
        ensures
            r is Ok <==> (spells_at_most(text@, u32::MAX as nat) && numeral_value(text@) != Some(
                0nat,
            )),
            r matches Ok(b) ==> numeral_value(text@) == Some(b.view()),
    {
        TokenBudget::parse(text)
    }
}

/// The logical ceiling of one request in tokens, prompt and generation
/// together, laid out as the facade's `uint32_t`; the facade also sizes the
/// KV cache from it. The facade reads zero as its own default, which this
/// type cannot carry.
#[derive(Debug, Clone, Copy, PartialEq, Eq, Structural)]
pub struct ContextLimit(u32);

impl ContextLimit {
    #[verifier::type_invariant]
    spec fn positive(self) -> bool {
        self.0 > 0
    }

    /// The ceiling as a number.
    pub closed spec fn view(self) -> nat {
        self.0 as nat
    }

    /// Parse a positive decimal token count.
    pub fn parse(text: &str) -> (r: Result<Self, core::num::ParseIntError>)
        ensures
            r is Ok <==> (spells_at_most(text@, u32::MAX as nat) && numeral_value(text@) != Some(
                0nat,
            )),
            r matches Ok(l) ==> numeral_value(text@) == Some(l.view()),
    {
        match parse_positive_u32(text) {
            Ok(count) => Ok(ContextLimit(count)),
            Err(failure) => Err(failure),
        }
    }

    /// The ceiling as a number, at least one.
    pub fn get(self) -> (r: u32)
        ensures
            r == self.view(),
            r > 0,
    {
        proof {
            use_type_invariant(&self);
        }
        self.0
    }
}

impl core::str::FromStr for ContextLimit {
    type Err = core::num::ParseIntError;

    /// As [`ContextLimit::parse`].
    fn from_str(text: &str) -> (r: Result<Self, Self::Err>)
        ensures
            r is Ok <==> (spells_at_most(text@, u32::MAX as nat) && numeral_value(text@) != Some(
                0nat,
            )),
            r matches Ok(l) ==> numeral_value(text@) == Some(l.view()),
    {
        ContextLimit::parse(text)
    }
}

/// A CUDA device ordinal, laid out as the facade's `int32_t`: between zero
/// and `u16::MAX`.
#[derive(Debug, Clone, Copy, PartialEq, Eq, Structural)]
pub struct DeviceOrdinal(pub i32);

impl DeviceOrdinal {
    /// Parse a non-negative decimal device ordinal; a negative ordinal names
    /// no device and is refused here rather than by the facade.
    pub fn parse(text: &str) -> (r: Result<Self, core::num::ParseIntError>)
        ensures
            r is Ok <==> spells_at_most(text@, u16::MAX as nat),
            r matches Ok(d) ==> numeral_value(text@) == Some(d.0 as nat),
    {
        match parse_u16(text) {
            Ok(ordinal) => Ok(DeviceOrdinal(ordinal as i32)),
            Err(failure) => Err(failure),
        }
    }
}

impl core::str::FromStr for DeviceOrdinal {
    type Err = core::num::ParseIntError;

    /// As [`DeviceOrdinal::parse`].
    fn from_str(text: &str) -> (r: Result<Self, Self::Err>)
        ensures
            r is Ok <==> spells_at_most(text@, u16::MAX as nat),
            r matches Ok(d) ==> numeral_value(text@) == Some(d.0 as nat),
    {
        DeviceOrdinal::parse(text)
    }
}

/// Whether the engine captures its decode rounds as CUDA graphs.
#[derive(Debug, Clone, Copy, PartialEq, Eq, Structural)]
pub enum CudaGraph {
    /// Launch every kernel directly.
    Off,
    /// Capture decode rounds as CUDA graphs, as the served engine does.
    On,
}

impl CudaGraph {
    /// The facade's `uint8_t` flag: `Off` is zero and `On` is one.
    pub fn flag(self) -> (r: u8)
        ensures
            r == (match self {
                CudaGraph::Off => 0u8,
                CudaGraph::On => 1u8,
            }),
    {
        match self {
            CudaGraph::Off => 0,
            CudaGraph::On => 1,
        }
    }
}

impl From<CudaGraph> for u8 {
    fn from(choice: CudaGraph) -> (r: u8) {
        choice.flag()
    }
}

impl vstd::std_specs::convert::FromSpecImpl<CudaGraph> for u8 {
    open spec fn obeys_from_spec() -> bool {
        true
    }

    open spec fn from_spec(choice: CudaGraph) -> u8 {
        match choice {
            CudaGraph::Off => 0u8,
            CudaGraph::On => 1u8,
        }
    }
}

/// Prompt text, encoded by the facade as raw text: no chat template and no
/// special token is added.
#[derive(Debug, Clone, PartialEq, Eq)]
pub struct Prompt(pub String);

impl Prompt {
    /// Take the text as given.
    pub fn new(text: &str) -> (r: Self)
        ensures
            r.0@ == text@,
    {
        Prompt(String::from_str(text))
    }

    /// The text.
    pub fn as_str(&self) -> (r: &str)
        ensures
            r@ == self.0@,
    {
        self.0.as_str()
    }
}

/// Bytes the facade rendered from token ids: exactly what the ids encode,
/// not UTF-8 validated, since a generation budget can end inside a
/// multi-byte character.
#[derive(Debug, Clone, PartialEq, Eq)]
pub struct RenderedBytes(pub Vec<u8>);

impl RenderedBytes {
    /// The bytes.
    pub fn as_bytes(&self) -> (r: &[u8])
        ensures
            r@ == self.0@,
    {
        self.0.as_slice()
    }
}

/// A facade symbol name, without its terminating NUL.
#[derive(Debug, Clone, Copy, PartialEq, Eq)]
pub struct SymbolName(pub &'static str);

impl SymbolName {
    /// The symbol as it appears in the library.
    pub fn render(&self) -> (r: &'static str)
        ensures
            r@ == self.0@,
    {
        self.0
    }
}

/// A status word exactly as the facade returns it: `ninfer_status` is a C
/// enum whose values are zero to five, returned as an `int`.
#[derive(Debug, Clone, Copy, PartialEq, Eq, Structural)]
pub struct RawStatus(pub i32);

/// A facade failure status, one variant per `ninfer_status` failure value.
#[derive(Debug, Clone, Copy, PartialEq, Eq, Structural)]
pub enum Failure {
    /// `NINFER_INVALID_ARGUMENT`: a required pointer was null or a number was
    /// outside its domain.
    InvalidArgument,
    /// `NINFER_NOT_FOUND`: the artifact or a resource it needs was not found.
    NotFound,
    /// `NINFER_BUFFER_TOO_SMALL`: an output array was too small.
    BufferTooSmall,
    /// `NINFER_RUNTIME_ERROR`: the engine rejected the request or failed.
    Runtime,
    /// `NINFER_UNKNOWN_ERROR`: a failure the facade could not interpret.
    Unknown,
    /// A status value the facade header does not define.
    Unrecognized(RawStatus),
}

/// A failure as the facade's status name.
pub open spec fn failure_text(failure: Failure) -> Seq<char> {
    match failure {
        Failure::InvalidArgument => "NINFER_INVALID_ARGUMENT"@,
        Failure::NotFound => "NINFER_NOT_FOUND"@,
        Failure::BufferTooSmall => "NINFER_BUFFER_TOO_SMALL"@,
        Failure::Runtime => "NINFER_RUNTIME_ERROR"@,
        Failure::Unknown => "NINFER_UNKNOWN_ERROR"@,
        Failure::Unrecognized(status) => "unrecognized status "@ + signed_digits(status.0 as int),
    }
}

impl Failure {
    /// Render the failure as the facade's status name.
    pub fn render(&self) -> (r: String)
        ensures
            r@ == failure_text(*self),
    {
        match *self {
            Failure::InvalidArgument => String::from_str("NINFER_INVALID_ARGUMENT"),
            Failure::NotFound => String::from_str("NINFER_NOT_FOUND"),
            Failure::BufferTooSmall => String::from_str("NINFER_BUFFER_TOO_SMALL"),
            Failure::Runtime => String::from_str("NINFER_RUNTIME_ERROR"),
            Failure::Unknown => String::from_str("NINFER_UNKNOWN_ERROR"),
            Failure::Unrecognized(status) => {
                let mut out = String::from_str("unrecognized status ");
                signed_decimal_into(&mut out, status.0 as i64);
                out
            },
        }
    }
}

/// What a facade call reported.
#[derive(Debug, Clone, Copy, PartialEq, Eq, Structural)]
pub enum Outcome {
    /// `NINFER_OK`.
    Completed,
    /// Any other status.
    Failed(Failure),
}

/// The reading of a status word: zero is completion, one to five are the
/// failures in the header's order, and every other value is unrecognized,
/// carrying it.
pub open spec fn outcome_for(status: RawStatus) -> Outcome {
    if status.0 == 0 {
        Outcome::Completed
    } else if status.0 == 1 {
        Outcome::Failed(Failure::InvalidArgument)
    } else if status.0 == 2 {
        Outcome::Failed(Failure::NotFound)
    } else if status.0 == 3 {
        Outcome::Failed(Failure::BufferTooSmall)
    } else if status.0 == 4 {
        Outcome::Failed(Failure::Runtime)
    } else if status.0 == 5 {
        Outcome::Failed(Failure::Unknown)
    } else {
        Outcome::Failed(Failure::Unrecognized(status))
    }
}

impl Outcome {
    /// Classify a status word; every `int` is classified.
    pub fn of(status: RawStatus) -> (r: Outcome)
        ensures
            r == outcome_for(status),
    {
        match status.0 {
            0 => Outcome::Completed,
            1 => Outcome::Failed(Failure::InvalidArgument),
            2 => Outcome::Failed(Failure::NotFound),
            3 => Outcome::Failed(Failure::BufferTooSmall),
            4 => Outcome::Failed(Failure::Runtime),
            5 => Outcome::Failed(Failure::Unknown),
            _ => Outcome::Failed(Failure::Unrecognized(status)),
        }
    }
}

/// The facade entry point a failure came from.
#[derive(Debug, Clone, Copy, PartialEq, Eq, Structural)]
pub enum Operation {
    /// `ninfer_engine_open`.
    Open,
    /// `ninfer_tokenize`.
    Tokenize,
    /// `ninfer_generate_greedy`.
    Generate,
    /// `ninfer_detokenize`.
    Detokenize,
}

/// An entry point's symbol name.
pub open spec fn symbol_text(operation: Operation) -> Seq<char> {
    match operation {
        Operation::Open => "ninfer_engine_open"@,
        Operation::Tokenize => "ninfer_tokenize"@,
        Operation::Generate => "ninfer_generate_greedy"@,
        Operation::Detokenize => "ninfer_detokenize"@,
    }
}

impl Operation {
    /// The entry point's symbol.
    pub fn symbol(self) -> (r: SymbolName)
        ensures
            r.0@ == symbol_text(self),
    {
        match self {
            Operation::Open => SymbolName("ninfer_engine_open"),
            Operation::Tokenize => SymbolName("ninfer_tokenize"),
            Operation::Generate => SymbolName("ninfer_generate_greedy"),
            Operation::Detokenize => SymbolName("ninfer_detokenize"),
        }
    }

    /// Render the operation as its entry point's name.
    pub fn render(&self) -> (r: &'static str)
        ensures
            r@ == symbol_text(*self),
    {
        self.symbol().render()
    }
}

/// The symbol of `ninfer_engine_close`, which reports no failure.
pub fn close_symbol() -> (r: SymbolName)
    ensures
        r.0@ == "ninfer_engine_close"@,
{
    SymbolName("ninfer_engine_close")
}

/// A text argument that cannot become a C string.
#[derive(Debug, Clone, Copy, PartialEq, Eq, Structural)]
pub enum TextArgument {
    /// The artifact path.
    ArtifactPath,
    /// The prompt.
    Prompt,
}

/// An argument's name.
pub open spec fn argument_text(argument: TextArgument) -> Seq<char> {
    match argument {
        TextArgument::ArtifactPath => "artifact path"@,
        TextArgument::Prompt => "prompt"@,
    }
}

impl TextArgument {
    /// Render the argument's name.
    pub fn render(&self) -> (r: &'static str)
        ensures
            r@ == argument_text(*self),
    {
        match *self {
            TextArgument::ArtifactPath => "artifact path",
            TextArgument::Prompt => "prompt",
        }
    }
}

/// How to open an engine.
#[derive(Debug, Clone, PartialEq, Eq)]
pub struct EngineOptions {
    /// The path of the `.ninfer` artifact entry file.
    pub artifact: String,
    /// Logical ceiling of the request, which also sizes the KV cache.
    pub context: ContextLimit,
    /// The CUDA device.
    pub device: DeviceOrdinal,
    /// Whether decode rounds are captured as CUDA graphs.
    pub cuda_graph: CudaGraph,
}

impl EngineOptions {
    /// Gather the options for one engine.
    pub fn new(
        artifact: String,
        context: ContextLimit,
        device: DeviceOrdinal,
        cuda_graph: CudaGraph,
    ) -> (r: Self)
        ensures
            r.artifact@ == artifact@,
            r.context == context,
            r.device == device,
            r.cuda_graph == cuda_graph,
    {
        EngineOptions { artifact, context, device, cuda_graph }
    }
}

/// libloading's rendering of one of its errors: the system's description
/// the error stored, or its variant's fixed text; a function of the error
/// value alone.
pub uninterp spec fn loader_rendering(cause: libloading::Error) -> Seq<char>;

/// Whether libloading's error carries a source error, which its variant
/// decides.
pub uninterp spec fn loader_has_source(cause: libloading::Error) -> bool;

/// libloading's own rendering of a loader failure: the step that failed.
#[verifier::external_body]
pub fn loader_text(cause: &libloading::Error) -> (r: String)
    ensures
        r@ == loader_rendering(*cause),
{
    format!("{cause}")
}

/// The rendering of the platform's reason behind a loader failure, the
/// source of libloading's error, when it gave one. The reason's text is the
/// system's, rendered in its own language, so it is not named.
#[verifier::external_body]
pub fn loader_source_text(cause: &libloading::Error) -> (r: Option<String>)
    ensures
        r is Some <==> loader_has_source(*cause),
{
    match core::error::Error::source(cause) {
        Some(source) => Some(format!("{source}")),
        None => None,
    }
}

/// The loader's account of a failure, given the platform's reason: the
/// failed step, then `: ` and the reason when the error carries one.
pub open spec fn loader_account(cause: libloading::Error, reason: Seq<char>) -> Seq<char> {
    if loader_has_source(cause) {
        loader_rendering(cause) + ": "@ + reason
    } else {
        loader_rendering(cause)
    }
}

/// A loader error rendered with the platform's own account of it: the failed
/// step, then `: ` and the platform's reason where it gave one.
pub fn loader_cause(cause: &libloading::Error) -> (r: String)
    ensures
        !loader_has_source(*cause) ==> r@ == loader_rendering(*cause),
        loader_has_source(*cause) ==> exists|reason: Seq<char>|
            r@ == loader_rendering(*cause) + ": "@ + reason,
        exists|reason: Seq<char>| r@ == #[trigger] loader_account(*cause, reason),
{
    let mut out = loader_text(cause);
    match loader_source_text(cause) {
        Some(source) => {
            out.append(": ");
            out.append(source.as_str());
            assert(out@ == loader_rendering(*cause) + ": "@ + source@);
            assert(out@ == loader_account(*cause, source@));
        },
        None => {
            assert(out@ == loader_account(*cause, Seq::<char>::empty()));
        },
    }
    out
}

/// A failure reaching or driving the facade.
#[derive(Debug)]
pub enum NinferFailure {
    /// The shared library could not be loaded.
    Load {
        /// The path the operator named, as displayed.
        library: String,
        /// The platform loader's report.
        cause: libloading::Error,
    },
    /// The library loaded but lacks one of the facade's entry points.
    MissingSymbol {
        /// The entry point that was not found.
        symbol: SymbolName,
        /// The platform loader's report.
        cause: libloading::Error,
    },
    /// A text argument contains a NUL byte, which a C string cannot carry.
    InteriorNul {
        /// The argument that contains it.
        argument: TextArgument,
    },
    /// An entry point returned a failure status.
    Status {
        /// The entry point.
        operation: Operation,
        /// The status it returned.
        failure: Failure,
        /// The facade's message, empty when it wrote none.
        message: String,
    },
    /// An entry point asked for a larger output array twice in a row, so the
    /// length it reports does not settle.
    UnsettledLength {
        /// The entry point.
        operation: Operation,
        /// The capacity offered on the second attempt.
        offered: Length,
        /// The length the second attempt asked for.
        requested: Length,
    },
    /// An entry point reported success with a length beyond the array it was
    /// given, which the facade promises never to do.
    LengthBeyondCapacity {
        /// The entry point.
        operation: Operation,
        /// The capacity offered.
        capacity: Length,
        /// The length it reported.
        reported: Length,
    },
}

/// The operator's reading of a failure whose account is the library's own:
/// what failed, and why. A loader failure's text begins as stated here and
/// continues with the loader's account.
pub open spec fn ninfer_failure_text(failure: NinferFailure) -> Seq<char> {
    match failure {
        NinferFailure::Load { library, .. } => "cannot load the ninfer facade `"@ + library@
            + "`: "@,
        NinferFailure::MissingSymbol { symbol, .. } => "the library lacks the ninfer entry point `"@
            + symbol.0@ + "`: "@,
        NinferFailure::InteriorNul { argument } => "the "@ + argument_text(argument)
            + " contains a NUL byte, which the C facade cannot take"@,
        NinferFailure::Status { operation, failure, message } => if message@.len() == 0 {
            symbol_text(operation) + " failed with "@ + failure_text(failure)
        } else {
            symbol_text(operation) + " failed with "@ + failure_text(failure) + ": "@ + message@
        },
        NinferFailure::UnsettledLength { operation, offered, requested } => symbol_text(operation)
            + " asked for "@ + decimal_digits(requested.0 as nat)
            + " elements after being offered the "@ + decimal_digits(offered.0 as nat)
            + " it asked for"@,
        NinferFailure::LengthBeyondCapacity { operation, capacity, reported } => symbol_text(
            operation,
        ) + " reported "@ + decimal_digits(reported.0 as nat)
            + " elements written into an array of "@ + decimal_digits(capacity.0 as nat),
    }
}

/// Whether a failure's account comes from the loader, past its stated text.
pub open spec fn from_loader(failure: NinferFailure) -> bool {
    failure is Load || failure is MissingSymbol
}

impl NinferFailure {
    /// Render the failure for an operator: what failed, and the facade's or
    /// the loader's own account of why.
    pub fn render(&self) -> (r: String)
        ensures
            self matches NinferFailure::Load { cause, .. } ==> exists|reason: Seq<char>|
                r@ == ninfer_failure_text(*self) + #[trigger] loader_account(*cause, reason),
            self matches NinferFailure::MissingSymbol { cause, .. } ==> exists|reason: Seq<char>|
                r@ == ninfer_failure_text(*self) + #[trigger] loader_account(*cause, reason),
            !from_loader(*self) ==> r@ == ninfer_failure_text(*self),
    {
        match self {
            NinferFailure::Load { library, cause } => {
                let mut out = String::from_str("cannot load the ninfer facade `");
                out.append(library.as_str());
                out.append("`: ");
                let ghost stated = out@;
                let account = loader_cause(cause);
                out.append(account.as_str());
                proof {
                    let reason = choose|reason: Seq<char>| account@ == loader_account(*cause, reason);
                    assert(out@ == stated + loader_account(*cause, reason));
                }
                out
            },
            NinferFailure::MissingSymbol { symbol, cause } => {
                let mut out = String::from_str("the library lacks the ninfer entry point `");
                out.append(symbol.render());
                out.append("`: ");
                let ghost stated = out@;
                let account = loader_cause(cause);
                out.append(account.as_str());
                proof {
                    let reason = choose|reason: Seq<char>| account@ == loader_account(*cause, reason);
                    assert(out@ == stated + loader_account(*cause, reason));
                }
                out
            },
            NinferFailure::InteriorNul { argument } => {
                let mut out = String::from_str("the ");
                out.append(argument.render());
                out.append(" contains a NUL byte, which the C facade cannot take");
                out
            },
            NinferFailure::Status { operation, failure, message } => {
                let mut out = String::from_str(operation.render());
                out.append(" failed with ");
                let failure_name = failure.render();
                out.append(failure_name.as_str());
                if message.as_str().unicode_len() > 0 {
                    out.append(": ");
                    out.append(message.as_str());
                }
                out
            },
            NinferFailure::UnsettledLength { operation, offered, requested } => {
                let mut out = String::from_str(operation.render());
                out.append(" asked for ");
                let requested_text = requested.render();
                out.append(requested_text.as_str());
                out.append(" elements after being offered the ");
                let offered_text = offered.render();
                out.append(offered_text.as_str());
                out.append(" it asked for");
                out
            },
            NinferFailure::LengthBeyondCapacity { operation, capacity, reported } => {
                let mut out = String::from_str(operation.render());
                out.append(" reported ");
                let reported_text = reported.render();
                out.append(reported_text.as_str());
                out.append(" elements written into an array of ");
                let capacity_text = capacity.render();
                out.append(capacity_text.as_str());
                out
            },
        }
    }
}

/// The position of the first NUL at or after `i`, or the length when there
/// is none.
pub open spec fn first_nul_from(bytes: Seq<u8>, i: int) -> int
    decreases bytes.len() - i,
{
    if i < 0 || i >= bytes.len() {
        bytes.len() as int
    } else if bytes[i] == 0 {
        i
    } else {
        first_nul_from(bytes, i + 1)
    }
}

/// The bytes of a message buffer the facade's message occupies: those before
/// the first NUL, or all of them when there is none.
pub open spec fn message_bytes(bytes: Seq<u8>) -> Seq<u8> {
    bytes.take(first_nul_from(bytes, 0))
}

/// The buffer a call offers for the facade's failure message.
#[derive(Debug, Clone, PartialEq, Eq)]
pub struct MessageBuffer(pub Vec<u8>);

impl MessageBuffer {
    /// A zeroed buffer of `MESSAGE_CAPACITY` bytes.
    pub fn new() -> (r: Self)
        ensures
            r.0@.len() == MESSAGE_CAPACITY,
            forall|i: int| 0 <= i < r.0@.len() ==> r.0@[i] == 0,
    {
        let mut bytes: Vec<u8> = Vec::new();
        while bytes.len() < MESSAGE_CAPACITY
            invariant
                bytes@.len() <= MESSAGE_CAPACITY,
                forall|i: int| 0 <= i < bytes@.len() ==> bytes@[i] == 0,
            decreases MESSAGE_CAPACITY - bytes@.len(),
        {
            bytes.push(0);
        }
        MessageBuffer(bytes)
    }

    /// The capacity the facade is told it may write.
    pub fn capacity(&self) -> (r: Length)
        ensures
            r.0 == self.0@.len(),
    {
        Length(self.0.len())
    }

    /// Read the message the facade left: the bytes before the first NUL, or
    /// the whole buffer when there is none, with invalid UTF-8 replaced. The
    /// facade promises a terminator, but the reading does not depend on it.
    pub fn message(&self) -> (r: String)
        ensures
            r@ == lossy_text(message_bytes(self.0@)),
            valid_utf8(message_bytes(self.0@)) ==> r@ == decode_utf8(message_bytes(self.0@)),
    {
        let bytes = self.0.as_slice();
        let mut end: usize = 0;
        while end < bytes.len() && bytes[end] != 0
            invariant
                end <= bytes@.len(),
                first_nul_from(bytes@, 0) == first_nul_from(bytes@, end as int),
            decreases bytes@.len() - end,
        {
            end = end + 1;
        }
        let taken = vstd::slice::slice_subrange(bytes, 0, end);
        assert(taken@ == message_bytes(self.0@));
        text_of_bytes(taken)
    }
}

/// An untouched buffer reads as the empty message.
pub proof fn law_untouched_buffer_is_empty(bytes: Seq<u8>)
    requires
        forall|i: int| 0 <= i < bytes.len() ==> bytes[i] == 0,
    ensures
        message_bytes(bytes) == Seq::<u8>::empty(),
{
    if bytes.len() > 0 {
        assert(bytes[0] == 0);
    }
}

/// What one sized call produced.
#[derive(Debug)]
pub enum Attempt<Element> {
    /// The output fit; the elements the facade wrote.
    Filled(Vec<Element>),
    /// The output did not fit; the length the facade asked for.
    Needs(Length),
}

/// Settle one call that wrote into a caller-allocated array: on `NINFER_OK`
/// the elements are exactly the first `reported` written, unless that is
/// beyond the array; on `NINFER_BUFFER_TOO_SMALL`, the length the facade
/// asked for; on any other status, the failure with the facade's message.
pub fn settle<Element>(
    operation: Operation,
    capacity: Length,
    status: RawStatus,
    reported: Length,
    output: Vec<Element>,
    message: &MessageBuffer,
) -> (r: Result<Attempt<Element>, NinferFailure>)
    requires
        output@.len() == capacity.0,
    ensures
        outcome_for(status) == Outcome::Completed && reported.0 > capacity.0 ==> {
            &&& r matches Err(NinferFailure::LengthBeyondCapacity { operation: o, capacity: c, reported: n })
            &&& o == operation && c == capacity && n == reported
        },
        outcome_for(status) == Outcome::Completed && reported.0 <= capacity.0 ==> {
            &&& r matches Ok(Attempt::Filled(filled))
            &&& filled@ == output@.take(reported.0 as int)
        },
        outcome_for(status) == Outcome::Failed(Failure::BufferTooSmall) ==> {
            &&& r matches Ok(Attempt::Needs(needed))
            &&& needed == reported
        },
        outcome_for(status) is Failed && outcome_for(status) != Outcome::Failed(Failure::BufferTooSmall) ==> {
            &&& r matches Err(NinferFailure::Status { operation: o, failure: f, message: m })
            &&& o == operation
            &&& Outcome::Failed(f) == outcome_for(status)
            &&& m@ == lossy_text(message_bytes(message.0@))
            &&& valid_utf8(message_bytes(message.0@)) ==> m@ == decode_utf8(message_bytes(message.0@))
        },
{
    let mut output = output;
    match Outcome::of(status) {
        Outcome::Completed => {
            if reported.0 > capacity.0 {
                return Err(NinferFailure::LengthBeyondCapacity { operation, capacity, reported });
            }
            output.truncate(reported.0);
            Ok(Attempt::Filled(output))
        },
        Outcome::Failed(failure) => {
            if failure == Failure::BufferTooSmall {
                Ok(Attempt::Needs(reported))
            } else {
                Err(NinferFailure::Status { operation, failure, message: message.message() })
            }
        },
    }
}

/// Settle an open call: a failure status is the failure with the facade's
/// message; a success that produced no handle is an unknown failure, since
/// nothing could be closed; otherwise the engine is open.
pub fn opened(status: RawStatus, handle_present: bool, message: &MessageBuffer) -> (r: Result<
    (),
    NinferFailure,
>)
    ensures
        outcome_for(status) matches Outcome::Failed(f) ==> {
            &&& r matches Err(NinferFailure::Status { operation: o, failure: g, message: m })
            &&& o == Operation::Open && g == f
            &&& m@ == lossy_text(message_bytes(message.0@))
            &&& valid_utf8(message_bytes(message.0@)) ==> m@ == decode_utf8(message_bytes(message.0@))
        },
        outcome_for(status) == Outcome::Completed && !handle_present ==> {
            &&& r matches Err(NinferFailure::Status { operation: o, failure: g, message: m })
            &&& o == Operation::Open && g == Failure::Unknown
            &&& m@ == "reported success without producing a handle"@
        },
        outcome_for(status) == Outcome::Completed && handle_present ==> r is Ok,
{
    match Outcome::of(status) {
        Outcome::Failed(failure) => Err(
            NinferFailure::Status { operation: Operation::Open, failure, message: message.message() },
        ),
        Outcome::Completed => {
            if handle_present {
                Ok(())
            } else {
                Err(
                    NinferFailure::Status {
                        operation: Operation::Open,
                        failure: Failure::Unknown,
                        message: String::from_str("reported success without producing a handle"),
                    },
                )
            }
        },
    }
}

/// Which offer of the sizing protocol a call answered.
#[derive(Debug, Clone, Copy, PartialEq, Eq, Structural)]
pub enum Stage {
    /// The initial offer.
    First,
    /// The offer of exactly what the facade asked for.
    Second,
}

/// What the sizing protocol does next.
#[derive(Debug)]
pub enum Next<Element> {
    /// The output is complete.
    Done(Vec<Element>),
    /// Call again, offering this many elements.
    Offer(Length),
}

/// The sizing protocol's decision after one settled call: a filled output is
/// complete; after the first offer, offer exactly what the facade asked for;
/// after the second, a request for more again is unsettled.
pub fn fill_next<Element>(
    operation: Operation,
    stage: Stage,
    offered: Length,
    attempt: Attempt<Element>,
) -> (r: Result<Next<Element>, NinferFailure>)
    ensures
        attempt matches Attempt::Filled(output) ==> {
            &&& r matches Ok(Next::Done(done))
            &&& done@ == output@
        },
        attempt is Needs && stage == Stage::First ==> {
            &&& r matches Ok(Next::Offer(offer))
            &&& attempt matches Attempt::Needs(needed) && offer == needed
        },
        attempt is Needs && stage == Stage::Second ==> {
            &&& r matches Err(NinferFailure::UnsettledLength { operation: o, offered: f, requested: q })
            &&& attempt matches Attempt::Needs(needed) && o == operation && f == offered && q == needed
        },
{
    match attempt {
        Attempt::Filled(output) => Ok(Next::Done(output)),
        Attempt::Needs(needed) => match stage {
            Stage::First => Ok(Next::Offer(needed)),
            Stage::Second => Err(
                NinferFailure::UnsettledLength { operation, offered, requested: needed },
            ),
        },
    }
}

/// The sizing protocol makes at most two calls: after the second offer it
/// never offers again.
pub proof fn law_at_most_two_offers<Element>(
    stage: Stage,
    attempt: Attempt<Element>,
    next: Result<Next<Element>, NinferFailure>,
)
    requires
        stage == Stage::Second,
        attempt matches Attempt::Filled(output) ==> (next matches Ok(Next::Done(done)) && done@
            == output@),
        attempt is Needs ==> next is Err,
    ensures
        !(next matches Ok(Next::Offer(_))),
{
}

/// Convert text into the NUL-terminated form the facade reads: its bytes
/// followed by one NUL, or a refusal naming the argument when it contains a
/// NUL.
pub fn c_string(argument: TextArgument, text: &[u8]) -> (r: Result<Vec<u8>, NinferFailure>)
    ensures
        text@.contains(0u8) ==> (r matches Err(NinferFailure::InteriorNul { argument: a })
            && a == argument),
        !text@.contains(0u8) ==> (r matches Ok(bytes) && bytes@ == text@.push(0u8)),
{
    let mut bytes: Vec<u8> = Vec::new();
    let mut i: usize = 0;
    while i < text.len()
        invariant
            i <= text@.len(),
            bytes@ == text@.take(i as int),
            !text@.take(i as int).contains(0u8),
        decreases text@.len() - i,
    {
        if text[i] == 0 {
            assert(text@[i as int] == 0u8);
            return Err(NinferFailure::InteriorNul { argument });
        }
        bytes.push(text[i]);
        i = i + 1;
        assert(text@.take(i as int) == text@.take((i - 1) as int).push(text@[i - 1]));
    }
    assert(text@.take(i as int) == text@);
    bytes.push(0);
    Ok(bytes)
}

} // verus!
