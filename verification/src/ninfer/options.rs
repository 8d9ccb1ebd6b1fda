//! How an Engine is opened: the artifact, the device, the context ceiling,
//! CUDA graph capture, and the chat template.
use vstd::prelude::*;
use crate::letters::same_text;
use crate::numeral::numeral_value;
use crate::numeral::parse_positive_u32;
use crate::numeral::parse_u16;
use crate::numeral::spells_at_most;

verus! {

/// The logical ceiling of one request in tokens, prompt and generation
/// together. The Engine also sizes its KV cache from it, so a small ceiling
/// keeps a one-request run's device footprint small.
#[derive(Debug, Clone, Copy, PartialEq, Eq, Structural)]
pub struct ContextLimit(u32);

impl ContextLimit {
    #[verifier::type_invariant]
    spec fn positive(self) -> bool {
        self.0 > 0
    }

    /// The ceiling as a number.
    pub closed spec fn view(self) -> nat {
        self.0 as nat
    }

    /// The ceiling `limit`, when it is positive.
    pub fn new(limit: u32) -> (r: Option<Self>)
        ensures
            r is Some <==> limit > 0,
            r matches Some(l) ==> l.view() == limit,
    {
        if limit > 0 {
            Some(ContextLimit(limit))
        } else {
            None
        }
    }

    /// The ceiling as a number, at least one.
    pub fn get(self) -> (r: u32)
        ensures
            r == self.view(),
            r > 0,
    {
        proof {
            use_type_invariant(&self);
        }
        self.0
    }

    /// Parse a positive decimal token count: zero, a negative value, anything
    /// above `u32::MAX` or a non-numeric string is refused with the integer
    /// parser's error.
    pub fn parse(text: &str) -> (r: Result<Self, core::num::ParseIntError>)
        ensures
            r is Ok <==> (spells_at_most(text@, u32::MAX as nat) && numeral_value(text@) != Some(
                0nat,
            )),
            r matches Ok(l) ==> numeral_value(text@) == Some(l.view()),
    {
        match parse_positive_u32(text) {
            Ok(value) => Ok(ContextLimit(value)),
            Err(failure) => Err(failure),
        }
    }
}

impl core::str::FromStr for ContextLimit {
    type Err = core::num::ParseIntError;

    /// As [`ContextLimit::parse`].
    fn from_str(text: &str) -> (r: Result<Self, Self::Err>)
        ensures
            r is Ok <==> (spells_at_most(text@, u32::MAX as nat) && numeral_value(text@) != Some(
                0nat,
            )),
            r matches Ok(l) ==> numeral_value(text@) == Some(l.view()),
    {
        ContextLimit::parse(text)
    }
}

/// A CUDA device ordinal, between zero and `u16::MAX`.
#[derive(Debug, Clone, Copy, PartialEq, Eq, Structural)]
pub struct DeviceOrdinal(pub u16);

impl DeviceOrdinal {
    /// Parse a non-negative decimal device ordinal: a negative ordinal names
    /// no device and is refused here rather than by the Engine.
    pub fn parse(text: &str) -> (r: Result<Self, core::num::ParseIntError>)
        ensures
            r is Ok <==> spells_at_most(text@, u16::MAX as nat),
            r matches Ok(d) ==> numeral_value(text@) == Some(d.0 as nat),
    {
        match parse_u16(text) {
            Ok(value) => Ok(DeviceOrdinal(value)),
            Err(failure) => Err(failure),
        }
    }

    /// Widen the ordinal to the Engine's `int`.
    pub fn to_int(self) -> (r: i32)
        ensures
            r == self.0,
    {
        self.0 as i32
    }
}

impl core::str::FromStr for DeviceOrdinal {
    type Err = core::num::ParseIntError;

    /// As [`DeviceOrdinal::parse`].
    fn from_str(text: &str) -> (r: Result<Self, Self::Err>)
        ensures
            r is Ok <==> spells_at_most(text@, u16::MAX as nat),
            r matches Ok(d) ==> numeral_value(text@) == Some(d.0 as nat),
    {
        DeviceOrdinal::parse(text)
    }
}

impl From<DeviceOrdinal> for i32 {
    fn from(ordinal: DeviceOrdinal) -> (r: i32) {
        ordinal.to_int()
    }
}

impl vstd::std_specs::convert::FromSpecImpl<DeviceOrdinal> for i32 {
    open spec fn obeys_from_spec() -> bool {
        true
    }

    open spec fn from_spec(ordinal: DeviceOrdinal) -> i32 {
        ordinal.0 as i32
    }
}

/// Whether the Engine captures its decode rounds as CUDA graphs.
#[derive(Debug, Clone, Copy, PartialEq, Eq, Structural)]
pub enum CudaGraph {
    /// Launch every kernel directly.
    Off,
    /// Capture decode rounds as CUDA graphs, as the served engine does.
    On,
}

/// The choice `text` spells: `off` or `on`, case included.
pub open spec fn cuda_graph_spelled(text: Seq<char>) -> Result<CudaGraph, UnknownCudaGraph> {
    if text == "off"@ {
        Ok(CudaGraph::Off)
    } else if text == "on"@ {
        Ok(CudaGraph::On)
    } else {
        Err(UnknownCudaGraph)
    }
}

impl CudaGraph {
    /// Parse `off` or `on`; any other text, case included, is refused.
    pub fn parse(text: &str) -> (r: Result<Self, UnknownCudaGraph>)
        ensures
            r == cuda_graph_spelled(text@),
    {
        if same_text(text, "off") {
            Ok(CudaGraph::Off)
        } else if same_text(text, "on") {
            Ok(CudaGraph::On)
        } else {
            Err(UnknownCudaGraph)
        }
    }
}

impl core::str::FromStr for CudaGraph {
    type Err = UnknownCudaGraph;

    /// As [`CudaGraph::parse`].
    fn from_str(text: &str) -> (r: Result<Self, Self::Err>)
        ensures
            r == cuda_graph_spelled(text@),
    {
        CudaGraph::parse(text)
    }
}

/// A CUDA graph choice that is neither `off` nor `on`.
#[derive(Debug, Clone, Copy, PartialEq, Eq, Structural)]
pub struct UnknownCudaGraph;

impl UnknownCudaGraph {
    /// Render the failure.
    pub fn render(&self) -> (r: &'static str)
        ensures
            r@ == "CUDA graph capture is `off` or `on`"@,
    {
        "CUDA graph capture is `off` or `on`"
    }
}

/// Which chat template renders a chat prompt.
#[derive(Debug, Clone, PartialEq, Eq)]
pub enum ChatTemplate {
    /// The template the artifact embeds.
    Artifact,
    /// The Jinja template in the file at this path.
    File(String),
}

/// Everything an Engine is opened with except the round, which the plan
/// supplies.
#[derive(Debug, Clone, PartialEq, Eq)]
pub struct EngineOptions {
    /// The path of the `.ninfer` artifact entry file.
    artifact: String,
    /// The CUDA device.
    device: DeviceOrdinal,
    /// The context ceiling.
    context: ContextLimit,
    /// CUDA graph capture.
    cuda_graph: CudaGraph,
    /// The chat template.
    chat_template: ChatTemplate,
}

impl EngineOptions {
    /// The artifact.
    pub closed spec fn spec_artifact(&self) -> String {
        self.artifact
    }

    /// The device.
    pub closed spec fn spec_device(&self) -> DeviceOrdinal {
        self.device
    }

    /// The context ceiling.
    pub closed spec fn spec_context(&self) -> ContextLimit {
        self.context
    }

    /// CUDA graph capture.
    pub closed spec fn spec_cuda_graph(&self) -> CudaGraph {
        self.cuda_graph
    }

    /// The chat template.
    pub closed spec fn spec_chat_template(&self) -> ChatTemplate {
        self.chat_template
    }

    /// Gather the options, with the artifact's own chat template.
    pub fn new(
        artifact: String,
        device: DeviceOrdinal,
        context: ContextLimit,
        cuda_graph: CudaGraph,
    ) -> (r: Self)
        ensures
            r.spec_artifact() == artifact,
            r.spec_device() == device,
            r.spec_context() == context,
            r.spec_cuda_graph() == cuda_graph,
            r.spec_chat_template() == ChatTemplate::Artifact,
    {
        EngineOptions { artifact, device, context, cuda_graph, chat_template: ChatTemplate::Artifact }
    }

    /// The same options with `template` rendering chat prompts.
    pub fn with_chat_template(self, template: ChatTemplate) -> (r: Self)
        ensures
            r.spec_artifact() == self.spec_artifact(),
            r.spec_device() == self.spec_device(),
            r.spec_context() == self.spec_context(),
            r.spec_cuda_graph() == self.spec_cuda_graph(),
            r.spec_chat_template() == template,
    {
        EngineOptions { chat_template: template, ..self }
    }

    /// The chat template.
    pub fn chat_template(&self) -> (r: &ChatTemplate)
        ensures
            *r == self.spec_chat_template(),
    {
        &self.chat_template
    }

    /// The artifact.
    pub fn artifact(&self) -> (r: &str)
        ensures
            r@ == self.spec_artifact()@,
    {
        self.artifact.as_str()
    }

    /// The device.
    pub fn device(&self) -> (r: DeviceOrdinal)
        ensures
            r == self.spec_device(),
    {
        self.device
    }

    /// The context ceiling.
    pub fn context(&self) -> (r: ContextLimit)
        ensures
            r == self.spec_context(),
    {
        self.context
    }

    /// CUDA graph capture.
    pub fn cuda_graph(&self) -> (r: CudaGraph)
        ensures
            r == self.spec_cuda_graph(),
    {
        self.cuda_graph
    }
}

} // verus!
