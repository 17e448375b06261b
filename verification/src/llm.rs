//! The message protocol: one `Message` per conversational turn, and the
//! `ToolCall` requests a backend may attach to a turn. `RunTools` is the one
//! non-terminal message; every other variant ends a conversation.

use vstd::prelude::*;

verus! {

/// A backend selector; each variant carries the provider's model identifier.
#[derive(Debug)]
pub enum LLM {
    ChatGpt(String),
}

/// The mathematical value of an `LLM`.
pub ghost enum LlmView {
    ChatGpt(Seq<char>),
}

impl View for LLM {
    type V = LlmView;

    open spec fn view(&self) -> LlmView {
        match self {
            LLM::ChatGpt(version) => LlmView::ChatGpt(version@),
        }
    }
}

impl Clone for LLM {
    fn clone(&self) -> (r: Self)
        ensures
            r@ == self@,
    {
        match self {
            LLM::ChatGpt(version) => LLM::ChatGpt(version.clone()),
        }
    }
}

impl LLM {
    pub fn chatgpt(version: &str) -> (r: Self)
        ensures
            r@ == LlmView::ChatGpt(version@),
    {
        LLM::ChatGpt(String::from_str(version))
    }
}

/// A backend-issued request to invoke one tool, tagged with a correlation id.
/// `arguments` is an opaque serialized JSON object; it is not interpreted at
/// this layer.
#[derive(Debug)]
pub struct ToolCall {
    pub id: String,
    pub name: String,
    pub arguments: String,
}

/// The mathematical value of a `ToolCall`.
#[verifier::ext_equal]
pub ghost struct ToolCallView {
    pub id: Seq<char>,
    pub name: Seq<char>,
    pub arguments: Seq<char>,
}

impl View for ToolCall {
    type V = ToolCallView;

    open spec fn view(&self) -> ToolCallView {
        ToolCallView { id: self.id@, name: self.name@, arguments: self.arguments@ }
    }
}

impl DeepView for ToolCall {
    type V = ToolCallView;

    open spec fn deep_view(&self) -> ToolCallView {
        self.view()
    }
}

impl Clone for ToolCall {
    fn clone(&self) -> (r: Self)
        ensures
            r@ == self@,
    {
        ToolCall {
            id: self.id.clone(),
            name: self.name.clone(),
            arguments: self.arguments.clone(),
        }
    }
}

impl ToolCall {
    pub fn new(id: &str, name: &str, arguments: &str) -> (r: Self)
        ensures
            r@ == (ToolCallView { id: id@, name: name@, arguments: arguments@ }),
    {
        ToolCall {
            id: String::from_str(id),
            name: String::from_str(name),
            arguments: String::from_str(arguments),
        }
    }

    pub fn name_is_equal(&self, name: &str) -> (r: bool)
        ensures
            r == (self@.name == name@),
    {
        crate::strutil::str_eq(self.name.as_str(), name)
    }

    pub fn id(&self) -> (r: &str)
        ensures
            r@ == self@.id,
    {
        self.id.as_str()
    }

    pub fn arguments(&self) -> (r: &str)
        ensures
            r@ == self@.arguments,
    {
        self.arguments.as_str()
    }
}

/// One conversational turn.
#[derive(Debug)]
pub enum Message {
    System { message: String },
    User { message: String },
    Agent { message: String },
    RunTools { calls: Vec<ToolCall> },
    ToolResult { result: String, call_id: String },
}

/// The mathematical value of a `Message`.
#[verifier::ext_equal]
pub ghost enum MessageView {
    System { message: Seq<char> },
    User { message: Seq<char> },
    Agent { message: Seq<char> },
    RunTools { calls: Seq<ToolCallView> },
    ToolResult { result: Seq<char>, call_id: Seq<char> },
}

impl MessageView {
    /// The human-displayable payload of a turn: its literal text, and the
    /// empty string for `RunTools`, which carries none.
    pub open spec fn spec_text(self) -> Seq<char> {
        match self {
            MessageView::System { message } => message,
            MessageView::User { message } => message,
            MessageView::Agent { message } => message,
            MessageView::RunTools { .. } => Seq::<char>::empty(),
            MessageView::ToolResult { result, .. } => result,
        }
    }
}

impl View for Message {
    type V = MessageView;

    open spec fn view(&self) -> MessageView {
        match self {
            Message::System { message } => MessageView::System { message: message@ },
            Message::User { message } => MessageView::User { message: message@ },
            Message::Agent { message } => MessageView::Agent { message: message@ },
            Message::RunTools { calls } => MessageView::RunTools { calls: calls.deep_view() },
            Message::ToolResult { result, call_id } => MessageView::ToolResult {
                result: result@,
                call_id: call_id@,
            },
        }
    }
}

impl DeepView for Message {
    type V = MessageView;

    open spec fn deep_view(&self) -> MessageView {
        self.view()
    }
}

fn clone_calls(calls: &Vec<ToolCall>) -> (r: Vec<ToolCall>)
    ensures
        r.deep_view() == calls.deep_view(),
{
    let mut out: Vec<ToolCall> = Vec::new();
    for i in 0..calls.len()
        invariant
            out.len() == i,
            forall|j: int| 0 <= j < i ==> #[trigger] out@[j]@ == calls@[j]@,
    {
        out.push(calls[i].clone());
    }
    proof {
        assert(out.deep_view() =~= calls.deep_view());
    }
    out
}

impl Clone for Message {
    fn clone(&self) -> (r: Self)
        ensures
            r@ == self@,
    {
        match self {
            Message::System { message } => Message::System { message: message.clone() },
            Message::User { message } => Message::User { message: message.clone() },
            Message::Agent { message } => Message::Agent { message: message.clone() },
            Message::RunTools { calls } => Message::RunTools { calls: clone_calls(calls) },
            Message::ToolResult { result, call_id } => Message::ToolResult {
                result: result.clone(),
                call_id: call_id.clone(),
            },
        }
    }
}

impl Message {
    /// Whether this message ends a conversation: true for every variant but
    /// `RunTools`, which instead asks for tools to be executed.
    pub fn is_last(&self) -> (r: bool)
        ensures
            r == !(self@ is RunTools),
    {
        match self {
            Message::RunTools { .. } => false,
            _ => true,
        }
    }

    pub fn system(message: &str) -> (r: Self)
        ensures
            r@ == (MessageView::System { message: message@ }),
    {
        Message::System { message: String::from_str(message) }
    }

    pub fn user(message: &str) -> (r: Self)
        ensures
            r@ == (MessageView::User { message: message@ }),
    {
        Message::User { message: String::from_str(message) }
    }

    pub fn run_tools(calls: Vec<ToolCall>) -> (r: Self)
        ensures
            r@ == (MessageView::RunTools { calls: calls.deep_view() }),
    {
        Message::RunTools { calls }
    }

    pub fn agent(message: &str) -> (r: Self)
        ensures
            r@ == (MessageView::Agent { message: message@ }),
    {
        Message::Agent { message: String::from_str(message) }
    }

    pub fn tool_result(result: &str, call_id: &str) -> (r: Self)
        ensures
            r@ == (MessageView::ToolResult { result: result@, call_id: call_id@ }),
    {
        Message::ToolResult {
            result: String::from_str(result),
            call_id: String::from_str(call_id),
        }
    }

    pub fn text(&self) -> (r: String)
        ensures
            r@ == self@.spec_text(),
    {
        match self {
            Message::System { message } => message.clone(),
            Message::User { message } => message.clone(),
            Message::Agent { message } => message.clone(),
            Message::RunTools { .. } => String::new(),
            Message::ToolResult { result, .. } => result.clone(),
        }
    }
}

} // verus!
