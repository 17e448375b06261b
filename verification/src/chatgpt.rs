//! The backend adapter for the ChatGPT-style wire format. It translates the
//! neutral message and tool types into role-tagged turns and function
//! schemas, and interprets a provider response as exactly one new message:
//! `RunTools` when the completion finished on tool calls, a terminal agent
//! answer otherwise. A driver that performs the actual request serializes and
//! parses these wire values unchanged.

use vstd::prelude::*;
use vstd::seq_lib::*;
use crate::errors::BackendError;
use crate::llm::{Message, MessageView, ToolCall, ToolCallView};
use crate::strutil::str_eq;
use crate::tool::{ArgumentKind, ArgumentView, Tool, ToolView};

verus! {

/// The adapter itself; stateless.
#[derive(Debug)]
pub struct ChatGpt {}

/// One role-tagged turn of the provider's request format.
#[derive(Debug)]
pub enum ChatGptMessage {
    System { content: String },
    User { content: String },
    Assistant { content: Option<String>, tool_calls: Vec<ChatGptToolCall> },
    Tool { content: String, tool_call_id: String },
}

/// A tool call as the provider writes it.
#[derive(Debug)]
pub struct ChatGptToolCall {
    pub id: String,
    pub kind: String,
    pub function: ChatGptToolFunction,
}

#[derive(Debug)]
pub struct ChatGptToolFunction {
    pub name: String,
    pub arguments: String,
}

/// A tool as a provider function schema.
#[derive(Debug)]
pub struct ChatGptTool {
    pub kind: String,
    pub function: ChatGptFunction,
}

#[derive(Debug)]
pub struct ChatGptFunction {
    pub description: String,
    pub name: String,
    pub parameters: ChatGptObjectParameter,
}

/// One declared parameter in a function schema, by provider type tag.
#[derive(Debug)]
pub enum ChatGptFunctionArgument {
    String { description: String },
}

/// The parameter object of a function schema: named properties in order.
#[derive(Debug)]
pub struct ChatGptObjectParameter {
    pub kind: String,
    pub properties: Vec<(String, ChatGptFunctionArgument)>,
}

/// The provider's parsed response body.
#[derive(Debug)]
pub struct ChatGptResponse {
    pub id: String,
    pub object: String,
    pub created: i64,
    pub model: String,
    pub choices: Vec<ChatGptChoice>,
}

#[derive(Debug)]
pub struct ChatGptChoice {
    pub index: i64,
    pub finish_reason: String,
    pub message: ChatGptMessageResponse,
}

#[derive(Debug)]
pub struct ChatGptMessageResponse {
    pub role: String,
    pub content: Option<String>,
    pub tool_calls: Vec<ChatGptToolCall>,
}

/// A wire tool call carries the call id, the target name and the raw
/// serialized arguments of the neutral call, under the `function` type tag.
pub open spec fn call_wire_matches(w: ChatGptToolCall, c: ToolCallView) -> bool {
    w.id@ == c.id && w.kind@ == "function"@ && w.function.name@ == c.name
        && w.function.arguments@ == c.arguments
}

/// How each neutral message is written as a role-tagged turn.
pub open spec fn message_wire_matches(w: ChatGptMessage, m: MessageView) -> bool {
    match m {
        MessageView::System { message } => w matches ChatGptMessage::System { content }
            && content@ == message,
        MessageView::User { message } => w matches ChatGptMessage::User { content } && content@
            == message,
        MessageView::Agent { message } => w matches ChatGptMessage::Assistant {
            content,
            tool_calls,
        } && content matches Some(c) && c@ == message && tool_calls@.len() == 0,
        MessageView::RunTools { calls } => w matches ChatGptMessage::Assistant {
            content,
            tool_calls,
        } && content is None && tool_calls@.len() == calls.len() && (forall|i: int|
            0 <= i < calls.len() ==> call_wire_matches(#[trigger] tool_calls@[i], calls[i])),
        MessageView::ToolResult { result, call_id } => w matches ChatGptMessage::Tool {
            content,
            tool_call_id,
        } && content@ == result && tool_call_id@ == call_id,
    }
}

/// One named property of a function schema stands for one declared argument.
pub open spec fn property_matches(p: (String, ChatGptFunctionArgument), a: ArgumentView) -> bool {
    p.0@ == a.name && (p.1 matches ChatGptFunctionArgument::String { description } && description@
        == a.description) && a.kind == ArgumentKind::String()
}

/// How a tool is written as a function schema: a named, described function
/// whose parameter object lists each declared argument by name.
pub open spec fn schema_wire_matches(w: ChatGptTool, t: ToolView) -> bool {
    w.kind@ == "function"@ && w.function.name@ == t.name && w.function.description@
        == t.description && w.function.parameters.kind@ == "object"@
        && w.function.parameters.properties@.len() == t.arguments.len() && (forall|i: int|
        0 <= i < t.arguments.len() ==> property_matches(
            #[trigger] w.function.parameters.properties@[i],
            t.arguments[i],
        ))
}

impl ChatGptMessage {
    pub fn system(content: &str) -> (r: Self)
        ensures
            r matches ChatGptMessage::System { content: c } && c@ == content@,
    {
        ChatGptMessage::System { content: String::from_str(content) }
    }

    pub fn user(content: &str) -> (r: Self)
        ensures
            r matches ChatGptMessage::User { content: c } && c@ == content@,
    {
        ChatGptMessage::User { content: String::from_str(content) }
    }

    pub fn agent(content: Option<String>, tool_calls: Vec<ChatGptToolCall>) -> (r: Self)
        ensures
            r matches ChatGptMessage::Assistant { content: c, tool_calls: tc } && c == content
                && tc == tool_calls,
    {
        ChatGptMessage::Assistant { content, tool_calls }
    }

    pub fn tool(content: &str, tool_call_id: &str) -> (r: Self)
        ensures
            r matches ChatGptMessage::Tool { content: c, tool_call_id: i } && c@ == content@ && i@
                == tool_call_id@,
    {
        ChatGptMessage::Tool {
            content: String::from_str(content),
            tool_call_id: String::from_str(tool_call_id),
        }
    }

    /// Write one neutral message as its role-tagged turn.
    pub fn from_message(m: &Message) -> (r: Self)
        ensures
            message_wire_matches(r, m@),
    {
        match m {
            Message::System { message } => Self::system(message.as_str()),
            Message::User { message } => Self::user(message.as_str()),
            Message::Agent { message } => Self::agent(Some(message.clone()), Vec::new()),
            Message::RunTools { calls } => {
                let mut tool_calls: Vec<ChatGptToolCall> = Vec::new();
                let n = calls.len();
                for i in 0..n
                    invariant
                        n == calls.len(),
                        tool_calls@.len() == i,
                        forall|j: int|
                            0 <= j < i ==> call_wire_matches(
                                #[trigger] tool_calls@[j],
                                calls@[j]@,
                            ),
                {
                    tool_calls.push(ChatGptToolCall::from_call(&calls[i]));
                }
                Self::agent(None, tool_calls)
            },
            Message::ToolResult { result, call_id } => Self::tool(
                result.as_str(),
                call_id.as_str(),
            ),
        }
    }
}

impl ChatGptToolCall {
    /// Write one neutral tool call in the provider's shape.
    pub fn from_call(c: &ToolCall) -> (r: Self)
        ensures
            call_wire_matches(r, c@),
    {
        ChatGptToolCall {
            id: c.id.clone(),
            kind: String::from_str("function"),
            function: ChatGptToolFunction { name: c.name.clone(), arguments: c.arguments.clone() },
        }
    }
}

impl ChatGptObjectParameter {
    pub fn new(arguments: Vec<(String, ChatGptFunctionArgument)>) -> (r: Self)
        ensures
            r.kind@ == "object"@,
            r.properties == arguments,
    {
        ChatGptObjectParameter { kind: String::from_str("object"), properties: arguments }
    }
}

impl ChatGptFunctionArgument {
    pub fn from_argument(a: &crate::tool::Argument) -> (r: Self)
        ensures
            r matches ChatGptFunctionArgument::String { description } && description@
                == a.description@,
    {
        match a.kind {
            ArgumentKind::String() => ChatGptFunctionArgument::String {
                description: a.description.clone(),
            },
        }
    }
}

impl ChatGptTool {
    /// Write one tool as the provider's function schema.
    pub fn from_tool(t: &Tool) -> (r: Self)
        ensures
            schema_wire_matches(r, t@),
    {
        let mut properties: Vec<(String, ChatGptFunctionArgument)> = Vec::new();
        let n = t.arguments.len();
        for i in 0..n
            invariant
                n == t.arguments.len(),
                properties@.len() == i,
                forall|j: int|
                    0 <= j < i ==> property_matches(#[trigger] properties@[j], t.arguments@[j]@),
        {
            let a = &t.arguments[i];
            properties.push((a.name.clone(), ChatGptFunctionArgument::from_argument(a)));
        }
        ChatGptTool {
            kind: String::from_str("function"),
            function: ChatGptFunction {
                name: t.name.clone(),
                description: t.description.clone(),
                parameters: ChatGptObjectParameter::new(properties),
            },
        }
    }
}

impl ChatGptResponse {
    pub fn get_first_choice(&self) -> (r: Option<&ChatGptChoice>)
        ensures
            self.choices@.len() == 0 ==> r is None,
            self.choices@.len() > 0 ==> (r matches Some(c) && *c == self.choices@[0]),
    {
        if self.choices.len() == 0 {
            return None;
        }
        Some(&self.choices[0])
    }
}

impl ChatGptChoice {
    pub fn is_tool_calls(&self) -> (r: bool)
        ensures
            r == (self.finish_reason@ == "tool_calls"@),
    {
        str_eq(self.finish_reason.as_str(), "tool_calls")
    }
}

/// The neutral tool call a wire tool call stands for.
pub open spec fn wire_call_view(w: ChatGptToolCall) -> ToolCallView {
    ToolCallView { id: w.id@, name: w.function.name@, arguments: w.function.arguments@ }
}

/// A completion's content, defaulting to the empty string when omitted.
pub open spec fn spec_content_or_empty(c: Option<String>) -> Seq<char> {
    match c {
        Some(s) => s@,
        None => Seq::<char>::empty(),
    }
}

/// What interpreting a provider response yields: `EmptyResponse` without a
/// candidate completion; `RunTools` with one call per requested invocation
/// when the first choice finished on tool calls, the raw arguments passed
/// through unvalidated; otherwise the terminal agent answer.
pub open spec fn spec_interpret(r: ChatGptResponse) -> Result<MessageView, BackendError> {
    if r.choices@.len() == 0 {
        Err(BackendError::EmptyResponse)
    } else {
        let c = r.choices@[0];
        if c.finish_reason@ == "tool_calls"@ {
            Ok(MessageView::RunTools {
                calls: Seq::new(
                    c.message.tool_calls@.len(),
                    |i: int| wire_call_view(c.message.tool_calls@[i]),
                ),
            })
        } else {
            Ok(MessageView::Agent { message: spec_content_or_empty(c.message.content) })
        }
    }
}

/// Maps an interpretation result to its mathematical value.
pub open spec fn backend_result_view(r: Result<Message, BackendError>) -> Result<
    MessageView,
    BackendError,
> {
    match r {
        Ok(m) => Ok(m@),
        Err(e) => Err(e),
    }
}

impl ChatGpt {
    /// Interpret a provider response as the one new message of this turn.
    pub fn interpret(response: &ChatGptResponse) -> (r: Result<Message, BackendError>)
        ensures
            backend_result_view(r) == spec_interpret(*response),
    {
        let choice = match response.get_first_choice() {
            Some(c) => c,
            None => {
                return Err(BackendError::EmptyResponse);
            },
        };
        if choice.is_tool_calls() {
            let mut calls: Vec<ToolCall> = Vec::new();
            let n = choice.message.tool_calls.len();
            for i in 0..n
                invariant
                    n == choice.message.tool_calls@.len(),
                    calls@.len() == i,
                    *choice == response.choices@[0],
                    forall|j: int|
                        0 <= j < i ==> #[trigger] calls@[j]@ == wire_call_view(
                            choice.message.tool_calls@[j],
                        ),
            {
                let w = &choice.message.tool_calls[i];
                calls.push(
                    ToolCall::new(w.id.as_str(), w.function.name.as_str(), w.function.arguments.as_str()),
                );
            }
            let m = Message::run_tools(calls);
            proof {
                assert(m@ =~= MessageView::RunTools {
                    calls: Seq::new(
                        response.choices@[0].message.tool_calls@.len(),
                        |i: int| wire_call_view(response.choices@[0].message.tool_calls@[i]),
                    ),
                });
            }
            Ok(m)
        } else {
            match &choice.message.content {
                Some(content) => Ok(Message::agent(content.as_str())),
                None => {
                    let m = Message::agent("");
                    proof {
                        reveal_strlit("");
                        assert(""@ =~= Seq::<char>::empty());
                    }
                    Ok(m)
                },
            }
        }
    }
}

/// Round trip: the function schema written for a tool preserves the tool's
/// name, its description, and the set of its argument names, so reading those
/// back from the schema recovers them exactly.
pub proof fn lemma_schema_round_trip(w: ChatGptTool, t: ToolView)
    requires
        schema_wire_matches(w, t),
    ensures
        w.function.name@ == t.name,
        w.function.description@ == t.description,
        w.function.parameters.properties@.map_values(|p: (String, ChatGptFunctionArgument)| p.0@)
            .to_set() == t.arguments.map_values(|a: ArgumentView| a.name).to_set(),
{
    let ps = w.function.parameters.properties@.map_values(
        |p: (String, ChatGptFunctionArgument)| p.0@,
    );
    let ns = t.arguments.map_values(|a: ArgumentView| a.name);
    assert forall|i: int| 0 <= i < ps.len() implies ps[i] == ns[i] by {
        assert(property_matches(w.function.parameters.properties@[i], t.arguments[i]));
    }
    assert(ps =~= ns);
}

} // verus!
