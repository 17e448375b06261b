use agentloop::chatgpt::{
    ChatGpt, ChatGptChoice, ChatGptFunctionArgument, ChatGptMessage, ChatGptMessageResponse,
    ChatGptResponse, ChatGptTool, ChatGptToolCall, ChatGptToolFunction,
};
use agentloop::errors::{BackendError, ConfigError};
use agentloop::llm::{Message, ToolCall};
use agentloop::serialization;
use agentloop::strutil::replace_all;
use agentloop::tool::{Argument, Executable, Tool};

#[test]
fn only_run_tools_is_not_last() {
    assert!(Message::system("s").is_last());
    assert!(Message::user("u").is_last());
    assert!(Message::agent("a").is_last());
    assert!(Message::tool_result("r", "1").is_last());
    assert!(!Message::run_tools(vec![]).is_last());
}

#[test]
fn text_is_the_displayable_payload() {
    assert_eq!(Message::system("s").text(), "s");
    assert_eq!(Message::user("u").text(), "u");
    assert_eq!(Message::agent("a").text(), "a");
    assert_eq!(Message::tool_result("out", "1").text(), "out");
    assert_eq!(Message::run_tools(vec![]).text(), "");
}

#[test]
fn tool_call_accessors() {
    let c = ToolCall::new("id9", "echo", "{}");
    assert_eq!(c.id(), "id9");
    assert_eq!(c.arguments(), "{}");
    assert!(c.name_is_equal("echo"));
    assert!(!c.name_is_equal("other"));
}

#[test]
fn replace_all_replaces_every_occurrence() {
    assert_eq!(replace_all("a {{x}} b {{x}}", "{{x}}", "Y"), "a Y b Y");
    assert_eq!(replace_all("none here", "{{x}}", "Y"), "none here");
    assert_eq!(replace_all("abc", "", "Y"), "abc");
}

#[test]
fn schema_preserves_name_description_and_argument_names() {
    let tool = Tool::new(
        "lookup",
        "looks things up",
        Executable::Python(),
        "print({{a}}, {{b}})",
        vec![
            Argument::string("a", "first"),
            Argument::string("b", "second"),
        ],
    );
    let schema = ChatGptTool::from_tool(&tool);
    assert_eq!(schema.kind, "function");
    assert_eq!(schema.function.name, "lookup");
    assert_eq!(schema.function.description, "looks things up");
    assert_eq!(schema.function.parameters.kind, "object");
    let names: Vec<&str> = schema
        .function
        .parameters
        .properties
        .iter()
        .map(|p| p.0.as_str())
        .collect();
    assert_eq!(names, vec!["a", "b"]);
    let ChatGptFunctionArgument::String { description } = &schema.function.parameters.properties[0].1;
    assert_eq!(description, "first");
}

#[test]
fn messages_serialize_to_role_tagged_turns() {
    let m = ChatGptMessage::from_message(&Message::system("p"));
    assert!(matches!(m, ChatGptMessage::System { .. }));
    let m = ChatGptMessage::from_message(&Message::agent("hi"));
    match m {
        ChatGptMessage::Assistant { content, tool_calls } => {
            assert_eq!(content.as_deref(), Some("hi"));
            assert!(tool_calls.is_empty());
        }
        _ => panic!("expected an assistant turn"),
    }
    let call = ToolCall::new("1", "echo", "{\"command\":\"hi\"}");
    let m = ChatGptMessage::from_message(&Message::run_tools(vec![call]));
    match m {
        ChatGptMessage::Assistant { content, tool_calls } => {
            assert!(content.is_none());
            assert_eq!(tool_calls.len(), 1);
            assert_eq!(tool_calls[0].id, "1");
            assert_eq!(tool_calls[0].kind, "function");
            assert_eq!(tool_calls[0].function.name, "echo");
            assert_eq!(tool_calls[0].function.arguments, "{\"command\":\"hi\"}");
        }
        _ => panic!("expected an assistant turn"),
    }
    let m = ChatGptMessage::from_message(&Message::tool_result("out", "1"));
    match m {
        ChatGptMessage::Tool { content, tool_call_id } => {
            assert_eq!(content, "out");
            assert_eq!(tool_call_id, "1");
        }
        _ => panic!("expected a tool turn"),
    }
}

fn response_with(finish_reason: &str, content: Option<String>, tool_calls: Vec<ChatGptToolCall>) -> ChatGptResponse {
    ChatGptResponse {
        id: String::from("r1"),
        object: String::from("chat.completion"),
        created: 0,
        model: String::from("gpt-4-1106-preview"),
        choices: vec![ChatGptChoice {
            index: 0,
            finish_reason: String::from(finish_reason),
            message: ChatGptMessageResponse {
                role: String::from("assistant"),
                content,
                tool_calls,
            },
        }],
    }
}

#[test]
fn empty_choice_list_is_empty_response() {
    let response = ChatGptResponse {
        id: String::new(),
        object: String::new(),
        created: 0,
        model: String::new(),
        choices: vec![],
    };
    assert!(response.get_first_choice().is_none());
    match ChatGpt::interpret(&response) {
        Err(BackendError::EmptyResponse) => {}
        _ => panic!("expected an empty-response error"),
    }
}

#[test]
fn tool_call_finish_reason_becomes_run_tools() {
    let wire = ChatGptToolCall {
        id: String::from("1"),
        kind: String::from("function"),
        function: ChatGptToolFunction {
            name: String::from("echo"),
            arguments: String::from("{\"command\":\"hi\"}"),
        },
    };
    let response = response_with("tool_calls", None, vec![wire]);
    assert!(response.get_first_choice().unwrap().is_tool_calls());
    let m = ChatGpt::interpret(&response).unwrap();
    match m {
        Message::RunTools { calls } => {
            assert_eq!(calls.len(), 1);
            assert_eq!(calls[0].id(), "1");
            assert!(calls[0].name_is_equal("echo"));
            assert_eq!(calls[0].arguments(), "{\"command\":\"hi\"}");
        }
        _ => panic!("expected RunTools"),
    }
}

#[test]
fn plain_finish_becomes_terminal_agent_message() {
    let response = response_with("stop", Some(String::from("hello")), vec![]);
    let m = ChatGpt::interpret(&response).unwrap();
    assert!(m.is_last());
    assert_eq!(m.text(), "hello");
}

#[test]
fn omitted_content_defaults_to_empty_text() {
    let response = response_with("stop", None, vec![]);
    let m = ChatGpt::interpret(&response).unwrap();
    assert!(m.is_last());
    assert_eq!(m.text(), "");
}

fn raw_tool(executable: &str, kind: &str) -> serialization::Tool {
    serialization::Tool {
        name: String::from("greet"),
        description: String::from("greets"),
        arguments: vec![serialization::Argument {
            name: String::from("word"),
            description: String::from("what to say"),
            kind: String::from(kind),
        }],
        executable: String::from(executable),
        code: String::from("echo {{word}}"),
    }
}

#[test]
fn tool_definitions_validate_by_executable_and_kind() {
    let t = raw_tool("bash", "string").into().unwrap();
    assert!(matches!(t.executable, Executable::Bash()));
    assert_eq!(t.name, "greet");
    assert_eq!(t.code, "echo {{word}}");
    let t = raw_tool("python", "env").into().unwrap();
    assert!(matches!(t.executable, Executable::Python()));
    assert_eq!(
        raw_tool("perl", "string").into().unwrap_err(),
        ConfigError::UnknownExecutable
    );
    assert_eq!(
        raw_tool("bash", "number").into().unwrap_err(),
        ConfigError::UnknownArgumentKind
    );
}

#[test]
fn argument_definitions_validate_by_kind() {
    let a = serialization::Argument {
        name: String::from("word"),
        description: String::from("d"),
        kind: String::from("string"),
    };
    assert!(a.into().is_ok());
    let a = serialization::Argument {
        name: String::from("word"),
        description: String::from("d"),
        kind: String::from("float"),
    };
    assert_eq!(a.into().unwrap_err(), ConfigError::UnknownArgumentKind);
}

fn raw_agent(llm: &str, tools: Vec<&str>) -> serialization::Agent {
    serialization::Agent {
        name: String::from("stuart"),
        description: String::from("an assistant"),
        purpose: String::from("help"),
        llm: String::from(llm),
        tools: tools.into_iter().map(String::from).collect(),
    }
}

#[test]
fn agent_definitions_resolve_their_tool_references() {
    let registry = vec![raw_tool("bash", "string").into().unwrap()];
    let a = raw_agent("gpt-4-1106-preview", vec!["greet"]).into(&registry).unwrap();
    assert_eq!(a.name, "stuart");
    assert_eq!(a.skills.len(), 1);
    assert_eq!(a.skills[0].name, "greet");
    assert_eq!(
        raw_agent("gpt-5", vec![]).into(&registry).unwrap_err(),
        ConfigError::UnknownLlm
    );
    assert_eq!(
        raw_agent("gpt-4-1106-preview", vec!["absent"]).into(&registry).unwrap_err(),
        ConfigError::UnresolvedTool
    );
}
