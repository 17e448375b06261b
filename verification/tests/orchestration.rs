use agentloop::agent::{Agent, Script};
use agentloop::errors::{AgentError, BackendError, DispatchError, ExecutionError};
use agentloop::llm::{Message, ToolCall, LLM};
use agentloop::tool::{Argument, Executable, Tool};

fn echo_tool() -> Tool {
    Tool::bash("echo", "Run a shell command")
}

fn plain_agent(skills: Vec<Tool>) -> Agent {
    let llm = LLM::chatgpt("gpt-4-1106-preview");
    Agent::new("stuart", "an assistant", "You are my assistant.", &llm, skills)
}

#[test]
fn terminal_message_is_returned_as_final_answer() {
    // Scenario A: history [System("p"), User("hi")], backend answers Agent("hello").
    let agent = plain_agent(vec![]);
    let history = vec![Message::system("p"), Message::user("hi")];
    let mut script = Script::new(vec![Message::agent("hello")], vec![]);
    let r = agent.run(&history, &mut script, 10).unwrap();
    assert!(matches!(r, Message::Agent { .. }));
    assert_eq!(r.text(), "hello");
}

#[test]
fn start_seeds_purpose_and_request() {
    let agent = plain_agent(vec![]);
    let mut script = Script::new(vec![Message::agent("hello")], vec![]);
    let r = agent.start(String::from("hi"), &mut script, 10).unwrap();
    assert_eq!(r.text(), "hello");
}

#[test]
fn shell_tool_call_produces_tool_result_and_loop_continues() {
    // Scenario B: the dispatcher binds {"command":"hi"} into "{{command}}",
    // the shell run captures "hi\n", and the conversation continues.
    let agent = plain_agent(vec![echo_tool()]);
    let call = ToolCall::new("1", "echo", "{\"command\":\"hi\"}");
    let responses = vec![
        Message::run_tools(vec![call]),
        Message::agent("done"),
    ];
    let outputs = vec![String::from("hi\n")];
    let mut script = Script::new(responses, outputs);
    let history = vec![Message::system("p"), Message::user("hi")];
    let r = agent.run(&history, &mut script, 10).unwrap();
    assert_eq!(r.text(), "done");
}

#[test]
fn dispatcher_wraps_output_and_call_id() {
    // Scenario B, the dispatch itself: ToolResult{result:"hi\n", call_id:"1"}.
    let tool = echo_tool();
    let call = ToolCall::new("1", "echo", "{\"command\":\"hi\"}");
    let mut script = Script::new(vec![], vec![String::from("hi\n")]);
    let r = tool.execute(&call, &mut script, 10).unwrap();
    match r {
        Message::ToolResult { result, call_id } => {
            assert_eq!(result, "hi\n");
            assert_eq!(call_id, "1");
        }
        _ => panic!("expected a ToolResult"),
    }
}

#[test]
fn binding_substitutes_the_declared_value() {
    let tool = Tool::new(
        "greet",
        "greets",
        Executable::Bash(),
        "echo {{word}} twice: {{word}} {{word}}",
        vec![Argument::string("word", "what to say")],
    );
    let call = ToolCall::new("9", "greet", "{\"word\":\"hello\"}");
    let bound = tool.bind_arguments(&call).unwrap();
    assert_eq!(bound, "echo hello twice: hello hello");
}

#[test]
fn binding_ignores_undeclared_fields() {
    let tool = echo_tool();
    let call = ToolCall::new("2", "echo", "{\"command\":\"ls\",\"extra\":\"x\"}");
    assert_eq!(tool.bind_arguments(&call).unwrap(), "ls");
}

#[test]
fn missing_argument_is_invalid_argument() {
    let tool = echo_tool();
    let call = ToolCall::new("3", "echo", "{\"other\":\"hi\"}");
    assert_eq!(tool.bind_arguments(&call), Err(DispatchError::InvalidArgument));
}

#[test]
fn mistyped_argument_is_invalid_argument() {
    let tool = echo_tool();
    let call = ToolCall::new("3", "echo", "{\"command\":7}");
    assert_eq!(tool.bind_arguments(&call), Err(DispatchError::InvalidArgument));
}

#[test]
fn unknown_tool_aborts_the_conversation() {
    // Scenario C: a call to a name absent from the skills.
    let agent = plain_agent(vec![echo_tool()]);
    let call = ToolCall::new("1", "absent", "{}");
    let mut script = Script::new(
        vec![Message::run_tools(vec![call]), Message::agent("never")],
        vec![String::from("unused")],
    );
    let history = vec![Message::system("p"), Message::user("hi")];
    let r = agent.run(&history, &mut script, 10);
    assert_eq!(r.unwrap_err(), AgentError::Dispatch(DispatchError::UnknownTool));
}

#[test]
fn nested_agent_as_tool_returns_its_terminal_text() {
    // Scenario D: a nested agent invoked with prompt "do X" answers
    // Agent("done X"); the outer ToolResult carries "done X".
    let child = plain_agent(vec![]);
    let child_tool = child.as_tool();
    let call = ToolCall::new("7", "stuart", "{\"prompt\":\"do X\"}");
    let mut script = Script::new(vec![Message::agent("done X")], vec![]);
    let r = child_tool.execute(&call, &mut script, 10).unwrap();
    match r {
        Message::ToolResult { result, call_id } => {
            assert_eq!(result, "done X");
            assert_eq!(call_id, "7");
        }
        _ => panic!("expected a ToolResult"),
    }
}

#[test]
fn nested_agent_inside_a_full_conversation() {
    let child = plain_agent(vec![]);
    let parent = plain_agent(vec![child.as_tool()]);
    let call = ToolCall::new("7", "stuart", "{\"prompt\":\"do X\"}");
    let responses = vec![
        Message::run_tools(vec![call]),
        Message::agent("done X"),
        Message::agent("all finished"),
    ];
    let mut script = Script::new(responses, vec![]);
    let history = vec![Message::system("p"), Message::user("go")];
    let r = parent.run(&history, &mut script, 10).unwrap();
    assert_eq!(r.text(), "all finished");
}

#[test]
fn exhausted_backend_script_is_a_backend_error() {
    let agent = plain_agent(vec![]);
    let mut script = Script::new(vec![], vec![]);
    let history = vec![Message::system("p"), Message::user("hi")];
    let r = agent.run(&history, &mut script, 10);
    assert_eq!(r.unwrap_err(), AgentError::Backend(BackendError::Exhausted));
}

#[test]
fn exhausted_outputs_are_an_execution_error() {
    let agent = plain_agent(vec![echo_tool()]);
    let call = ToolCall::new("1", "echo", "{\"command\":\"hi\"}");
    let mut script = Script::new(vec![Message::run_tools(vec![call])], vec![]);
    let history = vec![Message::system("p"), Message::user("hi")];
    let r = agent.run(&history, &mut script, 10);
    assert_eq!(r.unwrap_err(), AgentError::Execution(ExecutionError::Exhausted));
}

#[test]
fn fuel_zero_fails_closed() {
    let agent = plain_agent(vec![]);
    let mut script = Script::new(vec![Message::agent("hello")], vec![]);
    let history = vec![Message::system("p"), Message::user("hi")];
    let r = agent.run(&history, &mut script, 0);
    assert_eq!(r.unwrap_err(), AgentError::LimitExceeded);
}

#[test]
fn tool_calls_run_in_order() {
    let agent = plain_agent(vec![echo_tool()]);
    let c1 = ToolCall::new("1", "echo", "{\"command\":\"a\"}");
    let c2 = ToolCall::new("2", "echo", "{\"command\":\"b\"}");
    let responses = vec![Message::run_tools(vec![c1, c2]), Message::agent("done")];
    let outputs = vec![String::from("out-a\n"), String::from("out-b\n")];
    let mut script = Script::new(responses, outputs);
    let history = vec![Message::system("p"), Message::user("hi")];
    let r = agent.run(&history, &mut script, 10).unwrap();
    assert_eq!(r.text(), "done");
    // both outputs were consumed, in order
    assert_eq!(script.oi, 2);
    assert_eq!(script.ri, 2);
}

#[test]
fn command_tool_binds_to_its_fixed_code() {
    let tool = Tool::command("list", "lists files", "ls -la");
    let call = ToolCall::new("5", "list", "{}");
    assert_eq!(tool.bind_arguments(&call).unwrap(), "ls -la");
}

#[test]
fn bound_command_has_no_placeholder_left() {
    let tool = Tool::new(
        "greet",
        "greets",
        Executable::Bash(),
        "say {{a}} then {{b}}",
        vec![Argument::string("a", "first"), Argument::string("b", "second")],
    );
    let call = ToolCall::new("8", "greet", "{\"a\":\"one\",\"b\":\"two\"}");
    let bound = tool.bind_arguments(&call).unwrap();
    assert_eq!(bound, "say one then two");
    assert!(!bound.contains("{{"));
}

#[test]
fn endless_tool_rounds_hit_the_round_limit() {
    let agent = plain_agent(vec![echo_tool()]);
    let call = ToolCall::new("1", "echo", "{\"command\":\"hi\"}");
    let responses = vec![
        Message::run_tools(vec![call]),
        Message::agent("never reached"),
    ];
    let mut script = Script::new(responses, vec![String::from("hi\n")]);
    let history = vec![Message::system("p"), Message::user("hi")];
    let r = agent.run(&history, &mut script, 1);
    assert_eq!(r.unwrap_err(), AgentError::LimitExceeded);
}
