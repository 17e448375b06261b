//! The agent orchestrator. An agent drives a conversation: query the backend,
//! append the response, and when the response asks for tools, dispatch each
//! call in order and continue; any other response is the final answer.
//!
//! The outside work — the backend completion and the shell or interpreter
//! runs — enters through an explicit `Script` of responses and outputs, so
//! the whole loop is a verified function of its inputs; a driver that performs
//! real network and process work supplies the same decisions one step at a
//! time through the public binding and interpretation functions.

use vstd::prelude::*;
use crate::errors::{AgentError, BackendError, DispatchError, ExecutionError};
use crate::llm::{Message, MessageView, ToolCall, ToolCallView, LlmView, LLM};
use crate::tool::{spec_bind, spec_tools_view, Argument, Executable, Tool, ToolView};

verus! {

/// The mathematical value of an `Agent`.
#[verifier::ext_equal]
pub ghost struct AgentView {
    pub name: Seq<char>,
    pub description: Seq<char>,
    pub purpose: Seq<char>,
    pub llm: LlmView,
    pub skills: Seq<ToolView>,
}

/// A named persona: a system purpose, a bound backend, and a skill set.
#[derive(Debug)]
pub struct Agent {
    pub name: String,
    pub description: String,
    pub purpose: String,
    pub llm: LLM,
    pub skills: Vec<Tool>,
}

pub open spec fn spec_agent_view(a: Agent) -> AgentView
    decreases a,
{
    AgentView {
        name: a.name@,
        description: a.description@,
        purpose: a.purpose@,
        llm: a.llm@,
        skills: spec_tools_view(a.skills),
    }
}

impl View for Agent {
    type V = AgentView;

    open spec fn view(&self) -> AgentView {
        spec_agent_view(*self)
    }
}

impl DeepView for Agent {
    type V = AgentView;

    open spec fn deep_view(&self) -> AgentView {
        self.view()
    }
}

pub(crate) fn clone_tools(tools: &Vec<Tool>) -> (r: Vec<Tool>)
    ensures
        r.deep_view() == tools.deep_view(),
    decreases tools,
{
    let mut out: Vec<Tool> = Vec::new();
    for i in 0..tools.len()
        invariant
            out.len() == i,
            forall|j: int| 0 <= j < i ==> #[trigger] out@[j]@ == tools@[j]@,
    {
        out.push(tools[i].clone());
    }
    proof {
        assert(out.deep_view() =~= tools.deep_view());
    }
    out
}

/// The views under `spec_tools_view` are exactly the element views.
pub proof fn lemma_tools_view_is_deep(ts: Vec<Tool>)
    ensures
        spec_tools_view(ts) == ts.deep_view(),
{
    assert(spec_tools_view(ts) =~= ts.deep_view());
}

impl Clone for Agent {
    fn clone(&self) -> (r: Self)
        ensures
            r@ == self@,
        decreases self,
    {
        let r = Agent {
            name: self.name.clone(),
            description: self.description.clone(),
            purpose: self.purpose.clone(),
            llm: self.llm.clone(),
            skills: clone_tools(&self.skills),
        };
        proof {
            lemma_tools_view_is_deep(r.skills);
            lemma_tools_view_is_deep(self.skills);
            assert(r@ =~= self@);
        }
        r
    }
}

fn clone_messages(messages: &Vec<Message>) -> (r: Vec<Message>)
    ensures
        r.deep_view() == messages.deep_view(),
{
    let mut out: Vec<Message> = Vec::new();
    for i in 0..messages.len()
        invariant
            out.len() == i,
            forall|j: int| 0 <= j < i ==> #[trigger] out@[j]@ == messages@[j]@,
    {
        out.push(messages[i].clone());
    }
    proof {
        assert(out.deep_view() =~= messages.deep_view());
    }
    out
}

/// The outside world of one run, as data: the backend's responses in order,
/// and the outputs of shell or interpreter runs in order, each with a cursor.
#[derive(Debug)]
pub struct Script {
    pub responses: Vec<Message>,
    pub outputs: Vec<String>,
    pub ri: usize,
    pub oi: usize,
}

/// The mathematical value of a `Script`.
#[verifier::ext_equal]
pub ghost struct ScriptView {
    pub responses: Seq<MessageView>,
    pub outputs: Seq<Seq<char>>,
    pub ri: int,
    pub oi: int,
}

impl View for Script {
    type V = ScriptView;

    open spec fn view(&self) -> ScriptView {
        ScriptView {
            responses: self.responses.deep_view(),
            outputs: self.outputs.deep_view(),
            ri: self.ri as int,
            oi: self.oi as int,
        }
    }
}

pub open spec fn advance_ri(s: ScriptView) -> ScriptView {
    ScriptView { responses: s.responses, outputs: s.outputs, ri: s.ri + 1, oi: s.oi }
}

pub open spec fn advance_oi(s: ScriptView) -> ScriptView {
    ScriptView { responses: s.responses, outputs: s.outputs, ri: s.ri, oi: s.oi + 1 }
}

impl Script {
    pub fn new(responses: Vec<Message>, outputs: Vec<String>) -> (r: Self)
        ensures
            r@ == (ScriptView {
                responses: responses.deep_view(),
                outputs: outputs.deep_view(),
                ri: 0,
                oi: 0,
            }),
    {
        Script { responses, outputs, ri: 0, oi: 0 }
    }

    pub fn next_response(&mut self) -> (r: Option<Message>)
        ensures
            old(self)@.ri < old(self)@.responses.len() ==> (r matches Some(m)
                && m@ == old(self)@.responses[old(self)@.ri]
                && final(self)@ == advance_ri(old(self)@)),
            old(self)@.ri >= old(self)@.responses.len() ==> (r is None && final(self)@ == old(
                self,
            )@),
    {
        let ghost s0 = self@;
        if self.ri < self.responses.len() {
            let m = self.responses[self.ri].clone();
            self.ri = self.ri + 1;
            proof {
                assert(self@ =~= advance_ri(s0));
            }
            Some(m)
        } else {
            None
        }
    }

    pub fn next_output(&mut self) -> (r: Option<String>)
        ensures
            old(self)@.oi < old(self)@.outputs.len() ==> (r matches Some(v)
                && v@ == old(self)@.outputs[old(self)@.oi]
                && final(self)@ == advance_oi(old(self)@)),
            old(self)@.oi >= old(self)@.outputs.len() ==> (r is None && final(self)@ == old(
                self,
            )@),
    {
        let ghost s0 = self@;
        if self.oi < self.outputs.len() {
            let v = self.outputs[self.oi].clone();
            self.oi = self.oi + 1;
            proof {
                assert(self@ =~= advance_oi(s0));
            }
            Some(v)
        } else {
            None
        }
    }
}

/// Maps an orchestration result to its mathematical value.
pub open spec fn result_msg_view(r: Result<Message, AgentError>) -> Result<
    MessageView,
    AgentError,
> {
    match r {
        Ok(m) => Ok(m@),
        Err(e) => Err(e),
    }
}

/// Maps an execution result to its mathematical value.
pub open spec fn result_str_view(r: Result<String, AgentError>) -> Result<Seq<char>, AgentError> {
    match r {
        Ok(s) => Ok(s@),
        Err(e) => Err(e),
    }
}

/// The first skill whose name equals `name`, if any.
pub open spec fn spec_find_skill(skills: Seq<Tool>, name: Seq<char>) -> Option<int>
    decreases skills.len(),
{
    if skills.len() == 0 {
        None
    } else if skills[0].name@ == name {
        Some(0int)
    } else {
        match spec_find_skill(skills.drop_first(), name) {
            Some(i) => Some(i + 1),
            None => None,
        }
    }
}

/// Taking the next scripted output.
pub open spec fn spec_next_output(s: ScriptView) -> (Result<Seq<char>, AgentError>, ScriptView) {
    if s.oi >= s.outputs.len() {
        (Err(AgentError::Execution(ExecutionError::Exhausted)), s)
    } else {
        (Ok(s.outputs[s.oi]), advance_oi(s))
    }
}

/// One whole conversation: consume a response; a terminal response is the
/// answer; a `RunTools` response has its calls dispatched in order and the
/// conversation continues with one round less of fuel.
pub open spec fn spec_run(agent: Agent, s: ScriptView, fuel: nat) -> (Result<
    MessageView,
    AgentError,
>, ScriptView)
    decreases fuel, 0int, 0int,
{
    if fuel == 0 {
        (Err(AgentError::LimitExceeded), s)
    } else if s.ri >= s.responses.len() {
        (Err(AgentError::Backend(BackendError::Exhausted)), s)
    } else {
        let resp = s.responses[s.ri];
        let s1 = advance_ri(s);
        match resp {
            MessageView::RunTools { calls } => {
                let t = spec_run_calls(agent, calls, s1, (fuel - 1) as nat);
                match t.0 {
                    Ok(u) => spec_run(agent, t.1, (fuel - 1) as nat),
                    Err(e) => (Err(e), t.1),
                }
            },
            _ => (Ok(resp), s1),
        }
    }
}

/// Dispatching a list of tool calls in order, stopping at the first failure.
pub open spec fn spec_run_calls(
    agent: Agent,
    calls: Seq<ToolCallView>,
    s: ScriptView,
    fuel: nat,
) -> (Result<(), AgentError>, ScriptView)
    decreases fuel, 3int, calls.len(),
{
    if calls.len() == 0 {
        (Ok(()), s)
    } else {
        match spec_find_skill(agent.skills@, calls[0].name) {
            None => (Err(AgentError::Dispatch(DispatchError::UnknownTool)), s),
            Some(i) => {
                let t = spec_run_one(agent.skills@[i], calls[0], s, fuel);
                match t.0 {
                    Err(e) => (Err(e), t.1),
                    Ok(m) => spec_run_calls(agent, calls.drop_first(), t.1, fuel),
                }
            },
        }
    }
}

/// Dispatching one call on its resolved tool: bind the arguments into the
/// template, run the executable, and wrap the output with the call id.
pub open spec fn spec_run_one(tool: Tool, call: ToolCallView, s: ScriptView, fuel: nat) -> (Result<
    MessageView,
    AgentError,
>, ScriptView)
    decreases fuel, 2int, 0int,
{
    match spec_bind(tool.code@, tool.arguments.deep_view(), call.arguments) {
        Err(d) => (Err(AgentError::Dispatch(d)), s),
        Ok(cmd) => {
            let t = spec_run_exec(tool.executable, s, fuel);
            match t.0 {
                Err(e) => (Err(e), t.1),
                Ok(out) => (Ok(MessageView::ToolResult { result: out, call_id: call.id }), t.1),
            }
        },
    }
}

/// Running a bound command on an executable: shell and interpreter outputs
/// come from the script; a nested agent runs its own conversation and answers
/// with the text of its terminal message.
pub open spec fn spec_run_exec(exe: Executable, s: ScriptView, fuel: nat) -> (Result<
    Seq<char>,
    AgentError,
>, ScriptView)
    decreases fuel, 1int, 0int,
{
    match exe {
        Executable::Bash() => spec_next_output(s),
        Executable::Python() => spec_next_output(s),
        Executable::Agent(a) => {
            let t = spec_run(a, s, fuel);
            match t.0 {
                Err(e) => (Err(e), t.1),
                Ok(m) => (Ok(m.spec_text()), t.1),
            }
        },
    }
}

pub(crate) proof fn lemma_find_skill_some(skills: Seq<Tool>, name: Seq<char>, i: int)
    requires
        0 <= i < skills.len(),
        skills[i].name@ == name,
        forall|j: int| 0 <= j < i ==> skills[j].name@ != name,
    ensures
        spec_find_skill(skills, name) == Some(i),
    decreases i,
{
    if i > 0 {
        lemma_find_skill_some(skills.drop_first(), name, i - 1);
    }
}

pub(crate) proof fn lemma_find_skill_none(skills: Seq<Tool>, name: Seq<char>)
    requires
        forall|j: int| 0 <= j < skills.len() ==> skills[j].name@ != name,
    ensures
        spec_find_skill(skills, name) is None,
    decreases skills.len(),
{
    if skills.len() > 0 {
        lemma_find_skill_none(skills.drop_first(), name);
    }
}

impl Executable {
    /// Run a bound command. Shell and interpreter work is outside work: its
    /// output is taken from the script. A nested agent runs its conversation
    /// against the same script and fuel.
    pub fn run(&self, code: &str, script: &mut Script, fuel: usize) -> (r: Result<
        String,
        AgentError,
    >)
        ensures
            ({
                let t = spec_run_exec(*self, old(script)@, fuel as nat);
                result_str_view(r) == t.0 && final(script)@ == t.1
            }),
        decreases fuel, 2int,
    {
        match self {
            Executable::Bash() => match script.next_output() {
                Some(out) => Ok(out),
                None => Err(AgentError::Execution(ExecutionError::Exhausted)),
            },
            Executable::Python() => match script.next_output() {
                Some(out) => Ok(out),
                None => Err(AgentError::Execution(ExecutionError::Exhausted)),
            },
            Executable::Agent(agent) => match agent.start(String::from_str(code), script, fuel) {
                Ok(m) => Ok(m.text()),
                Err(e) => Err(e),
            },
        }
    }
}

impl Tool {
    /// Resolve a call against this tool: bind its arguments into the code
    /// template, run the executable, and wrap the captured output and the
    /// call id into a `ToolResult`.
    pub fn execute(&self, call: &ToolCall, script: &mut Script, fuel: usize) -> (r: Result<
        Message,
        AgentError,
    >)
        ensures
            ({
                let t = spec_run_one(*self, call@, old(script)@, fuel as nat);
                result_msg_view(r) == t.0 && final(script)@ == t.1
            }),
        decreases fuel, 3int,
    {
        let command = match self.bind_arguments(call) {
            Ok(c) => c,
            Err(d) => {
                return Err(AgentError::Dispatch(d));
            },
        };
        let output = match self.executable.run(command.as_str(), script, fuel) {
            Ok(o) => o,
            Err(e) => {
                return Err(e);
            },
        };
        Ok(Message::tool_result(output.as_str(), call.id()))
    }
}

impl Agent {
    pub fn new(name: &str, description: &str, purpose: &str, llm: &LLM, skills: Vec<Tool>) -> (r:
        Self)
        ensures
            r.name@ == name@,
            r.description@ == description@,
            r.purpose@ == purpose@,
            r.llm@ == llm@,
            r.skills == skills,
    {
        Agent {
            name: String::from_str(name),
            description: String::from_str(description),
            purpose: String::from_str(purpose),
            skills,
            llm: llm.clone(),
        }
    }

    /// The first skill of this agent whose name is the call's target.
    pub fn find_skill(&self, call: &ToolCall) -> (r: Option<usize>)
        ensures
            match r {
                Some(j) => j < self.skills.len() && spec_find_skill(self.skills@, call@.name)
                    == Some(j as int),
                None => spec_find_skill(self.skills@, call@.name) is None,
            },
    {
        let n = self.skills.len();
        for j in 0..n
            invariant
                n == self.skills.len(),
                forall|k: int| 0 <= k < j ==> self.skills@[k].name@ != call@.name,
        {
            if call.name_is_equal(self.skills[j].name.as_str()) {
                proof {
                    lemma_find_skill_some(self.skills@, call@.name, j as int);
                }
                return Some(j);
            }
        }
        proof {
            lemma_find_skill_none(self.skills@, call@.name);
        }
        None
    }

    /// Begin a conversation on a request: the history opens with the agent's
    /// purpose as the system turn and the request as the user turn.
    pub fn start(&self, request: String, script: &mut Script, fuel: usize) -> (r: Result<
        Message,
        AgentError,
    >)
        ensures
            ({
                let t = spec_run(*self, old(script)@, fuel as nat);
                result_msg_view(r) == t.0 && final(script)@ == t.1
            }),
        decreases fuel, 1int,
    {
        let mut messages: Vec<Message> = Vec::new();
        messages.push(Message::system(self.purpose.as_str()));
        messages.push(Message::user(request.as_str()));
        self.run(&messages, script, fuel)
    }

    /// Drive the conversation whose history is `messages`: consume the next
    /// backend response; if it asks for tools, dispatch each call in order,
    /// append every result, and continue with one round less of fuel; any
    /// other response is the final answer.
    pub fn run(&self, messages: &Vec<Message>, script: &mut Script, fuel: usize) -> (r: Result<
        Message,
        AgentError,
    >)
        ensures
            ({
                let t = spec_run(*self, old(script)@, fuel as nat);
                result_msg_view(r) == t.0 && final(script)@ == t.1
            }),
        decreases fuel, 0int,
    {
        if fuel == 0 {
            return Err(AgentError::LimitExceeded);
        }
        let ghost s0 = script@;
        let response = match script.next_response() {
            Some(m) => m,
            None => {
                return Err(AgentError::Backend(BackendError::Exhausted));
            },
        };
        let mut results = clone_messages(messages);
        results.push(response.clone());
        match response {
            Message::RunTools { calls } => {
                let ghost s1 = script@;
                let ghost cv = calls.deep_view();
                proof {
                    assert(s0.responses[s0.ri] == MessageView::RunTools { calls: cv });
                    assert(cv.skip(0) =~= cv);
                }
                let mut i: usize = 0;
                while i < calls.len()
                    invariant
                        i <= calls.len(),
                        fuel >= 1,
                        cv == calls.deep_view(),
                        s0 == old(script)@,
                        0 <= s0.ri < s0.responses.len(),
                        s0.responses[s0.ri] == (MessageView::RunTools { calls: cv }),
                        s1 == advance_ri(s0),
                        spec_run_calls(*self, cv, s1, (fuel - 1) as nat) == spec_run_calls(
                            *self,
                            cv.skip(i as int),
                            script@,
                            (fuel - 1) as nat,
                        ),
                    decreases calls.len() - i,
                {
                    let ghost i0 = i as int;
                    let ghost sc0 = script@;
                    let call = &calls[i];
                    proof {
                        assert(cv.skip(i0)[0] == cv[i0]);
                        assert(cv[i0] == calls@[i0]@);
                    }
                    let ti = match self.find_skill(call) {
                        Some(j) => j,
                        None => {
                            return Err(AgentError::Dispatch(DispatchError::UnknownTool));
                        },
                    };
                    let tool = &self.skills[ti];
                    let message = match tool.execute(call, script, fuel - 1) {
                        Ok(m) => m,
                        Err(e) => {
                            return Err(e);
                        },
                    };
                    results.push(message);
                    i = i + 1;
                    proof {
                        assert(cv.skip(i0).drop_first() =~= cv.skip(i0 + 1));
                        assert(spec_run_calls(*self, cv.skip(i0), sc0, (fuel - 1) as nat)
                            == spec_run_calls(*self, cv.skip(i0 + 1), script@, (fuel - 1) as nat));
                    }
                }
                proof {
                    assert(cv.skip(calls.len() as int) =~= Seq::<ToolCallView>::empty());
                }
                self.run(&results, script, fuel - 1)
            },
            _ => Ok(response),
        }
    }

    /// Wrap this agent as a tool with a single free-text `prompt` argument;
    /// invoking the tool starts a nested conversation on the agent.
    pub fn as_tool(self) -> (r: Tool)
        ensures
            r.name@ == self.name@,
            r.description@ == self.description@,
            r.executable == Executable::Agent(self),
            r.code@ == "{{prompt}}"@,
            r.arguments.deep_view() =~= seq![
                crate::tool::ArgumentView {
                    name: "prompt"@,
                    description: "Prompt to tell the tool what to do"@,
                    kind: crate::tool::ArgumentKind::String(),
                },
            ],
    {
        let name = self.name.clone();
        let description = self.description.clone();
        let mut arguments: Vec<Argument> = Vec::new();
        arguments.push(Argument::string("prompt", "Prompt to tell the tool what to do"));
        let r = Tool::new(
            name.as_str(),
            description.as_str(),
            Executable::Agent(self),
            "{{prompt}}",
            arguments,
        );
        proof {
            assert(r.arguments.deep_view() =~= seq![
                crate::tool::ArgumentView {
                    name: "prompt"@,
                    description: "Prompt to tell the tool what to do"@,
                    kind: crate::tool::ArgumentKind::String(),
                },
            ]);
        }
        r
    }
}

/// A call that resolves to a shell or interpreter tool of the agent and whose
/// arguments bind into that tool's template.
pub open spec fn call_ok(agent: Agent, c: ToolCallView) -> bool {
    match spec_find_skill(agent.skills@, c.name) {
        None => false,
        Some(i) => {
            let t = agent.skills@[i];
            !(t.executable is Agent) && spec_bind(t.code@, t.arguments.deep_view(), c.arguments)
                is Ok
        },
    }
}

pub open spec fn all_calls_ok(agent: Agent, calls: Seq<ToolCallView>) -> bool {
    forall|j: int| 0 <= j < calls.len() ==> call_ok(agent, #[trigger] calls[j])
}

/// How many tool calls a response asks for.
pub open spec fn spec_calls_of(m: MessageView) -> nat {
    match m {
        MessageView::RunTools { calls } => calls.len(),
        _ => 0,
    }
}

/// The total number of tool calls asked for by `resp[from .. to]`.
pub open spec fn spec_total_calls(resp: Seq<MessageView>, from: int, to: int) -> nat
    decreases to - from,
{
    if from >= to {
        0
    } else {
        spec_calls_of(resp[from]) + spec_total_calls(resp, from + 1, to)
    }
}

/// Dispatching a list of calls that all resolve to shell or interpreter tools
/// and bind succeeds, consumes one scripted output per call, and consumes no
/// response.
proof fn lemma_find_skill_in_range(skills: Seq<Tool>, name: Seq<char>)
    ensures
        spec_find_skill(skills, name) matches Some(i) ==> 0 <= i < skills.len()
            && skills[i].name@ == name,
    decreases skills.len(),
{
    if skills.len() > 0 && skills[0].name@ != name {
        lemma_find_skill_in_range(skills.drop_first(), name);
    }
}

/// Dispatching a list of calls that all resolve to shell or interpreter tools
/// and bind succeeds, consumes one scripted output per call, and consumes no
/// response.
proof fn lemma_run_calls_ok(agent: Agent, calls: Seq<ToolCallView>, s: ScriptView, fuel: nat)
    requires
        all_calls_ok(agent, calls),
        s.oi + calls.len() <= s.outputs.len(),
        0 <= s.oi,
    ensures
        spec_run_calls(agent, calls, s, fuel) == ((Ok::<(), AgentError>(()), ScriptView {
            responses: s.responses,
            outputs: s.outputs,
            ri: s.ri,
            oi: s.oi + calls.len(),
        })),
    decreases calls.len(),
{
    let ghost target = ScriptView {
        responses: s.responses,
        outputs: s.outputs,
        ri: s.ri,
        oi: s.oi + calls.len(),
    };
    if calls.len() == 0 {
        assert(s =~= target);
    } else {
        assert(call_ok(agent, calls[0]));
        lemma_find_skill_in_range(agent.skills@, calls[0].name);
        let i = spec_find_skill(agent.skills@, calls[0].name)->Some_0;
        let t = agent.skills@[i];
        assert(s.oi < s.outputs.len());
        let s2 = advance_oi(s);
        if t.executable is Bash {
            assert(spec_run_exec(t.executable, s, fuel) == (
                Ok::<Seq<char>, AgentError>(s.outputs[s.oi]),
                s2,
            ));
        } else {
            assert(t.executable is Python);
            assert(spec_run_exec(t.executable, s, fuel) == (
                Ok::<Seq<char>, AgentError>(s.outputs[s.oi]),
                s2,
            ));
        }
        assert(spec_run_one(t, calls[0], s, fuel).0 is Ok);
        assert(spec_run_one(t, calls[0], s, fuel).1 == s2);
        assert(all_calls_ok(agent, calls.drop_first())) by {
            assert forall|j: int|
                0 <= j < calls.drop_first().len() implies call_ok(
                agent,
                #[trigger] calls.drop_first()[j],
            ) by {
                assert(calls.drop_first()[j] == calls[j + 1]);
            }
        }
        lemma_run_calls_ok(agent, calls.drop_first(), s2, fuel);
        assert(spec_run_calls(agent, calls.drop_first(), s2, fuel).1 =~= target);
    }
}

/// The loop terminates and returns the backend's final word: for every
/// scripted backend whose responses end in a terminal (non-`RunTools`) message,
/// with every earlier response a `RunTools` turn whose calls all resolve to
/// shell or interpreter tools of the agent and bind, enough scripted outputs
/// for those calls, and fuel at least the number of responses, the
/// orchestration returns exactly that final message. Termination itself needs
/// no hypothesis: every run function is proved total.
pub proof fn lemma_run_returns_final_response(agent: Agent, s: ScriptView, fuel: nat)
    requires
        0 <= s.ri < s.responses.len(),
        0 <= s.oi,
        !(s.responses.last() is RunTools),
        forall|j: int| s.ri <= j < s.responses.len() - 1 ==> (#[trigger] s.responses[j] matches
            MessageView::RunTools { calls } && all_calls_ok(agent, calls)),
        s.oi + spec_total_calls(s.responses, s.ri, s.responses.len() - 1) <= s.outputs.len(),
        fuel >= s.responses.len() - s.ri,
    ensures
        spec_run(agent, s, fuel).0 == Ok::<MessageView, AgentError>(s.responses.last()),
    decreases s.responses.len() - s.ri,
{
    let resp = s.responses[s.ri];
    let s1 = advance_ri(s);
    if s.ri == s.responses.len() - 1 {
        assert(resp == s.responses.last());
    } else {
        assert(s.responses[s.ri] matches MessageView::RunTools { calls } && all_calls_ok(
            agent,
            calls,
        ));
        let calls = resp->RunTools_calls;
        assert(spec_total_calls(s.responses, s.ri, s.responses.len() - 1) == calls.len()
            + spec_total_calls(s.responses, s.ri + 1, s.responses.len() - 1));
        lemma_run_calls_ok(agent, calls, s1, (fuel - 1) as nat);
        let s2 = ScriptView {
            responses: s.responses,
            outputs: s.outputs,
            ri: s.ri + 1,
            oi: s.oi + calls.len(),
        };
        lemma_run_returns_final_response(agent, s2, (fuel - 1) as nat);
    }
}

} // verus!
