//! The tool model: a declared argument list, an executable binding, and a
//! code template with `{{name}}` placeholders. Binding a tool call reads each
//! declared argument out of the call's JSON argument object and substitutes
//! its placeholder in the template.

use vstd::prelude::*;
use vstd::pervasive::arbitrary;
use crate::agent::{spec_agent_view, Agent, AgentView};
use crate::errors::DispatchError;
use crate::jsonarg::{get_string_field, json_string_field};
use crate::llm::ToolCall;
use crate::strutil::{
    all_no_brace, contains_seq, interleave_filled, interleave_template, lemma_filled_no_brace,
    lemma_no_brace_concat, lemma_no_brace_no_placeholder, lemma_replace_noop_if_absent,
    lemma_replace_prefix, lemma_template_no_placeholder, no_brace,
    placeholder, replace_all, spec_placeholder, spec_replace,
};

verus! {

/// A system prompt or a tool description.
pub type Purpose = String;

/// The kind of a declared argument; an open tag, today only `String`.
#[derive(Debug, Clone, Copy, PartialEq, Eq, Structural)]
pub enum ArgumentKind {
    String(),
}

/// One declared argument of a tool.
#[derive(Debug)]
pub struct Argument {
    pub name: String,
    pub description: String,
    pub kind: ArgumentKind,
}

/// The mathematical value of an `Argument`.
#[verifier::ext_equal]
pub ghost struct ArgumentView {
    pub name: Seq<char>,
    pub description: Seq<char>,
    pub kind: ArgumentKind,
}

impl View for Argument {
    type V = ArgumentView;

    open spec fn view(&self) -> ArgumentView {
        ArgumentView { name: self.name@, description: self.description@, kind: self.kind }
    }
}

impl DeepView for Argument {
    type V = ArgumentView;

    open spec fn deep_view(&self) -> ArgumentView {
        self.view()
    }
}

impl Clone for Argument {
    fn clone(&self) -> (r: Self)
        ensures
            r@ == self@,
    {
        Argument {
            name: self.name.clone(),
            description: self.description.clone(),
            kind: self.kind,
        }
    }
}

impl Argument {
    pub fn string(name: &str, description: &str) -> (r: Self)
        ensures
            r@ == (ArgumentView {
                name: name@,
                description: description@,
                kind: ArgumentKind::String(),
            }),
    {
        Argument {
            name: String::from_str(name),
            description: String::from_str(description),
            kind: ArgumentKind::String(),
        }
    }
}

/// A bound value for an argument, by kind.
#[derive(Debug)]
pub enum ArgumentValue {
    String(String),
}

/// The concrete runner behind a tool: a shell, a script interpreter, or a
/// nested agent.
#[derive(Debug)]
pub enum Executable {
    Bash(),
    Agent(Agent),
    Python(),
}

/// The mathematical value of an `Executable`.
#[verifier::ext_equal]
pub ghost enum ExecutableView {
    Bash,
    Agent(AgentView),
    Python,
}

pub open spec fn spec_executable_view(e: Executable) -> ExecutableView
    decreases e,
{
    match e {
        Executable::Bash() => ExecutableView::Bash,
        Executable::Python() => ExecutableView::Python,
        Executable::Agent(a) => ExecutableView::Agent(spec_agent_view(a)),
    }
}

impl View for Executable {
    type V = ExecutableView;

    open spec fn view(&self) -> ExecutableView {
        spec_executable_view(*self)
    }
}

impl DeepView for Executable {
    type V = ExecutableView;

    open spec fn deep_view(&self) -> ExecutableView {
        self.view()
    }
}

/// An invocable capability: name, description, declared arguments, the
/// executable binding, and the code template.
#[derive(Debug)]
pub struct Tool {
    pub name: String,
    pub description: Purpose,
    pub arguments: Vec<Argument>,
    pub executable: Executable,
    pub code: String,
}

/// The mathematical value of a `Tool`.
#[verifier::ext_equal]
pub ghost struct ToolView {
    pub name: Seq<char>,
    pub description: Seq<char>,
    pub arguments: Seq<ArgumentView>,
    pub executable: ExecutableView,
    pub code: Seq<char>,
}

pub open spec fn spec_tool_view(t: Tool) -> ToolView
    decreases t,
{
    ToolView {
        name: t.name@,
        description: t.description@,
        arguments: t.arguments.deep_view(),
        executable: spec_executable_view(t.executable),
        code: t.code@,
    }
}

pub open spec fn spec_tools_view(ts: Vec<Tool>) -> Seq<ToolView>
    decreases ts,
{
    Seq::new(
        ts@.len(),
        |i: int|
            if 0 <= i < ts@.len() {
                spec_tool_view(ts@[i])
            } else {
                arbitrary()
            },
    )
}

impl View for Tool {
    type V = ToolView;

    open spec fn view(&self) -> ToolView {
        spec_tool_view(*self)
    }
}

impl DeepView for Tool {
    type V = ToolView;

    open spec fn deep_view(&self) -> ToolView {
        self.view()
    }
}

pub(crate) fn clone_arguments(arguments: &Vec<Argument>) -> (r: Vec<Argument>)
    ensures
        r.deep_view() == arguments.deep_view(),
{
    let mut out: Vec<Argument> = Vec::new();
    for i in 0..arguments.len()
        invariant
            out.len() == i,
            forall|j: int| 0 <= j < i ==> #[trigger] out@[j]@ == arguments@[j]@,
    {
        out.push(arguments[i].clone());
    }
    proof {
        assert(out.deep_view() =~= arguments.deep_view());
    }
    out
}

impl Clone for Tool {
    fn clone(&self) -> (r: Self)
        ensures
            r@ == self@,
        decreases self,
    {
        Tool {
            name: self.name.clone(),
            description: self.description.clone(),
            arguments: clone_arguments(&self.arguments),
            executable: self.executable.clone(),
            code: self.code.clone(),
        }
    }
}

impl Clone for Executable {
    fn clone(&self) -> (r: Self)
        ensures
            r@ == self@,
        decreases self,
    {
        match self {
            Executable::Bash() => Executable::Bash(),
            Executable::Python() => Executable::Python(),
            Executable::Agent(a) => Executable::Agent(a.clone()),
        }
    }
}

/// How binding the declared `args` against the JSON object text `json`
/// rewrites the template `code`: each argument's string value is read from
/// the object and substituted for its `{{name}}` placeholder, left to right;
/// a missing or non-string field fails the binding.
pub open spec fn spec_bind(
    code: Seq<char>,
    args: Seq<ArgumentView>,
    json: Seq<char>,
) -> Result<Seq<char>, DispatchError>
    decreases args.len(),
{
    if args.len() == 0 {
        Ok(code)
    } else {
        match args[0].kind {
            ArgumentKind::String() => match json_string_field(json, args[0].name) {
                Some(v) => spec_bind(
                    spec_replace(code, spec_placeholder(args[0].name), v),
                    args.drop_first(),
                    json,
                ),
                None => Err(DispatchError::InvalidArgument),
            },
        }
    }
}

/// Maps a bound command to its character sequence, an error to itself.
pub open spec fn bind_result_view(r: Result<String, DispatchError>) -> Result<
    Seq<char>,
    DispatchError,
> {
    match r {
        Ok(s) => Ok(s@),
        Err(e) => Err(e),
    }
}

impl Tool {
    pub fn new(
        name: &str,
        description: &str,
        executable: Executable,
        code: &str,
        arguments: Vec<Argument>,
    ) -> (r: Self)
        ensures
            r.name@ == name@,
            r.description@ == description@,
            r.executable == executable,
            r.code@ == code@,
            r.arguments == arguments,
    {
        Tool {
            name: String::from_str(name),
            description: String::from_str(description),
            arguments,
            code: String::from_str(code),
            executable,
        }
    }

    /// A free-form shell tool: one `command` argument, run as given.
    pub fn bash(name: &str, description: &str) -> (r: Self)
        ensures
            r.name@ == name@,
            r.description@ == description@,
            r.executable == Executable::Bash(),
            r.code@ == "{{command}}"@,
            r.arguments.deep_view() =~= seq![
                ArgumentView {
                    name: "command"@,
                    description: "Command to execute"@,
                    kind: ArgumentKind::String(),
                },
            ],
    {
        let mut arguments: Vec<Argument> = Vec::new();
        arguments.push(Argument::string("command", "Command to execute"));
        let r = Tool::new(name, description, Executable::Bash(), "{{command}}", arguments);
        proof {
            assert(r.arguments.deep_view() =~= seq![
                ArgumentView {
                    name: "command"@,
                    description: "Command to execute"@,
                    kind: ArgumentKind::String(),
                },
            ]);
        }
        r
    }

    /// A fixed shell command with no declared arguments.
    pub fn command(name: &str, description: &str, command: &str) -> (r: Self)
        ensures
            r.name@ == name@,
            r.description@ == description@,
            r.executable == Executable::Bash(),
            r.code@ == command@,
            r.arguments.deep_view() =~= Seq::<ArgumentView>::empty(),
    {
        let arguments: Vec<Argument> = Vec::new();
        let r = Tool::new(name, description, Executable::Bash(), command, arguments);
        proof {
            assert(r.arguments.deep_view() =~= Seq::<ArgumentView>::empty());
        }
        r
    }

    /// Bind a call's JSON argument object into this tool's code template.
    pub fn bind_arguments(&self, call: &ToolCall) -> (r: Result<String, DispatchError>)
        ensures
            bind_result_view(r) == spec_bind(self.code@, self.arguments.deep_view(), call@.arguments),
    {
        let ghost args = self.arguments.deep_view();
        let ghost json = call@.arguments;
        let mut command = self.code.clone();
        proof {
            assert(args.skip(0) =~= args);
        }
        let n = self.arguments.len();
        for i in 0..n
            invariant
                n == self.arguments.len(),
                args == self.arguments.deep_view(),
                json == call@.arguments,
                spec_bind(self.code@, args, json) == spec_bind(command@, args.skip(i as int), json),
        {
            let arg = &self.arguments[i];
            proof {
                assert(args.skip(i as int)[0] == args[i as int]);
            }
            match arg.kind {
                ArgumentKind::String() => {
                    match get_string_field(call.arguments(), arg.name.as_str()) {
                        Some(value) => {
                            let pat = placeholder(arg.name.as_str());
                            command = replace_all(command.as_str(), pat.as_str(), value.as_str());
                            proof {
                                assert(args.skip(i as int).drop_first() =~= args.skip(i as int + 1));
                            }
                        },
                        None => {
                            return Err(DispatchError::InvalidArgument);
                        },
                    }
                },
            }
        }
        proof {
            assert(args.skip(n as int) =~= Seq::<ArgumentView>::empty());
        }
        Ok(command)
    }
}

/// Binding interpolates every declared argument: for a template written as
/// brace-free text segments with the N declared placeholders between them, in
/// declaration order and with distinct names, and an arguments object that
/// supplies a brace-free value for each, the bound command is exactly the
/// segments with the declared values in the placeholders' positions, and no
/// `{{...}}` placeholder of any name remains. A value that itself contains
/// braces can reintroduce placeholder text, so such values are excluded.
pub proof fn lemma_bind_template(
    segs: Seq<Seq<char>>,
    args: Seq<ArgumentView>,
    json: Seq<char>,
    vals: Seq<Seq<char>>,
)
    requires
        segs.len() == args.len() + 1,
        vals.len() == args.len(),
        forall|i: int| 0 <= i < args.len() ==> (#[trigger] args[i]).kind == ArgumentKind::String(),
        all_no_brace(segs),
        forall|i: int| 0 <= i < args.len() ==> no_brace((#[trigger] args[i]).name),
        all_no_brace(vals),
        forall|i: int, j: int| 0 <= i < j < args.len() ==> args[i].name != args[j].name,
        forall|i: int|
            0 <= i < args.len() ==> json_string_field(json, (#[trigger] args[i]).name) == Some(
                vals[i],
            ),
    ensures
        spec_bind(
            interleave_template(segs, args.map_values(|a: ArgumentView| a.name)),
            args,
            json,
        ) == Ok::<Seq<char>, DispatchError>(interleave_filled(segs, vals)),
        forall|other: Seq<char>| !contains_seq(interleave_filled(segs, vals), spec_placeholder(other)),
    decreases args.len(),
{
    let names = args.map_values(|a: ArgumentView| a.name);
    assert(all_no_brace(names)) by {
        assert forall|i: int| 0 <= i < names.len() implies no_brace(#[trigger] names[i]) by {
            assert(names[i] == args[i].name);
        }
    }
    assert(all_no_brace(vals));
    lemma_filled_no_brace(segs, vals);
    assert forall|other: Seq<char>|
        !contains_seq(interleave_filled(segs, vals), spec_placeholder(other)) by {
        lemma_no_brace_no_placeholder(interleave_filled(segs, vals), other);
    }
    if args.len() == 0 {
        assert(interleave_template(segs, names) == segs[0]);
        assert(interleave_filled(segs, vals) == segs[0]);
    } else {
        let ph = spec_placeholder(args[0].name);
        let segs_d = segs.drop_first();
        let names_d = names.drop_first();
        let rest = interleave_template(segs_d, names_d);
        let code = interleave_template(segs, names);
        assert(names[0] == args[0].name);
        assert(code == segs[0] + ph + rest);
        assert(ph.len() > 0);
        assert(ph[0] == '{');

        // the first replacement rewrites exactly the first placeholder
        lemma_replace_prefix(segs[0], ph, vals[0], rest);
        assert(all_no_brace(segs_d)) by {
            assert forall|i: int| 0 <= i < segs_d.len() implies no_brace(#[trigger] segs_d[i]) by {
                assert(segs_d[i] == segs[i + 1]);
            }
        }
        assert(all_no_brace(names_d)) by {
            assert forall|i: int| 0 <= i < names_d.len() implies no_brace(#[trigger] names_d[i]) by {
                assert(names_d[i] == names[i + 1]);
            }
        }
        assert(forall|i: int| 0 <= i < names_d.len() ==> #[trigger] names_d[i] != args[0].name) by {
            assert forall|i: int| 0 <= i < names_d.len() implies #[trigger] names_d[i] != args[0].name by {
                assert(names_d[i] == args[i + 1].name);
            }
        }
        lemma_template_no_placeholder(segs_d, names_d, args[0].name);
        lemma_replace_noop_if_absent(rest, ph, vals[0]);
        let bound0 = spec_replace(code, ph, vals[0]);
        assert(bound0 == segs[0] + vals[0] + rest);

        // the rewritten template is again an interleaved template, over the
        // remaining names, with the bound text folded into the first segment
        let segs2 = segs_d.update(0, segs[0] + vals[0] + segs_d[0]);
        let args_d = args.drop_first();
        let names2 = args_d.map_values(|a: ArgumentView| a.name);
        assert(names2 =~= names_d) by {
            assert forall|i: int| 0 <= i < names2.len() implies names2[i] == names_d[i] by {
                assert(args_d[i] == args[i + 1]);
            }
        }
        assert(interleave_template(segs2, names_d) == bound0) by {
            if names_d.len() == 0 {
                assert(segs2[0] == segs[0] + vals[0] + segs_d[0]);
                assert(interleave_template(segs2, names_d) == segs2[0]);
                assert(bound0 =~= segs2[0]);
            } else {
                assert(segs2.drop_first() =~= segs_d.drop_first());
                assert(interleave_template(segs2, names_d) == segs2[0] + spec_placeholder(
                    names_d[0],
                ) + interleave_template(segs_d.drop_first(), names_d.drop_first()));
                assert(rest == segs_d[0] + spec_placeholder(names_d[0]) + interleave_template(
                    segs_d.drop_first(),
                    names_d.drop_first(),
                ));
                assert(bound0 =~= interleave_template(segs2, names_d));
            }
        }

        // the remaining arguments bind into the rewritten template
        lemma_no_brace_concat(segs[0], vals[0]);
        lemma_no_brace_concat(segs[0] + vals[0], segs_d[0]);
        assert(no_brace(segs2[0])) by {
            assert((segs[0] + vals[0]) + segs_d[0] =~= segs[0] + vals[0] + segs_d[0]);
        }
        assert(all_no_brace(segs2)) by {
            assert forall|i: int| 0 <= i < segs2.len() implies no_brace(#[trigger] segs2[i]) by {
                if i > 0 {
                    assert(segs2[i] == segs[i + 1]);
                }
            }
        }
        let vals_d = vals.drop_first();
        assert(all_no_brace(vals_d)) by {
            assert forall|i: int| 0 <= i < vals_d.len() implies no_brace(#[trigger] vals_d[i]) by {
                assert(vals_d[i] == vals[i + 1]);
            }
        }
        assert(forall|i: int|
            0 <= i < args_d.len() ==> (#[trigger] args_d[i]).kind == ArgumentKind::String()) by {
            assert forall|i: int|
                0 <= i < args_d.len() implies (#[trigger] args_d[i]).kind
                == ArgumentKind::String() by {
                assert(args_d[i] == args[i + 1]);
            }
        }
        assert(forall|i: int| 0 <= i < args_d.len() ==> no_brace((#[trigger] args_d[i]).name)) by {
            assert forall|i: int| 0 <= i < args_d.len() implies no_brace(
                (#[trigger] args_d[i]).name,
            ) by {
                assert(args_d[i] == args[i + 1]);
            }
        }
        assert(forall|i: int, j: int|
            0 <= i < j < args_d.len() ==> args_d[i].name != args_d[j].name) by {
            assert forall|i: int, j: int|
                0 <= i < j < args_d.len() implies args_d[i].name != args_d[j].name by {
                assert(args_d[i] == args[i + 1]);
                assert(args_d[j] == args[j + 1]);
            }
        }
        assert(forall|i: int|
            0 <= i < args_d.len() ==> json_string_field(json, (#[trigger] args_d[i]).name) == Some(
                vals_d[i],
            )) by {
            assert forall|i: int|
                0 <= i < args_d.len() implies json_string_field(
                json,
                (#[trigger] args_d[i]).name,
            ) == Some(vals_d[i]) by {
                assert(args_d[i] == args[i + 1]);
                assert(vals_d[i] == vals[i + 1]);
            }
        }
        lemma_bind_template(segs2, args_d, json, vals_d);
        assert(interleave_template(segs2, names2) == interleave_template(segs2, names_d));

        // and the filled template decomposes the same way
        assert(interleave_filled(segs2, vals_d) == interleave_filled(segs, vals)) by {
            if vals_d.len() == 0 {
                assert(interleave_filled(segs2, vals_d) == segs2[0]);
                assert(interleave_filled(segs, vals) == segs[0] + vals[0] + interleave_filled(
                    segs_d,
                    vals_d,
                ));
                assert(interleave_filled(segs_d, vals_d) == segs_d[0]);
                assert(segs2[0] =~= segs[0] + vals[0] + segs_d[0]);
            } else {
                assert(segs2.drop_first() =~= segs_d.drop_first());
                assert(interleave_filled(segs2, vals_d) == segs2[0] + vals_d[0]
                    + interleave_filled(segs_d.drop_first(), vals_d.drop_first()));
                assert(interleave_filled(segs_d, vals_d) == segs_d[0] + vals_d[0]
                    + interleave_filled(segs_d.drop_first(), vals_d.drop_first()));
                assert(interleave_filled(segs, vals) == segs[0] + vals[0] + interleave_filled(
                    segs_d,
                    vals_d,
                ));
                assert(segs2[0] == segs[0] + vals[0] + segs_d[0]);
                assert(interleave_filled(segs2, vals_d) =~= interleave_filled(segs, vals));
            }
        }
        assert(spec_bind(code, args, json) == spec_bind(bound0, args_d, json));
    }
}

} // verus!
