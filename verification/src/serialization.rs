//! The raw shapes of tool and agent definitions as an external loader hands
//! them over, and their validated conversion into the domain types. Every
//! inconsistency — an unknown executable or argument kind, an unknown backend
//! identifier, a tool reference that does not resolve — is a `ConfigError`,
//! fatal at load time.

use vstd::prelude::*;
use crate::agent::{lemma_find_skill_none, lemma_find_skill_some, spec_find_skill, Agent as DomainAgent};
use crate::errors::ConfigError;
use crate::llm::{LlmView, LLM};
use crate::strutil::str_eq;
use crate::tool::{
    Argument as DomainArgument, ArgumentKind, ArgumentView, Executable, ExecutableView,
    Tool as DomainTool,
};

verus! {

/// A bound value for an argument, by kind.
#[derive(Debug)]
pub enum ArgumentValue {
    String(String),
}

/// A tool definition as loaded: executable and argument kinds still as
/// identifier strings.
#[derive(Debug)]
pub struct Tool {
    pub name: String,
    pub description: String,
    pub arguments: Vec<Argument>,
    pub executable: String,
    pub code: String,
}

/// An argument definition as loaded.
#[derive(Debug)]
pub struct Argument {
    pub name: String,
    pub description: String,
    pub kind: String,
}

/// An agent definition as loaded: the backend as an identifier string, the
/// skills as names into an already-loaded tool set.
#[derive(Debug)]
pub struct Agent {
    pub name: String,
    pub description: String,
    pub purpose: String,
    pub llm: String,
    pub tools: Vec<String>,
}

/// The argument kinds a definition may name.
pub open spec fn spec_kind_ok(kind: Seq<char>) -> bool {
    kind == "string"@ || kind == "env"@
}

/// The executable a definition identifier names, if any.
pub open spec fn spec_exec_of(e: Seq<char>) -> Option<ExecutableView> {
    if e == "bash"@ {
        Some(ExecutableView::Bash)
    } else if e == "python"@ {
        Some(ExecutableView::Python)
    } else {
        None
    }
}

/// The backend a definition identifier names, if any.
pub open spec fn spec_llm_of(l: Seq<char>) -> Option<LlmView> {
    if l == "gpt-4-1106-preview"@ {
        Some(LlmView::ChatGpt("gpt-4-1106-preview"@))
    } else {
        None
    }
}

impl Argument {
    /// Validate this definition into a domain argument.
    pub fn into(self) -> (r: Result<DomainArgument, ConfigError>)
        ensures
            r is Ok <==> spec_kind_ok(self.kind@),
            r matches Ok(d) ==> d@ == (ArgumentView {
                name: self.name@,
                description: self.description@,
                kind: ArgumentKind::String(),
            }),
            r matches Err(e) ==> e == ConfigError::UnknownArgumentKind,
    {
        if str_eq(self.kind.as_str(), "string") || str_eq(self.kind.as_str(), "env") {
            Ok(DomainArgument::string(self.name.as_str(), self.description.as_str()))
        } else {
            Err(ConfigError::UnknownArgumentKind)
        }
    }
}

impl Tool {
    /// Validate this definition into a domain tool: the executable identifier
    /// first, then every declared argument.
    pub fn into(self) -> (r: Result<DomainTool, ConfigError>)
        ensures
            r is Ok <==> (spec_exec_of(self.executable@) is Some && (forall|i: int|
                0 <= i < self.arguments@.len() ==> spec_kind_ok(
                    #[trigger] self.arguments@[i].kind@,
                ))),
            r matches Ok(t) ==> ({
                &&& t@.name == self.name@
                &&& t@.description == self.description@
                &&& t@.code == self.code@
                &&& Some(t@.executable) == spec_exec_of(self.executable@)
                &&& t@.arguments.len() == self.arguments@.len()
                &&& forall|i: int|
                    0 <= i < self.arguments@.len() ==> t@.arguments[i] == (ArgumentView {
                        name: self.arguments@[i].name@,
                        description: self.arguments@[i].description@,
                        kind: ArgumentKind::String(),
                    })
            }),
            spec_exec_of(self.executable@) is None ==> r == Err::<DomainTool, ConfigError>(
                ConfigError::UnknownExecutable,
            ),
            (spec_exec_of(self.executable@) is Some && !(forall|i: int|
                0 <= i < self.arguments@.len() ==> spec_kind_ok(#[trigger] self.arguments@[i].kind@)))
                ==> r == Err::<DomainTool, ConfigError>(ConfigError::UnknownArgumentKind),
    {
        let executable = if str_eq(self.executable.as_str(), "bash") {
            Executable::Bash()
        } else if str_eq(self.executable.as_str(), "python") {
            Executable::Python()
        } else {
            return Err(ConfigError::UnknownExecutable);
        };
        let ghost ev = spec_exec_of(self.executable@);
        let mut arguments: Vec<DomainArgument> = Vec::new();
        let n = self.arguments.len();
        for i in 0..n
            invariant
                n == self.arguments@.len(),
                arguments@.len() == i,
                ev == spec_exec_of(self.executable@),
                ev == Some(executable@),
                forall|j: int| 0 <= j < i ==> spec_kind_ok(#[trigger] self.arguments@[j].kind@),
                forall|j: int|
                    0 <= j < i ==> #[trigger] arguments@[j]@ == (ArgumentView {
                        name: self.arguments@[j].name@,
                        description: self.arguments@[j].description@,
                        kind: ArgumentKind::String(),
                    }),
        {
            let a = &self.arguments[i];
            if str_eq(a.kind.as_str(), "string") || str_eq(a.kind.as_str(), "env") {
                arguments.push(DomainArgument::string(a.name.as_str(), a.description.as_str()));
            } else {
                return Err(ConfigError::UnknownArgumentKind);
            }
        }
        let t = DomainTool::new(
            self.name.as_str(),
            self.description.as_str(),
            executable,
            self.code.as_str(),
            arguments,
        );
        Ok(t)
    }
}

/// The first tool of the set whose name is `name`.
fn find_tool(tools: &Vec<DomainTool>, name: &str) -> (r: Option<usize>)
    ensures
        match r {
            Some(j) => j < tools.len() && spec_find_skill(tools@, name@) == Some(j as int),
            None => spec_find_skill(tools@, name@) is None,
        },
{
    let n = tools.len();
    for j in 0..n
        invariant
            n == tools.len(),
            forall|k: int| 0 <= k < j ==> tools@[k].name@ != name@,
    {
        if str_eq(tools[j].name.as_str(), name) {
            proof {
                lemma_find_skill_some(tools@, name@, j as int);
            }
            return Some(j);
        }
    }
    proof {
        lemma_find_skill_none(tools@, name@);
    }
    None
}

impl Agent {
    /// Validate this definition into a domain agent against an already-loaded
    /// tool set: the backend identifier first, then every tool reference,
    /// which must all resolve.
    pub fn into(self, tools: &Vec<DomainTool>) -> (r: Result<DomainAgent, ConfigError>)
        ensures
            r is Ok <==> (spec_llm_of(self.llm@) is Some && (forall|i: int|
                0 <= i < self.tools@.len() ==> spec_find_skill(tools@, #[trigger] self.tools@[i]@)
                    is Some)),
            r matches Ok(a) ==> ({
                &&& a@.name == self.name@
                &&& a@.description == self.description@
                &&& a@.purpose == self.purpose@
                &&& Some(a@.llm) == spec_llm_of(self.llm@)
                &&& a@.skills.len() == self.tools@.len()
                &&& forall|i: int|
                    0 <= i < self.tools@.len() ==> a@.skills[i] == tools@[spec_find_skill(
                        tools@,
                        #[trigger] self.tools@[i]@,
                    )->Some_0]@
            }),
            spec_llm_of(self.llm@) is None ==> r == Err::<DomainAgent, ConfigError>(
                ConfigError::UnknownLlm,
            ),
            (spec_llm_of(self.llm@) is Some && !(forall|i: int|
                0 <= i < self.tools@.len() ==> spec_find_skill(tools@, #[trigger] self.tools@[i]@)
                    is Some)) ==> r == Err::<DomainAgent, ConfigError>(ConfigError::UnresolvedTool),
    {
        let llm = if str_eq(self.llm.as_str(), "gpt-4-1106-preview") {
            LLM::ChatGpt(String::from_str("gpt-4-1106-preview"))
        } else {
            return Err(ConfigError::UnknownLlm);
        };
        let mut skills: Vec<DomainTool> = Vec::new();
        let n = self.tools.len();
        for i in 0..n
            invariant
                n == self.tools@.len(),
                skills@.len() == i,
                llm@ == LlmView::ChatGpt("gpt-4-1106-preview"@),
                spec_llm_of(self.llm@) == Some(llm@),
                forall|j: int|
                    0 <= j < i ==> spec_find_skill(tools@, #[trigger] self.tools@[j]@) is Some,
                forall|j: int|
                    0 <= j < i ==> #[trigger] skills@[j]@ == tools@[spec_find_skill(
                        tools@,
                        self.tools@[j]@,
                    )->Some_0]@,
        {
            let name = &self.tools[i];
            match find_tool(tools, name.as_str()) {
                Some(j) => {
                    skills.push(tools[j].clone());
                },
                None => {
                    return Err(ConfigError::UnresolvedTool);
                },
            }
        }
        let a = DomainAgent::new(
            self.name.as_str(),
            self.description.as_str(),
            self.purpose.as_str(),
            &llm,
            skills,
        );
        proof {
            crate::agent::lemma_tools_view_is_deep(a.skills);
        }
        Ok(a)
    }
}

} // verus!
