//! What the provider adapters share: the default system prompt, how the system
//! prompt is assembled, block numbering across a tool loop, the iteration limit,
//! and the choice of adapter.
use vstd::prelude::*;

use super::error::AgentError;
use crate::bindings::{lowercase, to_lowercase};
use crate::config::types::PromptsConfig;
use crate::text::{chars_of, decimal, decimal_exec, join, owned, push_all, push_str, str_eq, string_of};

verus! {

broadcast use vstd::string::group_string_axioms;

/// The system prompt of the application.
pub const DEFAULT_SYSTEM_PROMPT: &'static str = "You are DevFlow, an assistant for iterative software development. You work inside the user's project, reading and changing code with the tools you are given, while the user reviews every change as a diff.\n\nWork in small, reviewable steps. Search before you read, and read before you edit. Keep changes focused on the request; do not reformat unrelated code. After changing code, say briefly what you changed and why.\n\nWhen a task has several steps, keep a todo list with todo_write and update it as you go. When the user asks for a review or an analysis, do not modify files.\n\nBe concise. Quote file paths and line numbers when you refer to code.\n";

/// Numbers the content blocks of the responses of one tool loop, so that each block
/// has one index across the whole run.
#[derive(Debug)]
pub struct StreamingState {
    global_block_counter: u32,
}

impl StreamingState {
    /// The index of the next block.
    pub closed spec fn offset(&self) -> nat {
        self.global_block_counter as nat
    }

    /// Numbering from zero.
    pub fn new() -> (r: Self)
        ensures
            r.offset() == 0,
    {
        StreamingState { global_block_counter: 0 }
    }

    /// Counts the blocks of a response.
    pub fn advance(&mut self, block_count: u32)
        requires
            old(self).offset() + block_count <= u32::MAX,
        ensures
            final(self).offset() == old(self).offset() + block_count,
    {
        self.global_block_counter = self.global_block_counter + block_count;
    }

    /// The index of the first block of the next response.
    pub fn current_offset(&self) -> (r: u32)
        ensures
            r == self.offset(),
    {
        self.global_block_counter
    }
}

/// The parts of the system prompt, in order: the application's prompt, the
/// project memory, the `pre` text, the custom prompt, the `post` text; empty
/// `pre` and `post` texts are left out.
pub open spec fn system_prompt_parts(
    app: Seq<char>,
    pre: Seq<char>,
    post: Seq<char>,
    custom: Option<Seq<char>>,
    memory: Option<Seq<char>>,
) -> Seq<Seq<char>> {
    let a = seq![app];
    let b = match memory {
        Some(m) => a.push(m),
        None => a,
    };
    let c = if pre.len() > 0 {
        b.push(pre)
    } else {
        b
    };
    let d = match custom {
        Some(x) => c.push(x),
        None => c,
    };
    if post.len() > 0 {
        d.push(post)
    } else {
        d
    }
}

/// Assembles the system prompt: its parts joined by blank lines.
pub fn build_system_prompt(
    app_system_prompt: &str,
    prompts: &PromptsConfig,
    custom: Option<String>,
    memory: Option<&str>,
) -> (r: String)
    ensures
        r@ == join(
            system_prompt_parts(
                app_system_prompt@,
                prompts.pre@,
                prompts.post@,
                match custom {
                    Some(c) => Some(c@),
                    None => None,
                },
                match memory {
                    Some(m) => Some(m@),
                    None => None,
                },
            ),
            "\n\n"@,
        ),
{
    let mut parts: Vec<Vec<char>> = Vec::new();
    parts.push(chars_of(app_system_prompt));
    match memory {
        Some(m) => parts.push(chars_of(m)),
        None => {},
    }
    if !prompts.pre.as_str().is_empty() {
        parts.push(chars_of(prompts.pre.as_str()));
    }
    match &custom {
        Some(c) => parts.push(chars_of(c.as_str())),
        None => {},
    }
    if !prompts.post.as_str().is_empty() {
        parts.push(chars_of(prompts.post.as_str()));
    }
    let sep = chars_of("\n\n");
    let ghost want = system_prompt_parts(
        app_system_prompt@,
        prompts.pre@,
        prompts.post@,
        match custom {
            Some(c) => Some(c@),
            None => None,
        },
        match memory {
            Some(m) => Some(m@),
            None => None,
        },
    );
    assert(crate::text::vecs_view(parts@) =~= want);
    let r = crate::text::join_exec(&parts, sep.as_slice());
    string_of(r.as_slice())
}

/// The message when the tool loop has run too often.
pub open spec fn iteration_limit_message(max_iterations: u32) -> Seq<char> {
    "Exceeded maximum tool iterations ("@ + decimal(max_iterations as nat) + ")"@
}

/// Fails once the tool loop has reached its iteration limit.
pub fn check_iteration_limit(iteration: u32, max_iterations: u32) -> (r: Result<(), AgentError>)
    ensures
        r is Ok <==> iteration < max_iterations,
        r matches Err(e) ==> (e matches AgentError::ToolExecutionError(m) && m@
            == iteration_limit_message(max_iterations)),
{
    if iteration >= max_iterations {
        let mut m = chars_of("Exceeded maximum tool iterations (");
        let d = decimal_exec(max_iterations as u64);
        push_all(&mut m, d.as_slice());
        push_str(&mut m, ")");
        return Err(AgentError::ToolExecutionError(string_of(m.as_slice())));
    }
    Ok(())
}

/// What the tool loop does after a streamed response.
#[derive(Debug, Clone)]
pub enum LoopStep {
    /// The response called no tool: the run ends with its stop reason.
    Finish(Option<String>),
    /// Run the response's tool calls, then stream the next response.
    RunTools,
}

/// The state of a tool loop between responses: the tool rounds made, the most
/// allowed, and the numbering of the content blocks.
#[derive(Debug)]
pub struct ToolLoop {
    iteration: u32,
    max_iterations: u32,
    streaming: StreamingState,
}

impl ToolLoop {
    /// The tool rounds made so far.
    pub closed spec fn rounds(&self) -> u32 {
        self.iteration
    }

    /// The iteration limit.
    pub closed spec fn limit(&self) -> u32 {
        self.max_iterations
    }

    /// The index of the first block of the next response.
    pub closed spec fn offset(&self) -> nat {
        self.streaming.offset()
    }

    /// A loop that has streamed nothing yet.
    pub fn new(max_iterations: u32) -> (r: Self)
        ensures
            r.rounds() == 0,
            r.limit() == max_iterations,
            r.offset() == 0,
    {
        ToolLoop { iteration: 0, max_iterations, streaming: StreamingState::new() }
    }

    /// The index of the first block of the next response.
    pub fn block_offset(&self) -> (r: u32)
        ensures
            r == self.offset(),
    {
        self.streaming.current_offset()
    }

    /// Takes in a streamed response of `block_count` blocks: its blocks are counted;
    /// a response that calls no tool ends the run with its stop reason; otherwise
    /// one more round is counted, and the run fails once the rounds reach the
    /// limit.
    pub fn on_response(&mut self, block_count: u32, calls_tools: bool, stop_reason: Option<String>) -> (r:
        Result<LoopStep, AgentError>)
        requires
            old(self).offset() + block_count <= u32::MAX,
        ensures
            final(self).offset() == old(self).offset() + block_count,
            final(self).limit() == old(self).limit(),
            !calls_tools ==> (r matches Ok(LoopStep::Finish(s)) && s == stop_reason && final(self).rounds()
                == old(self).rounds()),
            calls_tools && old(self).rounds() + 1 < old(self).limit() ==> (r matches Ok(LoopStep::RunTools)
                && final(self).rounds() == old(self).rounds() + 1),
            calls_tools && old(self).rounds() + 1 >= old(self).limit() ==> (r matches Err(
                AgentError::ToolExecutionError(m),
            ) && m@ == iteration_limit_message(old(self).limit())),
    {
        self.streaming.advance(block_count);
        if !calls_tools {
            return Ok(LoopStep::Finish(stop_reason));
        }
        let next: u32 = if self.iteration < self.max_iterations {
            self.iteration + 1
        } else {
            self.max_iterations
        };
        match check_iteration_limit(next, self.max_iterations) {
            Ok(()) => {
                self.iteration = next;
                Ok(LoopStep::RunTools)
            },
            Err(e) => Err(e),
        }
    }
}

/// The model providers that have an adapter.
#[derive(Debug, Clone, Copy, PartialEq, Eq, Structural)]
pub enum ProviderKind {
    Anthropic,
    Gemini,
}

/// The adapter for a configured provider name, compared in lowercase.
pub open spec fn provider_for(name: Seq<char>) -> Option<ProviderKind> {
    if lowercase(name) == "anthropic"@ {
        Some(ProviderKind::Anthropic)
    } else if lowercase(name) == "gemini"@ {
        Some(ProviderKind::Gemini)
    } else {
        None
    }
}

/// Chooses the adapter for a configured provider name; an unknown provider is an
/// error that names it in lowercase.
pub fn select_provider(name: &str) -> (r: Result<ProviderKind, AgentError>)
    ensures
        match r {
            Ok(k) => provider_for(name@) == Some(k),
            Err(e) => provider_for(name@) is None && (e matches AgentError::UnsupportedProvider(p)
                && p@ == lowercase(name@)),
        },
{
    let provider = to_lowercase(name);
    if str_eq(provider.as_str(), "anthropic") {
        Ok(ProviderKind::Anthropic)
    } else if str_eq(provider.as_str(), "gemini") {
        Ok(ProviderKind::Gemini)
    } else {
        Err(AgentError::UnsupportedProvider(provider))
    }
}

} // verus!
