//! Hosted-tool streaming events, as one family crossed with one phase.
//!
//! Every lifecycle event of a built-in tool is a [`HostedTool`] crossed with a
//! [`HostedToolPhase`], and every one carries the same two fields, so the pair is what
//! an event decodes to.
use vstd::prelude::*;

use crate::text::same;
use crate::values::HostedTool;

verus! {

/// Where a hosted-tool call has got to.
///
/// Not every tool sends every phase, but a phase means the same thing wherever it
/// appears.
#[derive(Debug, Clone, Copy, PartialEq, Eq, PartialOrd, Ord, Hash, Structural)]
pub enum HostedToolPhase {
    /// The call has started.
    InProgress,
    /// It is searching. `file_search` and `web_search` only.
    Searching,
    /// It is running code. `code_interpreter` only.
    Interpreting,
    /// It is producing an image. `image_generation` only.
    Generating,
    /// It finished.
    Completed,
    /// It failed. MCP calls and listings only; other tools report failure
    /// through the item's own status.
    Failed,
}

impl HostedToolPhase {
    /// The word that names this phase on the wire.
    pub open spec fn wire(self) -> Seq<char> {
        match self {
            HostedToolPhase::InProgress => "in_progress"@,
            HostedToolPhase::Searching => "searching"@,
            HostedToolPhase::Interpreting => "interpreting"@,
            HostedToolPhase::Generating => "generating"@,
            HostedToolPhase::Completed => "completed"@,
            HostedToolPhase::Failed => "failed"@,
        }
    }

    /// The phase's own wire word, the part after the last `.` of the event type.
    pub fn as_str(self) -> (s: &'static str)
        ensures
            s@ == self.wire(),
    {
        match self {
            Self::InProgress => "in_progress",
            Self::Searching => "searching",
            Self::Interpreting => "interpreting",
            Self::Generating => "generating",
            Self::Completed => "completed",
            Self::Failed => "failed",
        }
    }

    /// Different phases have different words.
    pub proof fn wire_is_one_to_one(a: HostedToolPhase, b: HostedToolPhase)
        requires
            a.wire() == b.wire(),
        ensures
            a == b,
    {
        reveal_strlit("in_progress");
        reveal_strlit("searching");
        reveal_strlit("interpreting");
        reveal_strlit("generating");
        reveal_strlit("completed");
        reveal_strlit("failed");
        assert("in_progress"@.len() == 11);
        assert("searching"@.len() == 9);
        assert("interpreting"@.len() == 12);
        assert("generating"@.len() == 10);
        assert("completed"@.len() == 9);
        assert("failed"@.len() == 6);
        assert("searching"@[0] == 's');
        assert("completed"@[0] == 'c');
    }
}

/// The event type of a tool in a phase, for the pairs OpenAI sends.
pub open spec fn lifecycle_name(tool: HostedTool, phase: HostedToolPhase) -> Option<Seq<char>> {
    match (tool, phase) {
        (HostedTool::FileSearch, HostedToolPhase::InProgress) => Some(
            "response.file_search_call.in_progress"@,
        ),
        (HostedTool::FileSearch, HostedToolPhase::Searching) => Some(
            "response.file_search_call.searching"@,
        ),
        (HostedTool::FileSearch, HostedToolPhase::Completed) => Some(
            "response.file_search_call.completed"@,
        ),
        (HostedTool::WebSearch, HostedToolPhase::InProgress) => Some(
            "response.web_search_call.in_progress"@,
        ),
        (HostedTool::WebSearch, HostedToolPhase::Searching) => Some(
            "response.web_search_call.searching"@,
        ),
        (HostedTool::WebSearch, HostedToolPhase::Completed) => Some(
            "response.web_search_call.completed"@,
        ),
        (HostedTool::CodeInterpreter, HostedToolPhase::InProgress) => Some(
            "response.code_interpreter_call.in_progress"@,
        ),
        (HostedTool::CodeInterpreter, HostedToolPhase::Interpreting) => Some(
            "response.code_interpreter_call.interpreting"@,
        ),
        (HostedTool::CodeInterpreter, HostedToolPhase::Completed) => Some(
            "response.code_interpreter_call.completed"@,
        ),
        (HostedTool::ImageGeneration, HostedToolPhase::InProgress) => Some(
            "response.image_generation_call.in_progress"@,
        ),
        (HostedTool::ImageGeneration, HostedToolPhase::Generating) => Some(
            "response.image_generation_call.generating"@,
        ),
        (HostedTool::ImageGeneration, HostedToolPhase::Completed) => Some(
            "response.image_generation_call.completed"@,
        ),
        (HostedTool::Mcp, HostedToolPhase::InProgress) => Some(
            "response.mcp_call.in_progress"@,
        ),
        (HostedTool::Mcp, HostedToolPhase::Completed) => Some(
            "response.mcp_call.completed"@,
        ),
        (HostedTool::Mcp, HostedToolPhase::Failed) => Some(
            "response.mcp_call.failed"@,
        ),
        (HostedTool::McpListTools, HostedToolPhase::InProgress) => Some(
            "response.mcp_list_tools.in_progress"@,
        ),
        (HostedTool::McpListTools, HostedToolPhase::Completed) => Some(
            "response.mcp_list_tools.completed"@,
        ),
        (HostedTool::McpListTools, HostedToolPhase::Failed) => Some(
            "response.mcp_list_tools.failed"@,
        ),
        _ => None,
    }
}

/// The tool and phase an event type names, where it is a lifecycle event.
pub open spec fn lifecycle_named(kind: Seq<char>) -> Option<(HostedTool, HostedToolPhase)> {
    if exists|tool: HostedTool, phase: HostedToolPhase| #[trigger]
        lifecycle_name(tool, phase) == Some(kind) {
        Some(
            choose|tool: HostedTool, phase: HostedToolPhase| #[trigger]
                lifecycle_name(tool, phase) == Some(kind),
        )
    } else {
        None
    }
}

/// No two pairs share an event type.
pub proof fn lifecycle_names_are_one_to_one(
    tool: HostedTool,
    phase: HostedToolPhase,
    other_tool: HostedTool,
    other_phase: HostedToolPhase,
)
    requires
        lifecycle_name(tool, phase) is Some,
        lifecycle_name(tool, phase) == lifecycle_name(other_tool, other_phase),
    ensures
        tool == other_tool,
        phase == other_phase,
{
    reveal_strlit("response.file_search_call.in_progress");
    reveal_strlit("response.file_search_call.searching");
    reveal_strlit("response.file_search_call.completed");
    reveal_strlit("response.web_search_call.in_progress");
    reveal_strlit("response.web_search_call.searching");
    reveal_strlit("response.web_search_call.completed");
    reveal_strlit("response.code_interpreter_call.in_progress");
    reveal_strlit("response.code_interpreter_call.interpreting");
    reveal_strlit("response.code_interpreter_call.completed");
    reveal_strlit("response.image_generation_call.in_progress");
    reveal_strlit("response.image_generation_call.generating");
    reveal_strlit("response.image_generation_call.completed");
    reveal_strlit("response.mcp_call.in_progress");
    reveal_strlit("response.mcp_call.completed");
    reveal_strlit("response.mcp_call.failed");
    reveal_strlit("response.mcp_list_tools.in_progress");
    reveal_strlit("response.mcp_list_tools.completed");
    reveal_strlit("response.mcp_list_tools.failed");
    assert("response.file_search_call.in_progress"@.len() == 37);
    assert("response.file_search_call.searching"@.len() == 35);
    assert("response.file_search_call.completed"@.len() == 35);
    assert("response.web_search_call.in_progress"@.len() == 36);
    assert("response.web_search_call.searching"@.len() == 34);
    assert("response.web_search_call.completed"@.len() == 34);
    assert("response.code_interpreter_call.in_progress"@.len() == 42);
    assert("response.code_interpreter_call.interpreting"@.len() == 43);
    assert("response.code_interpreter_call.completed"@.len() == 40);
    assert("response.image_generation_call.in_progress"@.len() == 42);
    assert("response.image_generation_call.generating"@.len() == 41);
    assert("response.image_generation_call.completed"@.len() == 40);
    assert("response.mcp_call.in_progress"@.len() == 29);
    assert("response.mcp_call.completed"@.len() == 27);
    assert("response.mcp_call.failed"@.len() == 24);
    assert("response.mcp_list_tools.in_progress"@.len() == 35);
    assert("response.mcp_list_tools.completed"@.len() == 33);
    assert("response.mcp_list_tools.failed"@.len() == 30);
    assert("response.file_search_call.searching"@[9] == 'f');
    assert("response.file_search_call.searching"@[26] == 's');
    assert("response.file_search_call.completed"@[9] == 'f');
    assert("response.file_search_call.completed"@[26] == 'c');
    assert("response.web_search_call.searching"@[25] == 's');
    assert("response.web_search_call.completed"@[25] == 'c');
    assert("response.code_interpreter_call.in_progress"@[9] == 'c');
    assert("response.code_interpreter_call.completed"@[9] == 'c');
    assert("response.image_generation_call.in_progress"@[9] == 'i');
    assert("response.image_generation_call.completed"@[9] == 'i');
    assert("response.mcp_list_tools.in_progress"@[9] == 'm');
}

/// The event type of a pair decodes to the pair, and an event type that decodes to a
/// pair is the pair's own.
pub proof fn lifecycle_names_read_back(tool: HostedTool, phase: HostedToolPhase, kind: Seq<char>)
    ensures
        lifecycle_name(tool, phase) == Some(kind) <==> lifecycle_named(kind) == Some((tool, phase)),
{
    if exists|t: HostedTool, p: HostedToolPhase| #[trigger] lifecycle_name(t, p) == Some(kind) {
        let (t, p) = choose|t: HostedTool, p: HostedToolPhase| #[trigger]
            lifecycle_name(t, p) == Some(kind);
        if lifecycle_name(tool, phase) == Some(kind) {
            lifecycle_names_are_one_to_one(tool, phase, t, p);
        }
    }
}

/// The phase's word is the last segment of its event type: a dot stands before it and none is in
/// it.
pub proof fn a_phase_is_the_tail_of_its_event_type(tool: HostedTool, phase: HostedToolPhase)
    ensures
        match lifecycle_name(tool, phase) {
            Some(kind) => {
                let dot = kind.len() - phase.wire().len() - 1;
                &&& 0 <= dot
                &&& kind[dot] == '.'
                &&& kind.skip(dot + 1) == phase.wire()
                &&& !phase.wire().contains('.')
            },
            None => true,
        },
{
    reveal_strlit("in_progress");
    reveal_strlit("searching");
    reveal_strlit("interpreting");
    reveal_strlit("generating");
    reveal_strlit("completed");
    reveal_strlit("failed");
    reveal_strlit("response.file_search_call.in_progress");
    reveal_strlit("response.file_search_call.searching");
    reveal_strlit("response.file_search_call.completed");
    reveal_strlit("response.web_search_call.in_progress");
    reveal_strlit("response.web_search_call.searching");
    reveal_strlit("response.web_search_call.completed");
    reveal_strlit("response.code_interpreter_call.in_progress");
    reveal_strlit("response.code_interpreter_call.interpreting");
    reveal_strlit("response.code_interpreter_call.completed");
    reveal_strlit("response.image_generation_call.in_progress");
    reveal_strlit("response.image_generation_call.generating");
    reveal_strlit("response.image_generation_call.completed");
    reveal_strlit("response.mcp_call.in_progress");
    reveal_strlit("response.mcp_call.completed");
    reveal_strlit("response.mcp_call.failed");
    reveal_strlit("response.mcp_list_tools.in_progress");
    reveal_strlit("response.mcp_list_tools.completed");
    reveal_strlit("response.mcp_list_tools.failed");
}

/// The `(tool, phase)` pair a hosted-tool lifecycle event names, or `None` when the
/// event type is not one.
pub fn lifecycle_of(kind: &str) -> (pair: Option<(HostedTool, HostedToolPhase)>)
    ensures
        pair == lifecycle_named(kind@),
        match pair {
            Some((tool, phase)) => lifecycle_name(tool, phase) == Some(kind@),
            None => forall|tool: HostedTool, phase: HostedToolPhase| #[trigger]
                lifecycle_name(tool, phase) != Some(kind@),
        },
{
    let pair = if same(kind, "response.file_search_call.in_progress") {
        Some((HostedTool::FileSearch, HostedToolPhase::InProgress))
    } else if same(kind, "response.file_search_call.searching") {
        Some((HostedTool::FileSearch, HostedToolPhase::Searching))
    } else if same(kind, "response.file_search_call.completed") {
        Some((HostedTool::FileSearch, HostedToolPhase::Completed))
    } else if same(kind, "response.web_search_call.in_progress") {
        Some((HostedTool::WebSearch, HostedToolPhase::InProgress))
    } else if same(kind, "response.web_search_call.searching") {
        Some((HostedTool::WebSearch, HostedToolPhase::Searching))
    } else if same(kind, "response.web_search_call.completed") {
        Some((HostedTool::WebSearch, HostedToolPhase::Completed))
    } else if same(kind, "response.code_interpreter_call.in_progress") {
        Some((HostedTool::CodeInterpreter, HostedToolPhase::InProgress))
    } else if same(kind, "response.code_interpreter_call.interpreting") {
        Some((HostedTool::CodeInterpreter, HostedToolPhase::Interpreting))
    } else if same(kind, "response.code_interpreter_call.completed") {
        Some((HostedTool::CodeInterpreter, HostedToolPhase::Completed))
    } else if same(kind, "response.image_generation_call.in_progress") {
        Some((HostedTool::ImageGeneration, HostedToolPhase::InProgress))
    } else if same(kind, "response.image_generation_call.generating") {
        Some((HostedTool::ImageGeneration, HostedToolPhase::Generating))
    } else if same(kind, "response.image_generation_call.completed") {
        Some((HostedTool::ImageGeneration, HostedToolPhase::Completed))
    } else if same(kind, "response.mcp_call.in_progress") {
        Some((HostedTool::Mcp, HostedToolPhase::InProgress))
    } else if same(kind, "response.mcp_call.completed") {
        Some((HostedTool::Mcp, HostedToolPhase::Completed))
    } else if same(kind, "response.mcp_call.failed") {
        Some((HostedTool::Mcp, HostedToolPhase::Failed))
    } else if same(kind, "response.mcp_list_tools.in_progress") {
        Some((HostedTool::McpListTools, HostedToolPhase::InProgress))
    } else if same(kind, "response.mcp_list_tools.completed") {
        Some((HostedTool::McpListTools, HostedToolPhase::Completed))
    } else if same(kind, "response.mcp_list_tools.failed") {
        Some((HostedTool::McpListTools, HostedToolPhase::Failed))
    } else {
        None
    };
    proof {
        match pair {
            Some((tool, phase)) => {
                lifecycle_names_read_back(tool, phase, kind@);
            },
            None => {},
        }
    }
    pair
}

/// The event type a `(tool, phase)` pair names, or `None` for a pair OpenAI does not
/// send.
pub fn lifecycle_event_type(tool: HostedTool, phase: HostedToolPhase) -> (kind: Option<&'static str>)
    ensures
        match kind {
            Some(kind) => lifecycle_name(tool, phase) == Some(kind@),
            None => lifecycle_name(tool, phase) is None,
        },
{
    match (tool, phase) {
        (HostedTool::FileSearch, HostedToolPhase::InProgress) => Some(
            "response.file_search_call.in_progress",
        ),
        (HostedTool::FileSearch, HostedToolPhase::Searching) => Some(
            "response.file_search_call.searching",
        ),
        (HostedTool::FileSearch, HostedToolPhase::Completed) => Some(
            "response.file_search_call.completed",
        ),
        (HostedTool::WebSearch, HostedToolPhase::InProgress) => Some(
            "response.web_search_call.in_progress",
        ),
        (HostedTool::WebSearch, HostedToolPhase::Searching) => Some(
            "response.web_search_call.searching",
        ),
        (HostedTool::WebSearch, HostedToolPhase::Completed) => Some(
            "response.web_search_call.completed",
        ),
        (HostedTool::CodeInterpreter, HostedToolPhase::InProgress) => Some(
            "response.code_interpreter_call.in_progress",
        ),
        (HostedTool::CodeInterpreter, HostedToolPhase::Interpreting) => Some(
            "response.code_interpreter_call.interpreting",
        ),
        (HostedTool::CodeInterpreter, HostedToolPhase::Completed) => Some(
            "response.code_interpreter_call.completed",
        ),
        (HostedTool::ImageGeneration, HostedToolPhase::InProgress) => Some(
            "response.image_generation_call.in_progress",
        ),
        (HostedTool::ImageGeneration, HostedToolPhase::Generating) => Some(
            "response.image_generation_call.generating",
        ),
        (HostedTool::ImageGeneration, HostedToolPhase::Completed) => Some(
            "response.image_generation_call.completed",
        ),
        (HostedTool::Mcp, HostedToolPhase::InProgress) => Some(
            "response.mcp_call.in_progress",
        ),
        (HostedTool::Mcp, HostedToolPhase::Completed) => Some(
            "response.mcp_call.completed",
        ),
        (HostedTool::Mcp, HostedToolPhase::Failed) => Some(
            "response.mcp_call.failed",
        ),
        (HostedTool::McpListTools, HostedToolPhase::InProgress) => Some(
            "response.mcp_list_tools.in_progress",
        ),
        (HostedTool::McpListTools, HostedToolPhase::Completed) => Some(
            "response.mcp_list_tools.completed",
        ),
        (HostedTool::McpListTools, HostedToolPhase::Failed) => Some(
            "response.mcp_list_tools.failed",
        ),
        _ => None,
    }
}

} // verus!
