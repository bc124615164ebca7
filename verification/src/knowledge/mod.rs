pub mod agent;
pub mod builder;
pub mod renderer;
pub mod store;

use vstd::prelude::*;

verus! {

/// The tools a knowledge-agent session may not use.
pub const KNOWLEDGE_AGENT_DISALLOWED_TOOLS: [&'static str; 12] = [
    "Bash",
    "Read",
    "Write",
    "Edit",
    "Grep",
    "Glob",
    "WebFetch",
    "WebSearch",
    "Task",
    "NotebookEdit",
    "AskUserQuestion",
    "TodoWrite",
];

} // verus!
