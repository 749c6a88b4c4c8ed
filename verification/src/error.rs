//! The error taxonomy of the turn engine.
//!
//! Outside failures (transport, JSON, tool execution, MCP) are carried as
//! plain text: the engine never inspects them beyond reporting.

use vstd::prelude::*;

verus! {

use vstd::string::StringExecFns;

/// Why a turn failed. Fatal conditions only: recoverable conditions
/// (malformed tool input, an unknown tool name) never surface here.
#[derive(Debug, Clone)]
pub enum Error {
    /// An I/O failure in the surrounding transport.
    Io(String),
    /// A JSON failure in the surrounding transport.
    Json(String),
    /// A tool execution failure that could not be wrapped as a tool result.
    ToolExecution(String),
    /// A failure of an attached tool-providing client.
    McpError(String),
    /// The backend's event sequence ended without a completing signal.
    IncompleteStream,
}

impl Error {
    /// The human-readable text of this error.
    pub open spec fn message_spec(&self) -> Seq<char> {
        match self {
            Error::Io(s) => "IO error: "@ + s@,
            Error::Json(s) => "JSON error: "@ + s@,
            Error::ToolExecution(s) => "Tool execution error: "@ + s@,
            Error::McpError(s) => "MCP error: "@ + s@,
            Error::IncompleteStream => "stream ended without a message completion"@,
        }
    }

    /// Render this error as text.
    pub fn message(&self) -> (r: String)
        ensures
            r@ == self.message_spec(),
    {
        match self {
            Error::Io(s) => {
                let mut m = String::from_str("IO error: ");
                m.append(s.as_str());
                m
            },
            Error::Json(s) => {
                let mut m = String::from_str("JSON error: ");
                m.append(s.as_str());
                m
            },
            Error::ToolExecution(s) => {
                let mut m = String::from_str("Tool execution error: ");
                m.append(s.as_str());
                m
            },
            Error::McpError(s) => {
                let mut m = String::from_str("MCP error: ");
                m.append(s.as_str());
                m
            },
            Error::IncompleteStream => String::from_str(
                "stream ended without a message completion",
            ),
        }
    }
}

} // verus!
