//! Routing decisions of the tool-protocol server: which handler a request
//! method goes to, and which tool a call names.
use vstd::prelude::*;
use crate::tool::Tool;

verus! {

/// JSON-RPC error code for an unknown method.
pub const METHOD_NOT_FOUND: i32 = -32601;

/// JSON-RPC error code for bad parameters.
pub const INVALID_PARAMS: i32 = -32602;

/// JSON-RPC error code for a line that does not parse.
pub const PARSE_ERROR: i32 = -32700;

/// The handler for a request method.
#[derive(Clone, Copy, PartialEq, Eq, Structural, Debug)]
pub enum McpMethod {
    Initialize,
    ToolsList,
    ToolsCall,
    Initialized,
    Unknown,
}

/// The tool that a call names.
#[derive(Clone, Copy, PartialEq, Eq, Structural, Debug)]
pub enum McpTool {
    /// Fetch with the request's own options; the answer is the response as JSON.
    Fetch,
    /// Fetch as Markdown; the answer is Markdown with a metadata block.
    FetchMarkdown,
    Unknown,
}

pub open spec fn method_of(name: Seq<char>) -> McpMethod {
    if name == "initialize"@ {
        McpMethod::Initialize
    } else if name == "tools/list"@ {
        McpMethod::ToolsList
    } else if name == "tools/call"@ {
        McpMethod::ToolsCall
    } else if name == "notifications/initialized"@ {
        McpMethod::Initialized
    } else {
        McpMethod::Unknown
    }
}

pub open spec fn tool_of(name: Seq<char>) -> McpTool {
    if name == "fetchkit"@ {
        McpTool::Fetch
    } else if name == "fetchkit_md"@ {
        McpTool::FetchMarkdown
    } else {
        McpTool::Unknown
    }
}

fn is(s: &str, lit: &str) -> (r: bool)
    ensures
        r == (s@ == lit@),
{
    let a = String::from_str(s);
    let b = String::from_str(lit);
    a == b
}

/// The tool-protocol server's state: the tool it serves.
pub struct McpServer {
    pub tool: Tool,
}

impl McpServer {
    /// A server for the default tool.
    pub fn new() -> (r: McpServer)
        ensures
            r.tool.enable_markdown && r.tool.enable_text,
            r.tool.user_agent is None,
            r.tool.allow_prefixes@.len() == 0 && r.tool.block_prefixes@.len() == 0,
    {
        McpServer { tool: Tool::default() }
    }

    /// The handler for a request method.
    pub fn route(method: &str) -> (r: McpMethod)
        ensures
            r == method_of(method@),
    {
        if is(method, "initialize") {
            McpMethod::Initialize
        } else if is(method, "tools/list") {
            McpMethod::ToolsList
        } else if is(method, "tools/call") {
            McpMethod::ToolsCall
        } else if is(method, "notifications/initialized") {
            McpMethod::Initialized
        } else {
            McpMethod::Unknown
        }
    }

    /// The tool that a call names.
    pub fn tool_for(name: &str) -> (r: McpTool)
        ensures
            r == tool_of(name@),
    {
        if is(name, "fetchkit") {
            McpTool::Fetch
        } else if is(name, "fetchkit_md") {
            McpTool::FetchMarkdown
        } else {
            McpTool::Unknown
        }
    }

    /// A notification (no id, method under `notifications/`) gets no answer.
    pub fn is_silent(has_id: bool, method: &str) -> (r: bool)
        ensures
            r == (!has_id && crate::convert::starts_with(method@, "notifications/"@)),
    {
        !has_id && crate::fetchers::has_prefix(method, "notifications/")
    }
}

} // verus!
