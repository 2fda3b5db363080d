//! The configured tool: which conversions it offers and which URLs it admits.
use vstd::prelude::*;
use crate::types::FetchOptions;
use crate::url::opt_view;
use crate::{TOOL_DESCRIPTION, TOOL_LLMTXT};

verus! {

pub open spec fn strings_view(v: Seq<String>) -> Seq<Seq<char>> {
    v.map_values(|s: String| s@)
}

fn clone_strings(v: &Vec<String>) -> (r: Vec<String>)
    ensures
        r@ == v@,
{
    let mut r: Vec<String> = Vec::new();
    let mut i: usize = 0;
    while i < v.len()
        invariant
            i <= v.len(),
            r@ == v@.take(i as int),
        decreases v.len() - i,
    {
        r.push(v[i].clone());
        assert(r@ =~= v@.take(i + 1));
        i = i + 1;
    }
    assert(v@.take(v.len() as int) == v@);
    r
}

/// Builds a `Tool`.
#[derive(Debug)]
pub struct ToolBuilder {
    pub enable_markdown: bool,
    pub enable_text: bool,
    pub user_agent: Option<String>,
    pub allow_prefixes: Vec<String>,
    pub block_prefixes: Vec<String>,
}

impl ToolBuilder {
    /// Both conversions enabled, default `User-Agent`, no prefix lists.
    pub fn new() -> (r: ToolBuilder)
        ensures
            r.enable_markdown && r.enable_text,
            r.user_agent is None,
            r.allow_prefixes@.len() == 0 && r.block_prefixes@.len() == 0,
    {
        ToolBuilder {
            enable_markdown: true,
            enable_text: true,
            user_agent: None,
            allow_prefixes: Vec::new(),
            block_prefixes: Vec::new(),
        }
    }

    pub fn enable_markdown(self, enable: bool) -> (r: ToolBuilder)
        ensures
            r == (ToolBuilder { enable_markdown: enable, ..self }),
    {
        ToolBuilder { enable_markdown: enable, ..self }
    }

    pub fn enable_text(self, enable: bool) -> (r: ToolBuilder)
        ensures
            r == (ToolBuilder { enable_text: enable, ..self }),
    {
        ToolBuilder { enable_text: enable, ..self }
    }

    /// Sets a custom `User-Agent`.
    pub fn user_agent(self, ua: &str) -> (r: ToolBuilder)
        ensures
            opt_view(r.user_agent) == Some(ua@),
            r.enable_markdown == self.enable_markdown && r.enable_text == self.enable_text,
            r.allow_prefixes == self.allow_prefixes && r.block_prefixes == self.block_prefixes,
    {
        ToolBuilder { user_agent: Some(String::from_str(ua)), ..self }
    }

    /// Adds a prefix to the allow list.
    pub fn allow_prefix(self, prefix: &str) -> (r: ToolBuilder)
        ensures
            strings_view(r.allow_prefixes@) == strings_view(self.allow_prefixes@).push(prefix@),
            r.enable_markdown == self.enable_markdown && r.enable_text == self.enable_text,
            r.user_agent == self.user_agent && r.block_prefixes == self.block_prefixes,
    {
        let mut b = self;
        let ghost before = b.allow_prefixes@;
        b.allow_prefixes.push(String::from_str(prefix));
        assert(strings_view(b.allow_prefixes@) =~= strings_view(before).push(prefix@));
        b
    }

    /// Adds a prefix to the block list.
    pub fn block_prefix(self, prefix: &str) -> (r: ToolBuilder)
        ensures
            strings_view(r.block_prefixes@) == strings_view(self.block_prefixes@).push(prefix@),
            r.enable_markdown == self.enable_markdown && r.enable_text == self.enable_text,
            r.user_agent == self.user_agent && r.allow_prefixes == self.allow_prefixes,
    {
        let mut b = self;
        let ghost before = b.block_prefixes@;
        b.block_prefixes.push(String::from_str(prefix));
        assert(strings_view(b.block_prefixes@) =~= strings_view(before).push(prefix@));
        b
    }

    pub fn build(self) -> (r: Tool)
        ensures
            r.enable_markdown == self.enable_markdown,
            r.enable_text == self.enable_text,
            r.user_agent == self.user_agent,
            r.allow_prefixes == self.allow_prefixes,
            r.block_prefixes == self.block_prefixes,
    {
        Tool {
            enable_markdown: self.enable_markdown,
            enable_text: self.enable_text,
            user_agent: self.user_agent,
            allow_prefixes: self.allow_prefixes,
            block_prefixes: self.block_prefixes,
        }
    }
}

/// A configured fetch tool.
#[derive(Debug)]
pub struct Tool {
    pub enable_markdown: bool,
    pub enable_text: bool,
    pub user_agent: Option<String>,
    pub allow_prefixes: Vec<String>,
    pub block_prefixes: Vec<String>,
}

impl Default for Tool {
    fn default() -> (r: Tool)
        ensures
            r.enable_markdown && r.enable_text,
            r.user_agent is None,
            r.allow_prefixes@.len() == 0 && r.block_prefixes@.len() == 0,
    {
        ToolBuilder::new().build()
    }
}

impl Tool {
    pub fn builder() -> (r: ToolBuilder)
        ensures
            r.enable_markdown && r.enable_text,
            r.user_agent is None,
            r.allow_prefixes@.len() == 0 && r.block_prefixes@.len() == 0,
    {
        ToolBuilder::new()
    }

    pub fn description(&self) -> (r: &'static str)
        ensures
            r@ == TOOL_DESCRIPTION@,
    {
        TOOL_DESCRIPTION
    }

    /// The system prompt; this tool needs none.
    pub fn system_prompt(&self) -> (r: &'static str)
        ensures
            r@.len() == 0,
    {
        proof {
            reveal_strlit("");
        }
        ""
    }

    pub fn llmtxt(&self) -> (r: &'static str)
        ensures
            r@ == TOOL_LLMTXT@,
    {
        TOOL_LLMTXT
    }

    /// The engine options that the tool's configuration stands for.
    pub fn options(&self) -> (r: FetchOptions)
        ensures
            opt_view(r.user_agent) == opt_view(self.user_agent),
            r.allow_prefixes@ == self.allow_prefixes@,
            r.block_prefixes@ == self.block_prefixes@,
            r.enable_markdown == self.enable_markdown,
            r.enable_text == self.enable_text,
    {
        FetchOptions {
            user_agent: match &self.user_agent {
                Some(u) => Some(u.clone()),
                None => None,
            },
            allow_prefixes: clone_strings(&self.allow_prefixes),
            block_prefixes: clone_strings(&self.block_prefixes),
            enable_markdown: self.enable_markdown,
            enable_text: self.enable_text,
        }
    }
}

} // verus!
