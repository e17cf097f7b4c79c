//! Tool and agent types.

use std::collections::HashMap;
use vstd::prelude::*;
use crate::types::permission::Ruleset;
use crate::types::project::ModelRef;

verus! {

/// A tool definition returned by `GET /experimental/tool`.
#[derive(Debug, Clone)]
pub struct ToolListItem {
    /// Tool identifier.
    pub id: String,
    /// Tool description.
    pub description: String,
    /// Input parameters JSON schema.
    pub parameters: serde_json::Value,
}

/// Agent mode (how the agent operates).
#[derive(Debug, Clone, PartialEq, Eq)]
#[non_exhaustive]
pub enum AgentMode {
    /// Subagent mode (child agent).
    Subagent,
    /// Primary agent mode.
    Primary,
    /// Available in all contexts.
    All,
    /// Unknown mode (forward compatibility).
    Unknown,
}

/// An agent definition.
#[derive(Debug, Clone)]
pub struct Agent {
    /// Agent name.
    pub name: String,

    /// Agent description.
    pub description: Option<String>,

    /// System prompt.
    pub system: Option<String>,

    /// Allowed tools.
    pub tools: Vec<String>,

    /// Whether this is a built-in agent.
    pub builtin: Option<bool>,

    // ==================== Further server fields ====================
    /// Agent mode (subagent, primary, all).
    pub mode: Option<AgentMode>,

    /// Whether this is a native agent.
    pub native: Option<bool>,

    /// Whether this agent is hidden from UI.
    pub hidden: Option<bool>,

    /// Top-p sampling parameter, as the bit pattern of its IEEE-754 double.
    pub top_p_bits: Option<u64>,

    /// Temperature sampling parameter, as the bit pattern of its IEEE-754 double.
    pub temperature_bits: Option<u64>,

    /// Agent color for UI display.
    pub color: Option<String>,

    /// Permission ruleset for this agent.
    pub permission: Option<Ruleset>,

    /// Model reference for this agent.
    pub model: Option<ModelRef>,

    /// Model variant name.
    pub variant: Option<String>,

    /// Prompt template for this agent.
    pub prompt: Option<String>,

    /// Additional options.
    pub options: HashMap<String, serde_json::Value>,

    /// Maximum steps for this agent.
    pub steps: Option<u32>,

    /// Additional fields from server.
    pub extra: serde_json::Value,
}

/// A command definition.
#[derive(Debug, Clone)]
pub struct Command {
    /// Command name.
    pub name: String,
    /// Command description.
    pub description: Option<String>,
    /// Command shortcut key.
    pub shortcut: Option<String>,
}

/// List of tool IDs.
///
/// Deserializes directly from a JSON array (e.g., `["tool-a", "tool-b"]`).
#[derive(Debug, Clone)]
pub struct ToolIds(pub Vec<String>);

/// Tool list response.
pub type ToolList = Vec<ToolListItem>;

impl ToolIds {
    /// Returns the inner vector of tool IDs.
    pub fn into_inner(self) -> (r: Vec<String>)
        ensures
            r == self.0,
    {
        self.0
    }

    /// Returns a reference to the inner vector.
    pub fn as_slice(&self) -> (r: &[String])
        ensures
            r@ == self.0@,
    {
        self.0.as_slice()
    }

    /// Returns true if empty.
    pub fn is_empty(&self) -> (r: bool)
        ensures
            r == (self.0@.len() == 0),
    {
        self.0.len() == 0
    }

    /// Returns the number of tool IDs.
    pub fn len(&self) -> (r: usize)
        ensures
            r == self.0@.len(),
    {
        self.0.len()
    }
}

} // verus!
