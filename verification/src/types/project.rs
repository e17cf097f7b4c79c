//! Project types and model references.

use std::collections::HashMap;
use vstd::prelude::*;
use crate::text::{opt_str, opt_text};

verus! {

/// A project in `OpenCode`.
#[derive(Debug, Clone)]
pub struct Project {
    /// Project identifier.
    pub id: String,

    /// Project name.
    pub name: Option<String>,

    /// Project directory path (legacy field, 1.3.17 uses `worktree`).
    pub directory: Option<String>,

    /// Whether this is the current project.
    pub current: bool,

    /// Project settings.
    pub settings: Option<ProjectSettings>,

    // ==================== Further server fields ====================
    /// Worktree path.
    pub worktree: Option<String>,

    /// Version control system (e.g., "git").
    pub vcs: Option<String>,

    /// Project icon.
    pub icon: Option<ProjectIcon>,

    /// Project commands.
    pub commands: ProjectCommands,

    /// Project timestamps.
    pub time: Option<ProjectTime>,

    /// Associated sandbox identifiers.
    pub sandboxes: Vec<String>,

    /// Additional fields from server.
    pub extra: serde_json::Value,
}

/// Project icon definition (matches TS `ProjectIcon`).
#[derive(Debug, Clone)]
pub struct ProjectIcon {
    /// Icon URL.
    pub url: Option<String>,

    /// Override icon type.
    pub override_: Option<String>,

    /// Icon color.
    pub color: Option<String>,

    /// Additional icon properties.
    pub extra: serde_json::Value,
}

/// Project commands configuration.
#[derive(Debug, Clone)]
pub struct ProjectCommands {
    /// Commands by name.
    pub commands: HashMap<String, serde_json::Value>,
}

/// Project timestamps.
#[derive(Debug, Clone)]
pub struct ProjectTime {
    /// Creation timestamp (Unix epoch).
    pub created: Option<u64>,

    /// Last update timestamp (Unix epoch).
    pub updated: Option<u64>,

    /// Last accessed timestamp (Unix epoch).
    pub accessed: Option<u64>,

    /// Additional time properties.
    pub extra: serde_json::Value,
}

/// Project settings.
#[derive(Debug, Clone)]
pub struct ProjectSettings {
    /// Default model for this project.
    pub default_model: Option<ModelRef>,
    /// Default agent for this project.
    pub default_agent: Option<String>,
    /// Additional project-specific settings.
    pub extra: serde_json::Value,
}

/// Reference to a model.
///
/// TS has two wire shapes — `{providerID, modelID}` (in MessageInfo) and
/// `{id, providerID}` (in Session / session.next events).  Both are accepted.
#[derive(Debug, Clone)]
pub struct ModelRef {
    /// Provider identifier.
    pub provider_id: Option<String>,
    /// Model identifier (Shape 1: `modelID`).
    pub model_id: Option<String>,
    /// Model identifier (Shape 2: `id`).
    pub id: Option<String>,
    /// Optional model variant.
    pub variant: Option<String>,
    /// Additional fields from server.
    pub extra: serde_json::Value,
}



/// Request to update a project.
#[derive(Debug, Clone)]
pub struct UpdateProjectRequest {
    /// New project name.
    pub name: Option<String>,
    /// New project settings.
    pub settings: Option<ProjectSettings>,
}

/// Response from git init operation.
#[derive(Debug, Clone)]
pub struct GitInitResponse {
    /// Whether the initialization was successful.
    pub success: bool,
    /// Path to the initialized repository.
    pub path: Option<String>,
}

impl ModelRef {
    /// Canonical model identifier, preferring `modelID` then `id`.
    pub fn resolved_id(&self) -> (r: Option<&str>)
        ensures
            r is Some <==> (self.model_id is Some || self.id is Some),
            r matches Some(s) ==> (if self.model_id is Some {
                opt_text(self.model_id) == Some(s@)
            } else {
                opt_text(self.id) == Some(s@)
            }),
    {
        match &self.model_id {
            Some(m) => Some(m.as_str()),
            None => opt_str(&self.id),
        }
    }
}

} // verus!
