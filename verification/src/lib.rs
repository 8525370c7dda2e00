//! Canonical tool identifiers for a cross-platform tool manager.
//!
//! A [`ToolId`](id::ToolId) names a tool by hosting provider, author and
//! name.  It parses from text of the form `[provider:]author/name`, keeps the
//! original casing for display, and compares, orders and hashes
//! case-insensitively over the ASCII-lowercased author and name.
//! [`RokitError`](errors::RokitError) is the closed failure vocabulary shared
//! by the surrounding download, extraction and install pipeline.

pub mod chars;
pub mod errors;
pub mod id;
pub mod laws;
pub mod provider;
pub mod text;
pub mod tool_spec;

pub use errors::{RokitError, RokitResult};
pub use id::{ToolId, ToolIdParseError};
pub use provider::ArtifactProvider;
pub use tool_spec::{ToolAlias, ToolSpec};
