//! Decision logic of the Codex agent: plugin identifiers, login callback
//! state, world-state sections, realtime context chunking, channel parsing,
//! turn registries, requirement application and related rules.

pub mod text;
pub mod assoc;
pub mod plugin_id;
pub mod json;
pub mod realtime;
pub mod bem;
pub mod world_state;
pub mod world_state_plan;
pub mod active_turn_registry;
pub mod requirements;
pub mod login;
pub mod environment;
pub mod mcp_runtime;
pub mod image_preparation;
pub mod network_policy;
pub mod mcp_tool_exposure;
pub mod mcp_config;
pub mod session_archive;
pub mod session_lookup;
