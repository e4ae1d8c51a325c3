pub mod agent_architect;
pub mod agent_backend;
pub mod agent_protocol;
pub mod agent_traits;
pub mod backend_prompts;
pub mod endpoint_schema;
