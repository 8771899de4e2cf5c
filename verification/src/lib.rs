pub mod agents;
pub mod agent_core;
pub mod events;
pub mod state;
pub mod str_map;
pub mod text;
