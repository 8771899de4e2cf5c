pub mod agent;
pub mod behavior;
pub mod config;
pub mod factory;
pub mod prompt;
pub mod role;
