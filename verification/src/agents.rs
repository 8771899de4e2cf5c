pub mod doc_coordinator_agent;
pub mod doc_runner_agent;
pub mod doc_verifier_agent;
