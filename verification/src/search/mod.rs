pub mod orchestrator;
pub mod qdrant;
pub mod result_formatter;
pub mod strategies;
pub mod vector;
pub mod sql;
