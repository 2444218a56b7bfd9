//! Verified core of the Exsul entrepreneur launch system: the discovery
//! interview, the profiling and tax/registration knowledge base, the gateway
//! decisions, the migration script splitter and the migration runner's
//! decisions.

pub mod answers;
pub mod content;
pub mod discovery;
pub mod errors;
pub mod gateway;
pub mod knowledge;
pub mod migrations;
pub mod profiling;
pub mod runner;
pub mod script;
pub mod startup;
pub mod text;
pub mod types;
