pub mod applier;
pub mod chain;
pub mod config;
pub mod error;
pub mod evm_map;
pub mod laws;
pub mod plan;
pub mod run;
