pub mod agent;
pub mod client;
pub mod config;
pub mod copilot;
pub mod diff;
pub mod error;
pub mod git;
pub mod hook;
pub mod prompt;
pub mod redact;
pub mod report;
pub mod review;
pub mod text;
pub mod types;
