//! Process supervision, readiness gating and sandbox bookkeeping for the
//! desktop sidecar stack, with every decision stated and proved.

pub mod text;
pub mod number;
pub mod output;
pub mod runtime_options;
pub mod types;
pub mod registry;
pub mod args;
pub mod health;
pub mod docker;
pub mod credentials;
pub mod sandbox;
pub mod runtime;
pub mod status;
pub mod network;
pub mod paths;
pub mod workspace;
pub mod engine_paths;
pub mod bridge;
