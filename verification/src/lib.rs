//! Verified core of the balls ↔ GitHub Issues mirror.

pub mod adopt;
pub mod auth;
pub mod base;
pub mod cli;
pub mod commands;
pub mod config;
pub mod content;
pub mod dispatch;
pub mod error;
pub mod http;
pub mod issues_api;
pub mod marker;
pub mod merge;
pub mod pull;
pub mod pull_content;
pub mod pull_emit;
pub mod pull_emit_update;
pub mod push;
pub mod shellback;
pub mod store;
pub mod territory;
pub mod text;
pub mod types;
pub mod wire;
