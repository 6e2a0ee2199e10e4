//! A provider adapter for the Swiss AI Platform chat-completion service.
//!
//! The crate holds the decisions of one completion call and proves them:
//! how a conversation becomes a request payload, how transport outcomes are
//! classified and retried, how a response becomes a message with token
//! accounting, and what the provider publishes about itself. Sending bytes
//! over the network is left to the caller, who performs the action that each
//! call state asks for and reports what happened.

pub mod auth;
pub mod call;
pub mod config;
pub mod decode;
pub mod encode;
pub mod errors;
pub mod json;
pub mod listing;
pub mod message;
pub mod metadata;
pub mod model;
pub mod provider;
pub mod retry;
pub mod roundtrip;
pub mod text;
pub mod wire;
