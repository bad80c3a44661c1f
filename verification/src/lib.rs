//! Corral: capability-based sandboxing for agent skills.
//!
//! The verified library holds the permission model, the policy decisions,
//! the manifest model and the decision logic of the broker.

pub mod text;
pub mod glob;
pub mod strmap;
pub mod scope;
pub mod permissions;
pub mod json;
pub mod policy;
pub mod sandbox;
pub mod manifest;
pub mod manifest_policy;
pub mod jsonrpc;
pub mod broker;
pub mod handlers;
pub mod reminders;
pub mod paths;
pub mod launch;
pub mod cli;
pub mod laws;
