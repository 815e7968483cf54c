//! A command bridge between a desktop host and an embedded script engine.
//!
//! The host exposes a fixed catalogue of operations ([`registry`]). Each one
//! becomes a [`CommandRequest`](protocol::CommandRequest) that the bridge
//! ([`bridge`]) forwards to the engine's executor in a pipeline whose every
//! stage has its own failure class ([`error`]). The engine is started once
//! ([`lifecycle`]) and worked on by one caller at a time ([`token`]).

pub mod error;
pub mod protocol;
pub mod bridge;
pub mod registry;
pub mod lifecycle;
pub mod token;
