//! Core of a self-hosted function-as-a-service control plane.
//!
//! The library holds the decision logic of the platform: how a bundle is
//! turned into a buildable project, how image tags and cache keys are
//! derived, how an invocation is routed to a running instance, how inbound
//! requests are relayed, and how bearer tokens guard the management routes.
//! Everything that talks to the outside world (the container daemon, the
//! SQL store, the cache, the network) receives its inputs from callers as
//! plain values and hands its verdicts back the same way.

pub mod cache;
pub mod catalog;
pub mod cli;
pub mod config;
pub mod deploy;
pub mod errors;
pub mod guard;
pub mod keys;
pub mod proxy;
pub mod runtime;
pub mod scheduler;
pub mod surface;
pub mod text;
pub mod urls;

pub use text::to_camel_case_handler;
