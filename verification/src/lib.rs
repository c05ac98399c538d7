//! Decisions of a build-and-install orchestrator for external tools.
//!
//! A target is an external tool that is to be present at a required version.
//! This library decides whether it is, where its sources come from, and in
//! which order a host fetches, unpacks, builds and installs them. It reaches
//! for nothing outside the process itself: every operation hands the host the
//! next action and takes the host's reply.

pub mod error;
pub mod lifecycle;
pub mod mirror;
pub mod target;
pub mod text;
pub mod version;

pub use crate::error::MakeError;
pub use crate::lifecycle::{Action, Buildable, Invocation, Probe, Reply, Stage, Step};
pub use crate::target::{Config, Target};
