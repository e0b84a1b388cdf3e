//! Kubernetes operator core: per-user SSH workspaces and their idle shutdown.
//!
//! The library holds the operator's decisions; talking to the cluster and
//! serving HTTP is left to the caller, which feeds the results back in.

pub mod annotation;
pub mod api;
pub mod bootstrap;
pub mod config;
pub mod quantity;
pub mod reconcile;
pub mod render;
pub mod sweep;
pub mod tasks;
pub mod text;
pub mod time;
pub mod workspace;
