//! Logic of a small local cluster: node pools, configuration paths with
//! `~` expansion, and a sticky-session load balancer that routes callers
//! to backend nodes.

pub mod decimal;
pub mod path;
pub mod dir_utils;
pub mod config;
pub mod control_plane;
pub mod bootstrap;
pub mod balancer;
pub mod server;
