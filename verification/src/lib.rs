//! Cluster-health aggregation library.
//!
//! Turns raw workload, pod, node, event and storage records into classified
//! issues, assembles full cluster reports with required/optional failure
//! semantics, and drives a per-connection notification session state machine.

pub mod alertmanager;
pub mod apps;
pub mod argocd;
pub mod backups;
pub mod chat;
pub mod cilium;
pub mod classify;
pub mod cluster;
pub mod duration;
pub mod events;
pub mod export;
pub mod ingress;
pub mod mcp;
pub mod nodes;
pub mod pods;
pub mod services;
pub mod session;
pub mod storage;
pub mod strfmt;
pub mod telemetry;
pub mod time;
pub mod units;
