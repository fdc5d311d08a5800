//! Flat, display-ready views of Kubernetes cluster objects.
//!
//! The crate turns the objects a cluster hands back (namespaces, pods,
//! services, deployments, config maps, network policies) into the records
//! a dashboard shows, and decides what each endpoint answers when the
//! cluster could not be reached.  Everything here is a pure function with
//! a contract, and all of it is verified but for two calls that are taken
//! on trust: walking a `BTreeMap` in key order, and `chrono`'s rendering of
//! a timestamp.  Talking to the cluster and to HTTP clients is left to the
//! caller.

pub mod cluster;
pub mod format;
pub mod handlers;
pub mod laws;
pub mod models;
pub mod pods;
pub mod projectors;
pub mod router;
pub mod string_map;
pub mod text;
pub mod time;
