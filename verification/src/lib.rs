//! Gatekeeper core for node-local dataset caches: decides when a gated
//! workload may be released to the scheduler, and proves the rules it follows.
//!
//! The library holds every decision and no I/O. A caller watches the cluster,
//! looks at the disk and keeps the clock; after each thing it learns it asks
//! here what to do next.
//!
//! - `workload`, `cache_key`, `config`: what a workload asks for, and the
//!   names derived from a dataset identifier.
//! - `cache`, `single_flight`: what is on the node, and who fetches what.
//! - `fetch_job`, `orchestrator`, `cluster`: the job that fetches a dataset,
//!   and the decisions that bring it to its end.
//! - `reconciler`, `reconciler_laws`: one pass per workload snapshot, and what
//!   holds of every pass.
//! - `watch`, `queue`, `backoff`: the event stream, the work it turns into,
//!   and the waiting in between.
//! - `metrics`, `exported`: the ledger of what was counted, and the
//!   Prometheus registry it is mirrored to.
//! - `probe`: the records of the kernel probes.
//! - `keyed`, `text`, `counting`: the tables, strings and counters underneath.

pub mod backoff;
pub mod cache;
pub mod cache_key;
pub mod cluster;
pub mod config;
pub mod counting;
pub mod exported;
pub mod fetch_job;
pub mod keyed;
pub mod metrics;
pub mod orchestrator;
pub mod probe;
pub mod queue;
pub mod reconciler;
pub mod reconciler_laws;
pub mod single_flight;
pub mod text;
pub mod watch;
pub mod workload;
