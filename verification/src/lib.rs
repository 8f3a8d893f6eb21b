//! Kernel-truth observability for Kubernetes workloads.
//!
//! The library covers the logic of a three-part pipeline: a node observer
//! that parses a kernel trace stream and aggregates per-lineage activity, an
//! ingress controller that gates and upserts observation resources, and a
//! reconciler that derives recommendations and requeue cadence from them.
//! All quantities are held as plain integers (percentages in tenths of a
//! percent, CPU in millicores) so every derivation is stated and proved exactly.

pub mod actions;
pub mod aggregator;
pub mod bpftrace_runner;
pub mod clock;
pub mod config;
pub mod crd;
pub mod ebpf;
pub mod ebpf_loader;
pub mod ingress;
pub mod kernel_whisper;
pub mod meta;
pub mod parser;
pub mod pod_birth_certificate;
pub mod pod_lifecycle;
pub mod recommendation;
pub mod resolver;
pub mod strutil;
pub mod throttle;
pub mod webhook;

pub use kernel_whisper::Severity;
