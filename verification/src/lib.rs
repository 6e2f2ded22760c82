//! Verified core of the Stormchaser Kubernetes runner and terminal UI.
pub mod text;
pub mod version;
pub mod naming;
pub mod pod_metrics;
pub mod model;
pub mod k8s_model;
pub mod job_spec;
pub mod json;
pub mod ordered_map;
pub mod containers;
pub mod job;
pub mod job_machine;
pub mod task;
pub mod app;
pub mod run_events;
pub mod filters;
pub mod cli;
pub mod schema;
pub mod keys;
pub mod display;
pub mod tls;
pub mod markers;
pub mod dialogs;
pub mod auth;
pub mod decode;
pub mod detail;
pub mod submission;
