//! Telemetry pipeline composition and span derivation for a small HTTP
//! service that ships traces, metrics and logs over OTLP/HTTP-JSON to a
//! remote collector.
//!
//! The library owns the design decisions of that observability stack and
//! states them as contracts:
//!
//! - [`config`]: per-signal exporter configuration (endpoint suffixes, the
//!   `api-key` authentication header, JSON-over-HTTP encoding), the resource
//!   identity attached to every signal, and the all-or-nothing pipeline plan
//!   with its fixed subscriber-layer order.
//! - [`batching`]: the bounded batching queue that decouples emission from
//!   export, with its at-most-once, order-preserving delivery policy.
//! - [`recorder`]: spans and log records as data, with call-stack scoped
//!   span nesting.
//! - [`handler`]: the instrumented call graph and the exact span tree and
//!   log records each call produces.
//! - [`request_span`]: root-span derivation from an inbound request and its
//!   matched route template.
//! - [`otel`]: assembly of the real exporters, providers and subscriber
//!   layers behind the verified plan.

pub mod batching;
pub mod config;
pub mod handler;
pub mod otel;
pub mod recorder;
pub mod request_span;
