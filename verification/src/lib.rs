//! Transparent instrumentation of guest calls into tracing spans.
//!
//! Every invocation of a wrapped guest function is timed and correlated
//! into a span: a fresh correlation identifier pairs the entry and exit
//! observations of one in-flight call even when many calls overlap, and
//! completed span records move off the hot call path into an export
//! pipeline — either closed directly against the process-wide tracer, or
//! queued on a channel drained by a background exporter.

pub mod cache;
pub mod laws;
pub mod exporter;
pub mod ext;
pub mod observer;
pub mod span;
pub mod store;

pub use ext::get_tracer;
pub use observer::{TelemetryObserver, TelemetryObserverBuilder, WasmObserver};
pub use span::{Attr, ExportSpan, WasmSpan};
