//! The narrow interfaces to the outside collaborators: the identifier
//! generator, the clock, the tracing transport and the export channel.
//! Every function here is trusted: its body makes the outside call and its
//! contract states no more than the collaborator's own source shows.

use vstd::prelude::*;

use crate::span::{ExportSpan, WasmSpan};
use opentelemetry::trace::{Span, Tracer};

verus! {

/// tokio's unbounded multi-producer/single-consumer sender half, the
/// producer side of the export channel.
#[verifier::external_type_specification]
#[verifier::external_body]
#[verifier::reject_recursive_types(T)]
pub struct ExUnboundedSender<T>(tokio::sync::mpsc::UnboundedSender<T>);

/// tokio's unbounded channel receiver half, owned by the exporter task.
#[verifier::external_type_specification]
#[verifier::external_body]
#[verifier::reject_recursive_types(T)]
pub struct ExUnboundedReceiver<T>(tokio::sync::mpsc::UnboundedReceiver<T>);

/// opentelemetry's process-wide tracer handle.
#[verifier::external_type_specification]
#[verifier::external_body]
pub struct ExBoxedTracer(opentelemetry::global::BoxedTracer);

/// The hyphenated text form of a 128-bit correlation identifier. It is a
/// function of the identifier's bits alone; `uuid_string` below produces it.
pub uninterp spec fn uuid_text_of(id: u128) -> Seq<char>;

/// Relies on uuid's `Uuid::new_v4`: a freshly drawn random version-4
/// identifier, returned as its 128 bits. Nothing can be promised of a
/// random draw; callers must hold for every value.
#[verifier::external_body]
pub(crate) fn fresh_runtime_id() -> u128 {
    uuid::Uuid::new_v4().as_u128()
}

/// Relies on uuid's `Display` impl: the hyphenated form, 36 ASCII
/// characters, determined by the 128 bits alone.
#[verifier::external_body]
pub(crate) fn uuid_string(id: u128) -> (r: String)
    ensures
        r@ == uuid_text_of(id),
        r@.len() == 36,
{
    uuid::Uuid::from_u128(id).to_string()
}

/// Relies on std's `SystemTime::now`, converted to nanoseconds since the
/// UNIX epoch (0 if the clock reads before the epoch, the largest value if
/// past the range of 64 bits). Nothing can be promised of a clock reading.
#[verifier::external_body]
pub(crate) fn now_unix_ns() -> u64 {
    match std::time::SystemTime::now().duration_since(std::time::UNIX_EPOCH) {
        Ok(d) => u64::try_from(d.as_nanos()).unwrap_or(u64::MAX),
        Err(_) => 0,
    }
}

/// Relies on opentelemetry's `global::tracer`: the tracer handle of the
/// process-wide provider, under this library's instrumentation scope name.
#[verifier::external_body]
pub fn get_tracer() -> opentelemetry::global::BoxedTracer {
    opentelemetry::global::tracer("orches")
}

/// Relies on opentelemetry's `SpanBuilder` and `Tracer::build`: hands one
/// span of internal kind, with exactly the given name, start and end
/// timestamps and attributes, to the installed transport, and ends it.
/// Transport failures are absorbed downstream and never surface here.
#[verifier::external_body]
pub(crate) fn emit_span(tracer: &opentelemetry::global::BoxedTracer, s: &ExportSpan) {
    let start = std::time::UNIX_EPOCH + std::time::Duration::from_nanos(s.start_time_ns);
    let end = std::time::UNIX_EPOCH + std::time::Duration::from_nanos(s.end_time_ns);
    let attrs: Vec<opentelemetry::KeyValue> = s.attrs.iter()
        .map(|a| opentelemetry::KeyValue::new(a.key.clone(), a.value.clone()))
        .collect();
    let builder = tracer.span_builder(s.name.clone())
        .with_kind(opentelemetry::trace::SpanKind::Internal)
        .with_start_time(start)
        .with_attributes(attrs);
    let mut span = tracer.build(builder);
    span.end_with_timestamp(end);
}

/// Relies on tokio's `UnboundedSender::send`: the record is queued unless
/// the receiver is gone; a send failure is absorbed, the caller is never
/// affected.
#[verifier::external_body]
pub(crate) fn send_span(tx: &tokio::sync::mpsc::UnboundedSender<WasmSpan>, rec: WasmSpan) {
    let _ = tx.send(rec);
}

/// Relies on tokio's `UnboundedReceiver::blocking_recv`: the next queued
/// record, or `None` once every sender has been dropped and the queue is
/// drained. Must run outside an asynchronous context (tokio panics there),
/// so the exporter loop is meant for a dedicated thread.
#[verifier::external_body]
pub(crate) fn recv_span(rx: &mut tokio::sync::mpsc::UnboundedReceiver<WasmSpan>) -> Option<WasmSpan> {
    rx.blocking_recv()
}

} // verus!
