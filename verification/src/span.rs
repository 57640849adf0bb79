//! Span records and their conversion into exportable spans.
//!
//! A `WasmSpan` is the internal record of one completed guest call: which
//! invocation it was, which function ran, and when the call started and
//! ended (nanoseconds since the UNIX epoch). An `ExportSpan` is the shape
//! handed to the tracing transport: a named span with explicit timestamps
//! and attributes.

use vstd::prelude::*;
use vstd::string::StringExecFns;

verus! {

/// One key/value attribute attached to an exported span.
#[derive(Clone, Debug)]
pub struct Attr {
    pub key: String,
    pub value: String,
}

/// The record of one completed guest call, assembled when its exit is
/// observed. Invariant checked before export: a record whose end does not
/// lie strictly after its start is dropped, never exported.
#[derive(Clone, Debug)]
pub struct WasmSpan {
    pub runtime_id: u128,
    pub function_name: String,
    pub start_time_ns: u64,
    pub end_time_ns: u64,
}

/// A span as handed to the transport: name, explicit start and end
/// timestamps, and attributes. Every span this library hands over is of
/// internal kind.
#[derive(Clone, Debug)]
pub struct ExportSpan {
    pub name: String,
    pub start_time_ns: u64,
    pub end_time_ns: u64,
    pub attrs: Vec<Attr>,
}

/// Saturating 64-bit addition: the end timestamp of a record is the start
/// plus the measured duration, clamped at the largest representable time.
pub open spec fn sat_add64(a: u64, b: u64) -> u64 {
    if a + b <= u64::MAX {
        (a + b) as u64
    } else {
        u64::MAX
    }
}

/// The stable naming convention for call spans.
pub open spec fn wasm_span_name(func: Seq<char>) -> Seq<char> {
    "wasm::"@ + func
}

/// The stable naming convention for out-of-band event spans.
pub open spec fn event_span_name(name: Seq<char>) -> Seq<char> {
    "event::"@ + name
}

/// A record may be exported only if its end lies strictly after its start.
pub open spec fn admissible(rec: WasmSpan) -> bool {
    rec.end_time_ns > rec.start_time_ns
}

/// What the exported span of a call record is: named by the convention,
/// timestamps taken exactly from the record, and exactly one attribute
/// carrying the correlation identifier in its hyphenated text form.
pub open spec fn is_span_of(s: ExportSpan, rec: WasmSpan) -> bool {
    &&& s.name@ == wasm_span_name(rec.function_name@)
    &&& s.start_time_ns == rec.start_time_ns
    &&& s.end_time_ns == rec.end_time_ns
    &&& s.attrs@.len() == 1
    &&& s.attrs@[0].key@ == "wasm.runtime_id"@
    &&& s.attrs@[0].value@ == crate::ext::uuid_text_of(rec.runtime_id)
}

/// Builds the exported name of a call span.
pub fn span_name(func_name: &str) -> (r: String)
    ensures
        r@ == wasm_span_name(func_name@),
{
    let mut s = "wasm::".to_owned();
    s.append(func_name);
    s
}

/// Builds the exported name of an event span.
pub fn event_name(name: &str) -> (r: String)
    ensures
        r@ == event_span_name(name@),
{
    let mut s = "event::".to_owned();
    s.append(name);
    s
}

/// The runtime form of `admissible`: whether this record may be exported.
pub fn is_admissible(rec: &WasmSpan) -> (r: bool)
    ensures
        r == admissible(*rec),
{
    rec.end_time_ns > rec.start_time_ns
}

/// Converts a call record into the span handed to the transport.
pub fn make_span(rec: &WasmSpan) -> (s: ExportSpan)
    ensures
        is_span_of(s, *rec),
{
    let name = span_name(rec.function_name.as_str());
    let mut attrs: Vec<Attr> = Vec::new();
    attrs.push(Attr { key: "wasm.runtime_id".to_owned(), value: crate::ext::uuid_string(rec.runtime_id) });
    ExportSpan { name, start_time_ns: rec.start_time_ns, end_time_ns: rec.end_time_ns, attrs }
}

/// Builds the zero-duration span of an out-of-band event: both timestamps
/// equal the moment of recording, the attributes are kept in order.
pub fn make_event_span(name: &str, attributes: Vec<Attr>, at_ns: u64) -> (s: ExportSpan)
    ensures
        s.name@ == event_span_name(name@),
        s.start_time_ns == at_ns,
        s.end_time_ns == at_ns,
        s.attrs == attributes,
{
    ExportSpan { name: event_name(name), start_time_ns: at_ns, end_time_ns: at_ns, attrs: attributes }
}

} // verus!
