//! The observer contract, its telemetry implementation, and the decision
//! half of the call-wrapping engine.
//!
//! An observer is the polymorphic capability `{on_func_enter,
//! on_func_exit, record_event}` that decouples call wrapping from how
//! telemetry is produced. `TelemetryObserver` implements it with a
//! correlation store and one of two delivery strategies, selected at
//! construction: closing a span directly against the process-wide tracer
//! on the exit path, or pushing the completed record onto an unbounded
//! channel drained by a background exporter. None of the three operations
//! ever surfaces an error to the caller.

use vstd::prelude::*;

use crate::ext;
use crate::span::{is_admissible, make_event_span, make_span, sat_add64, Attr, WasmSpan};
use crate::store::PendingMap;
use tokio::sync::mpsc::UnboundedSender;

verus! {

/// The observer capability wrapped around every instrumented call.
///
/// Its model is the map of pending entry observations, the sequence of
/// call records produced by exit observations, and the count of
/// out-of-band event spans.
pub trait WasmObserver: Sized {
    /// Pending entry observations: correlation identifier to entry time.
    spec fn pending(&self) -> Map<u128, u64>;

    /// Every call record an exit observation has produced, oldest first.
    spec fn exits(&self) -> Seq<WasmSpan>;

    /// How many out-of-band event spans have been produced.
    spec fn events(&self) -> nat;

    /// Records the current timestamp keyed by the call's correlation
    /// identifier. Never blocks on I/O; a colliding identifier overwrites
    /// the stale entry.
    fn on_func_enter(&mut self, runtime_id: u128, func_name: &str)
        ensures
            exists|t: u64|
                final(self).pending() == old(self).pending().insert(runtime_id, t),
            final(self).exits() == old(self).exits(),
            final(self).events() == old(self).events(),
    ;

    /// Consumes the pending entry of `runtime_id` and produces exactly one
    /// call record from it: start time as entered, end time the start plus
    /// the measured duration (saturating). An exit with no pending entry
    /// is a no-op and fabricates nothing. Never blocks the caller on
    /// network I/O.
    fn on_func_exit(&mut self, runtime_id: u128, func_name: &str, duration_ns: u64)
        ensures
            final(self).pending() == old(self).pending().remove(runtime_id),
            old(self).pending().contains_key(runtime_id) ==> {
                let rec = final(self).exits().last();
                &&& final(self).exits() == old(self).exits().push(rec)
                &&& rec.runtime_id == runtime_id
                &&& rec.function_name@ == func_name@
                &&& rec.start_time_ns == old(self).pending()[runtime_id]
                &&& rec.end_time_ns == sat_add64(old(self).pending()[runtime_id], duration_ns)
            },
            !old(self).pending().contains_key(runtime_id) ==> final(self).exits() == old(
                self,
            ).exits(),
            final(self).events() == old(self).events(),
    ;

    /// Produces one zero-duration event span carrying the given attributes,
    /// independent of any call correlation: the pending map is untouched.
    fn record_event(&mut self, name: &str, attributes: Vec<Attr>)
        ensures
            final(self).pending() == old(self).pending(),
            final(self).exits() == old(self).exits(),
            final(self).events() == old(self).events() + 1,
    ;
}

/// Where completed call records go: straight to the tracer on the exit
/// path, or onto the export channel for the background task.
pub enum SpanSink {
    Direct,
    Queued(UnboundedSender<WasmSpan>),
}

/// The telemetry observer: a correlation store plus a delivery strategy.
/// Shared across concurrent calls under the caller's mutual exclusion.
pub struct TelemetryObserver {
    pending_starts: PendingMap,
    sink: SpanSink,
    exits_log: Ghost<Seq<WasmSpan>>,
    events_count: Ghost<nat>,
}

impl TelemetryObserver {
    /// A direct-strategy observer: each admissible record is closed
    /// against the process-wide tracer on the exit path itself. Setting up
    /// the transport behind that tracer is the embedder's concern.
    pub fn new() -> (r: Self)
        ensures
            r.pending() == Map::<u128, u64>::empty(),
            r.exits() == Seq::<WasmSpan>::empty(),
            r.events() == 0,
    {
        TelemetryObserver {
            pending_starts: PendingMap::new(),
            sink: SpanSink::Direct,
            exits_log: Ghost(Seq::empty()),
            events_count: Ghost(0),
        }
    }

    /// A queued-strategy observer: every completed record is pushed onto
    /// the given channel, whose receiving half a background exporter
    /// drains. A send after the receiver is gone is absorbed silently.
    pub fn with_channel(sender: UnboundedSender<WasmSpan>) -> (r: Self)
        ensures
            r.pending() == Map::<u128, u64>::empty(),
            r.exits() == Seq::<WasmSpan>::empty(),
            r.events() == 0,
    {
        TelemetryObserver {
            pending_starts: PendingMap::new(),
            sink: SpanSink::Queued(sender),
            exits_log: Ghost(Seq::empty()),
            events_count: Ghost(0),
        }
    }
}

impl WasmObserver for TelemetryObserver {
    closed spec fn pending(&self) -> Map<u128, u64> {
        self.pending_starts@
    }

    closed spec fn exits(&self) -> Seq<WasmSpan> {
        self.exits_log@
    }

    closed spec fn events(&self) -> nat {
        self.events_count@
    }

    fn on_func_enter(&mut self, runtime_id: u128, func_name: &str) {
        let start_ns: u64 = ext::now_unix_ns();
        self.pending_starts.insert(runtime_id, start_ns);
        proof {
            assert(self.pending() == old(self).pending().insert(runtime_id, start_ns));
        }
    }

    fn on_func_exit(&mut self, runtime_id: u128, func_name: &str, duration_ns: u64) {
        match self.pending_starts.take(runtime_id) {
            Some(start_ns) => {
                let end_ns: u64 = if duration_ns <= u64::MAX - start_ns {
                    start_ns + duration_ns
                } else {
                    u64::MAX
                };
                let rec = WasmSpan {
                    runtime_id,
                    function_name: func_name.to_owned(),
                    start_time_ns: start_ns,
                    end_time_ns: end_ns,
                };
                let ghost grec = rec;
                match &self.sink {
                    SpanSink::Direct => {
                        if is_admissible(&rec) {
                            let tracer = ext::get_tracer();
                            let s = make_span(&rec);
                            ext::emit_span(&tracer, &s);
                        }
                    },
                    SpanSink::Queued(tx) => {
                        ext::send_span(tx, rec);
                    },
                }
                self.exits_log = Ghost(self.exits_log@.push(grec));
            },
            None => {},
        }
    }

    fn record_event(&mut self, name: &str, attributes: Vec<Attr>) {
        let at_ns: u64 = ext::now_unix_ns();
        let s = make_event_span(name, attributes, at_ns);
        let tracer = ext::get_tracer();
        ext::emit_span(&tracer, &s);
        self.events_count = Ghost(self.events_count@ + 1);
    }
}

/// The resolved pipeline configuration: export endpoint, service identity
/// and environment tag, attached to every span at transport setup. The
/// embedder hands it to whatever establishes the transport.
pub struct ObserverConfig {
    pub endpoint: String,
    pub service_name: String,
    pub environment: String,
}

/// Builds a telemetry observer together with its pipeline configuration.
/// Each setting has a documented default; the embedder overrides them
/// from its configuration surface (environment variables and the like)
/// before building.
pub struct TelemetryObserverBuilder {
    endpoint: String,
    service_name: String,
    environment: String,
}

impl TelemetryObserverBuilder {
    pub closed spec fn spec_endpoint(&self) -> Seq<char> {
        self.endpoint@
    }

    pub closed spec fn spec_service_name(&self) -> Seq<char> {
        self.service_name@
    }

    pub closed spec fn spec_environment(&self) -> Seq<char> {
        self.environment@
    }

    /// The documented defaults: a local OTLP collector, this agent's
    /// service name, and the development environment tag.
    pub fn new() -> (r: Self)
        ensures
            r.spec_endpoint() == "http://127.0.0.1:4318/v1/traces"@,
            r.spec_service_name() == "wasm-obs-agent"@,
            r.spec_environment() == "development"@,
    {
        TelemetryObserverBuilder {
            endpoint: "http://127.0.0.1:4318/v1/traces".to_owned(),
            service_name: "wasm-obs-agent".to_owned(),
            environment: "development".to_owned(),
        }
    }

    pub fn with_endpoint(self, endpoint: String) -> (r: Self)
        ensures
            r.spec_endpoint() == endpoint@,
            r.spec_service_name() == self.spec_service_name(),
            r.spec_environment() == self.spec_environment(),
    {
        TelemetryObserverBuilder {
            endpoint,
            service_name: self.service_name,
            environment: self.environment,
        }
    }

    pub fn with_service_name(self, name: String) -> (r: Self)
        ensures
            r.spec_endpoint() == self.spec_endpoint(),
            r.spec_service_name() == name@,
            r.spec_environment() == self.spec_environment(),
    {
        TelemetryObserverBuilder {
            endpoint: self.endpoint,
            service_name: name,
            environment: self.environment,
        }
    }

    pub fn with_environment(self, env: String) -> (r: Self)
        ensures
            r.spec_endpoint() == self.spec_endpoint(),
            r.spec_service_name() == self.spec_service_name(),
            r.spec_environment() == env@,
    {
        TelemetryObserverBuilder {
            endpoint: self.endpoint,
            service_name: self.service_name,
            environment: env,
        }
    }

    /// Resolves the configuration and a fresh direct-strategy observer.
    /// Establishing the transport from the configuration is the embedder's
    /// step — kept outside so the pipeline's lifecycle is explicit rather
    /// than hidden inside construction.
    pub fn build(self) -> (r: (ObserverConfig, TelemetryObserver))
        ensures
            r.0.endpoint@ == self.spec_endpoint(),
            r.0.service_name@ == self.spec_service_name(),
            r.0.environment@ == self.spec_environment(),
            r.1.pending() == Map::<u128, u64>::empty(),
            r.1.exits() == Seq::<WasmSpan>::empty(),
            r.1.events() == 0,
    {
        let config = ObserverConfig {
            endpoint: self.endpoint,
            service_name: self.service_name,
            environment: self.environment,
        };
        (config, TelemetryObserver::new())
    }
}

/// The entry half of a wrapped call: draw a fresh correlation identifier
/// — one per invocation, never reused — and observe the entry under it.
/// The wrapper then invokes the original callable with its arguments
/// unchanged.
pub fn wrapped_call_enter<O: WasmObserver>(observer: &mut O, func_name: &str) -> (id: u128)
    ensures
        exists|t: u64| final(observer).pending() == old(observer).pending().insert(id, t),
        final(observer).exits() == old(observer).exits(),
        final(observer).events() == old(observer).events(),
{
    let id: u128 = ext::fresh_runtime_id();
    observer.on_func_enter(id, func_name);
    id
}

/// The exit half of a wrapped call, invoked unconditionally once control
/// returns to the host — also when the guest call failed — with the
/// elapsed wall-clock time the wrapper measured around the call. Produces
/// exactly one exit observation for the matching entry; the guest result
/// or failure is forwarded to the caller unchanged by the wrapper.
pub fn wrapped_call_exit<O: WasmObserver>(
    observer: &mut O,
    runtime_id: u128,
    func_name: &str,
    duration_ns: u64,
)
    ensures
        final(observer).pending() == old(observer).pending().remove(runtime_id),
        old(observer).pending().contains_key(runtime_id) ==> {
            let rec = final(observer).exits().last();
            &&& final(observer).exits() == old(observer).exits().push(rec)
            &&& rec.runtime_id == runtime_id
            &&& rec.function_name@ == func_name@
            &&& rec.start_time_ns == old(observer).pending()[runtime_id]
            &&& rec.end_time_ns == sat_add64(old(observer).pending()[runtime_id], duration_ns)
        },
        !old(observer).pending().contains_key(runtime_id) ==> final(observer).exits() == old(
            observer,
        ).exits(),
        final(observer).events() == old(observer).events(),
{
    observer.on_func_exit(runtime_id, func_name, duration_ns);
}

} // verus!
