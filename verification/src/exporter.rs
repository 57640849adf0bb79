//! The span pipeline's consumer side: the exporter state machine and the
//! drain loop of the queued strategy.
//!
//! The machine moves through `Uninitialized → Configuring → Running →
//! Draining → Shutdown`. While running it takes each received record,
//! rejects — drops and counts, never exports — any whose end does not lie
//! strictly after its start, converts the rest into transport spans, and
//! hands them over. When the channel closes (every producer dropped) it
//! drains; once the transport is flushed it shuts down and accepts no
//! further records. A failed configuration aborts straight to shutdown:
//! callers keep operating, export is disabled for this pipeline's
//! lifetime, and no retry is attempted.

use vstd::prelude::*;

use crate::ext;
use crate::span::{admissible, is_admissible, is_span_of, make_span, sat_add64, ExportSpan, WasmSpan};
use opentelemetry::global::BoxedTracer;
use tokio::sync::mpsc::UnboundedReceiver;

verus! {

/// The lifecycle phase of the exporter task.
#[derive(PartialEq, Eq, Structural, Clone, Copy, Debug)]
pub enum ExporterPhase {
    Uninitialized,
    Configuring,
    Running,
    Draining,
    Shutdown,
}

/// The exporter state machine: its phase, how many spans it has handed to
/// the transport, how many malformed records it has dropped (observable,
/// never fatal), and — as its model — the exact sequence of spans handed
/// over.
pub struct ExporterMachine {
    phase: ExporterPhase,
    exported: u64,
    dropped: u64,
    log: Ghost<Seq<ExportSpan>>,
}

impl ExporterMachine {
    pub closed spec fn phase(&self) -> ExporterPhase {
        self.phase
    }

    pub closed spec fn exported_count(&self) -> u64 {
        self.exported
    }

    pub closed spec fn dropped_count(&self) -> u64 {
        self.dropped
    }

    /// Every span handed to the transport so far, oldest first.
    pub closed spec fn log(&self) -> Seq<ExportSpan> {
        self.log@
    }

    /// Well-formedness: every span ever handed to the transport ends
    /// strictly after it starts.
    pub open spec fn wf(&self) -> bool {
        forall|i: int|
            0 <= i < self.log().len() ==> (#[trigger] self.log()[i]).end_time_ns
                > self.log()[i].start_time_ns
    }

    /// A fresh machine, before any configuration.
    pub fn new() -> (r: Self)
        ensures
            r.phase() == ExporterPhase::Uninitialized,
            r.exported_count() == 0,
            r.dropped_count() == 0,
            r.log() == Seq::<ExportSpan>::empty(),
            r.wf(),
    {
        ExporterMachine {
            phase: ExporterPhase::Uninitialized,
            exported: 0,
            dropped: 0,
            log: Ghost(Seq::empty()),
        }
    }

    /// Enters the configuring phase: the caller resolves endpoint, service
    /// identity and environment tag and establishes the transport.
    pub fn begin_configuring(&mut self)
        requires
            old(self).phase() == ExporterPhase::Uninitialized,
        ensures
            final(self).phase() == ExporterPhase::Configuring,
            final(self).exported_count() == old(self).exported_count(),
            final(self).dropped_count() == old(self).dropped_count(),
            final(self).log() == old(self).log(),
    {
        self.phase = ExporterPhase::Configuring;
    }

    /// The transport was established: start processing records.
    pub fn configured(&mut self)
        requires
            old(self).phase() == ExporterPhase::Configuring,
        ensures
            final(self).phase() == ExporterPhase::Running,
            final(self).exported_count() == old(self).exported_count(),
            final(self).dropped_count() == old(self).dropped_count(),
            final(self).log() == old(self).log(),
    {
        self.phase = ExporterPhase::Running;
    }

    /// The transport could not be established: abort. No record will ever
    /// be processed and no retry is attempted; producers keep operating.
    pub fn configuration_failed(&mut self)
        requires
            old(self).phase() == ExporterPhase::Configuring,
        ensures
            final(self).phase() == ExporterPhase::Shutdown,
            final(self).exported_count() == old(self).exported_count(),
            final(self).dropped_count() == old(self).dropped_count(),
            final(self).log() == old(self).log(),
    {
        self.phase = ExporterPhase::Shutdown;
    }

    /// Processes one received record: a malformed record — end at or
    /// before start — is dropped and counted, never handed over; any other
    /// is converted into its transport span, which the caller exports.
    pub fn on_record(&mut self, rec: &WasmSpan) -> (s: Option<ExportSpan>)
        requires
            old(self).phase() == ExporterPhase::Running,
        ensures
            final(self).phase() == ExporterPhase::Running,
            match s {
                Some(sp) => {
                    &&& admissible(*rec)
                    &&& is_span_of(sp, *rec)
                    &&& final(self).log() == old(self).log().push(sp)
                    &&& final(self).exported_count() == sat_add64(old(self).exported_count(), 1)
                    &&& final(self).dropped_count() == old(self).dropped_count()
                },
                None => {
                    &&& !admissible(*rec)
                    &&& final(self).log() == old(self).log()
                    &&& final(self).exported_count() == old(self).exported_count()
                    &&& final(self).dropped_count() == sat_add64(old(self).dropped_count(), 1)
                },
            },
            old(self).wf() ==> final(self).wf(),
    {
        if is_admissible(rec) {
            let s = make_span(rec);
            let ghost gs = s;
            self.exported = if self.exported < u64::MAX {
                self.exported + 1
            } else {
                u64::MAX
            };
            self.log = Ghost(self.log@.push(gs));
            Some(s)
        } else {
            self.dropped = if self.dropped < u64::MAX {
                self.dropped + 1
            } else {
                u64::MAX
            };
            None
        }
    }

    /// Every producer handle is gone: no record will arrive any more; the
    /// caller flushes whatever the transport still buffers.
    pub fn channel_closed(&mut self)
        requires
            old(self).phase() == ExporterPhase::Running,
        ensures
            final(self).phase() == ExporterPhase::Draining,
            final(self).exported_count() == old(self).exported_count(),
            final(self).dropped_count() == old(self).dropped_count(),
            final(self).log() == old(self).log(),
    {
        self.phase = ExporterPhase::Draining;
    }

    /// The transport was flushed and closed: the task terminates and no
    /// further span may be accepted.
    pub fn flushed(&mut self)
        requires
            old(self).phase() == ExporterPhase::Draining,
        ensures
            final(self).phase() == ExporterPhase::Shutdown,
            final(self).exported_count() == old(self).exported_count(),
            final(self).dropped_count() == old(self).dropped_count(),
            final(self).log() == old(self).log(),
    {
        self.phase = ExporterPhase::Shutdown;
    }

    pub fn current_phase(&self) -> (p: ExporterPhase)
        ensures
            p == self.phase(),
    {
        self.phase
    }

    pub fn exported(&self) -> (n: u64)
        ensures
            n == self.exported_count(),
    {
        self.exported
    }

    pub fn dropped(&self) -> (n: u64)
        ensures
            n == self.dropped_count(),
    {
        self.dropped
    }
}

/// The records of `s` that may be exported, in order.
pub open spec fn admissible_seq(s: Seq<WasmSpan>) -> Seq<WasmSpan>
    decreases s.len(),
{
    if s.len() == 0 {
        Seq::empty()
    } else {
        admissible_seq(s.drop_last()) + if admissible(s.last()) {
            seq![s.last()]
        } else {
            Seq::empty()
        }
    }
}

/// One step of the running exporter: receives the next record from the
/// channel — blocking while it is empty — and processes it, exporting the
/// span of an admissible record. Returns `false` once the channel has
/// closed (every producer dropped), with the machine draining; the caller
/// then flushes the transport and calls `flushed`. The loop around this
/// step suspends on the channel and so belongs to the embedder, on a
/// dedicated consumer thread outside any async context.
pub fn exporter_step(
    rx: &mut UnboundedReceiver<WasmSpan>,
    tracer: &BoxedTracer,
    m: &mut ExporterMachine,
) -> (more: bool)
    requires
        old(m).phase() == ExporterPhase::Running,
    ensures
        more ==> final(m).phase() == ExporterPhase::Running,
        !more ==> final(m).phase() == ExporterPhase::Draining,
        old(m).wf() ==> final(m).wf(),
        final(m).log().len() >= old(m).log().len(),
        final(m).log().take(old(m).log().len() as int) == old(m).log(),
{
    match ext::recv_span(rx) {
        Some(rec) => {
            match m.on_record(&rec) {
                Some(s) => ext::emit_span(tracer, &s),
                None => {},
            }
            true
        },
        None => {
            m.channel_closed();
            false
        },
    }
}

/// Processes a batch of already-received records in order: exactly the
/// admissible ones are handed to the transport, as their spans, in the
/// order the records stand in the batch; the rest are dropped and counted.
pub fn drain_batch(records: &Vec<WasmSpan>, tracer: &BoxedTracer, m: &mut ExporterMachine)
    requires
        old(m).phase() == ExporterPhase::Running,
    ensures
        final(m).phase() == ExporterPhase::Running,
        old(m).wf() ==> final(m).wf(),
        final(m).log().len() == old(m).log().len() + admissible_seq(records@).len(),
        final(m).log().take(old(m).log().len() as int) == old(m).log(),
        forall|j: int|
            0 <= j < admissible_seq(records@).len() ==> is_span_of(
                #[trigger] final(m).log()[old(m).log().len() + j],
                admissible_seq(records@)[j],
            ),
{
    let ghost base: int = m.log().len() as int;
    let mut i: usize = 0;
    while i < records.len()
        invariant
            m.phase() == ExporterPhase::Running,
            i <= records.len(),
            base == old(m).log().len(),
            old(m).wf() ==> m.wf(),
            m.log().len() == base + admissible_seq(records@.take(i as int)).len(),
            m.log().take(base) == old(m).log(),
            forall|j: int|
                0 <= j < admissible_seq(records@.take(i as int)).len() ==> is_span_of(
                    #[trigger] m.log()[base + j],
                    admissible_seq(records@.take(i as int))[j],
                ),
        decreases records.len() - i,
    {
        let ghost prev_log = m.log();
        let rec = &records[i];
        match m.on_record(rec) {
            Some(s) => ext::emit_span(tracer, &s),
            None => {},
        }
        proof {
            let taken = records@.take(i + 1);
            assert(taken.drop_last() =~= records@.take(i as int));
            assert(taken.last() == records@[i as int]);
            assert(admissible_seq(taken) == admissible_seq(records@.take(i as int)) + if admissible(
                records@[i as int],
            ) {
                seq![records@[i as int]]
            } else {
                Seq::<WasmSpan>::empty()
            });
            if admissible(records@[i as int]) {
                assert(m.log() == prev_log.push(m.log().last()));
            }
            assert(m.log().take(base) =~= old(m).log());
        }
        i = i + 1;
    }
    proof {
        assert(records@.take(records@.len() as int) =~= records@);
    }
}

} // verus!
