use wasm_obs::exporter::{drain_batch, exporter_step, ExporterMachine, ExporterPhase};
use wasm_obs::span::{make_event_span, WasmSpan};

fn record(id: u128, name: &str, start: u64, end: u64) -> WasmSpan {
    WasmSpan {
        runtime_id: id,
        function_name: name.to_string(),
        start_time_ns: start,
        end_time_ns: end,
    }
}

fn running_machine() -> ExporterMachine {
    let mut m = ExporterMachine::new();
    assert_eq!(m.current_phase(), ExporterPhase::Uninitialized);
    m.begin_configuring();
    assert_eq!(m.current_phase(), ExporterPhase::Configuring);
    m.configured();
    assert_eq!(m.current_phase(), ExporterPhase::Running);
    m
}

#[test]
fn machine_aborts_on_configuration_failure() {
    let mut m = ExporterMachine::new();
    m.begin_configuring();
    m.configuration_failed();
    assert_eq!(m.current_phase(), ExporterPhase::Shutdown);
    assert_eq!(m.exported(), 0);
}

#[test]
fn malformed_record_is_dropped_not_exported() {
    let mut m = running_machine();
    assert!(m.on_record(&record(1, "f", 100, 100)).is_none(), "end == start is rejected");
    assert!(m.on_record(&record(2, "f", 100, 99)).is_none(), "end < start is rejected");
    let s = m.on_record(&record(3, "f", 100, 101)).expect("end > start is exported");
    assert_eq!(s.name, "wasm::f");
    assert_eq!(m.exported(), 1);
    assert_eq!(m.dropped(), 2);
}

#[test]
fn randomized_timestamp_pairs_export_exactly_the_wellformed() {
    let mut m = running_machine();
    let mut state: u64 = 0x9e37_79b9_7f4a_7c15;
    let mut expected_exported: u64 = 0;
    let mut expected_dropped: u64 = 0;
    for i in 0..500u64 {
        state = state.wrapping_mul(6364136223846793005).wrapping_add(1442695040888963407);
        let start = state >> 32;
        state = state.wrapping_mul(6364136223846793005).wrapping_add(1442695040888963407);
        // mix in pathological neighborhoods: equal, off-by-one, reversed
        let end = match state % 5 {
            0 => start,
            1 => start.wrapping_sub(1),
            2 => start.saturating_add(1),
            3 => start / 2,
            _ => state >> 32,
        };
        let out = m.on_record(&record(i as u128, "r", start, end));
        if end > start {
            let s = out.expect("well-formed record must be exported");
            assert_eq!(s.start_time_ns, start);
            assert_eq!(s.end_time_ns, end);
            expected_exported += 1;
        } else {
            assert!(out.is_none(), "end <= start must never reach the transport");
            expected_dropped += 1;
        }
    }
    assert_eq!(m.exported(), expected_exported);
    assert_eq!(m.dropped(), expected_dropped);
}

#[test]
fn drain_batch_counts_admissible_and_dropped() {
    let mut m = running_machine();
    let records = vec![
        record(1, "a", 0, 10),
        record(2, "b", 5, 5),
        record(3, "c", 9, 2),
        record(4, "d", 7, 8),
    ];
    let tracer = wasm_obs::get_tracer();
    drain_batch(&records, &tracer, &mut m);
    assert_eq!(m.exported(), 2);
    assert_eq!(m.dropped(), 2);
    assert_eq!(m.current_phase(), ExporterPhase::Running);
}

#[test]
fn dropping_all_producers_drains_then_terminates() {
    let (tx, mut rx) = tokio::sync::mpsc::unbounded_channel::<WasmSpan>();
    let tx2 = tx.clone();
    for i in 0..5u64 {
        tx.send(record(i as u128, "f", 100 * i, 100 * i + 5)).unwrap();
    }
    for i in 5..10u64 {
        tx2.send(record(i as u128, "f", 100 * i, 100 * i + 5)).unwrap();
    }
    drop(tx);
    drop(tx2);
    let mut m = running_machine();
    let tracer = wasm_obs::get_tracer();
    let mut steps: u32 = 0;
    while exporter_step(&mut rx, &tracer, &mut m) {
        steps += 1;
        assert!(steps <= 10, "the consumer must stop once the channel is drained");
    }
    assert_eq!(m.exported(), 10, "all queued records are processed before terminating");
    assert_eq!(m.dropped(), 0);
    assert_eq!(m.current_phase(), ExporterPhase::Draining);
    m.flushed();
    assert_eq!(m.current_phase(), ExporterPhase::Shutdown);
}

#[test]
fn event_span_is_zero_duration_and_named_by_convention() {
    let s = make_event_span("x", vec![], 123);
    assert_eq!(s.name, "event::x");
    assert_eq!(s.start_time_ns, 123);
    assert_eq!(s.end_time_ns, 123);
    assert!(s.attrs.is_empty());
}
