use acq_pipeline::engine::{EngineError, FaultKind, Priority, TransferDescriptor};
use acq_pipeline::pipeline::{Diagnostic, Pipeline};

fn descriptor(len: usize) -> TransferDescriptor {
    TransferDescriptor {
        peripheral_addr: 0x4001_204C,
        memory_addr: 0x2000_0000,
        len,
        circular: true,
        priority: Priority::Medium,
    }
}

/// Buffer of 16, two halves of 8: after 24 conversions with a consumer
/// draining after every crossing, exactly 3 events are observed, with
/// identifiers [0, 1, 0] in that order.
#[test]
fn three_crossings_observed_in_order() {
    let mut p = Pipeline::new();
    assert_eq!(p.start_acquisition(0, descriptor(16)), Ok(()));
    let mut observed: Vec<u8> = Vec::new();
    for i in 0..24u16 {
        if p.transfer_sample(i).is_some() {
            if let Some(half) = p.drain() {
                observed.push(half);
            }
        }
    }
    assert_eq!(observed, vec![0, 1, 0]);
}

/// A fast consumer observes a strictly alternating sequence of stable
/// halves: no two consecutive identifiers are ever equal.
#[test]
fn fast_consumer_sees_strict_alternation() {
    let mut p = Pipeline::new();
    assert_eq!(p.start_acquisition(3, descriptor(4)), Ok(()));
    let mut observed: Vec<u8> = Vec::new();
    for i in 0..20u16 {
        p.transfer_sample(i);
        if let Some(half) = p.drain() {
            observed.push(half);
        }
    }
    assert_eq!(observed.len(), 10);
    for w in observed.windows(2) {
        assert_ne!(w[0], w[1]);
    }
    assert_eq!(observed[0], 0);
}

/// A slow consumer loses intermediate events (last-write-wins) but never
/// sees more events than crossings occurred, and never a half that is
/// under write.
#[test]
fn slow_consumer_coalesces_events() {
    let mut p = Pipeline::new();
    assert_eq!(p.start_acquisition(0, descriptor(16)), Ok(()));
    for i in 0..24u16 {
        p.transfer_sample(i);
    }
    // Three crossings happened; only the latest event (half 0 after the
    // third crossing) is still pending.
    assert_eq!(p.drain(), Some(0));
    assert_eq!(p.drain(), None);
    assert_eq!(p.taken, 1);
    assert_eq!(p.engine.crossings, 3);
}

/// The half handed out by a drain is stable: its contents are exactly the
/// samples the hardware finished writing into it, and the half under
/// write is refused.
#[test]
fn drained_half_reads_back_finished_samples() {
    let mut p = Pipeline::new();
    assert_eq!(p.start_acquisition(0, descriptor(8)), Ok(()));
    for i in 0..4u16 {
        p.transfer_sample(100 + i);
    }
    let half = p.drain().unwrap();
    assert_eq!(half, 0);
    let data = p.engine.read_half(half).unwrap();
    assert_eq!(data, vec![100, 101, 102, 103]);
    // Half 1 is being written right now and must not be handed out.
    assert!(p.engine.read_half(1).is_none());
}

/// An injected overrun produces exactly one diagnostic and does not stop
/// subsequent cycles.
#[test]
fn overrun_reported_once_and_cycles_continue() {
    let mut p = Pipeline::new();
    assert_eq!(p.start_acquisition(0, descriptor(4)), Ok(()));
    p.sampler.note_overrun();
    assert_eq!(p.handle_sampler_event(), Some(Diagnostic::Overrun));
    assert_eq!(p.handle_sampler_event(), None);
    assert!(p.sampler.running);
    // The pipeline keeps circulating after the report.
    p.transfer_sample(1);
    assert_eq!(p.transfer_sample(2), Some(0));
    assert_eq!(p.drain(), Some(0));
}

/// Two separate overrun occurrences produce two separate diagnostics.
#[test]
fn each_overrun_occurrence_reported() {
    let mut p = Pipeline::new();
    assert_eq!(p.start_acquisition(0, descriptor(4)), Ok(()));
    p.sampler.note_overrun();
    assert_eq!(p.handle_sampler_event(), Some(Diagnostic::Overrun));
    p.sampler.note_overrun();
    assert_eq!(p.handle_sampler_event(), Some(Diagnostic::Overrun));
    assert_eq!(p.handle_sampler_event(), None);
}

/// Reconfiguration is refused while the engine reports itself enabled;
/// stopping first, then configuring and re-arming, succeeds and resumes
/// at half 0.
#[test]
fn reconfigure_refused_until_stopped() {
    let mut p = Pipeline::new();
    assert_eq!(p.start_acquisition(0, descriptor(16)), Ok(()));
    assert!(p.engine.is_enabled());
    assert_eq!(p.engine.configure(descriptor(8)), Err(EngineError::StillEnabled));
    p.stop();
    assert!(!p.engine.is_enabled());
    assert_eq!(p.engine.configure(descriptor(8)), Ok(()));
    assert_eq!(p.engine.arm(), Ok(()));
    assert_eq!(p.engine.active_half, 0);
    // The re-armed engine circulates from half 0 again.
    let mut q = p;
    for i in 0..4u16 {
        q.transfer_sample(i);
    }
    assert_eq!(q.drain(), Some(0));
}

/// A transfer-engine fault is surfaced once per notification; the engine
/// stays enabled but refuses reads until disabled and re-armed.
#[test]
fn engine_fault_surfaced_and_recovered_by_rearm() {
    let mut p = Pipeline::new();
    assert_eq!(p.start_acquisition(0, descriptor(4)), Ok(()));
    p.transfer_sample(7);
    p.transfer_sample(8);
    assert_eq!(
        p.handle_engine_fault(FaultKind::Transfer),
        Some(Diagnostic::TransferFault(FaultKind::Transfer))
    );
    // Hardware leaves a faulted engine enabled, and its data is suspect.
    assert!(p.engine.is_enabled());
    assert!(p.engine.read_half(0).is_none());
    // A faulted engine moves no further data.
    assert_eq!(p.transfer_sample(9), None);
    // Disable, reconfigure, re-arm: circular operation resumes at half 0.
    p.stop();
    assert_eq!(p.engine.configure(descriptor(4)), Ok(()));
    assert_eq!(p.engine.arm(), Ok(()));
    p.transfer_sample(1);
    assert_eq!(p.transfer_sample(2), Some(0));
}

/// A fault notification against a stopped engine is spurious and emits
/// nothing.
#[test]
fn fault_on_stopped_engine_is_spurious() {
    let mut p = Pipeline::new();
    assert_eq!(p.handle_engine_fault(FaultKind::DirectMode), None);
}

/// Stopping acquisition disables the engine, then the sampler.
#[test]
fn stop_disables_engine_and_sampler() {
    let mut p = Pipeline::new();
    assert_eq!(p.start_acquisition(0, descriptor(4)), Ok(()));
    assert!(p.sampler.running);
    p.stop();
    assert!(!p.engine.is_enabled());
    assert!(!p.sampler.running);
}

/// The smallest buffer this design accepts: two elements, halves of one.
#[test]
fn minimal_buffer_of_two_elements() {
    let mut p = Pipeline::new();
    assert_eq!(p.start_acquisition(0, descriptor(2)), Ok(()));
    assert_eq!(p.transfer_sample(41), Some(0));
    assert_eq!(p.drain(), Some(0));
    assert_eq!(p.engine.read_half(0).unwrap(), vec![41]);
    assert_eq!(p.transfer_sample(42), Some(1));
    assert_eq!(p.drain(), Some(1));
    assert_eq!(p.engine.read_half(1).unwrap(), vec![42]);
}

/// Rejected descriptors: a zero-length buffer, an odd length that cannot
/// split into equal halves, and a non-circular run.
#[test]
fn invalid_descriptors_are_refused() {
    let mut p = Pipeline::new();
    let mut d = descriptor(0);
    assert_eq!(p.start_acquisition(0, d), Err(EngineError::InvalidDescriptor));
    d = descriptor(7);
    assert_eq!(p.start_acquisition(0, d), Err(EngineError::InvalidDescriptor));
    d = descriptor(16);
    d.circular = false;
    assert_eq!(p.start_acquisition(0, d), Err(EngineError::InvalidDescriptor));
    // A refused start leaves the engine stopped and the sampler untriggered.
    assert!(!p.engine.is_enabled());
    assert!(!p.sampler.running);
}

/// Re-arming after a stop discards the stale undrained event of the
/// earlier run.
#[test]
fn restart_discards_stale_event() {
    let mut p = Pipeline::new();
    assert_eq!(p.start_acquisition(0, descriptor(4)), Ok(()));
    p.transfer_sample(1);
    p.transfer_sample(2);
    // The half-0 event is still pending when acquisition is restarted.
    p.stop();
    assert_eq!(p.start_acquisition(0, descriptor(4)), Ok(()));
    assert_eq!(p.drain(), None);
}
