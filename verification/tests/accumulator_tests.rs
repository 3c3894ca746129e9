use jxl_stream::accumulator::AccumulatorStep;
use jxl_stream::accumulator::OutputAccumulator;
use jxl_stream::encoder_enum::JxlEncoderStatus;
use jxl_stream::error::JxlError;

#[test]
fn capacity_grows_monotonically_and_doubles() {
    let mut acc = OutputAccumulator::new(4);
    let mut last = acc.capacity();
    for _ in 0..5 {
        let before = acc.capacity();
        let step = acc.step(JxlEncoderStatus::NeedMoreOutput, &[]).unwrap();
        assert_eq!(step, AccumulatorStep::Continue);
        assert!(acc.capacity() >= last, "capacity must never shrink");
        assert_eq!(acc.capacity(), 2 * before, "every growth exactly doubles");
        last = acc.capacity();
    }
    assert_eq!(acc.capacity(), 128);
}

#[test]
fn three_empty_rounds_then_done() {
    // The backend asks for more output three times — once with a partial
    // write, twice with nothing written — before finishing.
    let mut acc = OutputAccumulator::new(1);
    assert_eq!(acc.step(JxlEncoderStatus::NeedMoreOutput, &[10]).unwrap(), AccumulatorStep::Continue);
    assert_eq!(acc.step(JxlEncoderStatus::NeedMoreOutput, &[]).unwrap(), AccumulatorStep::Continue);
    assert_eq!(acc.step(JxlEncoderStatus::NeedMoreOutput, &[]).unwrap(), AccumulatorStep::Continue);
    assert!(acc.capacity() >= 4, "capacity doubled at least twice");
    assert_eq!(acc.step(JxlEncoderStatus::Success, &[20, 30]).unwrap(), AccumulatorStep::Finished);
    // Final output length equals the cumulative bytes written.
    assert_eq!(acc.committed_len(), 3);
    assert_eq!(acc.take_output(), vec![10, 20, 30]);
}

#[test]
fn committed_bytes_are_never_truncated() {
    let mut acc = OutputAccumulator::new(8);
    acc.step(JxlEncoderStatus::NeedMoreOutput, &[1, 2, 3]).unwrap();
    acc.step(JxlEncoderStatus::NeedMoreOutput, &[4]).unwrap();
    acc.step(JxlEncoderStatus::Success, &[5, 6]).unwrap();
    assert_eq!(acc.take_output(), vec![1, 2, 3, 4, 5, 6]);
}

#[test]
fn backend_error_keeps_partial_output() {
    let mut acc = OutputAccumulator::new(8);
    acc.step(JxlEncoderStatus::NeedMoreOutput, &[7, 8]).unwrap();
    let r = acc.step(JxlEncoderStatus::Error, &[9]);
    assert_eq!(r, Err(JxlError::EncodingFailed(JxlEncoderStatus::Error)));
    // Already-produced output stays intact for salvage.
    assert_eq!(acc.take_output(), vec![7, 8, 9]);
}

#[test]
fn success_never_reported_while_backend_needs_output() {
    let mut acc = OutputAccumulator::new(2);
    let step = acc.step(JxlEncoderStatus::NeedMoreOutput, &[1]).unwrap();
    assert_ne!(step, AccumulatorStep::Finished);
    let step = acc.step(JxlEncoderStatus::Success, &[2]).unwrap();
    assert_eq!(step, AccumulatorStep::Finished);
}

#[test]
fn take_output_leaves_capacity_intact() {
    let mut acc = OutputAccumulator::new(2);
    acc.step(JxlEncoderStatus::NeedMoreOutput, &[1]).unwrap();
    let cap = acc.capacity();
    let out = acc.take_output();
    assert_eq!(out, vec![1]);
    assert_eq!(acc.capacity(), cap);
    assert_eq!(acc.committed_len(), 0);
}
