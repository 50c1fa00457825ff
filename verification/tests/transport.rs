use vesc_pilot::transport::ErrorClass;
use vesc_pilot::transport::Fault;
use vesc_pilot::transport::Op;
use vesc_pilot::transport::Outcome;
use vesc_pilot::transport::flush_outcome;
use vesc_pilot::transport::read_outcome;
use vesc_pilot::transport::transient;
use vesc_pilot::transport::write_outcome;

#[test]
fn transient_classes() {
    assert!(transient(ErrorClass::WouldBlock));
    assert!(transient(ErrorClass::TimedOut));
    assert!(!transient(ErrorClass::BrokenPipe));
    assert!(!transient(ErrorClass::Interrupted));
    assert!(!transient(ErrorClass::Other));
}

#[test]
fn read_success_is_ready() {
    assert_eq!(read_outcome(Ok((1, 42))), Outcome::Ready(42));
}

#[test]
fn read_zero_count_is_ready_with_buffer_byte() {
    assert_eq!(read_outcome(Ok((0, 0))), Outcome::Ready(0));
}

#[test]
fn read_would_block_is_transient() {
    assert_eq!(read_outcome(Err(ErrorClass::WouldBlock)), Outcome::WouldBlock);
}

#[test]
fn read_timed_out_is_transient() {
    assert_eq!(read_outcome(Err(ErrorClass::TimedOut)), Outcome::WouldBlock);
}

#[test]
fn read_other_error_is_fatal_and_tagged() {
    assert_eq!(
        read_outcome(Err(ErrorClass::BrokenPipe)),
        Outcome::FatalError(Fault { op: Op::Read, class: ErrorClass::BrokenPipe })
    );
    assert_eq!(
        read_outcome(Err(ErrorClass::PermissionDenied)),
        Outcome::FatalError(Fault { op: Op::Read, class: ErrorClass::PermissionDenied })
    );
}

#[test]
fn write_one_byte_is_ready() {
    assert_eq!(write_outcome(Ok(1)), Outcome::Ready(()));
}

#[test]
fn write_zero_bytes_is_would_block() {
    assert_eq!(write_outcome(Ok(0)), Outcome::WouldBlock);
}

#[test]
fn write_transient_errors_are_would_block() {
    assert_eq!(write_outcome(Err(ErrorClass::WouldBlock)), Outcome::WouldBlock);
    assert_eq!(write_outcome(Err(ErrorClass::TimedOut)), Outcome::WouldBlock);
}

#[test]
fn write_other_error_is_fatal_and_tagged() {
    assert_eq!(
        write_outcome(Err(ErrorClass::InvalidData)),
        Outcome::FatalError(Fault { op: Op::Write, class: ErrorClass::InvalidData })
    );
}

#[test]
fn flush_success_is_ready() {
    assert_eq!(flush_outcome(Ok(())), Outcome::Ready(()));
}

#[test]
fn flush_any_error_is_fatal_never_would_block() {
    // Even the transient classes are fatal on flush: the underlying
    // primitive exposes no non-blocking flush contract.
    assert_eq!(
        flush_outcome(Err(ErrorClass::WouldBlock)),
        Outcome::FatalError(Fault { op: Op::Flush, class: ErrorClass::WouldBlock })
    );
    assert_eq!(
        flush_outcome(Err(ErrorClass::TimedOut)),
        Outcome::FatalError(Fault { op: Op::Flush, class: ErrorClass::TimedOut })
    );
    assert_eq!(
        flush_outcome(Err(ErrorClass::Other)),
        Outcome::FatalError(Fault { op: Op::Flush, class: ErrorClass::Other })
    );
}
