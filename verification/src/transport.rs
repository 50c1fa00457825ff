//! The non-blocking transport adapter's outcome model.
//!
//! A blocking serial port with a configured read timeout reports each
//! operation as a byte count or an error class. The adapter classifies
//! that report into a three-way outcome: `Ready` (progress was made),
//! `WouldBlock` (nothing happened yet; retry later), or `FatalError`
//! (the transport is unusable; the failing operation and the underlying
//! error class are preserved).

use vstd::prelude::*;

verus! {

/// Classification of an underlying transport error, as the operating
/// system reports it. `WouldBlock` and `TimedOut` are the transient
/// classes: on a port configured with a read timeout they mean
/// "no data yet", not failure.
#[derive(Clone, Copy, Debug, PartialEq, Eq)]
pub enum ErrorClass {
    WouldBlock,
    TimedOut,
    Interrupted,
    BrokenPipe,
    NotFound,
    PermissionDenied,
    InvalidInput,
    InvalidData,
    UnexpectedEof,
    Other,
}

/// The adapter operation an error arose in.
#[derive(Clone, Copy, Debug, PartialEq, Eq)]
pub enum Op {
    Read,
    Write,
    Flush,
}

/// A fatal transport error: the operation that failed, tagged with the
/// underlying error class, so a caller can log it without interpreting it.
#[derive(Clone, Copy, Debug, PartialEq, Eq)]
pub struct Fault {
    pub op: Op,
    pub class: ErrorClass,
}

/// Three-way outcome of one non-blocking adapter operation.
/// `WouldBlock` is never an error: it drives the caller's poll loop.
#[derive(Clone, Copy, Debug, PartialEq, Eq)]
pub enum Outcome<T> {
    Ready(T),
    WouldBlock,
    FatalError(Fault),
}

/// An error class is transient when retrying the same operation later
/// may succeed: the would-block and timed-out classes, and no other.
pub open spec fn is_transient(c: ErrorClass) -> bool {
    c is WouldBlock || c is TimedOut
}

/// Runtime test for [`is_transient`].
pub fn transient(c: ErrorClass) -> (r: bool)
    ensures
        r == is_transient(c),
{
    match c {
        ErrorClass::WouldBlock => true,
        ErrorClass::TimedOut => true,
        _ => false,
    }
}

/// Classify one underlying read of one byte. `r` is what the blocking
/// read reported: how many bytes it placed in the one-byte buffer and
/// the buffer's byte, or the class of its error.
pub fn read_outcome(r: Result<(usize, u8), ErrorClass>) -> (o: Outcome<u8>)
    ensures
        r matches Ok((n, b)) ==> o == (Outcome::<u8>::Ready(b)),
        r matches Err(c) ==> (is_transient(c) ==> o is WouldBlock),
        r matches Err(c) ==> (!is_transient(c) ==> o == (Outcome::<u8>::FatalError(
            Fault { op: Op::Read, class: c },
        ))),
{
    match r {
        Ok((_, b)) => Outcome::Ready(b),
        Err(c) => if transient(c) {
            Outcome::WouldBlock
        } else {
            Outcome::FatalError(Fault { op: Op::Read, class: c })
        },
    }
}

/// Classify one underlying write of one byte. `r` is the byte count the
/// blocking write reported, or the class of its error. A count of zero
/// with no error means the call was accepted but made no progress, so
/// the caller must retry the same byte.
pub fn write_outcome(r: Result<usize, ErrorClass>) -> (o: Outcome<()>)
    ensures
        r matches Ok(n) ==> (n == 1 ==> o is Ready),
        r matches Ok(n) ==> (n != 1 ==> o is WouldBlock),
        r matches Err(c) ==> (is_transient(c) ==> o is WouldBlock),
        r matches Err(c) ==> (!is_transient(c) ==> o == (Outcome::<()>::FatalError(
            Fault { op: Op::Write, class: c },
        ))),
{
    match r {
        Ok(n) => if n == 1 {
            Outcome::Ready(())
        } else {
            Outcome::WouldBlock
        },
        Err(c) => if transient(c) {
            Outcome::WouldBlock
        } else {
            Outcome::FatalError(Fault { op: Op::Write, class: c })
        },
    }
}

/// Classify one underlying flush. The underlying primitive exposes no
/// non-blocking flush contract, so every error, of any class, is fatal:
/// flush never reports `WouldBlock`.
pub fn flush_outcome(r: Result<(), ErrorClass>) -> (o: Outcome<()>)
    ensures
        r is Ok ==> o is Ready,
        r matches Err(c) ==> o == (Outcome::<()>::FatalError(
            Fault { op: Op::Flush, class: c },
        )),
        o !is WouldBlock,
{
    match r {
        Ok(()) => Outcome::Ready(()),
        Err(c) => Outcome::FatalError(Fault { op: Op::Flush, class: c }),
    }
}

} // verus!
