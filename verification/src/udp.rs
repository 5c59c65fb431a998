//! The decisions taken while draining the read buffer of a reused UDP
//! socket; the reads themselves belong to the I/O layer.

use vstd::prelude::*;
use crate::errors::IoErrorKind;

verus! {

/// The drain time used when none is configured: 100 ms.
pub const DEFAULT_UDP_CLEAR_TIMEOUT: u128 = 100_000_000;

/// The longest single read while draining: 50 ms.
pub const UDP_CLEAR_READ_SLICE: u128 = 50_000_000;

/// The number of packets drained when no limit is configured.
pub const DEFAULT_UDP_CLEAR_PACKETS: usize = 100;

/// What one read from the socket gave.
#[derive(Debug, Clone, Copy, PartialEq, Eq, Structural)]
pub enum RecvOutcome {
    /// A packet was read.
    Received,
    /// The read failed with an error of this kind.
    Failed(IoErrorKind),
}

/// What draining does after a read.
#[derive(Debug, Clone, Copy, PartialEq, Eq, Structural)]
pub enum DrainStep {
    /// Read the next packet.
    Continue,
    /// The buffer is drained (or cannot be drained further): stop.
    Done,
    /// Stop and report the error.
    Fail(IoErrorKind),
}

/// The total time allowed for draining: the configured time, or 100 ms when
/// it is zero.
pub fn udp_clear_timeout(timeout: u128) -> (t: u128)
    ensures
        t == if timeout == 0 {
            DEFAULT_UDP_CLEAR_TIMEOUT
        } else {
            timeout
        },
{
    if timeout == 0 {
        DEFAULT_UDP_CLEAR_TIMEOUT
    } else {
        timeout
    }
}

/// The most packets drained: the configured limit, or 100 when it is zero.
pub fn udp_clear_max_packets(max_packets: usize) -> (n: usize)
    ensures
        n == if max_packets == 0 {
            DEFAULT_UDP_CLEAR_PACKETS
        } else {
            max_packets
        },
{
    if max_packets == 0 {
        DEFAULT_UDP_CLEAR_PACKETS
    } else {
        max_packets
    }
}

/// The timeout of the next read: what is left of the drain time, at most 50 ms.
pub fn udp_read_timeout(remaining: u128) -> (t: u128)
    ensures
        t == if remaining < UDP_CLEAR_READ_SLICE {
            remaining
        } else {
            UDP_CLEAR_READ_SLICE
        },
{
    if remaining < UDP_CLEAR_READ_SLICE {
        remaining
    } else {
        UDP_CLEAR_READ_SLICE
    }
}

/// After a read: a packet means read on; a timeout means the buffer is
/// empty; an unexpected end of file is reported; any other error ends
/// draining quietly.
pub fn drain_step(outcome: RecvOutcome) -> (step: DrainStep)
    ensures
        step == match outcome {
            RecvOutcome::Received => DrainStep::Continue,
            RecvOutcome::Failed(IoErrorKind::UnexpectedEof) => DrainStep::Fail(IoErrorKind::UnexpectedEof),
            RecvOutcome::Failed(_) => DrainStep::Done,
        },
{
    match outcome {
        RecvOutcome::Received => DrainStep::Continue,
        RecvOutcome::Failed(IoErrorKind::UnexpectedEof) => DrainStep::Fail(IoErrorKind::UnexpectedEof),
        RecvOutcome::Failed(_) => DrainStep::Done,
    }
}

/// Whether a one-byte probe read says data may be waiting: yes when it read
/// a packet or failed with anything but a timeout.
pub fn probe_says_data(outcome: RecvOutcome) -> (b: bool)
    ensures
        b == match outcome {
            RecvOutcome::Received => true,
            RecvOutcome::Failed(k) => k != IoErrorKind::TimedOut,
        },
{
    match outcome {
        RecvOutcome::Received => true,
        RecvOutcome::Failed(k) => k != IoErrorKind::TimedOut,
    }
}

/// What draining does next, before a read.
#[derive(Debug, Clone, Copy, PartialEq, Eq, Structural)]
pub enum DrainAction {
    /// Read one packet, waiting at most this long (nanoseconds).
    Read { timeout: u128 },
    /// Stop: the buffer is drained as far as allowed.
    Stop,
}

/// The action before the next read, `read` packets into a drain of at most
/// `max_packets` (100 when zero), at time `now` of a drain ending at
/// `deadline` (monotonic nanoseconds): stop once the packet limit is reached
/// or the deadline has passed; otherwise read with a timeout of what is left
/// of the drain, at most 50 ms. So a drain reads at most the packet limit.
pub fn drain_next(read: usize, max_packets: usize, now: u128, deadline: u128) -> (a: DrainAction)
    ensures
        a == if read >= (if max_packets == 0 {
            DEFAULT_UDP_CLEAR_PACKETS
        } else {
            max_packets
        }) || now > deadline {
            DrainAction::Stop
        } else {
            DrainAction::Read {
                timeout: if deadline - now < UDP_CLEAR_READ_SLICE {
                    (deadline - now) as u128
                } else {
                    UDP_CLEAR_READ_SLICE
                },
            }
        },
{
    let limit = udp_clear_max_packets(max_packets);
    if read >= limit || now > deadline {
        DrainAction::Stop
    } else {
        DrainAction::Read { timeout: udp_read_timeout(deadline - now) }
    }
}

} // verus!
