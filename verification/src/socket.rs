//! The rules of the CAN raw sockets that do not need a socket: receive
//! filters, telling the frames read apart, and what a failed read means.
use vstd::prelude::*;
use crate::frame::{CanAnyFrame, CanFdFrame, CanFrame, FrameFields, clamp_dlc, fd_raw_fields};
use crate::id::CAN_ERR_FLAG;
use crate::io::{IoKind, io_error_class, io_error_errno, io_error_kind, raw_os_error, std_io_kind};

verus! {

/// The filter flag that inverts a filter.
pub const CAN_INV_FILTER: u32 = 0x2000_0000;
/// The number of bytes a read of a classic frame gives.
pub const CAN_MTU: usize = 16;
/// The number of bytes a read of an FD frame gives.
pub const CANFD_MTU: usize = 72;
/// The errno of an operation now in progress.
pub const EINPROGRESS: i32 = 115;

/// A receive filter: a frame matches when
/// `received_id & mask == filter_id & mask`; with [`CAN_INV_FILTER`] in the
/// filter's identifier the filter is inverted.
#[derive(Debug, Copy, Clone, PartialEq, Eq, Hash, Structural)]
pub struct CanFilter {
    /// The identifier to match, with [`CAN_INV_FILTER`] if inverted
    pub can_id: u32,
    /// The bits of the identifier that count
    pub can_mask: u32,
}

impl CanFilter {
    /// A filter for `id` under `mask`.
    pub fn new(id: u32, mask: u32) -> (r: CanFilter)
        ensures
            r == (CanFilter { can_id: id, can_mask: mask }),
    {
        CanFilter { can_id: id, can_mask: mask }
    }

    /// An inverted filter for `id` under `mask`: it matches what the
    /// filter without the inversion does not.
    pub fn new_inverted(id: u32, mask: u32) -> (r: CanFilter)
        ensures
            r == (CanFilter { can_id: id | 0x2000_0000u32, can_mask: mask }),
    {
        Self::new(id | CAN_INV_FILTER, mask)
    }

    /// A filter from an `(id, mask)` pair.
    pub fn from_pair(filt: (u32, u32)) -> (r: CanFilter)
        ensures
            r == (CanFilter { can_id: filt.0, can_mask: filt.1 }),
    {
        Self::new(filt.0, filt.1)
    }
}

/// The frame that a read of an FD socket gave, from the number of bytes it
/// read and the fields of the `canfd_frame` it filled: a classic frame for
/// [`CAN_MTU`] bytes (its first eight data bytes), an FD frame for
/// [`CANFD_MTU`], and nothing for any other count.
pub fn frame_from_read(n: usize, can_id: u32, len: u8, flags: u8, data: [u8; 64]) -> (r: Option<CanAnyFrame>)
    ensures
        r is Some <==> (n == CAN_MTU || n == CANFD_MTU),
        n == CAN_MTU ==> (r matches Some(f) && !(f is Fd) && f@ == (FrameFields {
            word: can_id,
            dlc: if can_id & 0x2000_0000u32 != 0 { 8 } else { clamp_dlc(len) },
            flags: 0,
            bytes: data@.take(8),
        }) && (f is Error <==> can_id & 0x2000_0000u32 != 0)),
        n == CANFD_MTU ==> (r matches Some(f) && f is Fd && f@ == fd_raw_fields(can_id, len, flags, data@)),
{
    if n == CAN_MTU {
        let mut classic = [0u8; 8];
        let mut i: usize = 0;
        while i < 8
            invariant
                i <= 8,
                forall|j: int| 0 <= j < i ==> classic@[j] == data@[j],
            decreases 8 - i,
        {
            classic[i] = data[i];
            i = i + 1;
        }
        assert(classic@ =~= data@.take(8));
        let f = CanFrame::from_raw(can_id, len, classic);
        Some(CanAnyFrame::from(f))
    } else if n == CANFD_MTU {
        Some(CanAnyFrame::Fd(CanFdFrame::from_raw(can_id, len, flags, data)))
    } else {
        None
    }
}

/// The flag of a `recvmsg()` whose control messages did not all fit in the
/// buffer given for them (`MSG_CTRUNC`).
pub const MSG_CTRUNC: i32 = 8;

/// What a `recvmsg()` call gave, before its control messages are read.
#[derive(Debug, Copy, Clone, PartialEq, Eq, Hash, Structural)]
pub enum RecvOutcome {
    /// The call failed; the error is the last OS error.
    Failed,
    /// Control messages were cut off, so timestamps may be missing: the
    /// read is refused as invalid data.
    ControlTruncated,
    /// A packet of this many bytes arrived (its real length, even where it
    /// was longer than the buffer).
    Received(usize),
}

/// What a `recvmsg()` call gave, from its return value and the flags of the
/// message header it filled: a negative value is a failure, cut-off control
/// messages refuse the read, and else the value is the packet's length.
pub fn recv_outcome(n: isize, msg_flags: i32) -> (r: RecvOutcome)
    ensures
        n < 0 ==> r is Failed,
        n >= 0 && msg_flags & MSG_CTRUNC != 0 ==> r is ControlTruncated,
        n >= 0 && msg_flags & MSG_CTRUNC == 0 ==> r == RecvOutcome::Received(n as usize),
{
    if n < 0 {
        RecvOutcome::Failed
    } else if msg_flags & MSG_CTRUNC != 0 {
        RecvOutcome::ControlTruncated
    } else {
        RecvOutcome::Received(n as usize)
    }
}

/// Whether a failed read probably timed out and may be retried: its kind
/// is `WouldBlock` (`EAGAIN`, `EWOULDBLOCK`), or its errno is
/// `EINPROGRESS`.
pub fn should_retry_read(would_block: bool, errno: Option<i32>) -> (r: bool)
    ensures
        r == (would_block || errno == Some(EINPROGRESS)),
{
    would_block || match errno {
        Some(e) => e == EINPROGRESS,
        None => false,
    }
}

/// Check an error return value for timeouts.
///
/// Due to the fact that timeouts are reported as errors, calling `read_frame`
/// on a socket with a timeout that does not receive a frame in time will
/// result in an error being returned. This trait adds a `should_retry`
/// method to errors and results to check for this condition.
pub trait ShouldRetry {
    /// Whether the error is probably due to a timeout, so that the
    /// operation may be retried.
    fn should_retry(&self) -> bool;
}

impl ShouldRetry for std::io::Error {
    /// An I/O error should be retried when its kind is `WouldBlock` or its
    /// errno is `EINPROGRESS` (see [`should_retry_read`]).
    fn should_retry(&self) -> (r: bool)
        ensures
            r == (std_io_kind(io_error_kind(*self)) == IoKind::WouldBlock || io_error_errno(*self) == Some(
                EINPROGRESS,
            )),
    {
        should_retry_read(io_error_class(self) == IoKind::WouldBlock, raw_os_error(self))
    }
}

impl<E> ShouldRetry for Result<E, std::io::Error> {
    /// A result should be retried when it is an error that should be.
    fn should_retry(&self) -> (r: bool)
        ensures
            match self {
                Ok(_) => !r,
                Err(e) => r == (std_io_kind(io_error_kind(*e)) == IoKind::WouldBlock || io_error_errno(*e)
                    == Some(EINPROGRESS)),
            },
    {
        match self {
            Err(e) => e.should_retry(),
            Ok(_) => false,
        }
    }
}

} // verus!
