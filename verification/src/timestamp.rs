//! Timestamps of received CAN frames.
//!
//! The kernel hands timestamps to `recvmsg()` as ancillary control
//! messages, together with the frame. A socket-layer arrival time comes in
//! an `SO_TIMESTAMPNS` message; the network-stack and hardware times come in
//! an `SO_TIMESTAMPING` message of three `timespec`s, of which the first is
//! the software and the third the hardware time, and a zero one was not
//! taken.
use vstd::prelude::*;

verus! {

/// Hardware transmit timestamp.
pub const SOF_TIMESTAMPING_TX_HARDWARE: u32 = 0x0001;
/// Software transmit timestamp, taken when the packet leaves the stack.
pub const SOF_TIMESTAMPING_TX_SOFTWARE: u32 = 0x0002;
/// Hardware receive timestamp.
pub const SOF_TIMESTAMPING_RX_HARDWARE: u32 = 0x0004;
/// Software receive timestamp, taken when the packet enters the stack.
pub const SOF_TIMESTAMPING_RX_SOFTWARE: u32 = 0x0008;
/// Report software timestamps.
pub const SOF_TIMESTAMPING_SOFTWARE: u32 = 0x0010;
/// Report the raw hardware clock value (not wall-clock time).
pub const SOF_TIMESTAMPING_RAW_HARDWARE: u32 = 0x0040;
/// Deliver `SO_TIMESTAMPING` timestamps in a control message on receive.
pub const SOF_TIMESTAMPING_OPT_CMSG: u32 = 0x0400;

/// A time as the kernel reports it (`struct timespec`): seconds and
/// nanoseconds.
#[derive(Debug, Clone, Copy, PartialEq, Eq, Hash, Default, Structural)]
pub struct Timespec {
    /// Seconds
    pub tv_sec: i64,
    /// Nanoseconds
    pub tv_nsec: i64,
}

impl Timespec {
    /// Whether the time was taken: a zero time was not.
    pub fn is_set(&self) -> (r: bool)
        ensures
            r == (self.tv_sec != 0 || self.tv_nsec != 0),
    {
        self.tv_sec != 0 || self.tv_nsec != 0
    }
}

/// Timestamps of a received CAN frame. Each is `None` when its timestamp
/// mode was not enabled on the socket before the frame was read.
#[derive(Debug, Clone, Copy, PartialEq, Eq, Hash, Default, Structural)]
pub struct CanTimestamps {
    /// `SO_TIMESTAMPNS`: socket-layer arrival time (wall clock).
    pub socket: Option<Timespec>,
    /// `SOF_TIMESTAMPING_RX_SOFTWARE`: network-stack entry time (wall clock).
    pub sw: Option<Timespec>,
    /// `SOF_TIMESTAMPING_RX_HARDWARE`: the raw hardware clock value, in the
    /// adapter's own clock domain.
    pub hw: Option<Timespec>,
}

/// An ancillary control message of a `recvmsg()`, as far as timestamps go.
#[derive(Debug, Clone, Copy, PartialEq, Eq, Hash, Structural)]
pub enum ControlMessage {
    /// `SO_TIMESTAMPNS`, with its time.
    TimestampNs(Timespec),
    /// `SO_TIMESTAMPING`, with its three times: software, a deprecated one,
    /// hardware.
    Timestamping(Timespec, Timespec, Timespec),
    /// Any other message, or one too short to hold its payload.
    Other,
}

/// Whether a time was taken.
pub open spec fn is_set(t: Timespec) -> bool {
    t.tv_sec != 0 || t.tv_nsec != 0
}

/// The timestamps after one more control message: a socket-layer time
/// replaces the one before, and so does each of the software and hardware
/// times that was taken.
pub open spec fn apply_control_message(ts: CanTimestamps, m: ControlMessage) -> CanTimestamps {
    match m {
        ControlMessage::TimestampNs(t) => CanTimestamps { socket: Some(t), ..ts },
        ControlMessage::Timestamping(sw, _, hw) => CanTimestamps {
            sw: if is_set(sw) { Some(sw) } else { ts.sw },
            hw: if is_set(hw) { Some(hw) } else { ts.hw },
            ..ts
        },
        ControlMessage::Other => ts,
    }
}

/// The timestamps that a list of control messages gives, read in order,
/// starting from none.
pub open spec fn timestamps_of(msgs: Seq<ControlMessage>) -> CanTimestamps
    decreases msgs.len(),
{
    if msgs.len() == 0 {
        CanTimestamps { socket: None, sw: None, hw: None }
    } else {
        apply_control_message(timestamps_of(msgs.drop_last()), msgs.last())
    }
}

impl CanTimestamps {
    /// The timestamps that the control messages of one `recvmsg()` carry:
    /// the last of each kind wins.
    pub fn from_control_messages(msgs: &[ControlMessage]) -> (r: CanTimestamps)
        ensures
            r == timestamps_of(msgs@),
    {
        let mut ts = CanTimestamps { socket: None, sw: None, hw: None };
        let mut i: usize = 0;
        while i < msgs.len()
            invariant
                i <= msgs@.len(),
                ts == timestamps_of(msgs@.take(i as int)),
            decreases msgs@.len() - i,
        {
            proof {
                assert(msgs@.take(i + 1).drop_last() =~= msgs@.take(i as int));
            }
            match msgs[i] {
                ControlMessage::TimestampNs(t) => {
                    ts.socket = Some(t);
                },
                ControlMessage::Timestamping(sw, _, hw) => {
                    if sw.is_set() {
                        ts.sw = Some(sw);
                    }
                    if hw.is_set() {
                        ts.hw = Some(hw);
                    }
                },
                ControlMessage::Other => {},
            }
            i = i + 1;
        }
        assert(msgs@.take(msgs@.len() as int) =~= msgs@);
        ts
    }
}

/// Whether the message carries a socket-layer time.
pub open spec fn carries_socket_time(m: ControlMessage) -> bool {
    m is TimestampNs
}

/// Whether the message carries a software time that was taken.
pub open spec fn carries_sw_time(m: ControlMessage) -> bool {
    m matches ControlMessage::Timestamping(sw, _, _) && is_set(sw)
}

/// Whether the message carries a hardware time that was taken.
pub open spec fn carries_hw_time(m: ControlMessage) -> bool {
    m matches ControlMessage::Timestamping(_, _, hw) && is_set(hw)
}

/// Each timestamp is there exactly when one of the control messages
/// carries it: a socket-layer time when an `SO_TIMESTAMPNS` message came
/// (the reader makes one only of a message long enough to hold its time),
/// and a software or hardware time when an `SO_TIMESTAMPING` message came
/// with that time taken.
pub proof fn lemma_timestamps_present(msgs: Seq<ControlMessage>)
    ensures
        timestamps_of(msgs).socket is Some <==> exists|i: int| 0 <= i < msgs.len() && #[trigger] carries_socket_time(
            msgs[i],
        ),
        timestamps_of(msgs).sw is Some <==> exists|i: int| 0 <= i < msgs.len() && #[trigger] carries_sw_time(
            msgs[i],
        ),
        timestamps_of(msgs).hw is Some <==> exists|i: int| 0 <= i < msgs.len() && #[trigger] carries_hw_time(
            msgs[i],
        ),
    decreases msgs.len(),
{
    if msgs.len() > 0 {
        let p = msgs.drop_last();
        let n = msgs.len() - 1;
        lemma_timestamps_present(p);
        assert forall|i: int| 0 <= i < p.len() implies p[i] == msgs[i] by {}
        if exists|i: int| 0 <= i < p.len() && #[trigger] carries_socket_time(p[i]) {
            let i = choose|i: int| 0 <= i < p.len() && #[trigger] carries_socket_time(p[i]);
            assert(carries_socket_time(msgs[i]));
        }
        if exists|i: int| 0 <= i < p.len() && #[trigger] carries_sw_time(p[i]) {
            let i = choose|i: int| 0 <= i < p.len() && #[trigger] carries_sw_time(p[i]);
            assert(carries_sw_time(msgs[i]));
        }
        if exists|i: int| 0 <= i < p.len() && #[trigger] carries_hw_time(p[i]) {
            let i = choose|i: int| 0 <= i < p.len() && #[trigger] carries_hw_time(p[i]);
            assert(carries_hw_time(msgs[i]));
        }
        if exists|i: int| 0 <= i < msgs.len() && #[trigger] carries_socket_time(msgs[i]) {
            let i = choose|i: int| 0 <= i < msgs.len() && #[trigger] carries_socket_time(msgs[i]);
            if i < n {
                assert(carries_socket_time(p[i]));
            }
        }
        if exists|i: int| 0 <= i < msgs.len() && #[trigger] carries_sw_time(msgs[i]) {
            let i = choose|i: int| 0 <= i < msgs.len() && #[trigger] carries_sw_time(msgs[i]);
            if i < n {
                assert(carries_sw_time(p[i]));
            }
        }
        if exists|i: int| 0 <= i < msgs.len() && #[trigger] carries_hw_time(msgs[i]) {
            let i = choose|i: int| 0 <= i < msgs.len() && #[trigger] carries_hw_time(msgs[i]);
            if i < n {
                assert(carries_hw_time(p[i]));
            }
        }
        assert(carries_socket_time(msgs[n]) ==> carries_socket_time(msgs.last()));
        assert(carries_sw_time(msgs[n]) ==> carries_sw_time(msgs.last()));
        assert(carries_hw_time(msgs[n]) ==> carries_hw_time(msgs.last()));
    }
}

} // verus!
