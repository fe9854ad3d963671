//! The CAN parameters of a network interface, as netlink carries them.
//!
//! The kernel's CAN netlink interface (`linux/can/netlink.h`) reads and
//! sets the bit timing, control modes and other parameters of an interface.
//! This module holds those parameters and the rules on them; the netlink
//! messaging itself stays at the edge of the program.
use vstd::prelude::*;
use vstd::string::StringSliceAdditionalSpecFns;
use vstd::std_specs::convert::IntoSpec;

verus! {

/// The kind of an I/O error, of the standard library.
#[verifier::external_type_specification]
#[verifier::external_body]
pub struct ExIoErrorKind(std::io::ErrorKind);

/// The kind of I/O error the standard library gives an OS error number.
pub uninterp spec fn errno_io_kind(errno: i32) -> std::io::ErrorKind;

/// The kind of I/O error of an OS error number
/// (`io::Error::from_raw_os_error(errno).kind()`), which depends on the
/// number alone.
#[verifier::external_body]
fn errno_kind(errno: i32) -> (r: std::io::ErrorKind)
    ensures
        r == errno_io_kind(errno),
{
    std::io::Error::from_raw_os_error(errno).kind()
}

/// A failure reported by the netlink protocol layer, summarized: what a
/// caller can act on, the kernel's errno above all.
#[derive(Debug, Clone, PartialEq, Eq)]
pub enum NlError {
    /// The kernel rejected the request, returning this errno (positive).
    Netlink {
        /// The errno the kernel reported
        errno: i32,
    },
    /// No ACK arrived for a request that asked for one.
    NoAck,
    /// An ACK arrived for a request that did not ask for one.
    UnexpectedAck,
    /// A reply carried a sequence number or port ID that was not the one
    /// requested.
    BadSeqOrPid {
        /// The sequence number of the offending reply
        seq: u32,
        /// The port ID of the offending reply
        pid: u32,
    },
    /// The channel carrying netlink messages closed.
    ClosedChannel,
    /// A message-level failure, reduced to its text.
    Msg(String),
}

impl NlError {
    /// The errno the kernel reported, if this was an error packet.
    pub fn errno(&self) -> (r: Option<i32>)
        ensures
            r == (match *self {
                NlError::Netlink { errno } => Some(errno),
                _ => None,
            }),
    {
        match *self {
            NlError::Netlink { errno } => Some(errno),
            _ => None,
        }
    }

    /// The kernel's errno as an I/O error kind, if there was one: a
    /// privileged operation refused to a normal user gives
    /// `PermissionDenied`.
    pub fn io_kind(&self) -> (r: Option<std::io::ErrorKind>)
        ensures
            r == (match *self {
                NlError::Netlink { errno } => Some(errno_io_kind(errno)),
                _ => None,
            }),
    {
        match self.errno() {
            Some(e) => Some(errno_kind(e)),
            None => None,
        }
    }
}

// ===== MTU =====

/// The MTU of a CAN interface: the size of the frames it carries.
#[derive(Debug, Clone, Copy, PartialEq, Eq, Hash, Structural)]
pub enum Mtu {
    /// Classic CAN frames, 8 bytes of data (16 bytes in all)
    Standard,
    /// CAN FD frames, 64 bytes of data (72 bytes in all)
    Fd,
}

/// The size in bytes of the frames of an MTU.
pub open spec fn mtu_bytes(m: Mtu) -> u32 {
    match m {
        Mtu::Standard => 16,
        Mtu::Fd => 72,
    }
}

impl Mtu {
    /// The size in bytes: 16 or 72.
    pub fn as_u32(&self) -> (r: u32)
        ensures
            r == mtu_bytes(*self),
    {
        match self {
            Mtu::Standard => 16,
            Mtu::Fd => 72,
        }
    }

    /// The MTU of a size in bytes; any size but 16 and 72 is refused with an
    /// I/O error of kind `InvalidData`.
    pub fn try_from_u32(val: u32) -> (r: Result<Mtu, std::io::Error>)
        ensures
            r is Ok <==> (val == 16 || val == 72),
            r matches Ok(m) ==> mtu_bytes(m) == val,
            r matches Err(e) ==> crate::io::std_io_kind(crate::io::io_error_kind(e)) == crate::io::IoKind::InvalidData,
    {
        if val == 16 {
            Ok(Mtu::Standard)
        } else if val == 72 {
            Ok(Mtu::Fd)
        } else {
            Err(crate::errors::io_error_of(crate::errors::IoFailure::InvalidData))
        }
    }
}

// ===== Netlink structs =====

/// CAN bit-timing parameters (`struct can_bittiming`).
#[allow(non_camel_case_types)]
#[derive(Debug, Default, Clone, Copy, PartialEq, Eq, Hash, Structural)]
pub struct can_bittiming {
    /// Bit-rate in bits/second
    pub bitrate: u32,
    /// Sample point in one-tenth of a percent
    pub sample_point: u32,
    /// Time quanta (TQ) in nanoseconds
    pub tq: u32,
    /// Propagation segment in TQs
    pub prop_seg: u32,
    /// Phase buffer segment 1 in TQs
    pub phase_seg1: u32,
    /// Phase buffer segment 2 in TQs
    pub phase_seg2: u32,
    /// Synchronisation jump width in TQs
    pub sjw: u32,
    /// Bit-rate prescaler
    pub brp: u32,
}

/// The hardware limits of the bit timing (`struct can_bittiming_const`).
#[allow(non_camel_case_types)]
#[derive(Debug, Default, Clone, Copy, PartialEq, Eq, Hash)]
pub struct can_bittiming_const {
    /// The bytes of the name of the CAN controller hardware
    pub name: [u8; 16],
    /// Time segment 1 = prop_seg + phase_seg1, minimum
    pub tseg1_min: u32,
    /// Time segment 1, maximum
    pub tseg1_max: u32,
    /// Time segment 2 = phase_seg2, minimum
    pub tseg2_min: u32,
    /// Time segment 2, maximum
    pub tseg2_max: u32,
    /// Synchronisation jump width, maximum
    pub sjw_max: u32,
    /// Bit-rate prescaler, minimum
    pub brp_min: u32,
    /// Bit-rate prescaler, maximum
    pub brp_max: u32,
    /// Bit-rate prescaler, increment
    pub brp_inc: u32,
}

/// CAN clock parameters (`struct can_clock`).
#[allow(non_camel_case_types)]
#[derive(Debug, Default, Clone, Copy, PartialEq, Eq, Hash, Structural)]
pub struct can_clock {
    /// CAN system clock frequency in Hz
    pub freq: u32,
}

/// CAN bus error counters (`struct can_berr_counter`).
#[allow(non_camel_case_types)]
#[derive(Debug, Default, Clone, Copy, PartialEq, Eq, Hash, Structural)]
pub struct can_berr_counter {
    /// TX error counter
    pub txerr: u16,
    /// RX error counter
    pub rxerr: u16,
}

/// CAN controller mode (`struct can_ctrlmode`): to set or clear a mode, set
/// its bit in `mask`, and set or clear it in `flags`.
#[allow(non_camel_case_types)]
#[derive(Debug, Default, Clone, Copy, PartialEq, Eq, Hash, Structural)]
pub struct can_ctrlmode {
    /// The modes to change
    pub mask: u32,
    /// The modes to turn on, within `mask`
    pub flags: u32,
}

/// CAN device statistics (`struct can_device_stats`).
#[allow(non_camel_case_types)]
#[derive(Debug, Default, Clone, Copy, PartialEq, Eq, Hash, Structural)]
pub struct can_device_stats {
    /// Bus errors
    pub bus_error: u32,
    /// Changes to error warning state
    pub error_warning: u32,
    /// Changes to error passive state
    pub error_passive: u32,
    /// Changes to bus off state
    pub bus_off: u32,
    /// Arbitration lost errors
    pub arbitration_lost: u32,
    /// CAN controller re-starts
    pub restarts: u32,
}

/// No bus termination.
pub const CAN_TERMINATION_DISABLED: u16 = 0;

/// CAN bit-timing parameters
pub type CanBitTiming = can_bittiming;
/// CAN bit-timing const parameters
pub type CanBitTimingConst = can_bittiming_const;
/// CAN clock parameter
pub type CanClock = can_clock;
/// CAN bus error counters
pub type CanBerrCounter = can_berr_counter;

// ===== Controller state =====

/// The state of a CAN controller (`enum can_state`).
#[derive(Debug, Clone, Copy, PartialEq, Eq, Hash, Structural)]
pub enum CanState {
    /// RX/TX error count < 96
    ErrorActive,
    /// RX/TX error count < 128
    ErrorWarning,
    /// RX/TX error count < 256
    ErrorPassive,
    /// RX/TX error count >= 256
    BusOff,
    /// Device is stopped
    Stopped,
    /// Device is sleeping
    Sleeping,
}

/// The kernel's number of a controller state.
pub open spec fn can_state_code(s: CanState) -> u32 {
    match s {
        CanState::ErrorActive => 0,
        CanState::ErrorWarning => 1,
        CanState::ErrorPassive => 2,
        CanState::BusOff => 3,
        CanState::Stopped => 4,
        CanState::Sleeping => 5,
    }
}

impl CanState {
    /// The state with the kernel's number `val`, or `None` above 5.
    pub fn try_from_u32(val: u32) -> (r: Option<CanState>)
        ensures
            r is Some <==> val <= 5,
            r matches Some(s) ==> can_state_code(s) == val,
    {
        match val {
            0 => Some(CanState::ErrorActive),
            1 => Some(CanState::ErrorWarning),
            2 => Some(CanState::ErrorPassive),
            3 => Some(CanState::BusOff),
            4 => Some(CanState::Stopped),
            5 => Some(CanState::Sleeping),
            _ => None,
        }
    }

    /// The kernel's number of the state.
    pub fn as_u32(&self) -> (r: u32)
        ensures
            r == can_state_code(*self),
    {
        match self {
            CanState::ErrorActive => 0,
            CanState::ErrorWarning => 1,
            CanState::ErrorPassive => 2,
            CanState::BusOff => 3,
            CanState::Stopped => 4,
            CanState::Sleeping => 5,
        }
    }
}

// ===== Control modes =====

/// A CAN control mode; each is one bit of the control-mode word, numbered
/// as listed.
#[derive(Debug, Clone, Copy, PartialEq, Eq, Hash, Structural)]
pub enum CanCtrlMode {
    /// Loopback mode
    Loopback,
    /// Listen-only mode
    ListenOnly,
    /// Triple sampling mode
    TripleSampling,
    /// One-Shot mode
    OneShot,
    /// Bus-error reporting
    BerrReporting,
    /// CAN FD mode
    Fd,
    /// Ignore missing CAN ACKs
    PresumeAck,
    /// CAN FD in non-ISO mode
    NonIso,
    /// Classic CAN DLC option
    CcLen8Dlc,
}

/// The bit number of a control mode.
pub open spec fn ctrl_mode_bit(m: CanCtrlMode) -> u32 {
    match m {
        CanCtrlMode::Loopback => 0,
        CanCtrlMode::ListenOnly => 1,
        CanCtrlMode::TripleSampling => 2,
        CanCtrlMode::OneShot => 3,
        CanCtrlMode::BerrReporting => 4,
        CanCtrlMode::Fd => 5,
        CanCtrlMode::PresumeAck => 6,
        CanCtrlMode::NonIso => 7,
        CanCtrlMode::CcLen8Dlc => 8,
    }
}

/// The mask of a control mode: its bit set.
pub open spec fn ctrl_mode_mask(m: CanCtrlMode) -> u32 {
    1u32 << ctrl_mode_bit(m)
}

impl CanCtrlMode {
    /// The mask of this mode in the control-mode word.
    pub fn mask(&self) -> (r: u32)
        ensures
            r == ctrl_mode_mask(*self),
    {
        let bit: u32 = match self {
            CanCtrlMode::Loopback => 0,
            CanCtrlMode::ListenOnly => 1,
            CanCtrlMode::TripleSampling => 2,
            CanCtrlMode::OneShot => 3,
            CanCtrlMode::BerrReporting => 4,
            CanCtrlMode::Fd => 5,
            CanCtrlMode::PresumeAck => 6,
            CanCtrlMode::NonIso => 7,
            CanCtrlMode::CcLen8Dlc => 8,
        };
        1u32 << bit
    }
}

/// A set of control modes: which to change (`mask`) and which of them to
/// turn on (`flags`).
#[derive(Debug, Default, Clone, Copy, PartialEq, Eq, Hash, Structural)]
pub struct CanCtrlModes(pub can_ctrlmode);

impl CanCtrlModes {
    /// A set of control modes from a mask and flags.
    pub fn new(mask: u32, flags: u32) -> (r: CanCtrlModes)
        ensures
            r.0 == (can_ctrlmode { mask, flags }),
    {
        CanCtrlModes(can_ctrlmode { mask, flags })
    }

    /// The set that changes one mode, turning it on or off.
    pub fn from_mode(mode: CanCtrlMode, on: bool) -> (r: CanCtrlModes)
        ensures
            r.0.mask == ctrl_mode_mask(mode),
            r.0.flags == (if on {
                ctrl_mode_mask(mode)
            } else {
                0
            }),
    {
        let mask = mode.mask();
        let flags = if on {
            mask
        } else {
            0
        };
        Self::new(mask, flags)
    }

    /// Adds a mode to change: its bit is set in the mask, and set in the
    /// flags if `on`, cleared there if not. Other modes are left as they are.
    pub fn add(&mut self, mode: CanCtrlMode, on: bool)
        ensures
            final(self).0.mask == old(self).0.mask | ctrl_mode_mask(mode),
            final(self).0.flags == (old(self).0.flags & !ctrl_mode_mask(mode)) | (if on {
                ctrl_mode_mask(mode)
            } else {
                0u32
            }),
    {
        let mask = mode.mask();
        self.0.mask = self.0.mask | mask;
        let flags = self.0.flags;
        if on {
            self.0.flags = flags | mask;
            assert(flags | mask == (flags & !mask) | mask) by (bit_vector);
        } else {
            self.0.flags = flags & !mask;
            assert(flags & !mask == (flags & !mask) | 0u32) by (bit_vector);
        }
    }

    /// Clears every mode.
    pub fn clear(&mut self)
        ensures
            final(self).0 == (can_ctrlmode { mask: 0, flags: 0 }),
    {
        self.0 = can_ctrlmode { mask: 0, flags: 0 };
    }

    /// Whether `mode` is turned on in the flags.
    pub fn has_mode(&self, mode: CanCtrlMode) -> (r: bool)
        ensures
            r == (ctrl_mode_mask(mode) & self.0.flags != 0),
    {
        (mode.mask() & self.0.flags) != 0
    }
}

// ===== Interface parameters =====

/// The CAN parameters of an interface; each is present only if it was read
/// or is to be set.
#[derive(Debug, Default, Clone, PartialEq, Eq)]
pub struct InterfaceCanParams {
    /// The CAN bit timing parameters
    pub bit_timing: Option<CanBitTiming>,
    /// The bit timing const parameters
    pub bit_timing_const: Option<CanBitTimingConst>,
    /// The CAN clock parameters (read only)
    pub clock: Option<CanClock>,
    /// The CAN bus state (read-only)
    pub state: Option<CanState>,
    /// The automatic restart time (in millisec); zero disables it.
    pub restart_ms: Option<u32>,
    /// The bit error counter (read-only)
    pub berr_counter: Option<CanBerrCounter>,
    /// The control mode bits
    pub ctrl_mode: Option<CanCtrlModes>,
    /// The FD data bit timing
    pub data_bit_timing: Option<CanBitTiming>,
    /// The FD data bit timing const parameters
    pub data_bit_timing_const: Option<CanBitTimingConst>,
    /// The CANbus termination resistance
    pub termination: Option<u16>,
    /// The control modes the driver supports, a mask of mode bits
    /// (read-only)
    pub ctrl_mode_supported: Option<u32>,
}

/// The details of an interface.
#[derive(Debug, Default, Clone, PartialEq, Eq)]
pub struct InterfaceDetails {
    /// The name of the interface
    pub name: Option<String>,
    /// The index of the interface
    pub index: u32,
    /// Whether the interface is currently up
    pub is_up: bool,
    /// The MTU size of the interface (standard or FD frames)
    pub mtu: Option<Mtu>,
    /// The CAN-specific parameters for the interface
    pub can: InterfaceCanParams,
}

/// The index an interface is requested with: index 0 is netlink's way of
/// saying "unspecified", the same as none.
pub open spec fn requested_index_spec(index: Option<u32>) -> Option<u32> {
    match index {
        Some(i) => if i != 0 {
            Some(i)
        } else {
            None
        },
        None => None,
    }
}

/// The index an interface is requested with: index 0 is netlink's way of
/// saying "unspecified", the same as none.
pub fn requested_index_of(index: Option<u32>) -> (r: Option<u32>)
    ensures
        r == requested_index_spec(index),
{
    match index {
        Some(i) => if i != 0 {
            Some(i)
        } else {
            None
        },
        None => None,
    }
}

/// The index an interface is requested with, from anything that converts
/// to an optional index (a plain index, or `None`): index 0 is netlink's way
/// of saying "unspecified", the same as none. The result is
/// [`requested_index_spec`] of what the conversion gives, which for a plain
/// index `i` is `Some(i)` and for an optional index the index itself.
pub fn requested_index<I: Into<Option<u32>>>(index: I) -> (r: Option<u32>)
    ensures
        r matches Some(i) ==> i != 0,
        exists|v: Option<u32>| call_ensures(I::into, (index,), v) && r == requested_index_spec(v),
{
    // Called as a function value, so that what it returned is known by the
    // conversion's own postcondition (`call_ensures`).
    let into_index = I::into;
    let v = into_index(index);
    requested_index_of(v)
}

/// `impl<T> From<T> for Option<T>`: the value moved into a `Some`.
pub assume_specification<T>[ <Option<T> as std::convert::From<T>>::from ](val: T) -> (r: Option<T>)
    ensures
        r == Some(val),
;

/// The reflexive `impl<T> From<T> for T`: the argument, unchanged.
pub assume_specification<V>[ <V as std::convert::From<V>>::from ](v: V) -> (r: V)
    ensures
        r == v,
;

impl InterfaceDetails {
    /// The details of the interface with index `index`, with nothing else
    /// known.
    pub fn new(index: u32) -> (r: InterfaceDetails)
        ensures
            r.index == index,
            r.name is None,
            !r.is_up,
            r.mtu is None,
            r.can == (InterfaceCanParams {
                bit_timing: None,
                bit_timing_const: None,
                clock: None,
                state: None,
                restart_ms: None,
                berr_counter: None,
                ctrl_mode: None,
                data_bit_timing: None,
                data_bit_timing_const: None,
                termination: None,
                ctrl_mode_supported: None,
            }),
    {
        InterfaceDetails {
            name: None,
            index,
            is_up: false,
            mtu: None,
            can: InterfaceCanParams {
                bit_timing: None,
                bit_timing_const: None,
                clock: None,
                state: None,
                restart_ms: None,
                berr_counter: None,
                ctrl_mode: None,
                data_bit_timing: None,
                data_bit_timing_const: None,
                termination: None,
                ctrl_mode_supported: None,
            },
        }
    }
}


// ===== Netlink attributes =====

/// A CAN attribute of a link (`IFLA_CAN_*`), with its payload decoded.
#[derive(Debug, Clone, Copy, PartialEq, Eq)]
pub enum CanAttr {
    /// Nominal bit timing
    BitTiming(can_bittiming),
    /// The controller's nominal bit-timing limits
    BitTimingConst(can_bittiming_const),
    /// The controller's base clock
    Clock(can_clock),
    /// The controller's state, the kernel's number
    State(u32),
    /// The control modes enabled
    CtrlMode(can_ctrlmode),
    /// The automatic bus-off restart delay in milliseconds
    RestartMs(u32),
    /// The TX and RX error counters
    BerrCounter(can_berr_counter),
    /// CAN FD data-phase bit timing
    DataBitTiming(can_bittiming),
    /// The controller's data-phase bit-timing limits
    DataBitTimingConst(can_bittiming_const),
    /// The bus termination resistance in ohms
    Termination(u16),
    /// The control modes the driver supports, from the nested
    /// `IFLA_CAN_CTRLMODE_EXT` attribute
    CtrlModeSupported(u32),
    /// An attribute that is not read
    Other,
}

/// The flag of a netlink attribute type that marks nested attributes
/// (`NLA_F_NESTED`).
pub const NLA_F_NESTED: u16 = 0x8000;

/// The CAN attributes (`IFLA_CAN_*`) that are read, by their type.
#[derive(Debug, Clone, Copy, PartialEq, Eq, Hash, Structural)]
pub enum CanAttrKind {
    /// `IFLA_CAN_BITTIMING`
    BitTiming,
    /// `IFLA_CAN_BITTIMING_CONST`
    BitTimingConst,
    /// `IFLA_CAN_CLOCK`
    Clock,
    /// `IFLA_CAN_STATE`
    State,
    /// `IFLA_CAN_CTRLMODE`
    CtrlMode,
    /// `IFLA_CAN_RESTART_MS`
    RestartMs,
    /// `IFLA_CAN_BERR_COUNTER`
    BerrCounter,
    /// `IFLA_CAN_DATA_BITTIMING`
    DataBitTiming,
    /// `IFLA_CAN_DATA_BITTIMING_CONST`
    DataBitTimingConst,
    /// `IFLA_CAN_TERMINATION`
    Termination,
    /// `IFLA_CAN_CTRLMODE_EXT`, which nests the supported control modes
    CtrlModeExt,
    /// Any other attribute, which is not read
    Other,
}

/// The kind of a CAN attribute of type `t`, the nested flag left aside.
pub open spec fn can_attr_kind_of(t: u16) -> CanAttrKind {
    let n = t & 0x7FFFu16;
    if n == 1 {
        CanAttrKind::BitTiming
    } else if n == 2 {
        CanAttrKind::BitTimingConst
    } else if n == 3 {
        CanAttrKind::Clock
    } else if n == 4 {
        CanAttrKind::State
    } else if n == 5 {
        CanAttrKind::CtrlMode
    } else if n == 6 {
        CanAttrKind::RestartMs
    } else if n == 8 {
        CanAttrKind::BerrCounter
    } else if n == 9 {
        CanAttrKind::DataBitTiming
    } else if n == 10 {
        CanAttrKind::DataBitTimingConst
    } else if n == 11 {
        CanAttrKind::Termination
    } else if n == 17 {
        CanAttrKind::CtrlModeExt
    } else {
        CanAttrKind::Other
    }
}

/// The kind of a CAN attribute from its type, the nested flag left aside.
pub fn can_attr_kind(t: u16) -> (r: CanAttrKind)
    ensures
        r == can_attr_kind_of(t),
{
    let n = t & !NLA_F_NESTED;
    assert(t & !0x8000u16 == t & 0x7FFFu16) by (bit_vector);
    if n == 1 {
        CanAttrKind::BitTiming
    } else if n == 2 {
        CanAttrKind::BitTimingConst
    } else if n == 3 {
        CanAttrKind::Clock
    } else if n == 4 {
        CanAttrKind::State
    } else if n == 5 {
        CanAttrKind::CtrlMode
    } else if n == 6 {
        CanAttrKind::RestartMs
    } else if n == 8 {
        CanAttrKind::BerrCounter
    } else if n == 9 {
        CanAttrKind::DataBitTiming
    } else if n == 10 {
        CanAttrKind::DataBitTimingConst
    } else if n == 11 {
        CanAttrKind::Termination
    } else if n == 17 {
        CanAttrKind::CtrlModeExt
    } else {
        CanAttrKind::Other
    }
}

/// Whether a link-information attribute of type `t` holds the
/// driver-specific data (`IFLA_INFO_DATA`), where the CAN attributes are.
pub fn is_info_data(t: u16) -> (r: bool)
    ensures
        r == (t & 0x7FFFu16 == 2),
{
    let n = t & !NLA_F_NESTED;
    assert(t & !0x8000u16 == t & 0x7FFFu16) by (bit_vector);
    n == 2
}

/// Whether an attribute nested in `IFLA_CAN_CTRLMODE_EXT` of type `t` is
/// the supported control modes (`IFLA_CAN_CTRLMODE_SUPPORTED`).
pub fn is_ctrl_mode_supported(t: u16) -> (r: bool)
    ensures
        r == (t & 0x7FFFu16 == 1),
{
    let n = t & !NLA_F_NESTED;
    assert(t & !0x8000u16 == t & 0x7FFFu16) by (bit_vector);
    n == 1
}

/// The parameters with none known.
pub open spec fn no_params() -> InterfaceCanParams {
    InterfaceCanParams {
        bit_timing: None,
        bit_timing_const: None,
        clock: None,
        state: None,
        restart_ms: None,
        berr_counter: None,
        ctrl_mode: None,
        data_bit_timing: None,
        data_bit_timing_const: None,
        termination: None,
        ctrl_mode_supported: None,
    }
}

/// The controller state with the kernel's number `v`, if there is one.
pub open spec fn state_of_code(v: u32) -> Option<CanState> {
    if v == 0 {
        Some(CanState::ErrorActive)
    } else if v == 1 {
        Some(CanState::ErrorWarning)
    } else if v == 2 {
        Some(CanState::ErrorPassive)
    } else if v == 3 {
        Some(CanState::BusOff)
    } else if v == 4 {
        Some(CanState::Stopped)
    } else if v == 5 {
        Some(CanState::Sleeping)
    } else {
        None
    }
}

/// The parameters after reading one more attribute: the parameter it
/// carries is replaced (a state number the kernel does not define gives no
/// state); any other attribute changes nothing.
pub open spec fn apply_can_attr(p: InterfaceCanParams, a: CanAttr) -> InterfaceCanParams {
    match a {
        CanAttr::BitTiming(v) => InterfaceCanParams { bit_timing: Some(v), ..p },
        CanAttr::BitTimingConst(v) => InterfaceCanParams { bit_timing_const: Some(v), ..p },
        CanAttr::Clock(v) => InterfaceCanParams { clock: Some(v), ..p },
        CanAttr::State(v) => InterfaceCanParams { state: state_of_code(v), ..p },
        CanAttr::CtrlMode(v) => InterfaceCanParams { ctrl_mode: Some(CanCtrlModes(v)), ..p },
        CanAttr::RestartMs(v) => InterfaceCanParams { restart_ms: Some(v), ..p },
        CanAttr::BerrCounter(v) => InterfaceCanParams { berr_counter: Some(v), ..p },
        CanAttr::DataBitTiming(v) => InterfaceCanParams { data_bit_timing: Some(v), ..p },
        CanAttr::DataBitTimingConst(v) => InterfaceCanParams { data_bit_timing_const: Some(v), ..p },
        CanAttr::Termination(v) => InterfaceCanParams { termination: Some(v), ..p },
        CanAttr::CtrlModeSupported(v) => InterfaceCanParams { ctrl_mode_supported: Some(v), ..p },
        CanAttr::Other => p,
    }
}

/// The parameters that a list of attributes gives, read in order from none.
pub open spec fn params_of(attrs: Seq<CanAttr>) -> InterfaceCanParams
    decreases attrs.len(),
{
    if attrs.len() == 0 {
        no_params()
    } else {
        apply_can_attr(params_of(attrs.drop_last()), attrs.last())
    }
}

/// The attribute of an optional parameter, as a list of none or one.
pub open spec fn opt_attr<T>(v: Option<T>, f: spec_fn(T) -> CanAttr) -> Seq<CanAttr> {
    match v {
        Some(x) => seq![f(x)],
        None => Seq::empty(),
    }
}

/// The attributes that setting parameters sends: the nominal bit timing,
/// the restart delay, the control modes, the data bit timing and the
/// termination, in that order, each if present. The read-only parameters
/// are not sent.
pub open spec fn settable_attrs(p: InterfaceCanParams) -> Seq<CanAttr> {
    opt_attr(p.bit_timing, |v: can_bittiming| CanAttr::BitTiming(v))
        + opt_attr(p.restart_ms, |v: u32| CanAttr::RestartMs(v))
        + opt_attr(p.ctrl_mode, |v: CanCtrlModes| CanAttr::CtrlMode(v.0))
        + opt_attr(p.data_bit_timing, |v: can_bittiming| CanAttr::DataBitTiming(v))
        + opt_attr(p.termination, |v: u16| CanAttr::Termination(v))
}

impl InterfaceCanParams {
    /// The parameters that the CAN attributes of a link carry, read in
    /// order: a later attribute of a kind replaces an earlier one.
    pub fn from_can_attrs(attrs: &[CanAttr]) -> (r: InterfaceCanParams)
        ensures
            r == params_of(attrs@),
    {
        let mut p = InterfaceCanParams {
            bit_timing: None,
            bit_timing_const: None,
            clock: None,
            state: None,
            restart_ms: None,
            berr_counter: None,
            ctrl_mode: None,
            data_bit_timing: None,
            data_bit_timing_const: None,
            termination: None,
            ctrl_mode_supported: None,
        };
        let mut i: usize = 0;
        while i < attrs.len()
            invariant
                i <= attrs@.len(),
                p == params_of(attrs@.take(i as int)),
            decreases attrs@.len() - i,
        {
            proof {
                assert(attrs@.take(i + 1).drop_last() =~= attrs@.take(i as int));
            }
            match attrs[i] {
                CanAttr::BitTiming(v) => p.bit_timing = Some(v),
                CanAttr::BitTimingConst(v) => p.bit_timing_const = Some(v),
                CanAttr::Clock(v) => p.clock = Some(v),
                CanAttr::State(v) => p.state = CanState::try_from_u32(v),
                CanAttr::CtrlMode(v) => p.ctrl_mode = Some(CanCtrlModes(v)),
                CanAttr::RestartMs(v) => p.restart_ms = Some(v),
                CanAttr::BerrCounter(v) => p.berr_counter = Some(v),
                CanAttr::DataBitTiming(v) => p.data_bit_timing = Some(v),
                CanAttr::DataBitTimingConst(v) => p.data_bit_timing_const = Some(v),
                CanAttr::Termination(v) => p.termination = Some(v),
                CanAttr::CtrlModeSupported(v) => p.ctrl_mode_supported = Some(v),
                CanAttr::Other => {},
            }
            i = i + 1;
        }
        assert(attrs@.take(attrs@.len() as int) =~= attrs@);
        p
    }

    /// The attributes that setting these parameters sends, in order.
    pub fn to_can_attrs(&self) -> (r: Vec<CanAttr>)
        ensures
            r@ == settable_attrs(*self),
    {
        let mut out: Vec<CanAttr> = Vec::new();
        if let Some(v) = self.bit_timing {
            out.push(CanAttr::BitTiming(v));
        }
        if let Some(v) = self.restart_ms {
            out.push(CanAttr::RestartMs(v));
        }
        if let Some(v) = self.ctrl_mode {
            out.push(CanAttr::CtrlMode(v.0));
        }
        if let Some(v) = self.data_bit_timing {
            out.push(CanAttr::DataBitTiming(v));
        }
        if let Some(v) = self.termination {
            out.push(CanAttr::Termination(v));
        }
        assert(out@ =~= settable_attrs(*self));
        out
    }
}


// ===== Link attributes =====

/// The text that `String::from_utf8_lossy` makes of some bytes: the text
/// they hold where they are valid UTF-8, with a replacement character for
/// each invalid sequence.
pub uninterp spec fn utf8_lossy_chars(bytes: Seq<u8>) -> Seq<char>;

/// Decodes bytes as UTF-8, replacing invalid sequences
/// (`String::from_utf8_lossy`), which depends on the bytes alone.
#[verifier::external_body]
fn utf8_lossy(bytes: &[u8]) -> (r: String)
    ensures
        r@ == utf8_lossy_chars(bytes@),
{
    String::from_utf8_lossy(bytes).into_owned()
}

/// An attribute of a link (`IFLA_*`), as far as the details of an
/// interface go, with its payload decoded.
#[derive(Debug, Clone, PartialEq, Eq)]
pub enum LinkAttr {
    /// The interface name, as the bytes the kernel sent
    Ifname(Vec<u8>),
    /// The MTU, if the payload held one
    Mtu(Option<u32>),
    /// The link information: the CAN attributes of its data
    Linkinfo(Vec<CanAttr>),
    /// An attribute that is not read
    Other,
}

/// The index of the first zero byte, if there is one.
pub open spec fn first_nul(b: Seq<u8>) -> Option<int> {
    if exists|i: int| 0 <= i < b.len() && b[i] == 0 {
        Some(choose|i: int| 0 <= i < b.len() && b[i] == 0 && forall|j: int| 0 <= j < i ==> b[j] != 0)
    } else {
        None
    }
}

/// The name an interface name attribute gives: its bytes up to the first
/// zero byte, decoded; no name if there is no zero byte.
pub open spec fn name_of(b: Seq<u8>) -> Option<Seq<char>> {
    match first_nul(b) {
        Some(i) => Some(utf8_lossy_chars(b.take(i))),
        None => None,
    }
}

/// The MTU of a size in bytes, if it is one.
pub open spec fn mtu_of(v: u32) -> Option<Mtu> {
    if v == 16 {
        Some(Mtu::Standard)
    } else if v == 72 {
        Some(Mtu::Fd)
    } else {
        None
    }
}

/// What the details of an interface hold besides its index and state.
pub struct LinkView {
    /// The name, if known
    pub name: Option<Seq<char>>,
    /// The MTU, if known
    pub mtu: Option<Mtu>,
    /// The CAN parameters
    pub can: InterfaceCanParams,
}

/// The details after reading one more attribute: a name, an MTU or link
/// information replaces the one before (an MTU that is not one of a CAN
/// interface gives none); any other attribute changes nothing.
pub open spec fn apply_link_attr(d: LinkView, a: LinkAttr) -> LinkView {
    match a {
        LinkAttr::Ifname(b) => LinkView { name: name_of(b@), ..d },
        LinkAttr::Mtu(v) => LinkView {
            mtu: match v {
                Some(x) => mtu_of(x),
                None => None,
            },
            ..d
        },
        LinkAttr::Linkinfo(cs) => LinkView { can: params_of(cs@), ..d },
        LinkAttr::Other => d,
    }
}

/// The details that a list of link attributes gives, read in order from
/// nothing known.
pub open spec fn link_view(attrs: Seq<LinkAttr>) -> LinkView
    decreases attrs.len(),
{
    if attrs.len() == 0 {
        LinkView { name: None, mtu: None, can: no_params() }
    } else {
        apply_link_attr(link_view(attrs.drop_last()), attrs.last())
    }
}

/// The CAN parameters of the first link information among the attributes,
/// or none known.
pub open spec fn first_link_params(attrs: Seq<LinkAttr>) -> InterfaceCanParams
    decreases attrs.len(),
{
    if attrs.len() == 0 {
        no_params()
    } else {
        match attrs[0] {
            LinkAttr::Linkinfo(cs) => params_of(cs@),
            _ => first_link_params(attrs.drop_first()),
        }
    }
}

/// The name of an interface name attribute.
fn name_from_bytes(b: &[u8]) -> (r: Option<String>)
    ensures
        match r {
            Some(n) => name_of(b@) == Some(n@),
            None => name_of(b@) is None,
        },
{
    let mut i: usize = 0;
    while i < b.len()
        invariant
            i <= b@.len(),
            forall|j: int| 0 <= j < i ==> b@[j] != 0,
        decreases b@.len() - i,
    {
        if b[i] == 0 {
            let ghost k = choose|k: int| 0 <= k < b@.len() && b@[k] == 0 && forall|j: int| 0 <= j < k ==> b@[j] != 0;
            assert(b@[i as int] == 0);
            assert(k == i) by {
                if k < i {
                    assert(b@[k] != 0);
                } else if k > i {
                    assert(b@[i as int] != 0);
                }
            }
            assert(b@.take(i as int) =~= b@.subrange(0, i as int));
            return Some(utf8_lossy(&b[0..i]));
        }
        i = i + 1;
    }
    None
}

impl InterfaceDetails {
    /// The details of the interface with index `index`, up or not, from
    /// the attributes of its link, read in order: a later name, MTU or link
    /// information replaces an earlier one.
    pub fn from_link_attrs(index: u32, is_up: bool, attrs: &[LinkAttr]) -> (r: InterfaceDetails)
        ensures
            r.index == index,
            r.is_up == is_up,
            r.mtu == link_view(attrs@).mtu,
            r.can == link_view(attrs@).can,
            match r.name {
                Some(n) => link_view(attrs@).name == Some(n@),
                None => link_view(attrs@).name is None,
            },
    {
        let mut d = InterfaceDetails::new(index);
        d.is_up = is_up;
        let mut i: usize = 0;
        while i < attrs.len()
            invariant
                i <= attrs@.len(),
                d.index == index,
                d.is_up == is_up,
                d.mtu == link_view(attrs@.take(i as int)).mtu,
                d.can == link_view(attrs@.take(i as int)).can,
                match d.name {
                    Some(n) => link_view(attrs@.take(i as int)).name == Some(n@),
                    None => link_view(attrs@.take(i as int)).name is None,
                },
            decreases attrs@.len() - i,
        {
            proof {
                assert(attrs@.take(i + 1).drop_last() =~= attrs@.take(i as int));
            }
            match &attrs[i] {
                LinkAttr::Ifname(b) => {
                    d.name = name_from_bytes(b.as_slice());
                },
                LinkAttr::Mtu(v) => {
                    d.mtu = match v {
                        Some(x) => match Mtu::try_from_u32(*x) {
                            Ok(m) => Some(m),
                            Err(_) => None,
                        },
                        None => None,
                    };
                },
                LinkAttr::Linkinfo(cs) => {
                    d.can = InterfaceCanParams::from_can_attrs(cs.as_slice());
                },
                LinkAttr::Other => {},
            }
            i = i + 1;
        }
        assert(attrs@.take(attrs@.len() as int) =~= attrs@);
        d
    }
}

impl InterfaceCanParams {
    /// The CAN parameters of the first link information among the
    /// attributes of a link, or none known if there is none.
    pub fn from_link_attrs(attrs: &[LinkAttr]) -> (r: InterfaceCanParams)
        ensures
            r == first_link_params(attrs@),
    {
        let mut i: usize = 0;
        assert(attrs@.skip(0) =~= attrs@);
        while i < attrs.len()
            invariant
                i <= attrs@.len(),
                first_link_params(attrs@) == first_link_params(attrs@.skip(i as int)),
            decreases attrs@.len() - i,
        {
            proof {
                assert(attrs@.skip(i as int).drop_first() =~= attrs@.skip(i + 1));
                assert(attrs@.skip(i as int)[0] == attrs@[i as int]);
            }
            if let LinkAttr::Linkinfo(cs) = &attrs[i] {
                return InterfaceCanParams::from_can_attrs(cs.as_slice());
            }
            i = i + 1;
        }
        assert(attrs@.skip(i as int) =~= Seq::<LinkAttr>::empty());
        InterfaceCanParams {
            bit_timing: None,
            bit_timing_const: None,
            clock: None,
            state: None,
            restart_ms: None,
            berr_counter: None,
            ctrl_mode: None,
            data_bit_timing: None,
            data_bit_timing_const: None,
            termination: None,
            ctrl_mode_supported: None,
        }
    }
}

// ===== Replies and requests =====

/// The longest interface name, in bytes, with its terminating zero
/// (`IFNAMSIZ`).
pub const IFNAMSIZ: usize = 16;

impl NlError {
    /// The failure that the error field of a netlink reply reports: netlink
    /// sends the errno negated, and zero means success.
    pub fn from_reply_error(error: i32) -> (r: Option<NlError>)
        requires
            error != i32::MIN,
        ensures
            r == (if error == 0 {
                None::<NlError>
            } else {
                Some(NlError::Netlink { errno: (-error) as i32 })
            }),
    {
        if error == 0 {
            None
        } else {
            Some(NlError::Netlink { errno: -error })
        }
    }

    /// Checks the name of an interface to create: with its terminating zero
    /// it must fit in `IFNAMSIZ` bytes.
    pub fn check_ifname(name: &str) -> (r: Result<(), NlError>)
        ensures
            r is Ok <==> name.spec_bytes().len() < 16,
            r matches Err(e) ==> (e matches NlError::Msg(m) && m@ == "Interface name too long"@),
    {
        let bytes = name.as_bytes();
        if bytes.len() >= IFNAMSIZ {
            Err(NlError::Msg(String::from_str("Interface name too long")))
        } else {
            Ok(())
        }
    }
}

/// Reading one attribute is field-wise: an attribute sets the one
/// parameter it carries, to its payload (a state number to the state it
/// stands for), and leaves every other parameter as it was. In particular
/// data-phase bit timing sets only `data_bit_timing`, never `bit_timing`.
pub proof fn lemma_can_attr_field_wise(p: InterfaceCanParams, a: CanAttr)
    ensures
        apply_can_attr(p, a).bit_timing == (if a is BitTiming { Some(a->BitTiming_0) } else { p.bit_timing }),
        apply_can_attr(p, a).bit_timing_const == (if a is BitTimingConst { Some(a->BitTimingConst_0) } else { p.bit_timing_const }),
        apply_can_attr(p, a).clock == (if a is Clock { Some(a->Clock_0) } else { p.clock }),
        apply_can_attr(p, a).state == (if a is State { state_of_code(a->State_0) } else { p.state }),
        apply_can_attr(p, a).restart_ms == (if a is RestartMs { Some(a->RestartMs_0) } else { p.restart_ms }),
        apply_can_attr(p, a).berr_counter == (if a is BerrCounter { Some(a->BerrCounter_0) } else { p.berr_counter }),
        apply_can_attr(p, a).ctrl_mode == (if a is CtrlMode { Some(CanCtrlModes(a->CtrlMode_0)) } else { p.ctrl_mode }),
        apply_can_attr(p, a).data_bit_timing == (if a is DataBitTiming { Some(a->DataBitTiming_0) } else { p.data_bit_timing }),
        apply_can_attr(p, a).data_bit_timing_const == (if a is DataBitTimingConst { Some(a->DataBitTimingConst_0) } else { p.data_bit_timing_const }),
        apply_can_attr(p, a).termination == (if a is Termination { Some(a->Termination_0) } else { p.termination }),
        apply_can_attr(p, a).ctrl_mode_supported == (if a is CtrlModeSupported { Some(a->CtrlModeSupported_0) } else { p.ctrl_mode_supported }),
{
}

/// Reading a list of attributes, a parameter is set by the last attribute
/// that carries it, and by nothing else.
proof fn lemma_last_attr_sets<T>(
    attrs: Seq<CanAttr>,
    proj: spec_fn(InterfaceCanParams) -> Option<T>,
    sets: spec_fn(CanAttr) -> bool,
    val: spec_fn(CanAttr) -> Option<T>,
)
    requires
        proj(no_params()) is None,
        forall|p: InterfaceCanParams, a: CanAttr| #[trigger] proj(apply_can_attr(p, a)) == (if sets(a) {
            val(a)
        } else {
            proj(p)
        }),
    ensures
        (forall|i: int| 0 <= i < attrs.len() ==> !sets(#[trigger] attrs[i])) ==> proj(params_of(attrs)) is None,
        forall|i: int|
            0 <= i < attrs.len() && sets(#[trigger] attrs[i]) && (forall|j: int| i < j < attrs.len() ==> !sets(
                attrs[j],
            )) ==> proj(params_of(attrs)) == val(attrs[i]),
    decreases attrs.len(),
{
    if attrs.len() > 0 {
        let q = attrs.drop_last();
        let n = attrs.len() - 1;
        lemma_last_attr_sets(q, proj, sets, val);
        assert(proj(params_of(attrs)) == (if sets(attrs[n]) {
            val(attrs[n])
        } else {
            proj(params_of(q))
        }));
        assert forall|i: int|
            0 <= i < attrs.len() && sets(#[trigger] attrs[i]) && (forall|j: int| i < j < attrs.len() ==> !sets(
                attrs[j],
            )) implies proj(params_of(attrs)) == val(attrs[i]) by {
            if i < n {
                assert(!sets(attrs[n]));
                assert(q[i] == attrs[i]);
                assert forall|j: int| i < j < q.len() implies !sets(q[j]) by {
                    assert(q[j] == attrs[j]);
                }
            }
        }
        if forall|i: int| 0 <= i < attrs.len() ==> !sets(#[trigger] attrs[i]) {
            assert(!sets(attrs[n]));
            assert forall|i: int| 0 <= i < q.len() implies !sets(#[trigger] q[i]) by {
                assert(q[i] == attrs[i]);
            }
        }
    }
}

/// Reading a list of attributes, each parameter is that of the last
/// attribute that carries it, and is unknown when none does: the last
/// `BitTiming` alone gives `bit_timing`, the last `DataBitTiming` alone
/// gives `data_bit_timing`, and so on for every parameter.
pub proof fn lemma_params_last_attr_wins(attrs: Seq<CanAttr>)
    ensures
        (forall|i: int| 0 <= i < attrs.len() ==> (#[trigger] attrs[i]) !is BitTiming) ==> params_of(attrs).bit_timing is None,
        forall|i: int|
            0 <= i < attrs.len() && (#[trigger] attrs[i]) is BitTiming && (forall|j: int| i < j < attrs.len() ==> attrs[j] !is BitTiming)
                ==> params_of(attrs).bit_timing == Some(attrs[i]->BitTiming_0),
        (forall|i: int| 0 <= i < attrs.len() ==> (#[trigger] attrs[i]) !is BitTimingConst) ==> params_of(attrs).bit_timing_const is None,
        forall|i: int|
            0 <= i < attrs.len() && (#[trigger] attrs[i]) is BitTimingConst && (forall|j: int| i < j < attrs.len() ==> attrs[j] !is BitTimingConst)
                ==> params_of(attrs).bit_timing_const == Some(attrs[i]->BitTimingConst_0),
        (forall|i: int| 0 <= i < attrs.len() ==> (#[trigger] attrs[i]) !is Clock) ==> params_of(attrs).clock is None,
        forall|i: int|
            0 <= i < attrs.len() && (#[trigger] attrs[i]) is Clock && (forall|j: int| i < j < attrs.len() ==> attrs[j] !is Clock)
                ==> params_of(attrs).clock == Some(attrs[i]->Clock_0),
        (forall|i: int| 0 <= i < attrs.len() ==> (#[trigger] attrs[i]) !is State) ==> params_of(attrs).state is None,
        forall|i: int|
            0 <= i < attrs.len() && (#[trigger] attrs[i]) is State && (forall|j: int| i < j < attrs.len() ==> attrs[j] !is State)
                ==> params_of(attrs).state == state_of_code(attrs[i]->State_0),
        (forall|i: int| 0 <= i < attrs.len() ==> (#[trigger] attrs[i]) !is RestartMs) ==> params_of(attrs).restart_ms is None,
        forall|i: int|
            0 <= i < attrs.len() && (#[trigger] attrs[i]) is RestartMs && (forall|j: int| i < j < attrs.len() ==> attrs[j] !is RestartMs)
                ==> params_of(attrs).restart_ms == Some(attrs[i]->RestartMs_0),
        (forall|i: int| 0 <= i < attrs.len() ==> (#[trigger] attrs[i]) !is BerrCounter) ==> params_of(attrs).berr_counter is None,
        forall|i: int|
            0 <= i < attrs.len() && (#[trigger] attrs[i]) is BerrCounter && (forall|j: int| i < j < attrs.len() ==> attrs[j] !is BerrCounter)
                ==> params_of(attrs).berr_counter == Some(attrs[i]->BerrCounter_0),
        (forall|i: int| 0 <= i < attrs.len() ==> (#[trigger] attrs[i]) !is CtrlMode) ==> params_of(attrs).ctrl_mode is None,
        forall|i: int|
            0 <= i < attrs.len() && (#[trigger] attrs[i]) is CtrlMode && (forall|j: int| i < j < attrs.len() ==> attrs[j] !is CtrlMode)
                ==> params_of(attrs).ctrl_mode == Some(CanCtrlModes(attrs[i]->CtrlMode_0)),
        (forall|i: int| 0 <= i < attrs.len() ==> (#[trigger] attrs[i]) !is DataBitTiming) ==> params_of(attrs).data_bit_timing is None,
        forall|i: int|
            0 <= i < attrs.len() && (#[trigger] attrs[i]) is DataBitTiming && (forall|j: int| i < j < attrs.len() ==> attrs[j] !is DataBitTiming)
                ==> params_of(attrs).data_bit_timing == Some(attrs[i]->DataBitTiming_0),
        (forall|i: int| 0 <= i < attrs.len() ==> (#[trigger] attrs[i]) !is DataBitTimingConst) ==> params_of(attrs).data_bit_timing_const is None,
        forall|i: int|
            0 <= i < attrs.len() && (#[trigger] attrs[i]) is DataBitTimingConst && (forall|j: int| i < j < attrs.len() ==> attrs[j] !is DataBitTimingConst)
                ==> params_of(attrs).data_bit_timing_const == Some(attrs[i]->DataBitTimingConst_0),
        (forall|i: int| 0 <= i < attrs.len() ==> (#[trigger] attrs[i]) !is Termination) ==> params_of(attrs).termination is None,
        forall|i: int|
            0 <= i < attrs.len() && (#[trigger] attrs[i]) is Termination && (forall|j: int| i < j < attrs.len() ==> attrs[j] !is Termination)
                ==> params_of(attrs).termination == Some(attrs[i]->Termination_0),
        (forall|i: int| 0 <= i < attrs.len() ==> (#[trigger] attrs[i]) !is CtrlModeSupported) ==> params_of(attrs).ctrl_mode_supported is None,
        forall|i: int|
            0 <= i < attrs.len() && (#[trigger] attrs[i]) is CtrlModeSupported && (forall|j: int| i < j < attrs.len() ==> attrs[j] !is CtrlModeSupported)
                ==> params_of(attrs).ctrl_mode_supported == Some(attrs[i]->CtrlModeSupported_0),
{
    assert forall|p: InterfaceCanParams, a: CanAttr| #[trigger] apply_can_attr(p, a).bit_timing == (if a is BitTiming {
        Some(a->BitTiming_0)
    } else {
        p.bit_timing
    }) by {
        lemma_can_attr_field_wise(p, a);
    }
    lemma_last_attr_sets(
        attrs,
        |p: InterfaceCanParams| p.bit_timing,
        |a: CanAttr| a is BitTiming,
        |a: CanAttr| Some(a->BitTiming_0),
    );
    assert forall|p: InterfaceCanParams, a: CanAttr| #[trigger] apply_can_attr(p, a).bit_timing_const == (if a is BitTimingConst {
        Some(a->BitTimingConst_0)
    } else {
        p.bit_timing_const
    }) by {
        lemma_can_attr_field_wise(p, a);
    }
    lemma_last_attr_sets(
        attrs,
        |p: InterfaceCanParams| p.bit_timing_const,
        |a: CanAttr| a is BitTimingConst,
        |a: CanAttr| Some(a->BitTimingConst_0),
    );
    assert forall|p: InterfaceCanParams, a: CanAttr| #[trigger] apply_can_attr(p, a).clock == (if a is Clock {
        Some(a->Clock_0)
    } else {
        p.clock
    }) by {
        lemma_can_attr_field_wise(p, a);
    }
    lemma_last_attr_sets(
        attrs,
        |p: InterfaceCanParams| p.clock,
        |a: CanAttr| a is Clock,
        |a: CanAttr| Some(a->Clock_0),
    );
    assert forall|p: InterfaceCanParams, a: CanAttr| #[trigger] apply_can_attr(p, a).state == (if a is State {
        state_of_code(a->State_0)
    } else {
        p.state
    }) by {
        lemma_can_attr_field_wise(p, a);
    }
    lemma_last_attr_sets(
        attrs,
        |p: InterfaceCanParams| p.state,
        |a: CanAttr| a is State,
        |a: CanAttr| state_of_code(a->State_0),
    );
    assert forall|p: InterfaceCanParams, a: CanAttr| #[trigger] apply_can_attr(p, a).restart_ms == (if a is RestartMs {
        Some(a->RestartMs_0)
    } else {
        p.restart_ms
    }) by {
        lemma_can_attr_field_wise(p, a);
    }
    lemma_last_attr_sets(
        attrs,
        |p: InterfaceCanParams| p.restart_ms,
        |a: CanAttr| a is RestartMs,
        |a: CanAttr| Some(a->RestartMs_0),
    );
    assert forall|p: InterfaceCanParams, a: CanAttr| #[trigger] apply_can_attr(p, a).berr_counter == (if a is BerrCounter {
        Some(a->BerrCounter_0)
    } else {
        p.berr_counter
    }) by {
        lemma_can_attr_field_wise(p, a);
    }
    lemma_last_attr_sets(
        attrs,
        |p: InterfaceCanParams| p.berr_counter,
        |a: CanAttr| a is BerrCounter,
        |a: CanAttr| Some(a->BerrCounter_0),
    );
    assert forall|p: InterfaceCanParams, a: CanAttr| #[trigger] apply_can_attr(p, a).ctrl_mode == (if a is CtrlMode {
        Some(CanCtrlModes(a->CtrlMode_0))
    } else {
        p.ctrl_mode
    }) by {
        lemma_can_attr_field_wise(p, a);
    }
    lemma_last_attr_sets(
        attrs,
        |p: InterfaceCanParams| p.ctrl_mode,
        |a: CanAttr| a is CtrlMode,
        |a: CanAttr| Some(CanCtrlModes(a->CtrlMode_0)),
    );
    assert forall|p: InterfaceCanParams, a: CanAttr| #[trigger] apply_can_attr(p, a).data_bit_timing == (if a is DataBitTiming {
        Some(a->DataBitTiming_0)
    } else {
        p.data_bit_timing
    }) by {
        lemma_can_attr_field_wise(p, a);
    }
    lemma_last_attr_sets(
        attrs,
        |p: InterfaceCanParams| p.data_bit_timing,
        |a: CanAttr| a is DataBitTiming,
        |a: CanAttr| Some(a->DataBitTiming_0),
    );
    assert forall|p: InterfaceCanParams, a: CanAttr| #[trigger] apply_can_attr(p, a).data_bit_timing_const == (if a is DataBitTimingConst {
        Some(a->DataBitTimingConst_0)
    } else {
        p.data_bit_timing_const
    }) by {
        lemma_can_attr_field_wise(p, a);
    }
    lemma_last_attr_sets(
        attrs,
        |p: InterfaceCanParams| p.data_bit_timing_const,
        |a: CanAttr| a is DataBitTimingConst,
        |a: CanAttr| Some(a->DataBitTimingConst_0),
    );
    assert forall|p: InterfaceCanParams, a: CanAttr| #[trigger] apply_can_attr(p, a).termination == (if a is Termination {
        Some(a->Termination_0)
    } else {
        p.termination
    }) by {
        lemma_can_attr_field_wise(p, a);
    }
    lemma_last_attr_sets(
        attrs,
        |p: InterfaceCanParams| p.termination,
        |a: CanAttr| a is Termination,
        |a: CanAttr| Some(a->Termination_0),
    );
    assert forall|p: InterfaceCanParams, a: CanAttr| #[trigger] apply_can_attr(p, a).ctrl_mode_supported == (if a is CtrlModeSupported {
        Some(a->CtrlModeSupported_0)
    } else {
        p.ctrl_mode_supported
    }) by {
        lemma_can_attr_field_wise(p, a);
    }
    lemma_last_attr_sets(
        attrs,
        |p: InterfaceCanParams| p.ctrl_mode_supported,
        |a: CanAttr| a is CtrlModeSupported,
        |a: CanAttr| Some(a->CtrlModeSupported_0),
    );
}

/// The kernel's control-mode flag `CAN_CTRLMODE_LOOPBACK`.
pub const CAN_CTRLMODE_LOOPBACK: u32 = 0x1;
/// The kernel's control-mode flag `CAN_CTRLMODE_LISTENONLY`.
pub const CAN_CTRLMODE_LISTENONLY: u32 = 0x2;
/// The kernel's control-mode flag `CAN_CTRLMODE_3_SAMPLES`.
pub const CAN_CTRLMODE_3_SAMPLES: u32 = 0x4;
/// The kernel's control-mode flag `CAN_CTRLMODE_ONE_SHOT`.
pub const CAN_CTRLMODE_ONE_SHOT: u32 = 0x8;
/// The kernel's control-mode flag `CAN_CTRLMODE_BERR_REPORTING`.
pub const CAN_CTRLMODE_BERR_REPORTING: u32 = 0x10;
/// The kernel's control-mode flag `CAN_CTRLMODE_FD`.
pub const CAN_CTRLMODE_FD: u32 = 0x20;
/// The kernel's control-mode flag `CAN_CTRLMODE_PRESUME_ACK`.
pub const CAN_CTRLMODE_PRESUME_ACK: u32 = 0x40;
/// The kernel's control-mode flag `CAN_CTRLMODE_FD_NON_ISO`.
pub const CAN_CTRLMODE_FD_NON_ISO: u32 = 0x80;
/// The kernel's control-mode flag `CAN_CTRLMODE_CC_LEN8_DLC`.
pub const CAN_CTRLMODE_CC_LEN8_DLC: u32 = 0x100;

/// The mask of each control mode is the kernel's flag for it
/// (`linux/can/netlink.h`), so that turning on listen-only sends
/// `CAN_CTRLMODE_LISTENONLY` and nothing else.
pub proof fn lemma_ctrl_mode_masks_are_kernel_flags()
    ensures
        ctrl_mode_mask(CanCtrlMode::Loopback) == CAN_CTRLMODE_LOOPBACK,
        ctrl_mode_mask(CanCtrlMode::ListenOnly) == CAN_CTRLMODE_LISTENONLY,
        ctrl_mode_mask(CanCtrlMode::TripleSampling) == CAN_CTRLMODE_3_SAMPLES,
        ctrl_mode_mask(CanCtrlMode::OneShot) == CAN_CTRLMODE_ONE_SHOT,
        ctrl_mode_mask(CanCtrlMode::BerrReporting) == CAN_CTRLMODE_BERR_REPORTING,
        ctrl_mode_mask(CanCtrlMode::Fd) == CAN_CTRLMODE_FD,
        ctrl_mode_mask(CanCtrlMode::PresumeAck) == CAN_CTRLMODE_PRESUME_ACK,
        ctrl_mode_mask(CanCtrlMode::NonIso) == CAN_CTRLMODE_FD_NON_ISO,
        ctrl_mode_mask(CanCtrlMode::CcLen8Dlc) == CAN_CTRLMODE_CC_LEN8_DLC,
{
    assert(1u32 << 0u32 == 0x1u32) by (bit_vector);
    assert(1u32 << 1u32 == 0x2u32) by (bit_vector);
    assert(1u32 << 2u32 == 0x4u32) by (bit_vector);
    assert(1u32 << 3u32 == 0x8u32) by (bit_vector);
    assert(1u32 << 4u32 == 0x10u32) by (bit_vector);
    assert(1u32 << 5u32 == 0x20u32) by (bit_vector);
    assert(1u32 << 6u32 == 0x40u32) by (bit_vector);
    assert(1u32 << 7u32 == 0x80u32) by (bit_vector);
    assert(1u32 << 8u32 == 0x100u32) by (bit_vector);
}

} // verus!
