//! CAN bus errors.
//!
//! Most of what is known about an error on the bus comes from an error
//! frame. The general classes of error are bits of the error field of the
//! frame's ID word; several can be set at once. Most classes point at a data
//! byte with more detail:
//!
//! ```text
//! TX Timeout         (0x001)
//! Lost Arbitration   (0x002) => data[0]   bit number, 0 = unspecified
//! Controller Problem (0x004) => data[1]   bitfield
//! Protocol Violation (0x008) => data[2]   bitfield  (type)
//!                               data[3]   scalar    (location)
//! Transceiver Status (0x010) => data[4]   two nibbles: CANL | CANH
//! No ACK             (0x020)
//! Bus Off            (0x040)
//! Bus Error          (0x080)
//! Restarted          (0x100)
//! Error Counters     (0x200) => data[6]   TX error counter
//!                               data[7]   RX error counter
//! ```
//!
//! `data[5]` is reserved by the kernel and never decoded.
//!
//! A frame decodes to one [`CanError`] holding one [`ErrorCause`] per class
//! bit, in ascending class-bit order; a `CanError` always holds at least one
//! cause.
use vstd::prelude::*;
use smallvec::SmallVec;
use crate::io::{IoKind, io_error_errno, io_error_from_kind, io_error_kind, std_io_kind, std_kind};
use crate::frame::{
    CanErrorFrame, CanDataFrame, CanRemoteFrame, CanFdFrame, CanFrame, CanAnyFrame, FrameFields, error_fields,
    zeros,
};
use crate::text::{dec, hex_min_lower, hex_fixed_lower, push_str, push_dec, push_hex_min_lower, push_hex_fixed_lower, string_from_chars};

verus! {

/// Error class: TX timeout (by netdevice driver).
pub const CAN_ERR_TX_TIMEOUT: u32 = 0x0000_0001;
/// Error class: lost arbitration, detail in `data[0]`.
pub const CAN_ERR_LOSTARB: u32 = 0x0000_0002;
/// Error class: controller problems, detail in `data[1]`.
pub const CAN_ERR_CRTL: u32 = 0x0000_0004;
/// Error class: protocol violations, detail in `data[2..=3]`.
pub const CAN_ERR_PROT: u32 = 0x0000_0008;
/// Error class: transceiver status, detail in `data[4]`.
pub const CAN_ERR_TRX: u32 = 0x0000_0010;
/// Error class: received no ACK on transmission.
pub const CAN_ERR_ACK: u32 = 0x0000_0020;
/// Error class: bus off.
pub const CAN_ERR_BUSOFF: u32 = 0x0000_0040;
/// Error class: bus error.
pub const CAN_ERR_BUSERROR: u32 = 0x0000_0080;
/// Error class: controller restarted.
pub const CAN_ERR_RESTARTED: u32 = 0x0000_0100;
/// Error class: TX/RX error counters in `data[6..=7]`.
pub const CAN_ERR_CNT: u32 = 0x0000_0200;
/// Every error class bit this crate knows how to decode.
pub const KNOWN_ERR_CLASSES: u32 = 0x0000_03FF;

/// The error counter value at which a controller enters "error warning".
pub const CAN_ERROR_WARNING_THRESHOLD: i32 = 96;
/// The error counter value at which a controller enters "error passive".
pub const CAN_ERROR_PASSIVE_THRESHOLD: i32 = 128;
/// The error counter value at which a controller goes bus-off.
pub const CAN_BUS_OFF_THRESHOLD: i32 = 256;

// ===== ConstructionError =====

/// Error that occurs when creating CAN frames.
#[derive(Debug, Copy, Clone, PartialEq, Eq, Hash, Structural)]
pub enum ConstructionError {
    /// Trying to create a specific frame type from an incompatible type
    WrongFrameType,
    /// CAN ID was outside the range of valid IDs
    IDTooLarge,
    /// Larger payload reported than can be held in the frame.
    TooMuchData,
}

// ===== CanErrorDecodingFailure =====

/// A data byte of an error frame held a bit pattern with no defined meaning.
///
/// Locations (`data[3]`) and protocol violation types (`data[2]`) cannot
/// fail to decode: unknown locations are kept as [`Location::Reserved`] and
/// every bit of `data[2]` has a name.
#[derive(Debug, Copy, Clone, PartialEq, Eq, Hash, Structural)]
pub enum CanErrorDecodingFailure {
    /// `data[1]` had a bit set that no known controller problem claims.
    InvalidControllerProblem,
    /// One half of `data[4]` held an unrecognised transceiver code.
    InvalidTransceiverError,
}

// ===== ErrorKind =====

/// The generic kind of a CAN error, as the embedded HAL classifies them.
#[derive(Debug, Copy, Clone, PartialEq, Eq, Hash, Structural)]
pub enum ErrorKind {
    /// The peripheral receive buffer was overrun.
    Overrun,
    /// A bit error.
    Bit,
    /// A bit stuffing error.
    Stuff,
    /// The CRC did not match.
    Crc,
    /// A form error.
    Form,
    /// The frame was not acknowledged.
    Acknowledge,
    /// Any other error.
    Other,
}

// ===== ControllerProblems =====

/// Error status flags of the CAN controller, from `data[1]` of an error
/// frame. Several can be set at once; an empty set means "unspecified".
#[derive(Debug, Copy, Clone, PartialEq, Eq, Hash, Structural)]
pub struct ControllerProblems {
    /// The raw flag bits.
    pub bits: u8,
}

impl ControllerProblems {
    /// RX buffer overflow.
    #[allow(non_snake_case)]
    pub fn RX_OVERFLOW() -> (r: ControllerProblems)
        ensures
            r.bits == 0x01,
    {
        ControllerProblems { bits: 0x01 }
    }

    /// TX buffer overflow.
    #[allow(non_snake_case)]
    pub fn TX_OVERFLOW() -> (r: ControllerProblems)
        ensures
            r.bits == 0x02,
    {
        ControllerProblems { bits: 0x02 }
    }

    /// Reached warning level for RX errors.
    #[allow(non_snake_case)]
    pub fn RX_WARNING() -> (r: ControllerProblems)
        ensures
            r.bits == 0x04,
    {
        ControllerProblems { bits: 0x04 }
    }

    /// Reached warning level for TX errors.
    #[allow(non_snake_case)]
    pub fn TX_WARNING() -> (r: ControllerProblems)
        ensures
            r.bits == 0x08,
    {
        ControllerProblems { bits: 0x08 }
    }

    /// Reached error-passive status, RX.
    #[allow(non_snake_case)]
    pub fn RX_PASSIVE() -> (r: ControllerProblems)
        ensures
            r.bits == 0x10,
    {
        ControllerProblems { bits: 0x10 }
    }

    /// Reached error-passive status, TX.
    #[allow(non_snake_case)]
    pub fn TX_PASSIVE() -> (r: ControllerProblems)
        ensures
            r.bits == 0x20,
    {
        ControllerProblems { bits: 0x20 }
    }

    /// Recovered to error-active state.
    #[allow(non_snake_case)]
    pub fn ACTIVE() -> (r: ControllerProblems)
        ensures
            r.bits == 0x40,
    {
        ControllerProblems { bits: 0x40 }
    }

    /// No flag set: an unspecified controller problem.
    pub fn empty() -> (r: ControllerProblems)
        ensures
            r.bits == 0,
    {
        ControllerProblems { bits: 0 }
    }

    /// Every known flag.
    pub fn all() -> (r: ControllerProblems)
        ensures
            r.bits == 0x7F,
    {
        ControllerProblems { bits: 0x7F }
    }

    /// The raw bits.
    pub fn bits(&self) -> (r: u8)
        ensures
            r == self.bits,
    {
        self.bits
    }

    /// The flags of `bits`, or `None` if it has a bit no flag claims.
    pub fn from_bits(bits: u8) -> (r: Option<ControllerProblems>)
        ensures
            r is Some <==> bits & 0x80u8 == 0,
            r matches Some(p) ==> p.bits == bits,
    {
        if bits & 0x80 == 0 {
            Some(ControllerProblems { bits })
        } else {
            None
        }
    }

    /// The known flags of `bits`, dropping the others.
    pub fn from_bits_truncate(bits: u8) -> (r: ControllerProblems)
        ensures
            r.bits == bits & 0x7Fu8,
    {
        ControllerProblems { bits: bits & 0x7F }
    }

    /// Every bit of `bits`, known or not.
    pub fn from_bits_retain(bits: u8) -> (r: ControllerProblems)
        ensures
            r.bits == bits,
    {
        ControllerProblems { bits }
    }

    /// Whether no flag is set.
    pub fn is_empty(&self) -> (r: bool)
        ensures
            r == (self.bits == 0),
    {
        self.bits == 0
    }

    /// Whether every flag of `other` is set here.
    pub fn contains(&self, other: ControllerProblems) -> (r: bool)
        ensures
            r == (self.bits & other.bits == other.bits),
    {
        self.bits & other.bits == other.bits
    }

    /// Whether any flag of `other` is set here.
    pub fn intersects(&self, other: ControllerProblems) -> (r: bool)
        ensures
            r == (self.bits & other.bits != 0),
    {
        self.bits & other.bits != 0
    }

    /// The flags set in either.
    pub fn union(self, other: ControllerProblems) -> (r: ControllerProblems)
        ensures
            r.bits == self.bits | other.bits,
    {
        ControllerProblems { bits: self.bits | other.bits }
    }

    /// Sets the flags of `other`.
    pub fn insert(&mut self, other: ControllerProblems)
        ensures
            final(self).bits == old(self).bits | other.bits,
    {
        self.bits = self.bits | other.bits;
    }

    /// Clears the flags of `other`.
    pub fn remove(&mut self, other: ControllerProblems)
        ensures
            final(self).bits == old(self).bits & !other.bits,
    {
        self.bits = self.bits & !other.bits;
    }
}

// ===== ViolationTypes =====

/// The type(s) of a protocol violation, from `data[2]` of an error frame.
/// Several can be set at once, and every bit has a name; an empty set means
/// "unspecified".
#[derive(Debug, Copy, Clone, PartialEq, Eq, Hash, Structural)]
pub struct ViolationTypes {
    /// The raw flag bits.
    pub bits: u8,
}

impl ViolationTypes {
    /// Single bit error.
    #[allow(non_snake_case)]
    pub fn BIT() -> (r: ViolationTypes)
        ensures
            r.bits == 0x01,
    {
        ViolationTypes { bits: 0x01 }
    }

    /// Frame format error.
    #[allow(non_snake_case)]
    pub fn FORM() -> (r: ViolationTypes)
        ensures
            r.bits == 0x02,
    {
        ViolationTypes { bits: 0x02 }
    }

    /// Bit stuffing error.
    #[allow(non_snake_case)]
    pub fn STUFF() -> (r: ViolationTypes)
        ensures
            r.bits == 0x04,
    {
        ViolationTypes { bits: 0x04 }
    }

    /// Unable to send dominant bit.
    #[allow(non_snake_case)]
    pub fn BIT0() -> (r: ViolationTypes)
        ensures
            r.bits == 0x08,
    {
        ViolationTypes { bits: 0x08 }
    }

    /// Unable to send recessive bit.
    #[allow(non_snake_case)]
    pub fn BIT1() -> (r: ViolationTypes)
        ensures
            r.bits == 0x10,
    {
        ViolationTypes { bits: 0x10 }
    }

    /// Bus overload.
    #[allow(non_snake_case)]
    pub fn OVERLOAD() -> (r: ViolationTypes)
        ensures
            r.bits == 0x20,
    {
        ViolationTypes { bits: 0x20 }
    }

    /// Active error announcement.
    #[allow(non_snake_case)]
    pub fn ACTIVE() -> (r: ViolationTypes)
        ensures
            r.bits == 0x40,
    {
        ViolationTypes { bits: 0x40 }
    }

    /// The error occurred on transmission.
    #[allow(non_snake_case)]
    pub fn TX() -> (r: ViolationTypes)
        ensures
            r.bits == 0x80,
    {
        ViolationTypes { bits: 0x80 }
    }

    /// No type set: an unspecified violation.
    pub fn empty() -> (r: ViolationTypes)
        ensures
            r.bits == 0,
    {
        ViolationTypes { bits: 0 }
    }

    /// Every type.
    pub fn all() -> (r: ViolationTypes)
        ensures
            r.bits == 0xFF,
    {
        ViolationTypes { bits: 0xFF }
    }

    /// The raw bits.
    pub fn bits(&self) -> (r: u8)
        ensures
            r == self.bits,
    {
        self.bits
    }

    /// The types of `bits`; every bit has a name, so this never fails.
    pub fn from_bits(bits: u8) -> (r: Option<ViolationTypes>)
        ensures
            r == Some(ViolationTypes { bits }),
    {
        Some(ViolationTypes { bits })
    }

    /// The types of `bits`.
    pub fn from_bits_truncate(bits: u8) -> (r: ViolationTypes)
        ensures
            r.bits == bits,
    {
        ViolationTypes { bits }
    }

    /// The types of `bits`.
    pub fn from_bits_retain(bits: u8) -> (r: ViolationTypes)
        ensures
            r.bits == bits,
    {
        ViolationTypes { bits }
    }

    /// Whether no type is set.
    pub fn is_empty(&self) -> (r: bool)
        ensures
            r == (self.bits == 0),
    {
        self.bits == 0
    }

    /// Whether every type of `other` is set here.
    pub fn contains(&self, other: ViolationTypes) -> (r: bool)
        ensures
            r == (self.bits & other.bits == other.bits),
    {
        self.bits & other.bits == other.bits
    }

    /// Whether any type of `other` is set here.
    pub fn intersects(&self, other: ViolationTypes) -> (r: bool)
        ensures
            r == (self.bits & other.bits != 0),
    {
        self.bits & other.bits != 0
    }

    /// The types set in either.
    pub fn union(self, other: ViolationTypes) -> (r: ViolationTypes)
        ensures
            r.bits == self.bits | other.bits,
    {
        ViolationTypes { bits: self.bits | other.bits }
    }

    /// Sets the types of `other`.
    pub fn insert(&mut self, other: ViolationTypes)
        ensures
            final(self).bits == old(self).bits | other.bits,
    {
        self.bits = self.bits | other.bits;
    }

    /// Clears the types of `other`.
    pub fn remove(&mut self, other: ViolationTypes)
        ensures
            final(self).bits == old(self).bits & !other.bits,
    {
        self.bits = self.bits & !other.bits;
    }
}


// ===== Location =====

/// The location of a protocol violation: the field or bit of the frame at
/// which the error occurred, from `data[3]` of an error frame.
///
/// Nineteen codes are named by the kernel's `linux/can/error.h`; five more
/// (`ActiveErrorFlag`, `TolerateDominantBits`, `PassiveErrorFlag`,
/// `ErrorDelimiter`, `OverloadFlag`) are emitted by controllers that report
/// their raw error code capture. Any other value is kept as
/// [`Reserved`](Self::Reserved), so decoding a location never fails.
#[derive(Debug, Copy, Clone, PartialEq, Eq, Hash, Structural)]
pub enum Location {
    /// Unspecified
    Unspecified,
    /// Start of frame
    StartOfFrame,
    /// ID bits 28-21 (SFF: 10-3)
    Id2821,
    /// ID bits 20-18 (SFF: 2-0)
    Id2018,
    /// substitute RTR (SFF: RTR)
    SubstituteRtr,
    /// extension of identifier
    IdentifierExtension,
    /// ID bits 17-13
    Id1713,
    /// ID bits 12-5
    Id1205,
    /// ID bits 4-0
    Id0400,
    /// RTR bit
    Rtr,
    /// Reserved bit 1
    Reserved1,
    /// Reserved bit 0
    Reserved0,
    /// Data length
    DataLengthCode,
    /// Data section
    DataSection,
    /// CRC sequence
    CrcSequence,
    /// CRC delimiter
    CrcDelimiter,
    /// ACK slot
    AckSlot,
    /// ACK delimiter
    AckDelimiter,
    /// End-of-frame
    EndOfFrame,
    /// Intermission (between frames)
    Intermission,
    /// Active error flag
    ActiveErrorFlag,
    /// Tolerate dominant bits
    TolerateDominantBits,
    /// Passive error flag
    PassiveErrorFlag,
    /// Error delimiter
    ErrorDelimiter,
    /// Overload flag
    OverloadFlag,
    /// A `data[3]` value with no known meaning, kept as it is.
    Reserved(u8),
}

/// Whether `v` is the code of a named location.
pub open spec fn is_named_location(v: u8) -> bool {
    v == 0x00 || v == 0x02 || v == 0x03 || v == 0x04 || v == 0x05 || v == 0x06 || v == 0x07 || v == 0x08 || v == 0x09 || v == 0x0A || v == 0x0B || v == 0x0C || v == 0x0D || v == 0x0E || v == 0x0F || v == 0x11 || v == 0x12 || v == 0x13 || v == 0x16 || v == 0x17 || v == 0x18 || v == 0x19 || v == 0x1A || v == 0x1B || v == 0x1C
}

/// The location that the `data[3]` code `v` stands for.
pub open spec fn location_of(v: u8) -> Location {
    match v {
        0x00u8 => Location::Unspecified,
        0x02u8 => Location::Id2821,
        0x03u8 => Location::StartOfFrame,
        0x04u8 => Location::SubstituteRtr,
        0x05u8 => Location::IdentifierExtension,
        0x06u8 => Location::Id2018,
        0x07u8 => Location::Id1713,
        0x08u8 => Location::CrcSequence,
        0x09u8 => Location::Reserved0,
        0x0Au8 => Location::DataSection,
        0x0Bu8 => Location::DataLengthCode,
        0x0Cu8 => Location::Rtr,
        0x0Du8 => Location::Reserved1,
        0x0Eu8 => Location::Id0400,
        0x0Fu8 => Location::Id1205,
        0x11u8 => Location::ActiveErrorFlag,
        0x12u8 => Location::Intermission,
        0x13u8 => Location::TolerateDominantBits,
        0x16u8 => Location::PassiveErrorFlag,
        0x17u8 => Location::ErrorDelimiter,
        0x18u8 => Location::CrcDelimiter,
        0x19u8 => Location::AckSlot,
        0x1Au8 => Location::EndOfFrame,
        0x1Bu8 => Location::AckDelimiter,
        0x1Cu8 => Location::OverloadFlag,
        _ => Location::Reserved(v),
    }
}

/// The `data[3]` code of a location.
pub open spec fn location_raw(l: Location) -> u8 {
    match l {
        Location::Unspecified => 0x00,
        Location::Id2821 => 0x02,
        Location::StartOfFrame => 0x03,
        Location::SubstituteRtr => 0x04,
        Location::IdentifierExtension => 0x05,
        Location::Id2018 => 0x06,
        Location::Id1713 => 0x07,
        Location::CrcSequence => 0x08,
        Location::Reserved0 => 0x09,
        Location::DataSection => 0x0A,
        Location::DataLengthCode => 0x0B,
        Location::Rtr => 0x0C,
        Location::Reserved1 => 0x0D,
        Location::Id0400 => 0x0E,
        Location::Id1205 => 0x0F,
        Location::ActiveErrorFlag => 0x11,
        Location::Intermission => 0x12,
        Location::TolerateDominantBits => 0x13,
        Location::PassiveErrorFlag => 0x16,
        Location::ErrorDelimiter => 0x17,
        Location::CrcDelimiter => 0x18,
        Location::AckSlot => 0x19,
        Location::EndOfFrame => 0x1A,
        Location::AckDelimiter => 0x1B,
        Location::OverloadFlag => 0x1C,
        Location::Reserved(v) => v,
    }
}

/// A location as decoding produces it: `Reserved` only holds a code that
/// has no name.
pub open spec fn location_canonical(l: Location) -> bool {
    l matches Location::Reserved(v) ==> !is_named_location(v)
}

impl Location {
    /// Decodes the `data[3]` byte of an error frame. Every byte value maps
    /// to a location; codes with no name give `Reserved`.
    pub fn from_raw(val: u8) -> (r: Location)
        ensures
            r == location_of(val),
            location_canonical(r),
            location_raw(r) == val,
    {
        match val {
            0x00u8 => Location::Unspecified,
            0x02u8 => Location::Id2821,
            0x03u8 => Location::StartOfFrame,
            0x04u8 => Location::SubstituteRtr,
            0x05u8 => Location::IdentifierExtension,
            0x06u8 => Location::Id2018,
            0x07u8 => Location::Id1713,
            0x08u8 => Location::CrcSequence,
            0x09u8 => Location::Reserved0,
            0x0Au8 => Location::DataSection,
            0x0Bu8 => Location::DataLengthCode,
            0x0Cu8 => Location::Rtr,
            0x0Du8 => Location::Reserved1,
            0x0Eu8 => Location::Id0400,
            0x0Fu8 => Location::Id1205,
            0x11u8 => Location::ActiveErrorFlag,
            0x12u8 => Location::Intermission,
            0x13u8 => Location::TolerateDominantBits,
            0x16u8 => Location::PassiveErrorFlag,
            0x17u8 => Location::ErrorDelimiter,
            0x18u8 => Location::CrcDelimiter,
            0x19u8 => Location::AckSlot,
            0x1Au8 => Location::EndOfFrame,
            0x1Bu8 => Location::AckDelimiter,
            0x1Cu8 => Location::OverloadFlag,
            other => Location::Reserved(other),
        }
    }

    /// The `data[3]` byte of this location; the inverse of
    /// [`from_raw`](Self::from_raw).
    pub fn as_raw(&self) -> (r: u8)
        ensures
            r == location_raw(*self),
            location_canonical(*self) ==> location_of(r) == *self,
    {
        match *self {
            Location::Unspecified => 0x00,
            Location::Id2821 => 0x02,
            Location::StartOfFrame => 0x03,
            Location::SubstituteRtr => 0x04,
            Location::IdentifierExtension => 0x05,
            Location::Id2018 => 0x06,
            Location::Id1713 => 0x07,
            Location::CrcSequence => 0x08,
            Location::Reserved0 => 0x09,
            Location::DataSection => 0x0A,
            Location::DataLengthCode => 0x0B,
            Location::Rtr => 0x0C,
            Location::Reserved1 => 0x0D,
            Location::Id0400 => 0x0E,
            Location::Id1205 => 0x0F,
            Location::ActiveErrorFlag => 0x11,
            Location::Intermission => 0x12,
            Location::TolerateDominantBits => 0x13,
            Location::PassiveErrorFlag => 0x16,
            Location::ErrorDelimiter => 0x17,
            Location::CrcDelimiter => 0x18,
            Location::AckSlot => 0x19,
            Location::EndOfFrame => 0x1A,
            Location::AckDelimiter => 0x1B,
            Location::OverloadFlag => 0x1C,
            Location::Reserved(v) => v,
        }
    }
}

/// Decoding a `data[3]` byte and encoding the location gives the byte back.
pub proof fn lemma_location_raw_of(v: u8)
    ensures
        location_raw(location_of(v)) == v,
{
}

/// Encoding a decoded location and decoding the byte gives the location
/// back.
pub proof fn lemma_location_of_raw(l: Location)
    requires
        location_canonical(l),
    ensures
        location_of(location_raw(l)) == l,
{
}

// ===== Transceiver faults =====

/// A fault on the CAN High line, from the low nibble of `data[4]`.
#[derive(Debug, Copy, Clone, PartialEq, Eq, Hash, Structural)]
pub enum CanHighFault {
    /// no wire
    NoWire,
    /// short to BAT
    ShortToBat,
    /// short to VCC
    ShortToVcc,
    /// short to GND
    ShortToGnd,
}

/// A fault on the CAN Low line, from the high nibble of `data[4]`.
#[derive(Debug, Copy, Clone, PartialEq, Eq, Hash, Structural)]
pub enum CanLowFault {
    /// no wire
    NoWire,
    /// short to BAT
    ShortToBat,
    /// short to VCC
    ShortToVcc,
    /// short to GND
    ShortToGnd,
    /// short to CAN High
    ShortToCanHigh,
}

/// The CAN High fault with code `v` (the low nibble of `data[4]`).
pub open spec fn high_fault_of(v: u8) -> Option<CanHighFault> {
    if v == 0x04 {
        Some(CanHighFault::NoWire)
    } else if v == 0x05 {
        Some(CanHighFault::ShortToBat)
    } else if v == 0x06 {
        Some(CanHighFault::ShortToVcc)
    } else if v == 0x07 {
        Some(CanHighFault::ShortToGnd)
    } else {
        None
    }
}

/// The CAN Low fault with code `v` (the high nibble of `data[4]`, in place).
pub open spec fn low_fault_of(v: u8) -> Option<CanLowFault> {
    if v == 0x40 {
        Some(CanLowFault::NoWire)
    } else if v == 0x50 {
        Some(CanLowFault::ShortToBat)
    } else if v == 0x60 {
        Some(CanLowFault::ShortToVcc)
    } else if v == 0x70 {
        Some(CanLowFault::ShortToGnd)
    } else if v == 0x80 {
        Some(CanLowFault::ShortToCanHigh)
    } else {
        None
    }
}

/// The code of a CAN High fault.
pub open spec fn high_fault_raw(f: CanHighFault) -> u8 {
    match f {
        CanHighFault::NoWire => 0x04,
        CanHighFault::ShortToBat => 0x05,
        CanHighFault::ShortToVcc => 0x06,
        CanHighFault::ShortToGnd => 0x07,
    }
}

/// The code of a CAN Low fault.
pub open spec fn low_fault_raw(f: CanLowFault) -> u8 {
    match f {
        CanLowFault::NoWire => 0x40,
        CanLowFault::ShortToBat => 0x50,
        CanLowFault::ShortToVcc => 0x60,
        CanLowFault::ShortToGnd => 0x70,
        CanLowFault::ShortToCanHigh => 0x80,
    }
}

impl CanHighFault {
    /// Decodes the CAN High nibble (the low nibble of `data[4]`).
    pub fn try_from_raw(val: u8) -> (r: Result<CanHighFault, CanErrorDecodingFailure>)
        ensures
            r is Ok <==> high_fault_of(val) is Some,
            r matches Ok(f) ==> high_fault_of(val) == Some(f),
            r matches Err(e) ==> e == CanErrorDecodingFailure::InvalidTransceiverError,
    {
        if val == 0x04 {
            Ok(CanHighFault::NoWire)
        } else if val == 0x05 {
            Ok(CanHighFault::ShortToBat)
        } else if val == 0x06 {
            Ok(CanHighFault::ShortToVcc)
        } else if val == 0x07 {
            Ok(CanHighFault::ShortToGnd)
        } else {
            Err(CanErrorDecodingFailure::InvalidTransceiverError)
        }
    }

    /// The code of this fault.
    pub fn as_raw(&self) -> (r: u8)
        ensures
            r == high_fault_raw(*self),
    {
        match self {
            CanHighFault::NoWire => 0x04,
            CanHighFault::ShortToBat => 0x05,
            CanHighFault::ShortToVcc => 0x06,
            CanHighFault::ShortToGnd => 0x07,
        }
    }
}

impl CanLowFault {
    /// Decodes the CAN Low nibble (the high nibble of `data[4]`, in place).
    pub fn try_from_raw(val: u8) -> (r: Result<CanLowFault, CanErrorDecodingFailure>)
        ensures
            r is Ok <==> low_fault_of(val) is Some,
            r matches Ok(f) ==> low_fault_of(val) == Some(f),
            r matches Err(e) ==> e == CanErrorDecodingFailure::InvalidTransceiverError,
    {
        if val == 0x40 {
            Ok(CanLowFault::NoWire)
        } else if val == 0x50 {
            Ok(CanLowFault::ShortToBat)
        } else if val == 0x60 {
            Ok(CanLowFault::ShortToVcc)
        } else if val == 0x70 {
            Ok(CanLowFault::ShortToGnd)
        } else if val == 0x80 {
            Ok(CanLowFault::ShortToCanHigh)
        } else {
            Err(CanErrorDecodingFailure::InvalidTransceiverError)
        }
    }

    /// The code of this fault.
    pub fn as_raw(&self) -> (r: u8)
        ensures
            r == low_fault_raw(*self),
    {
        match self {
            CanLowFault::NoWire => 0x40,
            CanLowFault::ShortToBat => 0x50,
            CanLowFault::ShortToVcc => 0x60,
            CanLowFault::ShortToGnd => 0x70,
            CanLowFault::ShortToCanHigh => 0x80,
        }
    }
}

// ===== ErrorCause =====

/// A single condition that a CAN error frame reported: one per class bit of
/// the frame's ID word.
#[derive(Debug, Copy, Clone, PartialEq, Eq, Hash, Structural)]
pub enum ErrorCause {
    /// TX timeout (by netdevice driver).
    TransmitTimeout,
    /// Arbitration was lost after the given bit (0 means unspecified).
    LostArbitration(u8),
    /// Controller status flags, from `data[1]`.
    Controller(ControllerProblems),
    /// Protocol violation(s) at one location, from `data[2..=3]`.
    Protocol {
        /// The violation type(s); an empty set means "unspecified".
        types: ViolationTypes,
        /// The location (field or bit) of the violation.
        location: Location,
    },
    /// Transceiver line faults, from the two nibbles of `data[4]`.
    Transceiver {
        /// The CAN High line fault (low nibble), if any.
        canh: Option<CanHighFault>,
        /// The CAN Low line fault (high nibble), if any.
        canl: Option<CanLowFault>,
    },
    /// No ACK received for the transmitted frame.
    NoAck,
    /// Bus off (due to too many detected errors).
    BusOff,
    /// Bus error (due to too many detected errors).
    BusError,
    /// The controller has been restarted.
    Restarted,
    /// The controller's TX and RX error counters, from `data[6..=7]`.
    Counters {
        /// TX error counter, from `data[6]`
        tx: u8,
        /// RX error counter, from `data[7]`
        rx: u8,
    },
    /// A data byte held a bit pattern that could not be decoded.
    DecodingFailure(CanErrorDecodingFailure),
    /// Unknown, possibly invalid, error class bits.
    Unknown(u32),
}

/// The kind of a cause: `Overrun` for a buffer overflow, `Bit`, `Form` or
/// `Stuff` for the protocol violation types (in that order of preference),
/// `Acknowledge` for a missing ACK, `Other` for anything else.
pub open spec fn cause_kind(c: ErrorCause) -> ErrorKind {
    match c {
        ErrorCause::Controller(p) => if p.bits & 0x03u8 != 0 {
            ErrorKind::Overrun
        } else {
            ErrorKind::Other
        },
        ErrorCause::Protocol { types, .. } => if types.bits & 0x19u8 != 0 {
            ErrorKind::Bit
        } else if types.bits & 0x02u8 == 0x02u8 {
            ErrorKind::Form
        } else if types.bits & 0x04u8 == 0x04u8 {
            ErrorKind::Stuff
        } else {
            ErrorKind::Other
        },
        ErrorCause::NoAck => ErrorKind::Acknowledge,
        _ => ErrorKind::Other,
    }
}

impl ErrorCause {
    /// The generic kind of this cause.
    pub fn kind(&self) -> (r: ErrorKind)
        ensures
            r == cause_kind(*self),
    {
        match *self {
            ErrorCause::Controller(p) => {
                let overflow = ControllerProblems::RX_OVERFLOW().union(ControllerProblems::TX_OVERFLOW());
                assert(0x01u8 | 0x02u8 == 0x03u8) by (bit_vector);
                if p.intersects(overflow) {
                    ErrorKind::Overrun
                } else {
                    ErrorKind::Other
                }
            },
            ErrorCause::Protocol { types, .. } => {
                let bit = ViolationTypes::BIT().union(ViolationTypes::BIT0()).union(ViolationTypes::BIT1());
                assert(0x01u8 | 0x08u8 | 0x10u8 == 0x19u8) by (bit_vector);
                if types.intersects(bit) {
                    ErrorKind::Bit
                } else if types.contains(ViolationTypes::FORM()) {
                    ErrorKind::Form
                } else if types.contains(ViolationTypes::STUFF()) {
                    ErrorKind::Stuff
                } else {
                    ErrorKind::Other
                }
            },
            ErrorCause::NoAck => ErrorKind::Acknowledge,
            _ => ErrorKind::Other,
        }
    }
}


// ===== CanError =====

/// The storage of a [`CanError`]'s causes: a `SmallVec` that holds up to
/// four causes inline and more on the heap.
#[verifier::external_body]
#[derive(Debug)]
pub struct CauseList {
    items: SmallVec<[ErrorCause; 4]>,
}

/// The causes a [`CauseList`] holds, in order.
pub uninterp spec fn cause_items(v: CauseList) -> Seq<ErrorCause>;

/// Creates an empty list (`SmallVec::new`), which holds nothing.
#[verifier::external_body]
fn causes_new() -> (r: CauseList)
    ensures
        cause_items(r) == Seq::<ErrorCause>::empty(),
{
    CauseList { items: SmallVec::new() }
}

/// Appends a cause (`SmallVec::push`): the items are the old ones followed
/// by `c`. The length is bounded well below where the capacity computation
/// could overflow.
#[verifier::external_body]
fn causes_push(v: &mut CauseList, c: ErrorCause)
    requires
        cause_items(*old(v)).len() < 0x1000_0000,
    ensures
        cause_items(*final(v)) == cause_items(*old(v)).push(c),
{
    v.items.push(c)
}

/// The causes as a slice (`SmallVec::as_slice`), in order.
#[verifier::external_body]
fn causes_slice(v: &CauseList) -> (r: &[ErrorCause])
    ensures
        r@ == cause_items(*v),
{
    v.items.as_slice()
}

/// The error decoded from a single CAN error frame: one error event,
/// described by one or more [`ErrorCause`]s in ascending class-bit order.
///
/// A `CanError` is never empty: there is always a first cause.
#[derive(Debug)]
pub struct CanError {
    causes: CauseList,
}

impl View for CanError {
    type V = Seq<ErrorCause>;

    closed spec fn view(&self) -> Seq<ErrorCause> {
        cause_items(self.causes)
    }
}

impl CanError {
    #[verifier::type_invariant]
    closed spec fn inv(self) -> bool {
        1 <= cause_items(self.causes).len() < 0x1000_0000
    }

    /// Creates an error holding exactly one cause.
    pub fn new(cause: ErrorCause) -> (r: CanError)
        ensures
            r@ == seq![cause],
    {
        let mut causes = causes_new();
        causes_push(&mut causes, cause);
        assert(cause_items(causes) =~= seq![cause]);
        CanError { causes }
    }

    /// Creates an error from a first cause followed by `rest`.
    ///
    /// The causes number fewer than 2^28 in all: the storage grows by
    /// doubling its capacity, and the growth panics once the capacity in
    /// bytes no longer fits the address space.
    pub fn from_multiple(first: ErrorCause, rest: &[ErrorCause]) -> (r: CanError)
        requires
            rest@.len() < 0x0FFF_FFFF,
        ensures
            r@ == seq![first] + rest@,
    {
        let mut causes = causes_new();
        causes_push(&mut causes, first);
        let mut i: usize = 0;
        while i < rest.len()
            invariant
                i <= rest@.len() < 0x0FFF_FFFF,
                cause_items(causes) == seq![first] + rest@.take(i as int),
            decreases rest@.len() - i,
        {
            causes_push(&mut causes, rest[i]);
            i = i + 1;
            assert(cause_items(causes) =~= seq![first] + rest@.take(i as int));
        }
        assert(rest@.take(i as int) =~= rest@);
        CanError { causes }
    }

    /// Creates an error from a list of causes, or `None` if it is empty.
    ///
    /// The list holds fewer than 2^28 causes, as for [`CanError::from_multiple`].
    pub fn from_iter_checked(causes: &[ErrorCause]) -> (r: Option<CanError>)
        requires
            causes@.len() < 0x1000_0000,
        ensures
            r is Some <==> causes@.len() > 0,
            r matches Some(e) ==> e@ == causes@,
    {
        if causes.len() == 0 {
            return None;
        }
        let mut items = causes_new();
        let mut i: usize = 0;
        while i < causes.len()
            invariant
                i <= causes@.len() < 0x1000_0000,
                cause_items(items) == causes@.take(i as int),
            decreases causes@.len() - i,
        {
            causes_push(&mut items, causes[i]);
            i = i + 1;
            assert(cause_items(items) =~= causes@.take(i as int));
        }
        assert(causes@.take(i as int) =~= causes@);
        Some(CanError { causes: items })
    }

    /// The causes, in order.
    pub fn causes(&self) -> (r: &[ErrorCause])
        ensures
            r@ == self@,
    {
        causes_slice(&self.causes)
    }

    /// The first cause: the one of the lowest class bit.
    pub fn first(&self) -> (r: &ErrorCause)
        ensures
            *r == self@[0],
    {
        proof {
            use_type_invariant(self);
        }
        &self.causes()[0]
    }

    /// The last cause.
    pub fn last(&self) -> (r: &ErrorCause)
        ensures
            *r == self@.last(),
    {
        proof {
            use_type_invariant(self);
        }
        let s = self.causes();
        &s[s.len() - 1]
    }

    /// The number of causes; at least one.
    pub fn len(&self) -> (r: usize)
        ensures
            r == self@.len(),
            r >= 1,
    {
        proof {
            use_type_invariant(self);
        }
        self.causes().len()
    }

    /// Always `false`: an error has at least one cause.
    pub fn is_empty(&self) -> (r: bool)
        ensures
            r == (self@.len() == 0),
            !r,
    {
        proof {
            use_type_invariant(self);
        }
        false
    }

    /// Whether the error has exactly one cause.
    pub fn is_single(&self) -> (r: bool)
        ensures
            r == (self@.len() == 1),
    {
        self.len() == 1
    }

    /// The causes, copied into a vector.
    pub fn to_vec(&self) -> (r: Vec<ErrorCause>)
        ensures
            r@ == self@,
    {
        let s = self.causes();
        let mut v: Vec<ErrorCause> = Vec::new();
        let mut i: usize = 0;
        while i < s.len()
            invariant
                i <= s@.len(),
                v@ == s@.take(i as int),
            decreases s@.len() - i,
        {
            v.push(s[i]);
            i = i + 1;
            assert(v@ =~= s@.take(i as int));
        }
        assert(s@.take(i as int) =~= s@);
        v
    }
}

// ===== Decoding =====

/// `c` if `b` holds, else nothing.
pub open spec fn opt_cause(b: bool, c: Seq<ErrorCause>) -> Seq<ErrorCause> {
    if b {
        c
    } else {
        Seq::empty()
    }
}

/// The causes that the controller byte `data[1]` gives: the known flags,
/// then a decoding failure if an unknown bit is set.
pub open spec fn controller_causes(byte: u8) -> Seq<ErrorCause> {
    seq![ErrorCause::Controller(ControllerProblems { bits: byte & 0x7Fu8 })] + opt_cause(
        byte & 0x80u8 != 0,
        seq![ErrorCause::DecodingFailure(CanErrorDecodingFailure::InvalidControllerProblem)],
    )
}

/// Whether a half of the transceiver byte `data[4]` holds an unknown code.
pub open spec fn transceiver_invalid(byte: u8) -> bool {
    (byte & 0x0Fu8 != 0 && high_fault_of(byte & 0x0Fu8) is None) || (byte & 0xF0u8 != 0
        && low_fault_of(byte & 0xF0u8) is None)
}

/// The causes that the transceiver byte `data[4]` gives: the faults of the
/// two lines, then a decoding failure if a half holds an unknown code.
pub open spec fn transceiver_causes(byte: u8) -> Seq<ErrorCause> {
    seq![ErrorCause::Transceiver { canh: high_fault_of(byte & 0x0Fu8), canl: low_fault_of(byte & 0xF0u8) }]
        + opt_cause(
        transceiver_invalid(byte),
        seq![ErrorCause::DecodingFailure(CanErrorDecodingFailure::InvalidTransceiverError)],
    )
}

/// The causes of the class bits up to the transceiver status (`0x001` to
/// `0x010`), in ascending order.
pub open spec fn low_class_causes(bits: u32, d: Seq<u8>) -> Seq<ErrorCause> {
    opt_cause(bits & 0x001u32 != 0, seq![ErrorCause::TransmitTimeout])
        + opt_cause(bits & 0x002u32 != 0, seq![ErrorCause::LostArbitration(d[0])])
        + opt_cause(bits & 0x004u32 != 0, controller_causes(d[1]))
        + opt_cause(
        bits & 0x008u32 != 0,
        seq![ErrorCause::Protocol { types: ViolationTypes { bits: d[2] }, location: location_of(d[3]) }],
    ) + opt_cause(bits & 0x010u32 != 0, transceiver_causes(d[4]))
}

/// The causes of the error-class bits `bits` with detail bytes `d`, one
/// group per class bit in ascending order, then the unknown class bits.
pub open spec fn class_causes(bits: u32, d: Seq<u8>) -> Seq<ErrorCause> {
    low_class_causes(bits, d) + opt_cause(bits & 0x020u32 != 0, seq![ErrorCause::NoAck])
        + opt_cause(bits & 0x040u32 != 0, seq![ErrorCause::BusOff])
        + opt_cause(bits & 0x080u32 != 0, seq![ErrorCause::BusError])
        + opt_cause(bits & 0x100u32 != 0, seq![ErrorCause::Restarted])
        + opt_cause(bits & 0x200u32 != 0, seq![ErrorCause::Counters { tx: d[6], rx: d[7] }])
        + opt_cause(bits & 0xFFFF_FC00u32 != 0, seq![ErrorCause::Unknown(bits & 0xFFFF_FC00u32)])
}

/// The causes an error frame with class bits `bits` and detail bytes `d`
/// decodes to; a frame with no class bit at all gives `Unknown(0)`.
pub open spec fn decode_causes(bits: u32, d: Seq<u8>) -> Seq<ErrorCause> {
    if class_causes(bits, d).len() == 0 {
        seq![ErrorCause::Unknown(0)]
    } else {
        class_causes(bits, d)
    }
}

/// The causes of an error frame's fields.
pub open spec fn frame_causes(f: FrameFields) -> Seq<ErrorCause> {
    decode_causes(f.word & 0x1FFF_FFFFu32, f.bytes)
}

/// The causes of the low class bits, from an empty list.
fn decode_low_classes(bits: u32, data: &[u8]) -> (r: CauseList)
    requires
        data@.len() == 8,
    ensures
        cause_items(r) == low_class_causes(bits, data@),
        cause_items(r).len() <= 7,
{
    let mut causes = causes_new();
    push_opt(&mut causes, bits & CAN_ERR_TX_TIMEOUT != 0, ErrorCause::TransmitTimeout);
    assert(cause_items(causes) =~= opt_cause(bits & 0x001u32 != 0, seq![ErrorCause::TransmitTimeout]));
    push_opt(&mut causes, bits & CAN_ERR_LOSTARB != 0, ErrorCause::LostArbitration(data[0]));
    let ghost s2 = cause_items(causes);
    if bits & CAN_ERR_CRTL != 0 {
        push_controller(&mut causes, data[1]);
    } else {
        assert(cause_items(causes) =~= s2 + Seq::empty());
    }
    push_protocol(&mut causes, bits & CAN_ERR_PROT != 0, data[2], data[3]);
    let ghost s4 = cause_items(causes);
    if bits & CAN_ERR_TRX != 0 {
        push_transceiver(&mut causes, data[4]);
    } else {
        assert(cause_items(causes) =~= s4 + Seq::empty());
    }
    causes
}

/// Completes a decoding: an empty list of causes becomes `Unknown(0)`.
fn finish_decode(causes: CauseList, Ghost(expected): Ghost<Seq<ErrorCause>>) -> (r: CanError)
    requires
        cause_items(causes) == expected,
        expected.len() < 0x0FFF_0000,
    ensures
        r@ == (if expected.len() == 0 {
            seq![ErrorCause::Unknown(0)]
        } else {
            expected
        }),
{
    let mut causes = causes;
    if causes_slice(&causes).len() == 0 {
        causes_push(&mut causes, ErrorCause::Unknown(0));
        assert(cause_items(causes) =~= seq![ErrorCause::Unknown(0)]);
    }
    CanError { causes }
}

fn push_opt(causes: &mut CauseList, b: bool, c: ErrorCause)
    requires
        cause_items(*old(causes)).len() < 0x0FFF_0000,
    ensures
        cause_items(*final(causes)) == cause_items(*old(causes)) + opt_cause(b, seq![c]),
        cause_items(*final(causes)).len() <= cause_items(*old(causes)).len() + 1,
{
    if b {
        causes_push(causes, c);
    } else {
        assert(cause_items(*causes) =~= cause_items(*old(causes)) + Seq::empty());
    }
}

fn push_protocol(causes: &mut CauseList, b: bool, types: u8, location: u8)
    requires
        cause_items(*old(causes)).len() < 0x0FFF_0000,
    ensures
        cause_items(*final(causes)) == cause_items(*old(causes)) + opt_cause(
            b,
            seq![ErrorCause::Protocol { types: ViolationTypes { bits: types }, location: location_of(location) }],
        ),
        cause_items(*final(causes)).len() <= cause_items(*old(causes)).len() + 1,
{
    let cause = ErrorCause::Protocol {
        types: ViolationTypes::from_bits_truncate(types),
        location: Location::from_raw(location),
    };
    push_opt(causes, b, cause);
}

fn push_controller(causes: &mut CauseList, byte: u8)
    requires
        cause_items(*old(causes)).len() < 0x0FFF_0000,
    ensures
        cause_items(*final(causes)) == cause_items(*old(causes)) + controller_causes(byte),
        cause_items(*final(causes)).len() <= cause_items(*old(causes)).len() + 2,
{
    causes_push(causes, ErrorCause::Controller(ControllerProblems::from_bits_truncate(byte)));
    if byte & 0x80 != 0 {
        causes_push(causes, ErrorCause::DecodingFailure(CanErrorDecodingFailure::InvalidControllerProblem));
    }
    assert(cause_items(*causes) =~= cause_items(*old(causes)) + controller_causes(byte));
}

fn push_transceiver(causes: &mut CauseList, byte: u8)
    requires
        cause_items(*old(causes)).len() < 0x0FFF_0000,
    ensures
        cause_items(*final(causes)) == cause_items(*old(causes)) + transceiver_causes(byte),
        cause_items(*final(causes)).len() <= cause_items(*old(causes)).len() + 2,
{
    let mut invalid = false;
    let h = byte & 0x0F;
    let canh = if h == 0 {
        None
    } else {
        match CanHighFault::try_from_raw(h) {
            Ok(f) => Some(f),
            Err(_) => {
                invalid = true;
                None
            },
        }
    };
    let l = byte & 0xF0;
    let canl = if l == 0 {
        None
    } else {
        match CanLowFault::try_from_raw(l) {
            Ok(f) => Some(f),
            Err(_) => {
                invalid = true;
                None
            },
        }
    };
    causes_push(causes, ErrorCause::Transceiver { canh, canl });
    if invalid {
        causes_push(causes, ErrorCause::DecodingFailure(CanErrorDecodingFailure::InvalidTransceiverError));
    }
    assert(cause_items(*causes) =~= cause_items(*old(causes)) + transceiver_causes(byte));
}

impl CanError {
    /// Decodes every cause an error frame describes, one per class bit of
    /// its ID word in ascending order, then any unknown class bits as one
    /// `Unknown` cause. A frame with no class bit gives `Unknown(0)`.
    pub fn from_error_frame(frame: &CanErrorFrame) -> (r: CanError)
        ensures
            r@ == frame_causes(frame@),
    {
        let bits = frame.error_bits();
        let data = frame.data();
        let ghost d = data@;
        let mut causes = decode_low_classes(bits, data);
        push_opt(&mut causes, bits & CAN_ERR_ACK != 0, ErrorCause::NoAck);
        push_opt(&mut causes, bits & CAN_ERR_BUSOFF != 0, ErrorCause::BusOff);
        push_opt(&mut causes, bits & CAN_ERR_BUSERROR != 0, ErrorCause::BusError);
        push_opt(&mut causes, bits & CAN_ERR_RESTARTED != 0, ErrorCause::Restarted);
        push_opt(&mut causes, bits & CAN_ERR_CNT != 0, ErrorCause::Counters { tx: data[6], rx: data[7] });
        let unknown = bits & !KNOWN_ERR_CLASSES;
        assert(unknown == bits & 0xFFFF_FC00u32) by (bit_vector)
            requires unknown == bits & !0x3FFu32;
        push_opt(&mut causes, unknown != 0, ErrorCause::Unknown(unknown));
        finish_decode(causes, Ghost(class_causes(bits, d)))
    }
}

// ===== Encoding =====

/// The code of an optional CAN High fault; none is 0.
pub open spec fn opt_high_raw(f: Option<CanHighFault>) -> u8 {
    match f {
        Some(h) => high_fault_raw(h),
        None => 0,
    }
}

/// The code of an optional CAN Low fault; none is 0.
pub open spec fn opt_low_raw(f: Option<CanLowFault>) -> u8 {
    match f {
        Some(l) => low_fault_raw(l),
        None => 0,
    }
}

/// What encoding one cause does to the class bits and detail bytes built
/// so far: it sets its class bit, ORs the bitfield bytes and writes the
/// scalar ones. A decoding failure has no encoding; an unknown cause sets
/// its bits.
pub open spec fn encode_cause(st: (u32, Seq<u8>), c: ErrorCause) -> (u32, Seq<u8>) {
    match c {
        ErrorCause::TransmitTimeout => (st.0 | 0x001u32, st.1),
        ErrorCause::LostArbitration(b) => (st.0 | 0x002u32, st.1.update(0, b)),
        ErrorCause::Controller(p) => (st.0 | 0x004u32, st.1.update(1, st.1[1] | p.bits)),
        ErrorCause::Protocol { types, location } => (
            st.0 | 0x008u32,
            st.1.update(2, st.1[2] | types.bits).update(3, location_raw(location)),
        ),
        ErrorCause::Transceiver { canh, canl } => (
            st.0 | 0x010u32,
            st.1.update(4, st.1[4] | opt_high_raw(canh) | opt_low_raw(canl)),
        ),
        ErrorCause::NoAck => (st.0 | 0x020u32, st.1),
        ErrorCause::BusOff => (st.0 | 0x040u32, st.1),
        ErrorCause::BusError => (st.0 | 0x080u32, st.1),
        ErrorCause::Restarted => (st.0 | 0x100u32, st.1),
        ErrorCause::Counters { tx, rx } => (st.0 | 0x200u32, st.1.update(6, tx).update(7, rx)),
        ErrorCause::DecodingFailure(_) => st,
        ErrorCause::Unknown(b) => (st.0 | b, st.1),
    }
}

/// Encodes the causes `cs` in order, starting from `st`.
pub open spec fn encode_from(st: (u32, Seq<u8>), cs: Seq<ErrorCause>) -> (u32, Seq<u8>)
    decreases cs.len(),
{
    if cs.len() == 0 {
        st
    } else {
        encode_cause(encode_from(st, cs.drop_last()), cs.last())
    }
}

/// The class bits and detail bytes that the causes `cs` encode to, from
/// no bit and eight zero bytes.
pub open spec fn encode_causes(cs: Seq<ErrorCause>) -> (u32, Seq<u8>) {
    encode_from((0u32, zeros(8)), cs)
}

/// The fields of the error frame that the causes `cs` encode to.
pub open spec fn error_frame_of(cs: Seq<ErrorCause>) -> FrameFields {
    error_fields(encode_causes(cs).0, encode_causes(cs).1)
}

fn encode_step(id: u32, data: [u8; 8], c: ErrorCause) -> (r: (u32, [u8; 8]))
    ensures
        (r.0, r.1@) == encode_cause((id, data@), c),
{
    let mut data = data;
    let ghost d0 = data@;
    match c {
        ErrorCause::TransmitTimeout => (id | CAN_ERR_TX_TIMEOUT, data),
        ErrorCause::LostArbitration(b) => {
            data[0] = b;
            (id | CAN_ERR_LOSTARB, data)
        },
        ErrorCause::Controller(p) => {
            data[1] = data[1] | p.bits;
            (id | CAN_ERR_CRTL, data)
        },
        ErrorCause::Protocol { types, location } => {
            data[2] = data[2] | types.bits;
            data[3] = location.as_raw();
            (id | CAN_ERR_PROT, data)
        },
        ErrorCause::Transceiver { canh, canl } => {
            let h: u8 = match canh {
                Some(f) => f.as_raw(),
                None => 0,
            };
            let l: u8 = match canl {
                Some(f) => f.as_raw(),
                None => 0,
            };
            data[4] = data[4] | h | l;
            (id | CAN_ERR_TRX, data)
        },
        ErrorCause::NoAck => (id | CAN_ERR_ACK, data),
        ErrorCause::BusOff => (id | CAN_ERR_BUSOFF, data),
        ErrorCause::BusError => (id | CAN_ERR_BUSERROR, data),
        ErrorCause::Restarted => (id | CAN_ERR_RESTARTED, data),
        ErrorCause::Counters { tx, rx } => {
            data[6] = tx;
            data[7] = rx;
            (id | CAN_ERR_CNT, data)
        },
        ErrorCause::DecodingFailure(_) => (id, data),
        ErrorCause::Unknown(b) => (id | b, data),
    }
}

impl From<CanErrorFrame> for CanError {
    /// Decodes every cause an error frame describes, as
    /// [`CanError::from_error_frame`] does.
    fn from(frame: CanErrorFrame) -> (r: CanError)
        ensures
            r@ == frame_causes(frame@),
    {
        CanError::from_error_frame(&frame)
    }
}

impl vstd::std_specs::convert::FromSpecImpl<CanErrorFrame> for CanError {
    /// What the conversion gives is stated over its causes, by the `ensures`
    /// of `from`, not as a whole value.
    open spec fn obeys_from_spec() -> bool {
        false
    }

    open spec fn from_spec(frame: CanErrorFrame) -> CanError {
        arbitrary()
    }
}

impl From<ErrorCause> for CanError {
    /// An error holding exactly one cause, as [`CanError::new`] makes.
    fn from(cause: ErrorCause) -> (r: CanError)
        ensures
            r@ == seq![cause],
    {
        CanError::new(cause)
    }
}

impl vstd::std_specs::convert::FromSpecImpl<ErrorCause> for CanError {
    /// What the conversion gives is stated over its causes, by the `ensures`
    /// of `from`, not as a whole value.
    open spec fn obeys_from_spec() -> bool {
        false
    }

    open spec fn from_spec(cause: ErrorCause) -> CanError {
        arbitrary()
    }
}

impl CanErrorFrame {
    /// Encodes an error back into an error frame: each cause sets its class
    /// bit and writes its detail bytes, in order. A decoding failure has no
    /// encoding and is skipped; of several protocol causes the last one's
    /// location is kept.
    pub fn from_error(err: &CanError) -> (r: CanErrorFrame)
        ensures
            r@ == error_frame_of(err@),
    {
        let s = err.causes();
        let mut id: u32 = 0;
        let mut data = [0u8; 8];
        assert(data@ =~= zeros(8));
        let mut i: usize = 0;
        while i < s.len()
            invariant
                i <= s@.len(),
                (id, data@) == encode_from((0u32, zeros(8)), s@.take(i as int)),
            decreases s@.len() - i,
        {
            let step = encode_step(id, data, s[i]);
            id = step.0;
            data = step.1;
            proof {
                assert(s@.take(i + 1).drop_last() =~= s@.take(i as int));
            }
            i = i + 1;
        }
        proof {
            assert(s@.take(i as int) =~= s@);
        }
        CanErrorFrame::new_error(id, data.as_slice()).unwrap()
    }

    /// Decodes every cause this error frame describes.
    pub fn into_error(self) -> (r: CanError)
        ensures
            r@ == frame_causes(self@),
    {
        CanError::from_error_frame(&self)
    }
}

impl From<CanError> for CanErrorFrame {
    /// Encodes an error back into an error frame, as
    /// [`CanErrorFrame::from_error`] does.
    fn from(err: CanError) -> (r: CanErrorFrame)
        ensures
            r@ == error_frame_of(err@),
    {
        CanErrorFrame::from_error(&err)
    }
}

impl vstd::std_specs::convert::FromSpecImpl<CanError> for CanErrorFrame {
    /// What the conversion gives is stated over the frame's fields, by the
    /// `ensures` of `from`, not as a whole value.
    open spec fn obeys_from_spec() -> bool {
        false
    }

    open spec fn from_spec(err: CanError) -> CanErrorFrame {
        arbitrary()
    }
}

// ===== Decoding then encoding =====

/// An error frame as the kernel builds one, which decoding then encoding
/// gives back unchanged: only the `ERR` flag is set in the ID word, the
/// length is 8, the detail bytes of the classes that are not set are zero,
/// as is the reserved `data[5]`, the controller byte has no unknown bit and
/// the transceiver byte holds known codes.
pub open spec fn error_frame_canonical(f: FrameFields) -> bool {
    let bits = f.word & 0x1FFF_FFFFu32;
    let d = f.bytes;
    &&& f.word & 0xE000_0000u32 == 0x2000_0000u32
    &&& f.dlc == 8
    &&& f.flags == 0
    &&& d.len() == 8
    &&& (bits & 0x002u32 == 0 ==> d[0] == 0)
    &&& (bits & 0x004u32 == 0 ==> d[1] == 0)
    &&& (bits & 0x004u32 != 0 ==> d[1] & 0x80u8 == 0)
    &&& (bits & 0x008u32 == 0 ==> d[2] == 0 && d[3] == 0)
    &&& (bits & 0x010u32 == 0 ==> d[4] == 0)
    &&& (bits & 0x010u32 != 0 ==> !transceiver_invalid(d[4]))
    &&& d[5] == 0
    &&& (bits & 0x200u32 == 0 ==> d[6] == 0 && d[7] == 0)
}

/// Encoding `a` then `b` is encoding `a + b`.
pub proof fn lemma_encode_append(st: (u32, Seq<u8>), a: Seq<ErrorCause>, b: Seq<ErrorCause>)
    ensures
        encode_from(st, a + b) == encode_from(encode_from(st, a), b),
    decreases b.len(),
{
    if b.len() == 0 {
        assert(a + b =~= a);
    } else {
        lemma_encode_append(st, a, b.drop_last());
        assert((a + b).drop_last() =~= a + b.drop_last());
        assert((a + b).last() == b.last());
    }
}

/// Encoding nothing, or one optional cause.
proof fn lemma_encode_opt(st: (u32, Seq<u8>), b: bool, c: ErrorCause)
    ensures
        encode_from(st, opt_cause(b, seq![c])) == (if b {
            encode_cause(st, c)
        } else {
            st
        }),
{
    if b {
        assert(seq![c].drop_last() =~= Seq::<ErrorCause>::empty());
        assert(encode_from(st, Seq::<ErrorCause>::empty()) == st);
    } else {
        assert(encode_from(st, Seq::<ErrorCause>::empty()) == st);
    }
}

/// The bit facts the round trip rests on, for the class bits.
proof fn lemma_class_bit_steps(bits: u32)
    by (bit_vector)
    ensures
        bits & 0x001u32 != 0 ==> 0u32 | 0x001u32 == bits & 0x001u32,
        bits & 0x001u32 == 0 ==> 0u32 == bits & 0x001u32,
        bits & 0x002u32 != 0 ==> (bits & 0x001u32) | 0x002u32 == bits & 0x003u32,
        bits & 0x002u32 == 0 ==> bits & 0x001u32 == bits & 0x003u32,
        bits & 0x004u32 != 0 ==> (bits & 0x003u32) | 0x004u32 == bits & 0x007u32,
        bits & 0x004u32 == 0 ==> bits & 0x003u32 == bits & 0x007u32,
        bits & 0x008u32 != 0 ==> (bits & 0x007u32) | 0x008u32 == bits & 0x00Fu32,
        bits & 0x008u32 == 0 ==> bits & 0x007u32 == bits & 0x00Fu32,
        bits & 0x010u32 != 0 ==> (bits & 0x00Fu32) | 0x010u32 == bits & 0x01Fu32,
        bits & 0x010u32 == 0 ==> bits & 0x00Fu32 == bits & 0x01Fu32,
        bits & 0x020u32 != 0 ==> (bits & 0x01Fu32) | 0x020u32 == bits & 0x03Fu32,
        bits & 0x020u32 == 0 ==> bits & 0x01Fu32 == bits & 0x03Fu32,
        bits & 0x040u32 != 0 ==> (bits & 0x03Fu32) | 0x040u32 == bits & 0x07Fu32,
        bits & 0x040u32 == 0 ==> bits & 0x03Fu32 == bits & 0x07Fu32,
        bits & 0x080u32 != 0 ==> (bits & 0x07Fu32) | 0x080u32 == bits & 0x0FFu32,
        bits & 0x080u32 == 0 ==> bits & 0x07Fu32 == bits & 0x0FFu32,
        bits & 0x100u32 != 0 ==> (bits & 0x0FFu32) | 0x100u32 == bits & 0x1FFu32,
        bits & 0x100u32 == 0 ==> bits & 0x0FFu32 == bits & 0x1FFu32,
        bits & 0x200u32 != 0 ==> (bits & 0x1FFu32) | 0x200u32 == bits & 0x3FFu32,
        bits & 0x200u32 == 0 ==> bits & 0x1FFu32 == bits & 0x3FFu32,
        bits & 0xFFFF_FC00u32 != 0 ==> (bits & 0x3FFu32) | (bits & 0xFFFF_FC00u32) == bits,
        bits & 0xFFFF_FC00u32 == 0 ==> bits & 0x3FFu32 == bits,
        0u32 | 0u32 == 0u32,
{
}

/// The bit facts the round trip rests on, for the detail bytes and the ID
/// word.
proof fn lemma_detail_bit_steps(x: u8, w: u32)
    by (bit_vector)
    ensures
        0u8 | x == x,
        x & 0x80u8 == 0 ==> 0u8 | (x & 0x7Fu8) == x,
        (0u8 | (x & 0x0Fu8)) | (x & 0xF0u8) == x,
        w & 0xE000_0000u32 == 0x2000_0000u32 ==> ((w & 0x1FFF_FFFFu32) & 0x1FFF_FFFFu32) | 0x2000_0000u32
            == w,
{
}

/// The codes of a transceiver byte with known codes are its two nibbles.
proof fn lemma_transceiver_codes(x: u8)
    requires
        !transceiver_invalid(x),
    ensures
        opt_high_raw(high_fault_of(x & 0x0Fu8)) == x & 0x0Fu8,
        opt_low_raw(low_fault_of(x & 0xF0u8)) == x & 0xF0u8,
{
}

/// Encodes `c` if `b` holds.
pub open spec fn encode_opt(st: (u32, Seq<u8>), b: bool, c: ErrorCause) -> (u32, Seq<u8>) {
    if b {
        encode_cause(st, c)
    } else {
        st
    }
}

/// What encoding the class causes of `bits` and `d` does, group by group,
/// when each group holds one cause.
pub open spec fn encode_groups(bits: u32, d: Seq<u8>) -> (u32, Seq<u8>) {
    let st1 = encode_opt((0u32, zeros(8)), bits & 0x001u32 != 0, ErrorCause::TransmitTimeout);
    let st2 = encode_opt(st1, bits & 0x002u32 != 0, ErrorCause::LostArbitration(d[0]));
    let st3 = encode_opt(
        st2,
        bits & 0x004u32 != 0,
        ErrorCause::Controller(ControllerProblems { bits: d[1] & 0x7Fu8 }),
    );
    let st4 = encode_opt(
        st3,
        bits & 0x008u32 != 0,
        ErrorCause::Protocol { types: ViolationTypes { bits: d[2] }, location: location_of(d[3]) },
    );
    let st5 = encode_opt(
        st4,
        bits & 0x010u32 != 0,
        ErrorCause::Transceiver { canh: high_fault_of(d[4] & 0x0Fu8), canl: low_fault_of(d[4] & 0xF0u8) },
    );
    let st6 = encode_opt(st5, bits & 0x020u32 != 0, ErrorCause::NoAck);
    let st7 = encode_opt(st6, bits & 0x040u32 != 0, ErrorCause::BusOff);
    let st8 = encode_opt(st7, bits & 0x080u32 != 0, ErrorCause::BusError);
    let st9 = encode_opt(st8, bits & 0x100u32 != 0, ErrorCause::Restarted);
    let st10 = encode_opt(st9, bits & 0x200u32 != 0, ErrorCause::Counters { tx: d[6], rx: d[7] });
    encode_opt(st10, bits & 0xFFFF_FC00u32 != 0, ErrorCause::Unknown(bits & 0xFFFF_FC00u32))
}

/// Encoding the class causes is encoding them group by group, when the
/// controller and transceiver bytes decode without failure.
#[verifier::spinoff_prover]
proof fn lemma_encode_class_causes(bits: u32, d: Seq<u8>)
    requires
        d.len() == 8,
        bits & 0x004u32 != 0 ==> d[1] & 0x80u8 == 0,
        bits & 0x010u32 != 0 ==> !transceiver_invalid(d[4]),
    ensures
        encode_causes(class_causes(bits, d)) == encode_groups(bits, d),
{
    let st0 = (0u32, zeros(8));
    let b3 = bits & 0x004u32 != 0;
    let b5 = bits & 0x010u32 != 0;
    let q3 = ErrorCause::Controller(ControllerProblems { bits: d[1] & 0x7Fu8 });
    let q5 = ErrorCause::Transceiver { canh: high_fault_of(d[4] & 0x0Fu8), canl: low_fault_of(d[4] & 0xF0u8) };
    assert(opt_cause(b3, controller_causes(d[1])) == opt_cause(b3, seq![q3])) by {
        if b3 {
            assert(controller_causes(d[1]) =~= seq![q3]);
        }
    }
    assert(opt_cause(b5, transceiver_causes(d[4])) == opt_cause(b5, seq![q5])) by {
        if b5 {
            assert(transceiver_causes(d[4]) =~= seq![q5]);
        }
    }
    let p1 = opt_cause(bits & 0x001u32 != 0, seq![ErrorCause::TransmitTimeout]);
    let p2 = opt_cause(bits & 0x002u32 != 0, seq![ErrorCause::LostArbitration(d[0])]);
    let p3 = opt_cause(b3, seq![q3]);
    let p4 = opt_cause(
        bits & 0x008u32 != 0,
        seq![ErrorCause::Protocol { types: ViolationTypes { bits: d[2] }, location: location_of(d[3]) }],
    );
    let p5 = opt_cause(b5, seq![q5]);
    let p6 = opt_cause(bits & 0x020u32 != 0, seq![ErrorCause::NoAck]);
    let p7 = opt_cause(bits & 0x040u32 != 0, seq![ErrorCause::BusOff]);
    let p8 = opt_cause(bits & 0x080u32 != 0, seq![ErrorCause::BusError]);
    let p9 = opt_cause(bits & 0x100u32 != 0, seq![ErrorCause::Restarted]);
    let p10 = opt_cause(bits & 0x200u32 != 0, seq![ErrorCause::Counters { tx: d[6], rx: d[7] }]);
    let p11 = opt_cause(bits & 0xFFFF_FC00u32 != 0, seq![ErrorCause::Unknown(bits & 0xFFFF_FC00u32)]);
    assert(class_causes(bits, d) == p1 + p2 + p3 + p4 + p5 + p6 + p7 + p8 + p9 + p10 + p11);
    lemma_encode_opt(st0, bits & 0x001u32 != 0, ErrorCause::TransmitTimeout);
    let a1 = p1;
    let a2 = a1 + p2;
    let a3 = a2 + p3;
    let a4 = a3 + p4;
    let a5 = a4 + p5;
    let a6 = a5 + p6;
    let a7 = a6 + p7;
    let a8 = a7 + p8;
    let a9 = a8 + p9;
    let a10 = a9 + p10;
    let a11 = a10 + p11;
    lemma_encode_append(st0, a1, p2);
    lemma_encode_opt(encode_from(st0, a1), bits & 0x002u32 != 0, ErrorCause::LostArbitration(d[0]));
    lemma_encode_append(st0, a2, p3);
    lemma_encode_opt(encode_from(st0, a2), b3, q3);
    lemma_encode_append(st0, a3, p4);
    lemma_encode_opt(
        encode_from(st0, a3),
        bits & 0x008u32 != 0,
        ErrorCause::Protocol { types: ViolationTypes { bits: d[2] }, location: location_of(d[3]) },
    );
    lemma_encode_append(st0, a4, p5);
    lemma_encode_opt(encode_from(st0, a4), b5, q5);
    lemma_encode_append(st0, a5, p6);
    lemma_encode_opt(encode_from(st0, a5), bits & 0x020u32 != 0, ErrorCause::NoAck);
    lemma_encode_append(st0, a6, p7);
    lemma_encode_opt(encode_from(st0, a6), bits & 0x040u32 != 0, ErrorCause::BusOff);
    lemma_encode_append(st0, a7, p8);
    lemma_encode_opt(encode_from(st0, a7), bits & 0x080u32 != 0, ErrorCause::BusError);
    lemma_encode_append(st0, a8, p9);
    lemma_encode_opt(encode_from(st0, a8), bits & 0x100u32 != 0, ErrorCause::Restarted);
    lemma_encode_append(st0, a9, p10);
    lemma_encode_opt(
        encode_from(st0, a9),
        bits & 0x200u32 != 0,
        ErrorCause::Counters { tx: d[6], rx: d[7] },
    );
    lemma_encode_append(st0, a10, p11);
    lemma_encode_opt(
        encode_from(st0, a10),
        bits & 0xFFFF_FC00u32 != 0,
        ErrorCause::Unknown(bits & 0xFFFF_FC00u32),
    );
}

/// The group-by-group encoding of a canonical frame's class bits and
/// detail bytes gives them back.
#[verifier::spinoff_prover]
proof fn lemma_encode_groups_value(f: FrameFields)
    requires
        error_frame_canonical(f),
    ensures
        encode_groups(f.word & 0x1FFF_FFFFu32, f.bytes) == (f.word & 0x1FFF_FFFFu32, f.bytes),
{
    let bits = f.word & 0x1FFF_FFFFu32;
    let d = f.bytes;
    lemma_class_bit_steps(bits);
    lemma_detail_bit_steps(d[1], f.word);
    lemma_detail_bit_steps(d[2], f.word);
    lemma_detail_bit_steps(d[4], f.word);
    if bits & 0x010u32 != 0 {
        lemma_transceiver_codes(d[4]);
    }
    lemma_location_raw_of(d[3]);
    let z = zeros(8);
    let st1 = encode_opt((0u32, z), bits & 0x001u32 != 0, ErrorCause::TransmitTimeout);
    assert(st1 == (bits & 0x001u32, z));
    let st2 = encode_opt(st1, bits & 0x002u32 != 0, ErrorCause::LostArbitration(d[0]));
    assert(st2.0 == bits & 0x003u32);
    assert(st2.1 =~= seq![d[0], 0u8, 0u8, 0u8, 0u8, 0u8, 0u8, 0u8]);
    let st3 = encode_opt(
        st2,
        bits & 0x004u32 != 0,
        ErrorCause::Controller(ControllerProblems { bits: d[1] & 0x7Fu8 }),
    );
    assert(st3.0 == bits & 0x007u32);
    assert(st3.1 =~= seq![d[0], d[1], 0u8, 0u8, 0u8, 0u8, 0u8, 0u8]);
    let st4 = encode_opt(
        st3,
        bits & 0x008u32 != 0,
        ErrorCause::Protocol { types: ViolationTypes { bits: d[2] }, location: location_of(d[3]) },
    );
    assert(st4.0 == bits & 0x00Fu32);
    assert(st4.1 =~= seq![d[0], d[1], d[2], d[3], 0u8, 0u8, 0u8, 0u8]);
    let st5 = encode_opt(
        st4,
        bits & 0x010u32 != 0,
        ErrorCause::Transceiver { canh: high_fault_of(d[4] & 0x0Fu8), canl: low_fault_of(d[4] & 0xF0u8) },
    );
    assert(st5.0 == bits & 0x01Fu32);
    assert(st5.1 =~= seq![d[0], d[1], d[2], d[3], d[4], 0u8, 0u8, 0u8]);
    let st6 = encode_opt(st5, bits & 0x020u32 != 0, ErrorCause::NoAck);
    let st7 = encode_opt(st6, bits & 0x040u32 != 0, ErrorCause::BusOff);
    let st8 = encode_opt(st7, bits & 0x080u32 != 0, ErrorCause::BusError);
    let st9 = encode_opt(st8, bits & 0x100u32 != 0, ErrorCause::Restarted);
    assert(st9 == (bits & 0x1FFu32, st5.1));
    let st10 = encode_opt(st9, bits & 0x200u32 != 0, ErrorCause::Counters { tx: d[6], rx: d[7] });
    assert(st10.0 == bits & 0x3FFu32);
    assert(st10.1 =~= d);
    let st11 = encode_opt(st10, bits & 0xFFFF_FC00u32 != 0, ErrorCause::Unknown(bits & 0xFFFF_FC00u32));
    assert(st11 == (bits, d));
}

/// Decoding an error frame as the kernel builds one (see
/// [`error_frame_canonical`]) and encoding the causes gives the frame back,
/// byte for byte.
#[verifier::spinoff_prover]
pub proof fn lemma_error_frame_round_trip(f: FrameFields)
    requires
        error_frame_canonical(f),
    ensures
        error_frame_of(frame_causes(f)) == f,
{
    let bits = f.word & 0x1FFF_FFFFu32;
    let d = f.bytes;
    lemma_encode_class_causes(bits, d);
    lemma_encode_groups_value(f);
    lemma_detail_bit_steps(0u8, f.word);
    lemma_class_bit_steps(bits);
    if class_causes(bits, d).len() == 0 {
        assert(bits == 0);
        assert(seq![ErrorCause::Unknown(0)] == opt_cause(true, seq![ErrorCause::Unknown(0)]));
        lemma_encode_opt((0u32, zeros(8)), true, ErrorCause::Unknown(0));
        assert(zeros(8) =~= d);
    }
    assert(error_frame_of(frame_causes(f)).bytes =~= f.bytes);
}

// ===== Finding causes =====

/// The kinds of cause, without their data.
#[derive(Debug, Copy, Clone, PartialEq, Eq, Hash, Structural)]
pub enum CauseTag {
    /// [`ErrorCause::TransmitTimeout`]
    TransmitTimeout,
    /// [`ErrorCause::LostArbitration`]
    LostArbitration,
    /// [`ErrorCause::Controller`]
    Controller,
    /// [`ErrorCause::Protocol`]
    Protocol,
    /// [`ErrorCause::Transceiver`]
    Transceiver,
    /// [`ErrorCause::NoAck`]
    NoAck,
    /// [`ErrorCause::BusOff`]
    BusOff,
    /// [`ErrorCause::BusError`]
    BusError,
    /// [`ErrorCause::Restarted`]
    Restarted,
    /// [`ErrorCause::Counters`]
    Counters,
    /// [`ErrorCause::DecodingFailure`]
    DecodingFailure,
    /// [`ErrorCause::Unknown`]
    Unknown,
}

/// The tag of a cause.
pub open spec fn cause_tag(c: ErrorCause) -> CauseTag {
    match c {
        ErrorCause::TransmitTimeout => CauseTag::TransmitTimeout,
        ErrorCause::LostArbitration(_) => CauseTag::LostArbitration,
        ErrorCause::Controller(_) => CauseTag::Controller,
        ErrorCause::Protocol { .. } => CauseTag::Protocol,
        ErrorCause::Transceiver { .. } => CauseTag::Transceiver,
        ErrorCause::NoAck => CauseTag::NoAck,
        ErrorCause::BusOff => CauseTag::BusOff,
        ErrorCause::BusError => CauseTag::BusError,
        ErrorCause::Restarted => CauseTag::Restarted,
        ErrorCause::Counters { .. } => CauseTag::Counters,
        ErrorCause::DecodingFailure(_) => CauseTag::DecodingFailure,
        ErrorCause::Unknown(_) => CauseTag::Unknown,
    }
}

/// Whether `s` holds a cause with tag `t`.
pub open spec fn has_tag(s: Seq<ErrorCause>, t: CauseTag) -> bool {
    exists|i: int| 0 <= i < s.len() && #[trigger] cause_tag(s[i]) == t
}

/// Whether `i` is the position of the first cause with tag `t` in `s`.
pub open spec fn is_first_with_tag(s: Seq<ErrorCause>, t: CauseTag, i: int) -> bool {
    &&& 0 <= i < s.len()
    &&& cause_tag(s[i]) == t
    &&& forall|j: int| 0 <= j < i ==> #[trigger] cause_tag(s[j]) != t
}

impl ErrorCause {
    /// The tag of this cause.
    pub fn tag(&self) -> (r: CauseTag)
        ensures
            r == cause_tag(*self),
    {
        match self {
            ErrorCause::TransmitTimeout => CauseTag::TransmitTimeout,
            ErrorCause::LostArbitration(_) => CauseTag::LostArbitration,
            ErrorCause::Controller(_) => CauseTag::Controller,
            ErrorCause::Protocol { .. } => CauseTag::Protocol,
            ErrorCause::Transceiver { .. } => CauseTag::Transceiver,
            ErrorCause::NoAck => CauseTag::NoAck,
            ErrorCause::BusOff => CauseTag::BusOff,
            ErrorCause::BusError => CauseTag::BusError,
            ErrorCause::Restarted => CauseTag::Restarted,
            ErrorCause::Counters { .. } => CauseTag::Counters,
            ErrorCause::DecodingFailure(_) => CauseTag::DecodingFailure,
            ErrorCause::Unknown(_) => CauseTag::Unknown,
        }
    }
}

/// The position of the first cause with tag `t`.
fn first_with_tag(s: &[ErrorCause], t: CauseTag) -> (r: Option<usize>)
    ensures
        r is None <==> !has_tag(s@, t),
        r matches Some(i) ==> is_first_with_tag(s@, t, i as int),
{
    let mut i: usize = 0;
    while i < s.len()
        invariant
            i <= s@.len(),
            forall|j: int| 0 <= j < i ==> #[trigger] cause_tag(s@[j]) != t,
        decreases s@.len() - i,
    {
        if s[i].tag() == t {
            return Some(i);
        }
        i = i + 1;
    }
    None
}

/// The kind of a list of causes: the first kind that is not `Other`, or
/// `Other` if there is none.
pub open spec fn causes_kind(s: Seq<ErrorCause>) -> ErrorKind
    decreases s.len(),
{
    if s.len() == 0 {
        ErrorKind::Other
    } else if cause_kind(s[0]) != ErrorKind::Other {
        cause_kind(s[0])
    } else {
        causes_kind(s.drop_first())
    }
}

impl CanError {
    /// The bit position after which arbitration was lost, from the first
    /// such cause, if any (0 means unspecified).
    pub fn lost_arbitration(&self) -> (r: Option<u8>)
        ensures
            r is Some <==> has_tag(self@, CauseTag::LostArbitration),
            r matches Some(b) ==> exists|i: int|
                is_first_with_tag(self@, CauseTag::LostArbitration, i) && self@[i]
                    == ErrorCause::LostArbitration(b),
    {
        let s = self.causes();
        match first_with_tag(s, CauseTag::LostArbitration) {
            Some(i) => match s[i] {
                ErrorCause::LostArbitration(b) => Some(b),
                _ => None,
            },
            None => None,
        }
    }

    /// The controller status flags of the first controller cause, if any.
    pub fn controller(&self) -> (r: Option<ControllerProblems>)
        ensures
            r is Some <==> has_tag(self@, CauseTag::Controller),
            r matches Some(p) ==> exists|i: int|
                is_first_with_tag(self@, CauseTag::Controller, i) && self@[i] == ErrorCause::Controller(p),
    {
        let s = self.causes();
        match first_with_tag(s, CauseTag::Controller) {
            Some(i) => match s[i] {
                ErrorCause::Controller(p) => Some(p),
                _ => None,
            },
            None => None,
        }
    }

    /// The violation types and location of the first protocol cause, if any.
    pub fn protocol(&self) -> (r: Option<(ViolationTypes, Location)>)
        ensures
            r is Some <==> has_tag(self@, CauseTag::Protocol),
            r matches Some(p) ==> exists|i: int|
                is_first_with_tag(self@, CauseTag::Protocol, i) && self@[i] == (ErrorCause::Protocol {
                    types: p.0,
                    location: p.1,
                }),
    {
        let s = self.causes();
        match first_with_tag(s, CauseTag::Protocol) {
            Some(i) => match s[i] {
                ErrorCause::Protocol { types, location } => Some((types, location)),
                _ => None,
            },
            None => None,
        }
    }

    /// The CAN High and CAN Low line faults of the first transceiver cause,
    /// if any.
    pub fn transceiver(&self) -> (r: Option<(Option<CanHighFault>, Option<CanLowFault>)>)
        ensures
            r is Some <==> has_tag(self@, CauseTag::Transceiver),
            r matches Some(p) ==> exists|i: int|
                is_first_with_tag(self@, CauseTag::Transceiver, i) && self@[i] == (ErrorCause::Transceiver {
                    canh: p.0,
                    canl: p.1,
                }),
    {
        let s = self.causes();
        match first_with_tag(s, CauseTag::Transceiver) {
            Some(i) => match s[i] {
                ErrorCause::Transceiver { canh, canl } => Some((canh, canl)),
                _ => None,
            },
            None => None,
        }
    }

    /// The TX and RX error counters of the first counters cause, if any.
    pub fn counters(&self) -> (r: Option<(u8, u8)>)
        ensures
            r is Some <==> has_tag(self@, CauseTag::Counters),
            r matches Some(p) ==> exists|i: int|
                is_first_with_tag(self@, CauseTag::Counters, i) && self@[i] == (ErrorCause::Counters {
                    tx: p.0,
                    rx: p.1,
                }),
    {
        let s = self.causes();
        match first_with_tag(s, CauseTag::Counters) {
            Some(i) => match s[i] {
                ErrorCause::Counters { tx, rx } => Some((tx, rx)),
                _ => None,
            },
            None => None,
        }
    }

    /// Whether a cause has the tag `t`.
    pub fn has_cause(&self, t: CauseTag) -> (r: bool)
        ensures
            r == has_tag(self@, t),
    {
        first_with_tag(self.causes(), t).is_some()
    }

    /// Whether a TX timeout was reported.
    pub fn is_transmit_timeout(&self) -> (r: bool)
        ensures
            r == has_tag(self@, CauseTag::TransmitTimeout),
    {
        self.has_cause(CauseTag::TransmitTimeout)
    }

    /// Whether the frame went unacknowledged.
    pub fn is_no_ack(&self) -> (r: bool)
        ensures
            r == has_tag(self@, CauseTag::NoAck),
    {
        self.has_cause(CauseTag::NoAck)
    }

    /// Whether the controller reported a bus-off condition.
    pub fn is_bus_off(&self) -> (r: bool)
        ensures
            r == has_tag(self@, CauseTag::BusOff),
    {
        self.has_cause(CauseTag::BusOff)
    }

    /// Whether a bus error was reported.
    pub fn is_bus_error(&self) -> (r: bool)
        ensures
            r == has_tag(self@, CauseTag::BusError),
    {
        self.has_cause(CauseTag::BusError)
    }

    /// Whether the controller restarted.
    pub fn is_restarted(&self) -> (r: bool)
        ensures
            r == has_tag(self@, CauseTag::Restarted),
    {
        self.has_cause(CauseTag::Restarted)
    }

    /// Whether error counter values were reported.
    pub fn has_counters(&self) -> (r: bool)
        ensures
            r == has_tag(self@, CauseTag::Counters),
    {
        self.has_cause(CauseTag::Counters)
    }

    /// Whether any cause is of kind `kind`.
    pub fn contains_kind(&self, kind: ErrorKind) -> (r: bool)
        ensures
            r == exists|i: int| 0 <= i < self@.len() && #[trigger] cause_kind(self@[i]) == kind,
    {
        let s = self.causes();
        let mut i: usize = 0;
        while i < s.len()
            invariant
                i <= s@.len(),
                s@ == self@,
                forall|j: int| 0 <= j < i ==> #[trigger] cause_kind(s@[j]) != kind,
            decreases s@.len() - i,
        {
            if s[i].kind() == kind {
                assert(cause_kind(self@[i as int]) == kind);
                return true;
            }
            i = i + 1;
        }
        false
    }

    /// The most specific kind reported: the kind of the first cause whose
    /// kind is not `Other`, or `Other` if every cause is unspecific.
    pub fn kind(&self) -> (r: ErrorKind)
        ensures
            r == causes_kind(self@),
    {
        let s = self.causes();
        let mut i: usize = 0;
        assert(s@.skip(0) =~= s@);
        while i < s.len()
            invariant
                i <= s@.len(),
                s@ == self@,
                causes_kind(s@) == causes_kind(s@.skip(i as int)),
            decreases s@.len() - i,
        {
            let k = s[i].kind();
            proof {
                assert(s@.skip(i as int).drop_first() =~= s@.skip(i + 1));
                assert(s@.skip(i as int)[0] == s@[i as int]);
            }
            if k != ErrorKind::Other {
                return k;
            }
            i = i + 1;
        }
        proof {
            assert(s@.skip(i as int) =~= Seq::<ErrorCause>::empty());
        }
        ErrorKind::Other
    }
}

// ===== Text =====

/// Whether any of the first `k` flags of `masks` is set in `bits`.
pub open spec fn any_flag(bits: u8, masks: Seq<u8>, k: nat) -> bool {
    exists|j: int| 0 <= j < k && #[trigger] masks[j] & bits != 0
}

/// The names of the first `k` flags of `masks` that are set in `bits`,
/// joined with ", ".
pub open spec fn flag_names(bits: u8, masks: Seq<u8>, names: Seq<Seq<char>>, k: nat) -> Seq<char>
    decreases k,
{
    if k == 0 {
        Seq::empty()
    } else {
        let prev = flag_names(bits, masks, names, (k - 1) as nat);
        if masks[k - 1] & bits != 0 {
            if any_flag(bits, masks, (k - 1) as nat) {
                prev + ", "@ + names[k - 1]
            } else {
                names[k - 1]
            }
        } else {
            prev
        }
    }
}

/// The masks of the named controller problems, lowest bit first.
pub open spec fn controller_masks() -> Seq<u8> {
    seq![0x01u8, 0x02u8, 0x04u8, 0x08u8, 0x10u8, 0x20u8, 0x40u8]
}

/// The names of the controller problems, lowest bit first.
pub open spec fn controller_names() -> Seq<Seq<char>> {
    seq!["receive buffer overflow"@, "transmit buffer overflow"@, "ERROR WARNING (receive)"@, "ERROR WARNING (transmit)"@, "ERROR PASSIVE (receive)"@, "ERROR PASSIVE (transmit)"@, "back to error active"@]
}

/// The masks of the protocol violation types, lowest bit first.
pub open spec fn violation_masks() -> Seq<u8> {
    seq![0x01u8, 0x02u8, 0x04u8, 0x08u8, 0x10u8, 0x20u8, 0x40u8, 0x80u8]
}

/// The names of the protocol violation types, lowest bit first.
pub open spec fn violation_names() -> Seq<Seq<char>> {
    seq!["single bit error"@, "frame format error"@, "bit stuffing error"@, "unable to send dominant bit"@, "unable to send recessive bit"@, "bus overload"@, "active error announcement"@, "error on transmission"@]
}

/// The rendering of controller problems: the names of the flags set,
/// joined with ", ", or "unspecified controller problem" if none is.
pub open spec fn controller_text(p: ControllerProblems) -> Seq<char> {
    if any_flag(p.bits, controller_masks(), 7) {
        flag_names(p.bits, controller_masks(), controller_names(), 7)
    } else {
        "unspecified controller problem"@
    }
}

/// The rendering of violation types: the names of the types set, joined
/// with ", ", or "unspecified" if none is.
pub open spec fn violation_text(t: ViolationTypes) -> Seq<char> {
    if any_flag(t.bits, violation_masks(), 8) {
        flag_names(t.bits, violation_masks(), violation_names(), 8)
    } else {
        "unspecified"@
    }
}

/// The rendering of a location.
pub open spec fn location_text(l: Location) -> Seq<char> {
    match l {
        Location::Unspecified => "unspecified location"@,
        Location::StartOfFrame => "start of frame"@,
        Location::Id2821 => "ID, bits 28-21"@,
        Location::Id2018 => "ID, bits 20-18"@,
        Location::SubstituteRtr => "substitute RTR bit"@,
        Location::IdentifierExtension => "ID, extension"@,
        Location::Id1713 => "ID, bits 17-13"@,
        Location::Id1205 => "ID, bits 12-05"@,
        Location::Id0400 => "ID, bits 04-00"@,
        Location::Rtr => "RTR bit"@,
        Location::Reserved1 => "reserved bit 1"@,
        Location::Reserved0 => "reserved bit 0"@,
        Location::DataLengthCode => "data length code"@,
        Location::DataSection => "data section"@,
        Location::CrcSequence => "CRC sequence"@,
        Location::CrcDelimiter => "CRC delimiter"@,
        Location::AckSlot => "ACK slot"@,
        Location::AckDelimiter => "ACK delimiter"@,
        Location::EndOfFrame => "end of frame"@,
        Location::Intermission => "intermission"@,
        Location::ActiveErrorFlag => "active error flag"@,
        Location::TolerateDominantBits => "tolerate dominant bits"@,
        Location::PassiveErrorFlag => "passive error flag"@,
        Location::ErrorDelimiter => "error delimiter"@,
        Location::OverloadFlag => "overload flag"@,
        Location::Reserved(v) => "reserved location (0x"@ + hex_fixed_lower(v as nat, 2) + ")"@,
    }
}

/// The rendering of a CAN High fault.
pub open spec fn high_fault_text(f: CanHighFault) -> Seq<char> {
    match f {
        CanHighFault::NoWire => "no wire"@,
        CanHighFault::ShortToBat => "short to BAT"@,
        CanHighFault::ShortToVcc => "short to VCC"@,
        CanHighFault::ShortToGnd => "short to GND"@,
    }
}

/// The rendering of a CAN Low fault.
pub open spec fn low_fault_text(f: CanLowFault) -> Seq<char> {
    match f {
        CanLowFault::NoWire => "no wire"@,
        CanLowFault::ShortToBat => "short to BAT"@,
        CanLowFault::ShortToVcc => "short to VCC"@,
        CanLowFault::ShortToGnd => "short to GND"@,
        CanLowFault::ShortToCanHigh => "short to CAN High"@,
    }
}

/// The rendering of a decoding failure.
pub open spec fn failure_text(f: CanErrorDecodingFailure) -> Seq<char> {
    match f {
        CanErrorDecodingFailure::InvalidControllerProblem => "not a valid controller problem"@,
        CanErrorDecodingFailure::InvalidTransceiverError => "not a valid transceiver error"@,
    }
}

/// The rendering of a construction error.
pub open spec fn construction_error_text(e: ConstructionError) -> Seq<char> {
    match e {
        ConstructionError::WrongFrameType => "Incompatible frame type"@,
        ConstructionError::IDTooLarge => "CAN ID too large"@,
        ConstructionError::TooMuchData => "Payload is too large"@,
    }
}

/// The rendering of the line faults of a transceiver cause.
pub open spec fn transceiver_text(canh: Option<CanHighFault>, canl: Option<CanLowFault>) -> Seq<char> {
    match (canh, canl) {
        (Some(h), Some(l)) => "CAN High, "@ + high_fault_text(h) + "; CAN Low, "@ + low_fault_text(l),
        (Some(h), None) => "CAN High, "@ + high_fault_text(h),
        (None, Some(l)) => "CAN Low, "@ + low_fault_text(l),
        (None, None) => "unspecified"@,
    }
}

/// The rendering of a cause.
pub open spec fn cause_text(c: ErrorCause) -> Seq<char> {
    match c {
        ErrorCause::TransmitTimeout => "transmission timeout"@,
        ErrorCause::LostArbitration(n) => "arbitration lost after "@ + dec(n as nat) + " bits"@,
        ErrorCause::Controller(p) => "controller problem: "@ + controller_text(p),
        ErrorCause::Protocol { types, location } => "protocol violation at "@ + location_text(location)
            + ": "@ + violation_text(types),
        ErrorCause::Transceiver { canh, canl } => "transceiver error: "@ + transceiver_text(canh, canl),
        ErrorCause::NoAck => "no ack"@,
        ErrorCause::BusOff => "bus off"@,
        ErrorCause::BusError => "bus error"@,
        ErrorCause::Restarted => "restarted"@,
        ErrorCause::Counters { tx, rx } => "error counters: tx="@ + dec(tx as nat) + ", rx="@ + dec(
            rx as nat,
        ),
        ErrorCause::DecodingFailure(f) => "decoding failure: "@ + failure_text(f),
        ErrorCause::Unknown(bits) => "unknown error (0x"@ + hex_min_lower(bits as nat) + ")"@,
    }
}

/// The rendering of a list of causes: each cause, joined with "; ".
pub open spec fn causes_text(s: Seq<ErrorCause>) -> Seq<char>
    decreases s.len(),
{
    if s.len() == 0 {
        Seq::empty()
    } else if s.len() == 1 {
        cause_text(s[0])
    } else {
        causes_text(s.drop_last()) + "; "@ + cause_text(s.last())
    }
}

/// No name is listed while no flag is set.
proof fn lemma_flag_names_empty(bits: u8, masks: Seq<u8>, names: Seq<Seq<char>>, k: nat)
    requires
        !any_flag(bits, masks, k),
    ensures
        flag_names(bits, masks, names, k) == Seq::<char>::empty(),
    decreases k,
{
    if k > 0 {
        assert(!any_flag(bits, masks, (k - 1) as nat));
        lemma_flag_names_empty(bits, masks, names, (k - 1) as nat);
        assert(!(masks[k - 1] & bits != 0));
    }
}

/// Appends the names of the flags of `masks` set in `bits`, joined with
/// ", ".
fn push_flag_names(out: &mut Vec<char>, bits: u8, masks: &[u8], names: &[&str], Ghost(spec_names): Ghost<Seq<Seq<char>>>)
    requires
        masks@.len() == names@.len() == spec_names.len(),
        forall|i: int| 0 <= i < names@.len() ==> #[trigger] names@[i]@ == spec_names[i],
    ensures
        final(out)@ == old(out)@ + flag_names(bits, masks@, spec_names, masks@.len()),
{
    let ghost start = out@;
    let mut first = true;
    let mut i: usize = 0;
    while i < masks.len()
        invariant
            i <= masks@.len() == names@.len() == spec_names.len(),
            forall|k: int| 0 <= k < names@.len() ==> #[trigger] names@[k]@ == spec_names[k],
            out@ == start + flag_names(bits, masks@, spec_names, i as nat),
            first == !any_flag(bits, masks@, i as nat),
        decreases masks@.len() - i,
    {
        if masks[i] & bits != 0 {
            if !first {
                push_str(out, ", ");
            } else {
                proof {
                    lemma_flag_names_empty(bits, masks@, spec_names, i as nat);
                }
            }
            push_str(out, names[i]);
            first = false;
            assert(any_flag(bits, masks@, (i + 1) as nat)) by {
                assert(masks@[i as int] & bits != 0);
            }
            assert(names@[i as int]@ == spec_names[i as int]);
            assert(out@ =~= start + flag_names(bits, masks@, spec_names, (i + 1) as nat));
        } else {
            assert(any_flag(bits, masks@, (i + 1) as nat) == any_flag(bits, masks@, i as nat)) by {
                if any_flag(bits, masks@, (i + 1) as nat) {
                    let j = choose|j: int| 0 <= j < i + 1 && #[trigger] masks@[j] & bits != 0;
                    assert(j < i);
                }
            }
        }
        i = i + 1;
    }
}

/// Whether a flag of `masks` is set in `bits`.
fn any_flag_set(bits: u8, masks: &[u8]) -> (r: bool)
    ensures
        r == any_flag(bits, masks@, masks@.len()),
{
    let mut i: usize = 0;
    while i < masks.len()
        invariant
            i <= masks@.len(),
            forall|j: int| 0 <= j < i ==> #[trigger] masks@[j] & bits == 0,
        decreases masks@.len() - i,
    {
        if masks[i] & bits != 0 {
            assert(masks@[i as int] & bits != 0);
            return true;
        }
        i = i + 1;
    }
    false
}

impl ControllerProblems {
    /// Appends the rendering of the flags.
    pub fn push_text(&self, out: &mut Vec<char>)
        ensures
            final(out)@ == old(out)@ + controller_text(*self),
    {
        let masks: [u8; 7] = [0x01, 0x02, 0x04, 0x08, 0x10, 0x20, 0x40];
        let names: [&str; 7] = ["receive buffer overflow", "transmit buffer overflow", "ERROR WARNING (receive)", "ERROR WARNING (transmit)", "ERROR PASSIVE (receive)", "ERROR PASSIVE (transmit)", "back to error active"];
        assert(masks@ == controller_masks());
        assert(forall|i: int| 0 <= i < 7 ==> #[trigger] names@[i]@ == controller_names()[i]);
        if any_flag_set(self.bits, masks.as_slice()) {
            push_flag_names(out, self.bits, masks.as_slice(), names.as_slice(), Ghost(controller_names()));
        } else {
            push_str(out, "unspecified controller problem");
        }
    }

    /// The rendering of the flags: their names joined with ", ".
    pub fn to_string(&self) -> (r: String)
        ensures
            r@ == controller_text(*self),
    {
        let mut out: Vec<char> = Vec::new();
        self.push_text(&mut out);
        string_from_chars(out.as_slice())
    }
}

impl ViolationTypes {
    /// Appends the rendering of the types.
    pub fn push_text(&self, out: &mut Vec<char>)
        ensures
            final(out)@ == old(out)@ + violation_text(*self),
    {
        let masks: [u8; 8] = [0x01, 0x02, 0x04, 0x08, 0x10, 0x20, 0x40, 0x80];
        let names: [&str; 8] = ["single bit error", "frame format error", "bit stuffing error", "unable to send dominant bit", "unable to send recessive bit", "bus overload", "active error announcement", "error on transmission"];
        assert(masks@ == violation_masks());
        assert(forall|i: int| 0 <= i < 8 ==> #[trigger] names@[i]@ == violation_names()[i]);
        if any_flag_set(self.bits, masks.as_slice()) {
            push_flag_names(out, self.bits, masks.as_slice(), names.as_slice(), Ghost(violation_names()));
        } else {
            push_str(out, "unspecified");
        }
    }

    /// The rendering of the types: their names joined with ", ".
    pub fn to_string(&self) -> (r: String)
        ensures
            r@ == violation_text(*self),
    {
        let mut out: Vec<char> = Vec::new();
        self.push_text(&mut out);
        string_from_chars(out.as_slice())
    }
}

impl Location {
    /// Appends the rendering of the location.
    pub fn push_text(&self, out: &mut Vec<char>)
        ensures
            final(out)@ == old(out)@ + location_text(*self),
    {
        let s = match *self {
            Location::Unspecified => "unspecified location",
            Location::StartOfFrame => "start of frame",
            Location::Id2821 => "ID, bits 28-21",
            Location::Id2018 => "ID, bits 20-18",
            Location::SubstituteRtr => "substitute RTR bit",
            Location::IdentifierExtension => "ID, extension",
            Location::Id1713 => "ID, bits 17-13",
            Location::Id1205 => "ID, bits 12-05",
            Location::Id0400 => "ID, bits 04-00",
            Location::Rtr => "RTR bit",
            Location::Reserved1 => "reserved bit 1",
            Location::Reserved0 => "reserved bit 0",
            Location::DataLengthCode => "data length code",
            Location::DataSection => "data section",
            Location::CrcSequence => "CRC sequence",
            Location::CrcDelimiter => "CRC delimiter",
            Location::AckSlot => "ACK slot",
            Location::AckDelimiter => "ACK delimiter",
            Location::EndOfFrame => "end of frame",
            Location::Intermission => "intermission",
            Location::ActiveErrorFlag => "active error flag",
            Location::TolerateDominantBits => "tolerate dominant bits",
            Location::PassiveErrorFlag => "passive error flag",
            Location::ErrorDelimiter => "error delimiter",
            Location::OverloadFlag => "overload flag",
            Location::Reserved(v) => {
                push_str(out, "reserved location (0x");
                push_hex_fixed_lower(out, v as u64, 2);
                push_str(out, ")");
                assert(out@ =~= old(out)@ + location_text(*self));
                return;
            },
        };
        push_str(out, s);
    }

    /// The rendering of the location.
    pub fn to_string(&self) -> (r: String)
        ensures
            r@ == location_text(*self),
    {
        let mut out: Vec<char> = Vec::new();
        self.push_text(&mut out);
        string_from_chars(out.as_slice())
    }
}

impl CanHighFault {
    /// The rendering of the fault.
    pub fn to_str(&self) -> (r: &'static str)
        ensures
            r@ == high_fault_text(*self),
    {
        match self {
            CanHighFault::NoWire => "no wire",
            CanHighFault::ShortToBat => "short to BAT",
            CanHighFault::ShortToVcc => "short to VCC",
            CanHighFault::ShortToGnd => "short to GND",
        }
    }
}

impl CanLowFault {
    /// The rendering of the fault.
    pub fn to_str(&self) -> (r: &'static str)
        ensures
            r@ == low_fault_text(*self),
    {
        match self {
            CanLowFault::NoWire => "no wire",
            CanLowFault::ShortToBat => "short to BAT",
            CanLowFault::ShortToVcc => "short to VCC",
            CanLowFault::ShortToGnd => "short to GND",
            CanLowFault::ShortToCanHigh => "short to CAN High",
        }
    }
}

impl CanErrorDecodingFailure {
    /// The rendering of the failure.
    pub fn to_str(&self) -> (r: &'static str)
        ensures
            r@ == failure_text(*self),
    {
        match self {
            CanErrorDecodingFailure::InvalidControllerProblem => "not a valid controller problem",
            CanErrorDecodingFailure::InvalidTransceiverError => "not a valid transceiver error",
        }
    }
}

impl ConstructionError {
    /// The rendering of the error.
    pub fn to_str(&self) -> (r: &'static str)
        ensures
            r@ == construction_error_text(*self),
    {
        match self {
            ConstructionError::WrongFrameType => "Incompatible frame type",
            ConstructionError::IDTooLarge => "CAN ID too large",
            ConstructionError::TooMuchData => "Payload is too large",
        }
    }
}

impl ErrorCause {
    /// Appends the rendering of the cause.
    pub fn push_text(&self, out: &mut Vec<char>)
        ensures
            final(out)@ == old(out)@ + cause_text(*self),
    {
        match *self {
            ErrorCause::TransmitTimeout => push_str(out, "transmission timeout"),
            ErrorCause::LostArbitration(n) => {
                push_str(out, "arbitration lost after ");
                push_dec(out, n as u64);
                push_str(out, " bits");
            },
            ErrorCause::Controller(p) => {
                push_str(out, "controller problem: ");
                p.push_text(out);
            },
            ErrorCause::Protocol { types, location } => {
                push_str(out, "protocol violation at ");
                location.push_text(out);
                push_str(out, ": ");
                types.push_text(out);
            },
            ErrorCause::Transceiver { canh, canl } => {
                push_str(out, "transceiver error: ");
                match (canh, canl) {
                    (Some(h), Some(l)) => {
                        push_str(out, "CAN High, ");
                        push_str(out, h.to_str());
                        push_str(out, "; CAN Low, ");
                        push_str(out, l.to_str());
                    },
                    (Some(h), None) => {
                        push_str(out, "CAN High, ");
                        push_str(out, h.to_str());
                    },
                    (None, Some(l)) => {
                        push_str(out, "CAN Low, ");
                        push_str(out, l.to_str());
                    },
                    (None, None) => push_str(out, "unspecified"),
                }
            },
            ErrorCause::NoAck => push_str(out, "no ack"),
            ErrorCause::BusOff => push_str(out, "bus off"),
            ErrorCause::BusError => push_str(out, "bus error"),
            ErrorCause::Restarted => push_str(out, "restarted"),
            ErrorCause::Counters { tx, rx } => {
                push_str(out, "error counters: tx=");
                push_dec(out, tx as u64);
                push_str(out, ", rx=");
                push_dec(out, rx as u64);
            },
            ErrorCause::DecodingFailure(f) => {
                push_str(out, "decoding failure: ");
                push_str(out, f.to_str());
            },
            ErrorCause::Unknown(bits) => {
                push_str(out, "unknown error (0x");
                push_hex_min_lower(out, bits as u64);
                push_str(out, ")");
            },
        }
        assert(out@ =~= old(out)@ + cause_text(*self));
    }

    /// The rendering of the cause.
    pub fn to_string(&self) -> (r: String)
        ensures
            r@ == cause_text(*self),
    {
        let mut out: Vec<char> = Vec::new();
        self.push_text(&mut out);
        assert(out@ =~= cause_text(*self));
        string_from_chars(out.as_slice())
    }
}

impl CanError {
    /// The rendering of the error: each cause, joined with "; ".
    pub fn to_string(&self) -> (r: String)
        ensures
            r@ == causes_text(self@),
    {
        let s = self.causes();
        let mut out: Vec<char> = Vec::new();
        let mut i: usize = 0;
        while i < s.len()
            invariant
                i <= s@.len(),
                out@ == causes_text(s@.take(i as int)),
            decreases s@.len() - i,
        {
            if i > 0 {
                push_str(&mut out, "; ");
            }
            s[i].push_text(&mut out);
            proof {
                assert(s@.take(i + 1).drop_last() =~= s@.take(i as int));
                if i == 0 {
                    assert(out@ =~= causes_text(s@.take(1)));
                } else {
                    assert(out@ =~= causes_text(s@.take(i + 1)));
                }
            }
            i = i + 1;
        }
        assert(s@.take(i as int) =~= s@);
        string_from_chars(out.as_slice())
    }
}

// ===== Controller-specific error information =====

/// Access to the controller-specific bytes of an error frame.
pub trait ControllerSpecificErrorInformation {
    /// The payload of the frame.
    spec fn frame_data(&self) -> Seq<u8>;

    /// The controller-specific error information: the last three bytes of
    /// an 8-byte payload, or `None` for any other length.
    fn get_ctrl_err(&self) -> (r: Option<&[u8]>)
        ensures
            r is Some <==> self.frame_data().len() == 8,
            r matches Some(s) ==> s@ == self.frame_data().skip(5),
    ;
}

/// The last three bytes of an 8-byte payload.
fn ctrl_err_of(data: &[u8]) -> (r: Option<&[u8]>)
    ensures
        r is Some <==> data@.len() == 8,
        r matches Some(s) ==> s@ == data@.skip(5),
{
    if data.len() == 8 {
        let s = &data[5..8];
        assert(s@ =~= data@.skip(5));
        Some(s)
    } else {
        None
    }
}

impl ControllerSpecificErrorInformation for CanDataFrame {
    open spec fn frame_data(&self) -> Seq<u8> {
        self@.payload()
    }

    fn get_ctrl_err(&self) -> (r: Option<&[u8]>) {
        ctrl_err_of(self.data())
    }
}

impl ControllerSpecificErrorInformation for CanRemoteFrame {
    open spec fn frame_data(&self) -> Seq<u8> {
        Seq::empty()
    }

    fn get_ctrl_err(&self) -> (r: Option<&[u8]>) {
        ctrl_err_of(self.data())
    }
}

impl ControllerSpecificErrorInformation for CanErrorFrame {
    open spec fn frame_data(&self) -> Seq<u8> {
        self@.bytes
    }

    fn get_ctrl_err(&self) -> (r: Option<&[u8]>) {
        ctrl_err_of(self.data())
    }
}

impl ControllerSpecificErrorInformation for CanFdFrame {
    open spec fn frame_data(&self) -> Seq<u8> {
        self@.payload()
    }

    fn get_ctrl_err(&self) -> (r: Option<&[u8]>) {
        ctrl_err_of(self.data())
    }
}

impl ControllerSpecificErrorInformation for CanFrame {
    open spec fn frame_data(&self) -> Seq<u8> {
        match self {
            CanFrame::Remote(_) => Seq::empty(),
            _ => self@.payload(),
        }
    }

    fn get_ctrl_err(&self) -> (r: Option<&[u8]>) {
        ctrl_err_of(self.data())
    }
}

impl ControllerSpecificErrorInformation for CanAnyFrame {
    open spec fn frame_data(&self) -> Seq<u8> {
        match self {
            CanAnyFrame::Remote(_) => Seq::empty(),
            _ => self@.payload(),
        }
    }

    fn get_ctrl_err(&self) -> (r: Option<&[u8]>) {
        ctrl_err_of(self.data())
    }
}

/// A [`CanError`] was to be built from an empty list of causes.
#[derive(Debug, Clone, Copy, PartialEq, Eq, Hash, Structural)]
pub struct EmptyCanError;

impl EmptyCanError {
    /// The rendering of the error.
    pub fn to_str(&self) -> (r: &'static str)
        ensures
            r@ == "a CanError must hold at least one cause"@,
    {
        "a CanError must hold at least one cause"
    }
}

impl CanError {
    /// Rebuilds an error from its causes, refusing an empty list. The list
    /// holds fewer than 2^28 causes, as for [`CanError::from_multiple`].
    pub fn try_from_causes(causes: Vec<ErrorCause>) -> (r: Result<CanError, EmptyCanError>)
        requires
            causes@.len() < 0x1000_0000,
        ensures
            r is Ok <==> causes@.len() > 0,
            r matches Ok(e) ==> e@ == causes@,
    {
        match Self::from_iter_checked(causes.as_slice()) {
            Some(e) => Ok(e),
            None => Err(EmptyCanError),
        }
    }
}

impl Clone for CanError {
    /// A copy holding the same causes.
    fn clone(&self) -> (r: CanError)
        ensures
            r@ == self@,
    {
        proof {
            use_type_invariant(self);
        }
        Self::from_iter_checked(self.causes()).unwrap()
    }
}


// ===== Composite error =====

/// The kinds of I/O error that this library reports on its own.
#[derive(Debug, Clone, Copy, PartialEq, Eq, Hash, Structural)]
pub enum IoFailure {
    /// `io::ErrorKind::InvalidInput`
    InvalidInput,
    /// `io::ErrorKind::InvalidData`
    InvalidData,
}

/// The kind of I/O error a failure of this library is reported as.
pub open spec fn io_failure_kind(kind: IoFailure) -> IoKind {
    match kind {
        IoFailure::InvalidInput => IoKind::InvalidInput,
        IoFailure::InvalidData => IoKind::InvalidData,
    }
}

/// An I/O error of the given kind, with nothing else in it, as
/// `io::Error::from(kind)` makes it.
pub(crate) fn io_error_of(kind: IoFailure) -> (r: std::io::Error)
    ensures
        std_io_kind(io_error_kind(r)) == io_failure_kind(kind),
        io_error_errno(r) is None,
{
    let k = match kind {
        IoFailure::InvalidInput => IoKind::InvalidInput,
        IoFailure::InvalidData => IoKind::InvalidData,
    };
    io_error_from_kind(std_kind(k))
}

/// Any error of this library: a CAN error decoded from an error frame, or
/// an I/O error of the system.
#[derive(Debug)]
pub enum Error {
    /// A CAN error decoded from an error frame.
    Can(CanError),
    /// An I/O error.
    Io(std::io::Error),
    /// A failure reported by the netlink protocol layer.
    Nl(crate::nl::NlError),
    /// A candump log could not be read or parsed.
    Parser(crate::dump::ParseError),
}

impl Error {
    /// The general kind of the error: that of a CAN error, `Other` for
    /// any other error.
    pub fn kind(&self) -> (r: ErrorKind)
        ensures
            r == (match self {
                Error::Can(e) => causes_kind(e@),
                _ => ErrorKind::Other,
            }),
    {
        match self {
            Error::Can(e) => e.kind(),
            _ => ErrorKind::Other,
        }
    }

    /// Wraps a single cause, promoting it to a one-cause [`CanError`].
    pub fn from_cause(cause: ErrorCause) -> (r: Error)
        ensures
            r matches Error::Can(e) && e@ == seq![cause],
    {
        Error::Can(CanError::new(cause))
    }

    /// Wraps a CAN error.
    pub fn from_can_error(err: CanError) -> (r: Error)
        ensures
            r matches Error::Can(e) && e@ == err@,
    {
        Error::Can(err)
    }

    /// Wraps a netlink failure.
    pub fn from_nl_error(err: crate::nl::NlError) -> (r: Error)
        ensures
            r == Error::Nl(err),
    {
        Error::Nl(err)
    }

    /// Decodes an error frame into a CAN error.
    pub fn from_error_frame(frame: &CanErrorFrame) -> (r: Error)
        ensures
            r matches Error::Can(e) && e@ == frame_causes(frame@),
    {
        Error::Can(CanError::from_error_frame(frame))
    }

    /// Wraps a parse error of a candump log, keeping its identity.
    pub fn from_parse_error(err: crate::dump::ParseError) -> (r: Error)
        ensures
            r == Error::Parser(err),
    {
        Error::Parser(err)
    }
}

impl From<ErrorCause> for Error {
    /// Wraps a single cause, as [`Error::from_cause`] does.
    fn from(cause: ErrorCause) -> (r: Error)
        ensures
            r matches Error::Can(e) && e@ == seq![cause],
    {
        Error::from_cause(cause)
    }
}

impl vstd::std_specs::convert::FromSpecImpl<ErrorCause> for Error {
    /// What the conversion gives is stated over the causes of the wrapped
    /// error, by the `ensures` of `from`, not as a whole value.
    open spec fn obeys_from_spec() -> bool {
        false
    }

    open spec fn from_spec(cause: ErrorCause) -> Error {
        arbitrary()
    }
}

impl From<CanErrorFrame> for Error {
    /// Decodes an error frame into a CAN error, as
    /// [`Error::from_error_frame`] does.
    fn from(frame: CanErrorFrame) -> (r: Error)
        ensures
            r matches Error::Can(e) && e@ == frame_causes(frame@),
    {
        Error::from_error_frame(&frame)
    }
}

impl vstd::std_specs::convert::FromSpecImpl<CanErrorFrame> for Error {
    /// What the conversion gives is stated over the causes of the wrapped
    /// error, by the `ensures` of `from`, not as a whole value.
    open spec fn obeys_from_spec() -> bool {
        false
    }

    open spec fn from_spec(frame: CanErrorFrame) -> Error {
        arbitrary()
    }
}

impl From<crate::dump::ParseError> for Error {
    /// Wraps a parse error of a candump log, keeping its identity.
    fn from(err: crate::dump::ParseError) -> (r: Error) {
        Error::from_parse_error(err)
    }
}

impl vstd::std_specs::convert::FromSpecImpl<crate::dump::ParseError> for Error {
    open spec fn obeys_from_spec() -> bool {
        true
    }

    open spec fn from_spec(err: crate::dump::ParseError) -> Error {
        Error::Parser(err)
    }
}

impl From<std::io::Error> for Error {
    /// Wraps an I/O error.
    fn from(err: std::io::Error) -> (r: Error) {
        Error::Io(err)
    }
}

impl vstd::std_specs::convert::FromSpecImpl<std::io::Error> for Error {
    open spec fn obeys_from_spec() -> bool {
        true
    }

    open spec fn from_spec(err: std::io::Error) -> Error {
        Error::Io(err)
    }
}

impl From<std::io::ErrorKind> for Error {
    /// An I/O error of the given kind, with nothing else in it.
    fn from(kind: std::io::ErrorKind) -> (r: Error)
        ensures
            r matches Error::Io(e) && io_error_kind(e) == kind && io_error_errno(e) is None,
    {
        Error::Io(io_error_from_kind(kind))
    }
}

impl vstd::std_specs::convert::FromSpecImpl<std::io::ErrorKind> for Error {
    /// What the conversion gives is stated over the wrapped error's kind, by
    /// the `ensures` of `from`, not as a whole value.
    open spec fn obeys_from_spec() -> bool {
        false
    }

    open spec fn from_spec(kind: std::io::ErrorKind) -> Error {
        arbitrary()
    }
}

impl From<CanError> for Error {
    /// Wraps a CAN error.
    fn from(err: CanError) -> (r: Error) {
        Error::Can(err)
    }
}

impl vstd::std_specs::convert::FromSpecImpl<CanError> for Error {
    open spec fn obeys_from_spec() -> bool {
        true
    }

    open spec fn from_spec(err: CanError) -> Error {
        Error::Can(err)
    }
}

/// `data[1]` of an error frame: RX buffer overflow (`CAN_ERR_CRTL_RX_OVERFLOW`).
pub const CAN_ERR_CRTL_RX_OVERFLOW: u8 = 0x01;
/// `data[1]` of an error frame: TX buffer overflow (`CAN_ERR_CRTL_TX_OVERFLOW`).
pub const CAN_ERR_CRTL_TX_OVERFLOW: u8 = 0x02;
/// `data[2]` of an error frame: single bit error (`CAN_ERR_PROT_BIT`).
pub const CAN_ERR_PROT_BIT: u8 = 0x01;
/// `data[2]` of an error frame: frame format error (`CAN_ERR_PROT_FORM`).
pub const CAN_ERR_PROT_FORM: u8 = 0x02;
/// `data[2]` of an error frame: bit stuffing error (`CAN_ERR_PROT_STUFF`).
pub const CAN_ERR_PROT_STUFF: u8 = 0x04;
/// `data[2]` of an error frame: unable to send a dominant bit (`CAN_ERR_PROT_BIT0`).
pub const CAN_ERR_PROT_BIT0: u8 = 0x08;
/// `data[2]` of an error frame: unable to send a recessive bit (`CAN_ERR_PROT_BIT1`).
pub const CAN_ERR_PROT_BIT1: u8 = 0x10;

/// A controller cause is an overrun exactly when a buffer overflowed, RX or
/// TX, each on its own enough; any other controller problem is of kind
/// `Other`.
pub proof fn lemma_controller_kind(p: ControllerProblems)
    ensures
        cause_kind(ErrorCause::Controller(p)) == ErrorKind::Overrun <==> (p.bits & CAN_ERR_CRTL_RX_OVERFLOW != 0
            || p.bits & CAN_ERR_CRTL_TX_OVERFLOW != 0),
        cause_kind(ErrorCause::Controller(p)) == ErrorKind::Overrun || cause_kind(ErrorCause::Controller(p))
            == ErrorKind::Other,
{
    let b = p.bits;
    assert(b & 0x03u8 != 0 <==> (b & 0x01u8 != 0 || b & 0x02u8 != 0)) by (bit_vector);
}

/// A protocol violation is a bit error when any of the bit-level violation
/// types is set (single bit, dominant or recessive bit); else a form error
/// when the frame format is violated; else a stuffing error when bit
/// stuffing is; and of kind `Other` when none of these is set. Where it
/// happened plays no part.
pub proof fn lemma_protocol_kind(types: ViolationTypes, location: Location)
    ensures
        ({
            let k = cause_kind(ErrorCause::Protocol { types, location });
            let t = types.bits;
            let bit = t & CAN_ERR_PROT_BIT != 0 || t & CAN_ERR_PROT_BIT0 != 0 || t & CAN_ERR_PROT_BIT1 != 0;
            &&& k == ErrorKind::Bit <==> bit
            &&& k == ErrorKind::Form <==> !bit && t & CAN_ERR_PROT_FORM != 0
            &&& k == ErrorKind::Stuff <==> !bit && t & CAN_ERR_PROT_FORM == 0 && t & CAN_ERR_PROT_STUFF != 0
            &&& k == ErrorKind::Other <==> !bit && t & CAN_ERR_PROT_FORM == 0 && t & CAN_ERR_PROT_STUFF == 0
        }),
{
    let t = types.bits;
    assert(t & 0x19u8 != 0 <==> (t & 0x01u8 != 0 || t & 0x08u8 != 0 || t & 0x10u8 != 0)) by (bit_vector);
    assert(t & 0x02u8 == 0x02u8 <==> t & 0x02u8 != 0) by (bit_vector);
    assert(t & 0x04u8 == 0x04u8 <==> t & 0x04u8 != 0) by (bit_vector);
}

/// A missing ACK is an acknowledgement error, and every cause that is not a
/// controller problem, a protocol violation or a missing ACK is of kind
/// `Other`.
pub proof fn lemma_other_cause_kinds(c: ErrorCause)
    requires
        c !is Controller,
        c !is Protocol,
    ensures
        cause_kind(c) == (if c is NoAck {
            ErrorKind::Acknowledge
        } else {
            ErrorKind::Other
        }),
{
}

} // verus!
