//! A decoder of error frames that report exactly one error class.
//!
//! Each frame decodes to one [`CANError`]: the error-class field of the ID
//! word must hold a single known class bit, and each detail byte must hold
//! one known code. [`crate::errors`] decodes frames that report several
//! causes at once.
use vstd::prelude::*;
use crate::frame::{CanFrame, word_err};
use crate::id::CAN_ERR_MASK;
pub use crate::errors::ControllerSpecificErrorInformation;

verus! {

/// An error frame could not be decoded to a [`CANError`].
#[derive(Copy, Clone, Debug, PartialEq, Eq, Hash, Structural)]
pub enum CANErrorDecodingFailure {
    /// The frame did not have the error bit set.
    NotAnError,
    /// The error type is not known and cannot be decoded.
    UnknownErrorType(u32),
    /// The error type needs the data byte at this index, which the frame
    /// does not have.
    NotEnoughData(u8),
    /// The controller problem byte held an unknown code.
    InvalidControllerProblem,
    /// The protocol violation type byte held an unknown code.
    InvlaidViolationType,
    /// The protocol violation location byte held an unknown code.
    InvalidLocation,
    /// The transceiver byte held an unknown code.
    InvalidTransceiverError,
}

/// The error an error frame reports.
#[derive(Copy, Clone, Debug, PartialEq, Eq, Hash, Structural)]
pub enum CANError {
    /// TX timeout (by netdevice driver)
    TransmitTimeout,
    /// Arbitration was lost after the given bit, 0 if unspecified.
    LostArbitration(u8),
    /// A controller problem
    ControllerProblem(ControllerProblem),
    /// A protocol violation
    ProtocolViolation {
        /// The type of violation
        vtype: ViolationType,
        /// Where in the frame it happened
        location: Location,
    },
    /// A transceiver error
    TransceiverError,
    /// No ACK received
    NoAck,
    /// Bus off
    BusOff,
    /// Bus error
    BusError,
    /// The controller was restarted
    Restarted,
    /// Unknown error class bits
    Unknown(u32),
}

/// A controller problem: one code of the controller byte.
#[derive(Copy, Clone, Debug, PartialEq, Eq, Hash, Structural)]
pub enum ControllerProblem {
    /// unspecified
    Unspecified,
    /// RX buffer overflow
    ReceiveBufferOverflow,
    /// TX buffer overflow
    TransmitBufferOverflow,
    /// reached warning level for RX errors
    ReceiveErrorWarning,
    /// reached warning level for TX errors
    TransmitErrorWarning,
    /// reached error passive status RX
    ReceiveErrorPassive,
    /// reached error passive status TX
    TransmitErrorPassive,
    /// recovered to error active state
    Active,
}

/// The controller problem with code `v`.
pub open spec fn controller_problem_of(v: u8) -> Option<ControllerProblem> {
    match v {
        0x00 => Some(ControllerProblem::Unspecified),
        0x01 => Some(ControllerProblem::ReceiveBufferOverflow),
        0x02 => Some(ControllerProblem::TransmitBufferOverflow),
        0x04 => Some(ControllerProblem::ReceiveErrorWarning),
        0x08 => Some(ControllerProblem::TransmitErrorWarning),
        0x10 => Some(ControllerProblem::ReceiveErrorPassive),
        0x20 => Some(ControllerProblem::TransmitErrorPassive),
        0x40 => Some(ControllerProblem::Active),
        _ => None,
    }
}

impl ControllerProblem {
    /// Decodes the controller byte.
    pub fn try_from_u8(val: u8) -> (r: Result<ControllerProblem, CANErrorDecodingFailure>)
        ensures
            r is Ok <==> controller_problem_of(val) is Some,
            r matches Ok(p) ==> controller_problem_of(val) == Some(p),
            r matches Err(e) ==> e == CANErrorDecodingFailure::InvalidControllerProblem,
    {
        match val {
            0x00 => Ok(ControllerProblem::Unspecified),
            0x01 => Ok(ControllerProblem::ReceiveBufferOverflow),
            0x02 => Ok(ControllerProblem::TransmitBufferOverflow),
            0x04 => Ok(ControllerProblem::ReceiveErrorWarning),
            0x08 => Ok(ControllerProblem::TransmitErrorWarning),
            0x10 => Ok(ControllerProblem::ReceiveErrorPassive),
            0x20 => Ok(ControllerProblem::TransmitErrorPassive),
            0x40 => Ok(ControllerProblem::Active),
            _ => Err(CANErrorDecodingFailure::InvalidControllerProblem),
        }
    }
}

/// A protocol violation type: one code of the violation byte.
#[derive(Copy, Clone, Debug, PartialEq, Eq, Hash, Structural)]
pub enum ViolationType {
    /// unspecified
    Unspecified,
    /// single bit error
    SingleBitError,
    /// frame format error
    FrameFormatError,
    /// bit stuffing error
    BitStuffingError,
    /// unable to send dominant bit
    UnableToSendDominantBit,
    /// unable to send recessive bit
    UnableToSendRecessiveBit,
    /// bus overload
    BusOverload,
    /// active error announcement
    Active,
    /// error occurred on transmission
    TransmissionError,
}

/// The violation type with code `v`.
pub open spec fn violation_type_of(v: u8) -> Option<ViolationType> {
    match v {
        0x00 => Some(ViolationType::Unspecified),
        0x01 => Some(ViolationType::SingleBitError),
        0x02 => Some(ViolationType::FrameFormatError),
        0x04 => Some(ViolationType::BitStuffingError),
        0x08 => Some(ViolationType::UnableToSendDominantBit),
        0x10 => Some(ViolationType::UnableToSendRecessiveBit),
        0x20 => Some(ViolationType::BusOverload),
        0x40 => Some(ViolationType::Active),
        0x80 => Some(ViolationType::TransmissionError),
        _ => None,
    }
}

impl ViolationType {
    /// Decodes the violation type byte.
    pub fn try_from_u8(val: u8) -> (r: Result<ViolationType, CANErrorDecodingFailure>)
        ensures
            r is Ok <==> violation_type_of(val) is Some,
            r matches Ok(t) ==> violation_type_of(val) == Some(t),
            r matches Err(e) ==> e == CANErrorDecodingFailure::InvlaidViolationType,
    {
        match val {
            0x00 => Ok(ViolationType::Unspecified),
            0x01 => Ok(ViolationType::SingleBitError),
            0x02 => Ok(ViolationType::FrameFormatError),
            0x04 => Ok(ViolationType::BitStuffingError),
            0x08 => Ok(ViolationType::UnableToSendDominantBit),
            0x10 => Ok(ViolationType::UnableToSendRecessiveBit),
            0x20 => Ok(ViolationType::BusOverload),
            0x40 => Ok(ViolationType::Active),
            0x80 => Ok(ViolationType::TransmissionError),
            _ => Err(CANErrorDecodingFailure::InvlaidViolationType),
        }
    }
}

/// Where in a received frame an error occurred: one of the nineteen codes
/// the kernel names.
#[derive(Copy, Clone, Debug, PartialEq, Eq, Hash, Structural)]
pub enum Location {
    /// Unspecified
    Unspecified,
    /// Start of frame.
    StartOfFrame,
    /// ID bits 28-21 (SFF: 10-3)
    Id2821,
    /// ID bits 20-18 (SFF: 2-0)
    Id2018,
    /// substitute RTR (SFF: RTR)
    SubstituteRtr,
    /// extension of identifier
    IdentifierExtension,
    /// ID bits 17-13
    Id1713,
    /// ID bits 12-5
    Id1205,
    /// ID bits 4-0
    Id0400,
    /// RTR bit
    Rtr,
    /// Reserved bit 1
    Reserved1,
    /// Reserved bit 0
    Reserved0,
    /// Data length
    DataLengthCode,
    /// Data section
    DataSection,
    /// CRC sequence
    CrcSequence,
    /// CRC delimiter
    CrcDelimiter,
    /// ACK slot
    AckSlot,
    /// ACK delimiter
    AckDelimiter,
    /// End-of-frame
    EndOfFrame,
    /// Intermission (between frames)
    Intermission,
}

/// The location with code `v`.
pub open spec fn location_of(v: u8) -> Option<Location> {
    match v {
        0x00 => Some(Location::Unspecified),
        0x03 => Some(Location::StartOfFrame),
        0x02 => Some(Location::Id2821),
        0x06 => Some(Location::Id2018),
        0x04 => Some(Location::SubstituteRtr),
        0x05 => Some(Location::IdentifierExtension),
        0x07 => Some(Location::Id1713),
        0x0F => Some(Location::Id1205),
        0x0E => Some(Location::Id0400),
        0x0C => Some(Location::Rtr),
        0x0D => Some(Location::Reserved1),
        0x09 => Some(Location::Reserved0),
        0x0B => Some(Location::DataLengthCode),
        0x0A => Some(Location::DataSection),
        0x08 => Some(Location::CrcSequence),
        0x18 => Some(Location::CrcDelimiter),
        0x19 => Some(Location::AckSlot),
        0x1B => Some(Location::AckDelimiter),
        0x1A => Some(Location::EndOfFrame),
        0x12 => Some(Location::Intermission),
        _ => None,
    }
}

impl Location {
    /// Decodes the location byte.
    pub fn try_from_u8(val: u8) -> (r: Result<Location, CANErrorDecodingFailure>)
        ensures
            r is Ok <==> location_of(val) is Some,
            r matches Ok(l) ==> location_of(val) == Some(l),
            r matches Err(e) ==> e == CANErrorDecodingFailure::InvalidLocation,
    {
        match val {
            0x00 => Ok(Location::Unspecified),
            0x03 => Ok(Location::StartOfFrame),
            0x02 => Ok(Location::Id2821),
            0x06 => Ok(Location::Id2018),
            0x04 => Ok(Location::SubstituteRtr),
            0x05 => Ok(Location::IdentifierExtension),
            0x07 => Ok(Location::Id1713),
            0x0F => Ok(Location::Id1205),
            0x0E => Ok(Location::Id0400),
            0x0C => Ok(Location::Rtr),
            0x0D => Ok(Location::Reserved1),
            0x09 => Ok(Location::Reserved0),
            0x0B => Ok(Location::DataLengthCode),
            0x0A => Ok(Location::DataSection),
            0x08 => Ok(Location::CrcSequence),
            0x18 => Ok(Location::CrcDelimiter),
            0x19 => Ok(Location::AckSlot),
            0x1B => Ok(Location::AckDelimiter),
            0x1A => Ok(Location::EndOfFrame),
            0x12 => Ok(Location::Intermission),
            _ => Err(CANErrorDecodingFailure::InvalidLocation),
        }
    }
}

/// A transceiver error: one code of the transceiver byte.
#[derive(Copy, Clone, Debug, PartialEq, Eq, Hash, Structural)]
pub enum TransceiverError {
    /// unspecified
    Unspecified,
    /// CAN High, no wire
    CanHighNoWire,
    /// CAN High, short to BAT
    CanHighShortToBat,
    /// CAN High, short to VCC
    CanHighShortToVcc,
    /// CAN High, short to GND
    CanHighShortToGnd,
    /// CAN Low, no wire
    CanLowNoWire,
    /// CAN Low, short to BAT
    CanLowShortToBat,
    /// CAN Low, short to VCC
    CanLowShortToVcc,
    /// CAN Low, short to GND
    CanLowShortToGnd,
    /// CAN Low, short to CAN High
    CanLowShortToCanHigh,
}

/// The transceiver error with code `v`.
pub open spec fn transceiver_error_of(v: u8) -> Option<TransceiverError> {
    match v {
        0x00 => Some(TransceiverError::Unspecified),
        0x04 => Some(TransceiverError::CanHighNoWire),
        0x05 => Some(TransceiverError::CanHighShortToBat),
        0x06 => Some(TransceiverError::CanHighShortToVcc),
        0x07 => Some(TransceiverError::CanHighShortToGnd),
        0x40 => Some(TransceiverError::CanLowNoWire),
        0x50 => Some(TransceiverError::CanLowShortToBat),
        0x60 => Some(TransceiverError::CanLowShortToVcc),
        0x70 => Some(TransceiverError::CanLowShortToGnd),
        0x80 => Some(TransceiverError::CanLowShortToCanHigh),
        _ => None,
    }
}

impl TransceiverError {
    /// Decodes the transceiver byte.
    pub fn try_from_u8(val: u8) -> (r: Result<TransceiverError, CANErrorDecodingFailure>)
        ensures
            r is Ok <==> transceiver_error_of(val) is Some,
            r matches Ok(t) ==> transceiver_error_of(val) == Some(t),
            r matches Err(e) ==> e == CANErrorDecodingFailure::InvalidTransceiverError,
    {
        match val {
            0x00 => Ok(TransceiverError::Unspecified),
            0x04 => Ok(TransceiverError::CanHighNoWire),
            0x05 => Ok(TransceiverError::CanHighShortToBat),
            0x06 => Ok(TransceiverError::CanHighShortToVcc),
            0x07 => Ok(TransceiverError::CanHighShortToGnd),
            0x40 => Ok(TransceiverError::CanLowNoWire),
            0x50 => Ok(TransceiverError::CanLowShortToBat),
            0x60 => Ok(TransceiverError::CanLowShortToVcc),
            0x70 => Ok(TransceiverError::CanLowShortToGnd),
            0x80 => Ok(TransceiverError::CanLowShortToCanHigh),
            _ => Err(CANErrorDecodingFailure::InvalidTransceiverError),
        }
    }
}

/// The payload of a classic frame: empty for a remote frame, all 8 bytes
/// for an error frame.
pub open spec fn frame_data(frame: CanFrame) -> Seq<u8> {
    match frame {
        CanFrame::Remote(_) => Seq::empty(),
        _ => frame@.payload(),
    }
}

/// The data byte at `idx`, or `NotEnoughData(idx)` past the payload.
pub fn get_data(frame: &CanFrame, idx: u8) -> (r: Result<u8, CANErrorDecodingFailure>)
    ensures
        r is Ok <==> (idx as int) < frame_data(*frame).len(),
        r matches Ok(b) ==> b == frame_data(*frame)[idx as int],
        r matches Err(e) ==> e == CANErrorDecodingFailure::NotEnoughData(idx),
{
    let data = frame.data();
    if (idx as usize) < data.len() {
        Ok(data[idx as usize])
    } else {
        Err(CANErrorDecodingFailure::NotEnoughData(idx))
    }
}

/// What an error frame decodes to: the error-class field must be exactly
/// one known class bit, and the detail bytes that class needs must be
/// present and hold known codes.
pub open spec fn decode_single(frame: CanFrame) -> Result<CANError, CANErrorDecodingFailure> {
    let d = frame_data(frame);
    let class = frame@.word & 0x1FFF_FFFFu32;
    if !word_err(frame@.word) {
        Err(CANErrorDecodingFailure::NotAnError)
    } else if class == 0x001 {
        Ok(CANError::TransmitTimeout)
    } else if class == 0x002 {
        if d.len() < 1 {
            Err(CANErrorDecodingFailure::NotEnoughData(0))
        } else {
            Ok(CANError::LostArbitration(d[0]))
        }
    } else if class == 0x004 {
        if d.len() < 2 {
            Err(CANErrorDecodingFailure::NotEnoughData(1))
        } else {
            match controller_problem_of(d[1]) {
                Some(p) => Ok(CANError::ControllerProblem(p)),
                None => Err(CANErrorDecodingFailure::InvalidControllerProblem),
            }
        }
    } else if class == 0x008 {
        if d.len() < 3 {
            Err(CANErrorDecodingFailure::NotEnoughData(2))
        } else {
            match violation_type_of(d[2]) {
                None => Err(CANErrorDecodingFailure::InvlaidViolationType),
                Some(vtype) => if d.len() < 4 {
                    Err(CANErrorDecodingFailure::NotEnoughData(3))
                } else {
                    match location_of(d[3]) {
                        Some(location) => Ok(CANError::ProtocolViolation { vtype, location }),
                        None => Err(CANErrorDecodingFailure::InvalidLocation),
                    }
                },
            }
        }
    } else if class == 0x010 {
        Ok(CANError::TransceiverError)
    } else if class == 0x020 {
        Ok(CANError::NoAck)
    } else if class == 0x040 {
        Ok(CANError::BusOff)
    } else if class == 0x080 {
        Ok(CANError::BusError)
    } else if class == 0x100 {
        Ok(CANError::Restarted)
    } else {
        Err(CANErrorDecodingFailure::UnknownErrorType(class))
    }
}

impl CANError {
    /// Decodes an error frame that reports a single error class.
    pub fn from_frame(frame: &CanFrame) -> (r: Result<CANError, CANErrorDecodingFailure>)
        ensures
            r == decode_single(*frame),
    {
        if !frame.is_error_frame() {
            return Err(CANErrorDecodingFailure::NotAnError);
        }
        let class = frame.id_word() & CAN_ERR_MASK;
        if class == 0x001 {
            Ok(CANError::TransmitTimeout)
        } else if class == 0x002 {
            match get_data(frame, 0) {
                Ok(b) => Ok(CANError::LostArbitration(b)),
                Err(e) => Err(e),
            }
        } else if class == 0x004 {
            match get_data(frame, 1) {
                Ok(b) => match ControllerProblem::try_from_u8(b) {
                    Ok(p) => Ok(CANError::ControllerProblem(p)),
                    Err(e) => Err(e),
                },
                Err(e) => Err(e),
            }
        } else if class == 0x008 {
            let vtype = match get_data(frame, 2) {
                Ok(b) => match ViolationType::try_from_u8(b) {
                    Ok(t) => t,
                    Err(e) => {
                        return Err(e);
                    },
                },
                Err(e) => {
                    return Err(e);
                },
            };
            match get_data(frame, 3) {
                Ok(b) => match Location::try_from_u8(b) {
                    Ok(location) => Ok(CANError::ProtocolViolation { vtype, location }),
                    Err(e) => Err(e),
                },
                Err(e) => Err(e),
            }
        } else if class == 0x010 {
            Ok(CANError::TransceiverError)
        } else if class == 0x020 {
            Ok(CANError::NoAck)
        } else if class == 0x040 {
            Ok(CANError::BusOff)
        } else if class == 0x080 {
            Ok(CANError::BusError)
        } else if class == 0x100 {
            Ok(CANError::Restarted)
        } else {
            Err(CANErrorDecodingFailure::UnknownErrorType(class))
        }
    }
}

} // verus!
