use socketcan::errors::{
    CanError, CanErrorDecodingFailure, CanHighFault, CanLowFault, CauseTag, ControllerProblems,
    EmptyCanError, Error, ErrorCause, ErrorKind, Location, ViolationTypes, CAN_ERR_ACK,
    CAN_ERR_BUSERROR, CAN_ERR_BUSOFF, CAN_ERR_CNT, CAN_ERR_CRTL, CAN_ERR_LOSTARB, CAN_ERR_PROT,
    CAN_ERR_RESTARTED, CAN_ERR_TRX, CAN_ERR_TX_TIMEOUT,
};
use socketcan::dump::CanDumpRecord;
use socketcan::frame::{CanAnyFrame, CanErrorFrame};

/// Builds an error frame from raw class bits and data bytes.
fn frame(bits: u32, data: [u8; 8]) -> CanErrorFrame {
    CanErrorFrame::new_error(bits, &data).unwrap()
}

/// Decodes raw class bits + data into a vector of causes.
fn decode(bits: u32, data: [u8; 8]) -> Vec<ErrorCause> {
    CanError::from_error_frame(&frame(bits, data)).to_vec()
}

// ----- the non-empty invariant -----

#[test]
fn non_empty_invariant() {
    let err = CanError::new(ErrorCause::BusOff);
    assert_eq!(err.len(), 1);
    assert!(err.is_single());
    assert!(!err.is_empty());
    assert_eq!(*err.first(), ErrorCause::BusOff);
    assert_eq!(*err.last(), ErrorCause::BusOff);

    // A frame with no class bits at all still yields one cause.
    let err = CanError::from_error_frame(&frame(0, [0; 8]));
    assert_eq!(err.len(), 1);
    assert_eq!(*err.first(), ErrorCause::Unknown(0));
}

// ----- level 1: multiple classes per frame -----

#[test]
fn multi_class_crtl_and_cnt() {
    let mut data = [0u8; 8];
    data[1] = ControllerProblems::RX_PASSIVE().bits();
    data[6] = 130;
    data[7] = 42;
    assert_eq!(
        decode(CAN_ERR_CRTL | CAN_ERR_CNT, data),
        vec![
            ErrorCause::Controller(ControllerProblems::RX_PASSIVE()),
            ErrorCause::Counters { tx: 130, rx: 42 },
        ]
    );
}

#[test]
fn multi_class_prot_and_buserror() {
    let mut data = [0u8; 8];
    data[2] = ViolationTypes::STUFF().bits();
    data[3] = 0x08; // CRC sequence
    assert_eq!(
        decode(CAN_ERR_PROT | CAN_ERR_BUSERROR, data),
        vec![
            ErrorCause::Protocol { types: ViolationTypes::STUFF(), location: Location::CrcSequence },
            ErrorCause::BusError,
        ]
    );
}

#[test]
fn unknown_class_bits_trail() {
    // 0x400 is above every class bit we know.
    let causes = decode(CAN_ERR_BUSOFF | 0x400, [0; 8]);
    assert_eq!(causes, vec![ErrorCause::BusOff, ErrorCause::Unknown(0x400)]);
}

#[test]
fn class_bit_ordering_is_ascending() {
    let mut data = [0u8; 8];
    data[0] = 7;
    data[1] = ControllerProblems::RX_OVERFLOW().bits();
    data[2] = ViolationTypes::BIT().bits();
    data[4] = 0x04; // CanHigh, no wire
    data[6] = 1;
    data[7] = 2;
    let causes = decode(
        CAN_ERR_TX_TIMEOUT
            | CAN_ERR_LOSTARB
            | CAN_ERR_CRTL
            | CAN_ERR_PROT
            | CAN_ERR_TRX
            | CAN_ERR_ACK
            | CAN_ERR_BUSOFF
            | CAN_ERR_BUSERROR
            | CAN_ERR_RESTARTED
            | CAN_ERR_CNT,
        data,
    );
    assert_eq!(
        causes,
        vec![
            ErrorCause::TransmitTimeout,
            ErrorCause::LostArbitration(7),
            ErrorCause::Controller(ControllerProblems::RX_OVERFLOW()),
            ErrorCause::Protocol { types: ViolationTypes::BIT(), location: Location::Unspecified },
            ErrorCause::Transceiver { canh: Some(CanHighFault::NoWire), canl: None },
            ErrorCause::NoAck,
            ErrorCause::BusOff,
            ErrorCause::BusError,
            ErrorCause::Restarted,
            ErrorCause::Counters { tx: 1, rx: 2 },
        ]
    );
}

// ----- level 2: multiple bits fold into one cause -----

#[test]
fn ctrl_multi_bit_symmetric_warning() {
    let mut data = [0u8; 8];
    data[1] = 0x0C;
    assert_eq!(
        decode(CAN_ERR_CRTL, data),
        vec![ErrorCause::Controller(ControllerProblems::RX_WARNING().union(ControllerProblems::TX_WARNING()))]
    );
}

#[test]
fn ctrl_multi_bit_symmetric_passive() {
    let mut data = [0u8; 8];
    data[1] = 0x30;
    assert_eq!(
        decode(CAN_ERR_CRTL, data),
        vec![ErrorCause::Controller(ControllerProblems::RX_PASSIVE().union(ControllerProblems::TX_PASSIVE()))]
    );
}

#[test]
fn ctrl_three_bits_sja1000_overrun_plus_warning() {
    let mut data = [0u8; 8];
    data[1] = 0x0D;
    assert_eq!(
        decode(CAN_ERR_CRTL, data),
        vec![ErrorCause::Controller(
            ControllerProblems::RX_OVERFLOW()
                .union(ControllerProblems::RX_WARNING())
                .union(ControllerProblems::TX_WARNING())
        )]
    );
}

#[test]
fn ctrl_zero_is_unspecified_not_a_failure() {
    assert_eq!(decode(CAN_ERR_CRTL, [0; 8]), vec![ErrorCause::Controller(ControllerProblems::empty())]);
}

#[test]
fn ctrl_unclaimed_bit_reports_failure_after_known_bits() {
    // Bit 7 of data[1] is not claimed by any known problem.
    let mut data = [0u8; 8];
    data[1] = 0x81;
    assert_eq!(
        decode(CAN_ERR_CRTL, data),
        vec![
            ErrorCause::Controller(ControllerProblems::RX_OVERFLOW()),
            ErrorCause::DecodingFailure(CanErrorDecodingFailure::InvalidControllerProblem),
        ]
    );
}

#[test]
fn prot_multi_bit_shares_one_location() {
    let mut data = [0u8; 8];
    data[2] = 0x9E;
    data[3] = 0x08;
    assert_eq!(
        decode(CAN_ERR_PROT, data),
        vec![ErrorCause::Protocol {
            types: ViolationTypes::FORM()
                .union(ViolationTypes::STUFF())
                .union(ViolationTypes::BIT0())
                .union(ViolationTypes::BIT1())
                .union(ViolationTypes::TX()),
            location: Location::CrcSequence,
        }]
    );
}

#[test]
fn prot_zero_is_unspecified_not_a_failure() {
    let mut data = [0u8; 8];
    data[3] = 0x03;
    assert_eq!(
        decode(CAN_ERR_PROT, data),
        vec![ErrorCause::Protocol { types: ViolationTypes::empty(), location: Location::StartOfFrame }]
    );
}

// ----- data[4]: two nibbles -----

#[test]
fn trx_both_lines_es58x() {
    let mut data = [0u8; 8];
    data[4] = 0x44;
    assert_eq!(
        decode(CAN_ERR_TRX, data),
        vec![ErrorCause::Transceiver { canh: Some(CanHighFault::NoWire), canl: Some(CanLowFault::NoWire) }]
    );
}

#[test]
fn trx_single_line_each_half() {
    let mut data = [0u8; 8];
    data[4] = 0x05;
    assert_eq!(
        decode(CAN_ERR_TRX, data),
        vec![ErrorCause::Transceiver { canh: Some(CanHighFault::ShortToBat), canl: None }]
    );

    data[4] = 0x80;
    assert_eq!(
        decode(CAN_ERR_TRX, data),
        vec![ErrorCause::Transceiver { canh: None, canl: Some(CanLowFault::ShortToCanHigh) }]
    );
}

#[test]
fn trx_zero_is_unspecified() {
    assert_eq!(decode(CAN_ERR_TRX, [0; 8]), vec![ErrorCause::Transceiver { canh: None, canl: None }]);
}

#[test]
fn trx_invalid_half_reports_failure() {
    let mut data = [0u8; 8];
    data[4] = 0x03; // no CANH code 0x03
    assert_eq!(
        decode(CAN_ERR_TRX, data),
        vec![
            ErrorCause::Transceiver { canh: None, canl: None },
            ErrorCause::DecodingFailure(CanErrorDecodingFailure::InvalidTransceiverError),
        ]
    );
}

// ----- data[3]: total over the whole byte -----

#[test]
fn location_decoding_never_fails() {
    for v in 0u8..=0xFF {
        let loc = Location::from_raw(v);
        assert_eq!(loc.as_raw(), v, "round-trip failed for {:#04x}", v);
    }
}

#[test]
fn location_named_beyond_error_h() {
    assert_eq!(Location::from_raw(0x11), Location::ActiveErrorFlag);
    assert_eq!(Location::from_raw(0x13), Location::TolerateDominantBits);
    assert_eq!(Location::from_raw(0x16), Location::PassiveErrorFlag);
    assert_eq!(Location::from_raw(0x17), Location::ErrorDelimiter);
    assert_eq!(Location::from_raw(0x1C), Location::OverloadFlag);
}

#[test]
fn location_unnamed_in_range_is_reserved() {
    for v in [0x01u8, 0x10, 0x14, 0x15, 0x1D, 0x1E, 0x1F] {
        assert_eq!(Location::from_raw(v), Location::Reserved(v));
    }
}

// ----- error kinds -----

#[test]
fn kind_prefers_specific_over_other() {
    let mut data = [0u8; 8];
    data[1] = 0x0C;
    let err = CanError::from_error_frame(&frame(CAN_ERR_CRTL | CAN_ERR_ACK, data));
    assert_eq!(err.kind(), ErrorKind::Acknowledge);
    assert!(err.contains_kind(ErrorKind::Acknowledge));
    assert!(err.contains_kind(ErrorKind::Other));
}

#[test]
fn kind_maps_violation_types() {
    let check = |types: ViolationTypes, expect: ErrorKind| {
        let cause = ErrorCause::Protocol { types, location: Location::Unspecified };
        assert_eq!(cause.kind(), expect, "for {:?}", types);
    };
    check(ViolationTypes::BIT(), ErrorKind::Bit);
    check(ViolationTypes::BIT0(), ErrorKind::Bit);
    check(ViolationTypes::BIT1(), ErrorKind::Bit);
    check(ViolationTypes::FORM(), ErrorKind::Form);
    check(ViolationTypes::STUFF(), ErrorKind::Stuff);
    check(ViolationTypes::OVERLOAD(), ErrorKind::Other);
}

#[test]
fn kind_overrun_from_buffer_overflow() {
    let mut data = [0u8; 8];
    data[1] = ControllerProblems::TX_OVERFLOW().bits();
    let err = CanError::from_error_frame(&frame(CAN_ERR_CRTL, data));
    assert_eq!(err.kind(), ErrorKind::Overrun);
}

#[test]
fn kind_all_other_falls_back() {
    let err = CanError::from_error_frame(&frame(CAN_ERR_BUSOFF | CAN_ERR_RESTARTED, [0; 8]));
    assert_eq!(err.kind(), ErrorKind::Other);
}

#[test]
fn top_level_error_delegates_kind() {
    let mut data = [0u8; 8];
    data[1] = 0x0C;
    let err = Error::from_error_frame(&frame(CAN_ERR_CRTL | CAN_ERR_ACK, data));
    assert_eq!(err.kind(), ErrorKind::Acknowledge);
}

// ----- predicates and accessors -----

#[test]
fn predicates_and_accessors() {
    let mut data = [0u8; 8];
    data[1] = 0x0C;
    data[6] = 96;
    data[7] = 0;
    let err = CanError::from_error_frame(&frame(CAN_ERR_CRTL | CAN_ERR_CNT | CAN_ERR_BUSOFF, data));

    assert!(err.is_bus_off());
    assert!(err.has_counters());
    assert!(!err.is_no_ack());
    assert_eq!(err.counters(), Some((96, 0)));
    assert_eq!(err.controller(), Some(ControllerProblems::RX_WARNING().union(ControllerProblems::TX_WARNING())));
    assert_eq!(err.protocol(), None);
}

// ----- rendering -----

#[test]
fn display_single_is_bare() {
    let err = CanError::new(ErrorCause::BusOff);
    assert_eq!(err.to_string(), "bus off");
}

#[test]
fn display_multi_is_semicolon_joined() {
    let mut data = [0u8; 8];
    data[1] = 0x0C;
    data[6] = 96;
    data[7] = 0;
    let err = CanError::from_error_frame(&frame(CAN_ERR_CRTL | CAN_ERR_CNT, data));
    assert_eq!(
        err.to_string(),
        "controller problem: ERROR WARNING (receive), ERROR WARNING (transmit); \
         error counters: tx=96, rx=0"
    );
}

#[test]
fn display_violations_at_one_location() {
    let mut data = [0u8; 8];
    data[2] = 0x9E;
    data[3] = 0x08;
    let err = CanError::from_error_frame(&frame(CAN_ERR_PROT | CAN_ERR_BUSERROR, data));
    assert_eq!(
        err.to_string(),
        "protocol violation at CRC sequence: frame format error, \
         bit stuffing error, unable to send dominant bit, \
         unable to send recessive bit, error on transmission; bus error"
    );
}

#[test]
fn display_unknown_in_hex() {
    let err = CanError::new(ErrorCause::Unknown(0x400));
    assert_eq!(err.to_string(), "unknown error (0x400)");
}

// ----- iteration / conversion plumbing -----

#[test]
fn iteration_by_value_and_by_ref() {
    let err = CanError::from_multiple(ErrorCause::BusOff, &[ErrorCause::NoAck, ErrorCause::Restarted]);
    assert_eq!(err.len(), 3);
    assert!(!err.is_single());
    assert_eq!(*err.last(), ErrorCause::Restarted);

    let by_ref: Vec<ErrorCause> = err.causes().iter().copied().collect();
    let by_val: Vec<ErrorCause> = err.clone().to_vec();
    assert_eq!(by_ref, by_val);
    assert_eq!(by_ref.len(), 3);

    let via_iter: Vec<ErrorCause> = err.causes().to_vec();
    assert_eq!(via_iter, by_val);
}

#[test]
fn single_cause_promotes_to_error() {
    let err = CanError::new(ErrorCause::BusOff);
    assert!(err.is_single());

    // ... and through the top-level Error.
    let err = Error::from_cause(ErrorCause::BusOff);
    match err {
        Error::Can(err) => assert_eq!(*err.first(), ErrorCause::BusOff),
        _ => panic!("expected a CAN error"),
    }
}

#[test]
fn from_iter_checked_rejects_empty() {
    assert!(CanError::from_iter_checked(&[]).is_none());
    assert!(CanError::from_iter_checked(&[ErrorCause::BusOff]).is_some());
}

// ===== Own tests =====

#[test]
fn error_frame_round_trips_every_known_class() {
    let f = frame(0x3FF, [7, 0x0C, 0x9E, 0x08, 0x44, 0, 0x70, 0x60]);
    let err = f.into_error();
    assert_eq!(err.len(), 10);
    assert_eq!(CanErrorFrame::from_error(&err), f);
}

#[test]
fn the_from_conversions_decode_and_encode() {
    let f = frame(CAN_ERR_ACK | CAN_ERR_BUSOFF, [0; 8]);
    let err = CanError::from(f);
    assert_eq!(err.to_vec(), vec![ErrorCause::NoAck, ErrorCause::BusOff]);
    assert_eq!(err.to_vec(), CanError::from_error_frame(&f).to_vec());
    assert_eq!(CanErrorFrame::from(err), f);
    assert_eq!(CanError::from(ErrorCause::BusOff).to_vec(), vec![ErrorCause::BusOff]);
    match Error::from(ErrorCause::NoAck) {
        Error::Can(e) => assert_eq!(e.to_vec(), vec![ErrorCause::NoAck]),
        _ => panic!("Expected a CAN error"),
    }
    match Error::from(f) {
        Error::Can(e) => assert_eq!(e.to_vec(), vec![ErrorCause::NoAck, ErrorCause::BusOff]),
        _ => panic!("Expected a CAN error"),
    }
}

#[test]
fn try_from_causes_refuses_an_empty_list() {
    assert_eq!(CanError::try_from_causes(vec![]).err(), Some(EmptyCanError));
    let err = CanError::try_from_causes(vec![ErrorCause::NoAck, ErrorCause::BusOff]).unwrap();
    assert_eq!(err.to_vec(), vec![ErrorCause::NoAck, ErrorCause::BusOff]);
    assert_eq!(EmptyCanError.to_str(), "a CanError must hold at least one cause");
}

#[test]
fn accessors_pick_the_first_cause_of_their_kind() {
    let err = CanError::from_error_frame(&frame(CAN_ERR_LOSTARB | CAN_ERR_TRX, [5, 0, 0, 0, 0x70, 0, 0, 0]));
    assert_eq!(err.lost_arbitration(), Some(5));
    assert_eq!(err.transceiver(), Some((None, Some(CanLowFault::ShortToGnd))));
    assert!(err.has_cause(CauseTag::Transceiver));
    assert!(!err.is_transmit_timeout());
    assert!(!err.is_bus_error());
    assert!(!err.is_restarted());
}

#[test]
fn fault_codes_decode_and_refuse() {
    assert_eq!(CanHighFault::try_from_raw(0x07), Ok(CanHighFault::ShortToGnd));
    assert_eq!(CanHighFault::try_from_raw(0x03), Err(CanErrorDecodingFailure::InvalidTransceiverError));
    assert_eq!(CanLowFault::try_from_raw(0x50), Ok(CanLowFault::ShortToBat));
    assert_eq!(CanLowFault::try_from_raw(0x30), Err(CanErrorDecodingFailure::InvalidTransceiverError));
}

#[test]
fn io_error_has_kind_other() {
    let err = Error::Io(std::io::Error::from(std::io::ErrorKind::TimedOut));
    assert_eq!(err.kind(), ErrorKind::Other);
}

#[test]
fn flag_sets_render_their_names() {
    assert_eq!(ControllerProblems::empty().to_string(), "unspecified controller problem");
    assert_eq!(
        ControllerProblems::RX_OVERFLOW().union(ControllerProblems::ACTIVE()).to_string(),
        "receive buffer overflow, back to error active"
    );
    assert_eq!(Location::Reserved(0x1F).to_string(), "reserved location (0x1f)");
}

#[test]
fn documented_error_frames_decode_to_their_causes() {
    let cases = [
        ("20000204#000C000000007060", 2usize),
        ("200000A8#00009E0800000000", 3),
        ("2000028E#0C01811100000030", 5),
        ("20000010#0000000044000000", 1),
        ("20000040#0000000000000000", 1),
    ];
    for (body, n) in cases {
        let rec = CanDumpRecord::parse(&format!("(0.000000) vcan0 {body}")).unwrap();
        match rec.frame {
            CanAnyFrame::Error(f) => assert_eq!(f.into_error().len(), n, "{body}"),
            other => panic!("{body}: expected an error frame, got {other:?}"),
        }
    }
    let err = CanError::from_error_frame(&frame(0x28E, [0x0C, 0x01, 0x81, 0x11, 0, 0, 0, 0x30]));
    assert_eq!(
        err.to_vec(),
        vec![
            ErrorCause::LostArbitration(12),
            ErrorCause::Controller(ControllerProblems::RX_OVERFLOW()),
            ErrorCause::Protocol {
                types: ViolationTypes::BIT().union(ViolationTypes::TX()),
                location: Location::ActiveErrorFlag,
            },
            ErrorCause::BusError,
            ErrorCause::Counters { tx: 0, rx: 0x30 },
        ]
    );
}

#[test]
fn parse_and_netlink_errors_keep_their_identity() {
    use_parse_error();
    let e = Error::from_nl_error(socketcan::nl::NlError::NoAck);
    assert!(matches!(e, Error::Nl(socketcan::nl::NlError::NoAck)));
    assert_eq!(e.kind(), ErrorKind::Other);
}

fn use_parse_error() {
    let e = Error::from_parse_error(socketcan::dump::ParseError::InvalidTimestamp);
    assert!(matches!(e, Error::Parser(socketcan::dump::ParseError::InvalidTimestamp)));
    assert_eq!(e.kind(), ErrorKind::Other);
}

#[test]
fn test_errors() {
    const KIND: std::io::ErrorKind = std::io::ErrorKind::TimedOut;

    // From an IO error.
    let err = Error::from(std::io::Error::from(KIND));
    if let Error::Io(ioerr) = err {
        assert_eq!(ioerr.kind(), KIND);
    } else {
        panic!("Wrong error conversion");
    }

    // Straight from an ErrorKind
    let err = Error::from(KIND);
    if let Error::Io(ioerr) = err {
        assert_eq!(ioerr.kind(), KIND);
    } else {
        panic!("Wrong error conversion");
    }
}

#[test]
fn a_can_error_converts_into_an_error() {
    match Error::from(CanError::new(ErrorCause::BusOff)) {
        Error::Can(e) => assert_eq!(e.to_vec(), vec![ErrorCause::BusOff]),
        _ => panic!("Expected a CAN error"),
    }
}
