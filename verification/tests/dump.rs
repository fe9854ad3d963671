use socketcan::dump::{CanDumpRecord, ParseError, MAX_LINE};
use socketcan::frame::{CanAnyFrame, CanRemoteFrame};

/// Hands out the lines of an in-memory log the way a buffered reader
/// does: each line with its line feed, then an empty read at the end.
struct Reader<'a> {
    rest: &'a str,
}

impl<'a> Reader<'a> {
    fn from_reader(input: &'a [u8]) -> Reader<'a> {
        Reader { rest: std::str::from_utf8(input).unwrap() }
    }

    fn next_record(&mut self) -> Result<Option<CanDumpRecord>, ParseError> {
        let (line, rest) = match self.rest.find('\n') {
            Some(i) => (&self.rest[..=i], &self.rest[i + 1..]),
            None => (self.rest, ""),
        };
        self.rest = rest;
        CanDumpRecord::from_read_line(line, line.len() as u64)
    }
}

#[test]
fn test_simple_example() {
    let input: &[u8] = b"(1469439874.299591) can1 080#\n\
                         (1469439874.299654) can1 701#7F";

    let mut reader = Reader::from_reader(input);

    let rec1 = reader.next_record().unwrap().unwrap();

    assert_eq!(rec1.t_us, 1469439874299591);
    assert_eq!(rec1.device, "can1");

    if let CanAnyFrame::Normal(frame) = rec1.frame {
        assert_eq!(frame.raw_id(), 0x080);
        assert!(!frame.is_remote_frame());
        assert!(!frame.is_error_frame());
        assert!(!frame.is_extended());
        assert_eq!(frame.data(), &[]);
    } else {
        panic!("Expected Normal frame, got FD");
    }

    let rec2 = reader.next_record().unwrap().unwrap();
    assert_eq!(rec2.t_us, 1469439874299654);
    assert_eq!(rec2.device, "can1");

    if let CanAnyFrame::Normal(frame) = rec2.frame {
        assert_eq!(frame.raw_id(), 0x701);
        assert!(!frame.is_remote_frame());
        assert!(!frame.is_error_frame());
        assert!(!frame.is_extended());
        assert_eq!(frame.data(), &[0x7F]);
    } else {
        panic!("Expected Normal frame, got FD");
    }

    assert!(reader.next_record().unwrap().is_none());
}

#[test]
fn test_extended_example() {
    let input: &[u8] = b"(1469439874.299591) can1 00080080#\n\
                         (1469439874.299654) can1 00053701#7F";

    let mut reader = Reader::from_reader(input);

    let rec1 = reader.next_record().unwrap().unwrap();

    assert_eq!(rec1.t_us, 1469439874299591);
    assert_eq!(rec1.device, "can1");

    if let CanAnyFrame::Normal(frame) = rec1.frame {
        assert_eq!(frame.raw_id(), 0x080080);
        assert!(!frame.is_remote_frame());
        assert!(!frame.is_error_frame());
        assert!(frame.is_extended());
        assert_eq!(frame.data(), &[]);
    } else {
        panic!("Expected Normal frame, got FD");
    }

    let rec2 = reader.next_record().unwrap().unwrap();
    assert_eq!(rec2.t_us, 1469439874299654);
    assert_eq!(rec2.device, "can1");

    if let CanAnyFrame::Normal(frame) = rec2.frame {
        assert_eq!(frame.raw_id(), 0x053701);
        assert!(!frame.is_remote_frame());
        assert!(!frame.is_error_frame());
        assert!(frame.is_extended());
        assert_eq!(frame.data(), &[0x7F]);
    } else {
        panic!("Expected Normal frame, got FD");
    }

    assert!(reader.next_record().unwrap().is_none());
}

#[test]
fn test_remote() {
    let input: &[u8] = b"(1469439874.299591) can0 00080080#R\n\
                         (1469439874.299654) can0 00053701#R4";

    let mut reader = Reader::from_reader(input);

    let rec1 = reader.next_record().unwrap().unwrap();

    assert_eq!(rec1.t_us, 1469439874299591);
    assert_eq!(rec1.device, "can0");

    if let CanAnyFrame::Remote(frame) = rec1.frame {
        assert_eq!(frame.raw_id(), 0x080080);
        assert!(!frame.is_data_frame());
        assert!(frame.is_remote_frame());
        assert!(!frame.is_error_frame());
        assert!(frame.is_extended());
        assert_eq!(frame.len(), 0);
        assert_eq!(frame.data(), &[]);
    } else {
        panic!("Expected Remote frame");
    }

    let rec2 = reader.next_record().unwrap().unwrap();
    assert_eq!(rec2.t_us, 1469439874299654);
    assert_eq!(rec2.device, "can0");

    if let CanAnyFrame::Remote(frame) = rec2.frame {
        assert_eq!(frame.raw_id(), 0x053701);
        assert!(!frame.is_data_frame());
        assert!(frame.is_remote_frame());
        assert!(!frame.is_error_frame());
        assert!(frame.is_extended());
        assert_eq!(frame.len(), 4);
    } else {
        panic!("Expected Remote frame");
    }

    assert!(reader.next_record().unwrap().is_none());
}

#[test]
fn test_remote_dlc_range() {
    for dlc in 0..=8usize {
        let line = if dlc == 0 {
            "(1469439874.299591) can0 123#R".to_string()
        } else {
            format!("(1469439874.299591) can0 123#R{:X}", dlc)
        };

        let mut reader = Reader::from_reader(line.as_bytes());
        let rec = reader.next_record().unwrap().unwrap();

        match rec.frame {
            CanAnyFrame::Remote(frame) => assert_eq!(frame.dlc(), dlc, "{line}"),
            other => panic!("expected a remote frame, got {other:?}"),
        }
        assert_eq!(rec.to_string(), line, "round-trip changed the line");
    }

    // Above the kernel's limit: rejected, not silently taken as DLC 0.
    for line in ["(1469439874.299591) can0 123#R9", "(1469439874.299591) can0 123#RF"] {
        let mut reader = Reader::from_reader(line.as_bytes());
        assert!(matches!(reader.next_record(), Err(ParseError::InvalidCanFrame)), "{line} should be rejected");
    }

    // The same boundary at its source, so the reason stays visible.
    assert!(CanRemoteFrame::remote_from_raw_id(0x123, 8).is_some());
    assert!(CanRemoteFrame::remote_from_raw_id(0x123, 9).is_none());
}

#[test]
fn test_extended_id_fd() {
    let input: &[u8] = b"(1234.567890) can0 12345678##500112233445566778899AABB";

    let mut reader = Reader::from_reader(input);
    let rec = reader.next_record().unwrap().unwrap();
    let frame = match rec.frame {
        CanAnyFrame::Fd(f) => f,
        other => panic!("expected an FD frame, got {other:?}"),
    };

    assert!(frame.is_extended());
    assert_eq!(0x12345678, frame.raw_id());
    assert_eq!(5, frame.flags().bits());
    assert_eq!(frame.dlc(), 0x09);
    assert_eq!(frame.len(), 12);
    assert_eq!(frame.data().len(), 12);
    assert_eq!(frame.data(), &[0x0, 0x011, 0x22, 0x33, 0x44, 0x55, 0x66, 0x77, 0x88, 0x99, 0xAA, 0xBB]);

    // The FD form round-trips, flags nibble and all.
    assert_eq!(rec.to_string(), "(1234.567890) can0 12345678##500112233445566778899AABB");
}

#[test]
fn test_error_frames() {
    let input: &[u8] = b"(1785099856.242430) vcan0 20000004#000C000000000000\n\
                         (1785099856.243595) vcan0 200000A8#00009E0800000000";

    let mut reader = Reader::from_reader(input);

    let rec1 = reader.next_record().unwrap().unwrap();
    assert_eq!(rec1.t_us, 1785099856242430);
    assert_eq!(rec1.device, "vcan0");

    if let CanAnyFrame::Error(frame) = rec1.frame {
        assert!(frame.is_error_frame());
        assert!(!frame.is_data_frame());
        assert!(!frame.is_remote_frame());
        assert_eq!(frame.error_bits(), 0x004);
        assert_eq!(frame.data(), &[0, 0x0C, 0, 0, 0, 0, 0, 0]);
        // The symmetric warning transition folds into a single cause.
        let err = frame.into_error();
        assert_eq!(err.len(), 1);
    } else {
        panic!("Expected Error frame, got {:?}", rec1.frame);
    }

    let rec2 = reader.next_record().unwrap().unwrap();
    assert_eq!(rec2.t_us, 1785099856243595);

    if let CanAnyFrame::Error(frame) = rec2.frame {
        assert_eq!(frame.error_bits(), 0x0A8);
        assert_eq!(frame.data(), &[0, 0, 0x9E, 0x08, 0, 0, 0, 0]);
        // Protocol + NoAck + BusError.
        assert_eq!(frame.into_error().len(), 3);
    } else {
        panic!("Expected Error frame, got {:?}", rec2.frame);
    }

    assert!(reader.next_record().unwrap().is_none());
}

#[test]
fn dump_test_error_frame_round_trip() {
    const LINES: &[&str] = &[
        "(1785099856.242430) vcan0 20000004#000C000000000000",
        "(1785099856.243595) vcan0 200000A8#00009E0800000000",
        "(1785099856.244721) vcan0 20000010#0000000044000000",
        "(1785099856.245800) vcan0 20000040#0000000000000000",
        "(1785099856.246900) vcan0 200003FF#070C9E08440A7060",
    ];

    for line in LINES {
        let mut reader = Reader::from_reader(line.as_bytes());
        let rec = reader.next_record().unwrap().unwrap();
        assert!(matches!(rec.frame, CanAnyFrame::Error(_)), "{line}");
        assert_eq!(rec.to_string(), *line, "round-trip changed the line");
    }
}

#[test]
fn test_extended_id_is_not_mistaken_for_error() {
    let input: &[u8] = b"(1785099856.241425) vcan0 1FFFFFFF#0102";

    let mut reader = Reader::from_reader(input);
    let rec = reader.next_record().unwrap().unwrap();

    if let CanAnyFrame::Normal(frame) = rec.frame {
        assert!(frame.is_extended());
        assert!(!frame.is_error_frame());
        assert_eq!(frame.raw_id(), 0x1FFFFFFF);
        assert_eq!(frame.data(), &[0x01, 0x02]);
    } else {
        panic!("Expected Normal frame, got {:?}", rec.frame);
    }
    assert_eq!(rec.to_string(), "(1785099856.241425) vcan0 1FFFFFFF#0102");
}

#[test]
fn test_timestamp_round_trip_is_exact() {
    const CASES: &[u64] = &[
        0,
        1,
        999_999,
        1_000_000,
        1_785_099_856_242_430,
        4_294_967_295_004_142,
        8_014_677_457_392_536,
        u64::MAX / 2,
    ];

    for &t_us in CASES {
        let line = format!("({}.{:06}) can0 123#01", t_us / 1_000_000, t_us % 1_000_000);
        let mut reader = Reader::from_reader(line.as_bytes());
        let rec = reader.next_record().unwrap_or_else(|e| panic!("{line}: {e:?}")).expect("a record");

        assert_eq!(rec.t_us, t_us, "{line}");
        assert_eq!(rec.to_string(), line, "round-trip changed the line");
    }
}

#[test]
fn test_record_body_is_frame_upper_hex() {
    const BODIES: &[&str] = &[
        "123#",
        "123#01",
        "7FF#1122334455667788",
        "00000123#01",
        "1FFFFFFF#0102",
        "123#R",
        "123#R4",
        "00000123#R8",
        "123##4",
        "123##500112233",
        "00000123##F00",
        "20000004#000C000000000000",
        "200003FF#070C9E08440A7060",
    ];

    for body in BODIES {
        let line = format!("(1469439874.299591) can0 {body}");
        let mut reader = Reader::from_reader(line.as_bytes());
        let rec = reader.next_record().unwrap_or_else(|e| panic!("{line}: {e:?}")).expect("a record");

        assert_eq!(rec.frame.to_upper_hex(), *body, "{line}: frame's own rendering");
        assert_eq!(rec.to_string(), line, "{line}: record rendering");
    }
}

#[test]
fn test_fd_flag_nibble_is_preserved() {
    const FDF: u8 = 0x4;

    for nibble in 0..=0xFu8 {
        let line = format!("(1469439874.299591) can0 123##{nibble:X}00");

        let mut reader = Reader::from_reader(line.as_bytes());
        let rec = reader.next_record().unwrap().expect("a record");

        match &rec.frame {
            CanAnyFrame::Fd(frame) => {
                assert_eq!(frame.raw_flags(), nibble | FDF, "{line}: every bit but the forced FDF must survive");
            },
            other => panic!("{line}: expected an FD frame, got {other:?}"),
        }

        let expected = format!("(1469439874.299591) can0 123##{:X}00", nibble | FDF);
        assert_eq!(rec.to_string(), expected, "{line}");
    }
}

#[test]
fn test_id_width_selects_the_format() {
    let cases: &[(&str, bool)] = &[
        ("123#01", false),
        ("7FF#01", false),
        ("000#01", false),
        ("00000123#01", true),
        ("00000000#01", true),
        ("000007FF#01", true),
        ("1FFFFFFF#0102", true),
        ("00000123#R4", true),
        ("123#R4", false),
        ("00000123##500112233", true),
        ("123##500112233", false),
    ];

    for (body, extended) in cases {
        let line = format!("(1469439874.299591) can0 {body}");
        let mut reader = Reader::from_reader(line.as_bytes());
        let rec = reader.next_record().unwrap_or_else(|e| panic!("{line}: {e:?}")).expect("a record");

        let got = match &rec.frame {
            CanAnyFrame::Normal(f) => f.is_extended(),
            CanAnyFrame::Remote(f) => f.is_extended(),
            CanAnyFrame::Fd(f) => f.is_extended(),
            other => panic!("{line}: unexpected {other:?}"),
        };
        assert_eq!(got, *extended, "{line}: wrong format");
        assert_eq!(rec.to_string(), line, "round-trip changed the line");
    }

    for body in ["800#AA", "FFF#AA", "1FFFFFFF0#01"] {
        let line = format!("(1469439874.299591) can0 {body}");
        let mut reader = Reader::from_reader(line.as_bytes());
        assert!(matches!(reader.next_record(), Err(ParseError::InvalidCanFrame)), "{line} should be rejected");
    }

    for width in [1usize, 2, 4, 5, 6, 7, 9] {
        let line = format!("(1469439874.299591) can0 {}#01", "0".repeat(width));
        let mut reader = Reader::from_reader(line.as_bytes());
        assert!(
            matches!(reader.next_record(), Err(ParseError::InvalidCanFrame)),
            "{width}-digit identifier should be rejected"
        );
    }
}

#[test]
fn test_len8_dlc_suffix_is_rejected() {
    let input: &[u8] = b"(1469439874.299591) can1 123#1122334455667788_E";

    let mut reader = Reader::from_reader(input);
    assert!(matches!(reader.next_record(), Err(ParseError::InvalidCanFrame)));
}

#[test]
fn test_fd() {
    let input: &[u8] = b"(1469439874.299591) can1 080##0\n\
                         (1469439874.299654) can1 701##17F";

    let mut reader = Reader::from_reader(input);

    let rec1 = reader.next_record().unwrap().unwrap();

    assert_eq!(rec1.t_us, 1469439874299591);
    assert_eq!(rec1.device, "can1");
    if let CanAnyFrame::Fd(frame) = rec1.frame {
        assert_eq!(frame.raw_id(), 0x080);
        assert!(!frame.is_remote_frame());
        assert!(!frame.is_error_frame());
        assert!(!frame.is_extended());
        assert!(!frame.is_brs());
        assert!(!frame.is_esi());
        assert_eq!(0x04, frame.flags().bits());
        assert_eq!(frame.dlc(), 0);
        assert_eq!(frame.len(), 0);
        assert_eq!(frame.data().len(), 0);
        assert_eq!(frame.data(), &[]);
    } else {
        panic!("Expected FD frame, got Normal");
    }

    let rec2 = reader.next_record().unwrap().unwrap();
    assert_eq!(rec2.t_us, 1469439874299654);
    assert_eq!(rec2.device, "can1");
    if let CanAnyFrame::Fd(frame) = rec2.frame {
        assert_eq!(frame.raw_id(), 0x701);
        assert!(!frame.is_remote_frame());
        assert!(!frame.is_error_frame());
        assert!(!frame.is_extended());
        assert!(frame.is_brs());
        assert!(!frame.is_esi());
        assert_eq!(0x05, frame.flags().bits());
        assert_eq!(frame.dlc(), 1);
        assert_eq!(frame.len(), 1);
        assert_eq!(frame.data().len(), 1);
        assert_eq!(frame.data(), &[0x7F]);
    } else {
        panic!("Expected FD frame, got Normal");
    }

    assert!(reader.next_record().unwrap().is_none());
}

// ===== Own tests =====

#[test]
fn each_parse_error_has_an_input() {
    assert!(matches!(CanDumpRecord::parse("(12x.5) can0 123#01"), Err(ParseError::InvalidTimestamp)));
    assert!(matches!(CanDumpRecord::parse("(1.000001)"), Err(ParseError::UnexpectedEndOfLine)));
    assert!(matches!(CanDumpRecord::parse("(1.000001) can0"), Err(ParseError::UnexpectedEndOfLine)));
    assert!(matches!(CanDumpRecord::parse("(1.000001) can0 123#0"), Err(ParseError::InvalidCanFrame)));
    assert!(matches!(CanDumpRecord::parse("(1.000001) can0 123#GG"), Err(ParseError::InvalidCanFrame)));
    assert!(matches!(CanDumpRecord::parse("(1.00001) can0 123#01"), Err(ParseError::InvalidTimestamp)));
}

#[test]
fn signs_are_not_digits() {
    let bad_ts = ["(+1.000000) can0 123#01", "(1.+00000) can0 123#01", "(-1.000000) can0 123#01"];
    for line in bad_ts {
        assert!(matches!(CanDumpRecord::parse(line), Err(ParseError::InvalidTimestamp)), "{}", line);
    }
    let bad_frame = ["(1.000000) can0 +23#01", "(1.000000) can0 +0000123#01", "(1.000000) can0 123#R+1"];
    for line in bad_frame {
        assert!(matches!(CanDumpRecord::parse(line), Err(ParseError::InvalidCanFrame)), "{}", line);
    }
}

#[test]
fn nothing_may_follow_the_frame() {
    assert!(matches!(CanDumpRecord::parse("(1.000000) can0 123#01 extra"), Err(ParseError::InvalidCanFrame)));
    assert!(matches!(CanDumpRecord::parse("(1.000000) can0 123#01  "), Ok(_)));
    assert!(matches!(CanDumpRecord::parse("(1.000000) can0 123#01 \t x"), Err(ParseError::InvalidCanFrame)));
}

#[test]
fn the_interface_name_is_not_empty() {
    assert!(matches!(CanDumpRecord::parse("(1.000000)  123#01"), Err(ParseError::InvalidDeviceName)));
    assert!(matches!(CanDumpRecord::parse("(1.000000)  can0 123#01"), Err(ParseError::InvalidDeviceName)));
}

#[test]
fn a_remote_dlc_is_one_digit() {
    let rec = CanDumpRecord::parse("(1.000000) can0 123#R8").unwrap();
    match rec.frame {
        CanAnyFrame::Remote(f) => assert_eq!(f.dlc(), 8),
        _ => panic!("Expected a remote frame"),
    }
    for line in ["(1.000000) can0 123#R08", "(1.000000) can0 123#R9", "(1.000000) can0 123#R00"] {
        assert!(matches!(CanDumpRecord::parse(line), Err(ParseError::InvalidCanFrame)), "{}", line);
    }
}

#[test]
fn an_overlong_line_is_refused() {
    let line = "x".repeat(MAX_LINE as usize);
    assert!(matches!(CanDumpRecord::from_read_line(&line, MAX_LINE), Err(ParseError::InvalidCanFrame)));
    assert!(matches!(CanDumpRecord::from_read_line("", 0), Ok(None)));
}

#[test]
fn parse_error_texts() {
    assert_eq!(ParseError::InvalidTimestamp.to_str(), "Invalid timestamp");
    assert_eq!(ParseError::UnexpectedEndOfLine.to_str(), "Unexpected end of line");
    assert_eq!(ParseError::InvalidCanFrame.to_str(), "Invalid CAN frame");
}

#[test]
fn hex_payload_decodes_every_byte() {
    let rec = CanDumpRecord::parse("(0.000000) can0 7FF#00FF7fA5").unwrap();
    assert_eq!(rec.frame.data(), &[0x00, 0xFF, 0x7F, 0xA5]);
    assert_eq!(rec.device, "can0");
    assert_eq!(rec.to_string(), "(0.000000) can0 7FF#00FF7FA5");
}

#[test]
fn parse_errors_render_as_text() {
    assert_eq!(ParseError::InvalidDeviceName.to_string(), "Invalid device name");
    let io = ParseError::from(std::io::Error::new(std::io::ErrorKind::Other, "disk on fire"));
    assert_eq!(io.to_string(), "disk on fire");
    assert!(matches!(io, ParseError::Io(_)));
}

#[test]
fn the_interface_name_is_visible_ascii() {
    assert!(matches!(CanDumpRecord::parse("(1.000000) ca\tn0 123#01"), Err(ParseError::InvalidDeviceName)));
    assert!(matches!(CanDumpRecord::parse("(1.000000) c\u{e4}n0 123#01"), Err(ParseError::InvalidDeviceName)));
    assert_eq!(CanDumpRecord::parse("(1.000000) vcan-1_x 123#01").unwrap().device, "vcan-1_x");
}

#[test]
fn the_timestamp_is_seconds_and_six_digits() {
    assert_eq!(CanDumpRecord::parse("(0.000001) can0 123#").unwrap().t_us, 1);
    assert_eq!(CanDumpRecord::parse("(18446744073709.551615) can0 123#").unwrap().t_us, u64::MAX);
    for line in [
        "(18446744073709.551616) can0 123#",
        "(1.0000001) can0 123#",
        "(.000001) can0 123#",
        "(1.00000a) can0 123#",
        "(1,000001) can0 123#",
        "1.000001 can0 123#",
    ] {
        assert!(matches!(CanDumpRecord::parse(line), Err(ParseError::InvalidTimestamp)), "{}", line);
    }
}
