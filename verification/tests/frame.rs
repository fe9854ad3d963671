use socketcan::errors::{
    CanError, CanErrorDecodingFailure, CanLowFault, ControllerProblems, ErrorCause, Location,
    ViolationTypes, CAN_ERR_ACK, CAN_ERR_BUSERROR, CAN_ERR_BUSOFF, CAN_ERR_CNT, CAN_ERR_CRTL,
    CAN_ERR_LOSTARB, CAN_ERR_PROT, CAN_ERR_RESTARTED, CAN_ERR_TRX, CAN_ERR_TX_TIMEOUT,
};
use socketcan::frame::{CanAnyFrame, CanDataFrame, CanErrorFrame, CanFdFrame, CanFrame, CanRemoteFrame};
use socketcan::id::{
    CanId, ExtendedId, FdFlags, IdFlags, StandardId, CAN_EFF_FLAG, CAN_ERR_FLAG, CAN_MAX_DLEN,
    CAN_RTR_FLAG,
};
use std::collections::HashSet;

fn std_id() -> CanId {
    CanId::Standard(StandardId::MAX())
}

fn ext_id() -> CanId {
    CanId::Extended(ExtendedId::MAX())
}

fn ext_low_id() -> CanId {
    CanId::Extended(ExtendedId::new(0x7FF).unwrap())
}

const DATA: &[u8] = &[0, 1, 2, 3];
const DATA_LEN: usize = 4;

const EXT_DATA: &[u8] = &[0xAB; 32];
const EXT_DATA_DLC: usize = 0x0D;

const EXT_DATA_INVALID_DLEN: &[u8] = &[0x11, 0x22, 0x33, 0x44, 0x55, 0x66, 0x77, 0x88, 0x99, 0xAA];
const EXT_DATA_PADDED: &[u8] = &[
    0x11, 0x22, 0x33, 0x44, 0x55, 0x66, 0x77, 0x88, 0x99, 0xAA, 0x00, 0x00,
];
const EXT_DATA_PADDED_DLC: usize = 0x09;

const EMPTY_DATA: &[u8] = &[];

fn id_to_raw(id: CanId) -> u32 {
    match id {
        CanId::Standard(id) => id.as_raw() as u32,
        CanId::Extended(id) => id.as_raw(),
    }
}

#[test]
fn test_bit_flags() {
    let mut flags = IdFlags::RTR();
    assert_eq!(CAN_RTR_FLAG, flags.bits());

    flags.set(IdFlags::EFF(), true);
    assert_eq!(CAN_RTR_FLAG, flags.bits() & CAN_RTR_FLAG);
    assert_eq!(CAN_EFF_FLAG, flags.bits() & CAN_EFF_FLAG);

    flags.set(IdFlags::EFF(), false);
    assert_eq!(CAN_RTR_FLAG, flags.bits() & CAN_RTR_FLAG);
    assert_eq!(0, flags.bits() & CAN_EFF_FLAG);
}

#[test]
fn test_defaults() {
    let frame = CanFrame::default();

    assert_eq!(0, frame.id_word());
    assert_eq!(0, frame.raw_id());
    assert!(frame.id_flags().is_empty());

    assert_eq!(0, frame.dlc());
    assert_eq!(0, frame.len());
    assert_eq!(EMPTY_DATA, frame.data());
}

#[test]
fn test_data_frame() {
    let frame = CanDataFrame::new(std_id(), DATA).unwrap();
    assert_eq!(std_id(), frame.id());
    assert_eq!(id_to_raw(std_id()), frame.raw_id());
    assert!(frame.is_standard());
    assert!(!frame.is_extended());
    assert!(frame.is_data_frame());
    assert!(!frame.is_remote_frame());
    assert!(!frame.is_error_frame());
    assert_eq!(frame.data(), DATA);
    assert_eq!(frame.len(), DATA.len());
    assert_eq!(frame.data().len(), DATA.len());
    assert_eq!(frame.dlc(), DATA.len());

    let frame = CanFrame::from(frame);
    assert_eq!(std_id(), frame.id());
    assert_eq!(id_to_raw(std_id()), frame.raw_id());
    assert!(frame.is_standard());
    assert!(!frame.is_extended());
    assert!(frame.is_data_frame());
    assert!(!frame.is_remote_frame());
    assert!(!frame.is_error_frame());
    assert_eq!(frame.data(), DATA);
    assert_eq!(frame.len(), DATA.len());
    assert_eq!(frame.data().len(), DATA.len());
    assert_eq!(frame.dlc(), DATA.len());

    let frame = CanDataFrame::from_raw_id(StandardId::MAX().as_raw() as u32, DATA).unwrap();
    assert_eq!(std_id(), frame.id());
    assert_eq!(id_to_raw(std_id()), frame.raw_id());
    assert!(frame.is_standard());
    assert!(!frame.is_extended());
    assert!(frame.is_data_frame());
    assert!(!frame.is_remote_frame());
    assert!(!frame.is_error_frame());
    assert_eq!(frame.data(), DATA);
    assert_eq!(frame.len(), DATA.len());
    assert_eq!(frame.data().len(), DATA.len());
    assert_eq!(frame.dlc(), DATA.len());

    let frame = CanFrame::new(ext_id(), DATA).unwrap();
    assert_eq!(ext_id(), frame.id());
    assert_eq!(id_to_raw(ext_id()), frame.raw_id());
    assert!(!frame.is_standard());
    assert!(frame.is_extended());
    assert!(frame.is_data_frame());
    assert!(!frame.is_remote_frame());
    assert!(!frame.is_error_frame());
    assert_eq!(frame.data(), DATA);
    assert_eq!(frame.len(), DATA.len());
    assert_eq!(frame.data().len(), DATA.len());
    assert_eq!(frame.dlc(), DATA.len());

    let frame = CanFrame::from_raw_id(ExtendedId::MAX().as_raw(), DATA).unwrap();
    assert_eq!(ext_id(), frame.id());
    assert_eq!(id_to_raw(ext_id()), frame.raw_id());
    assert!(!frame.is_standard());
    assert!(frame.is_extended());
    assert!(frame.is_data_frame());
    assert!(!frame.is_remote_frame());
    assert!(!frame.is_error_frame());
    assert_eq!(frame.data(), DATA);
    assert_eq!(frame.len(), DATA.len());
    assert_eq!(frame.data().len(), DATA.len());
    assert_eq!(frame.dlc(), DATA.len());

    // Should keep Extended flag even if ID <= 0x7FF (standard range)
    let frame = CanFrame::new(ext_low_id(), DATA).unwrap();
    assert_eq!(ext_low_id(), frame.id());
    assert!(!frame.is_standard());
    assert!(frame.is_extended());
}

#[test]
fn test_remote_frame() {
    let frame = CanRemoteFrame::default();
    assert_eq!(CAN_RTR_FLAG, frame.id_word());
    assert!(frame.is_remote_frame());
    assert_eq!(0, frame.dlc());
    assert_eq!(0, frame.len());
    assert_eq!(EMPTY_DATA, frame.data());

    assert!(frame.id_flags().contains(IdFlags::RTR()));
    assert_eq!(CAN_RTR_FLAG, frame.id_word() & CAN_RTR_FLAG);

    let frame = CanRemoteFrame::new_remote(std_id(), DATA_LEN).unwrap();
    assert_eq!(std_id(), frame.id());
    assert_eq!(id_to_raw(std_id()), frame.raw_id());
    assert!(frame.is_standard());
    assert!(!frame.is_extended());
    assert!(!frame.is_data_frame());
    assert!(frame.is_remote_frame());
    assert!(!frame.is_error_frame());
    assert_eq!(DATA_LEN, frame.dlc());
    assert_eq!(DATA_LEN, frame.len());
    assert_eq!(EMPTY_DATA, frame.data());

    assert!(frame.id_flags().contains(IdFlags::RTR()));
    assert_eq!(CAN_RTR_FLAG, frame.id_word() & CAN_RTR_FLAG);

    let frame = CanFrame::from(frame);
    assert_eq!(std_id(), frame.id());
    assert_eq!(id_to_raw(std_id()), frame.raw_id());
    assert!(frame.is_standard());
    assert!(!frame.is_extended());
    assert!(!frame.is_data_frame());
    assert!(frame.is_remote_frame());
    assert!(!frame.is_error_frame());
    assert_eq!(EMPTY_DATA, frame.data());

    assert!(matches!(frame, CanFrame::Remote(_)));
    assert!(frame.id_flags().contains(IdFlags::RTR()));
    assert_eq!(CAN_RTR_FLAG, frame.id_word() & CAN_RTR_FLAG);

    let frame = CanFrame::new_remote(std_id(), DATA_LEN).unwrap();
    assert_eq!(std_id(), frame.id());
    assert_eq!(id_to_raw(std_id()), frame.raw_id());
    assert!(frame.is_standard());
    assert!(!frame.is_extended());
    assert!(!frame.is_data_frame());
    assert!(frame.is_remote_frame());
    assert!(!frame.is_error_frame());
    assert_eq!(EMPTY_DATA, frame.data());

    assert!(matches!(frame, CanFrame::Remote(_)));
    assert!(frame.id_flags().contains(IdFlags::RTR()));
    assert_eq!(CAN_RTR_FLAG, frame.id_word() & CAN_RTR_FLAG);

    let frame = CanRemoteFrame::new_remote(std_id(), CAN_MAX_DLEN + 1);
    assert!(frame.is_none());
}

#[test]
fn test_error_frame() {
    // An error frame indicating a transceiver error, from the fields of a
    // kernel frame: a bare CAN_ERR_TRX with data[4] == 0 is an unspecified
    // transceiver fault.
    let frame = CanErrorFrame::try_from_raw(CAN_ERR_FLAG | 0x0010, 0, [0; 8]).unwrap();
    let errs = CanError::from_error_frame(&frame);
    assert_eq!(*errs.first(), ErrorCause::Transceiver { canh: None, canl: None });

    let id = CanId::Standard(StandardId::new(0x0010).unwrap());
    let frame = CanErrorFrame::new(id, &[]).unwrap();
    assert!(!frame.is_data_frame());
    assert!(!frame.is_remote_frame());
    assert!(frame.is_error_frame());

    let errs = CanError::from_error_frame(&frame);
    assert_eq!(*errs.first(), ErrorCause::Transceiver { canh: None, canl: None });

    let id = CanId::Extended(ExtendedId::new(0x0020).unwrap());
    let frame = CanErrorFrame::new(id, &[]).unwrap();
    assert!(!frame.is_data_frame());
    assert!(!frame.is_remote_frame());
    assert!(frame.is_error_frame());

    let errs = CanError::from_error_frame(&frame);
    assert_eq!(*errs.first(), ErrorCause::NoAck);
    assert!(errs.is_single());

    // From errors.

    let frame = CanErrorFrame::from_error(&CanError::new(ErrorCause::TransmitTimeout));
    assert!(!frame.is_data_frame());
    assert!(!frame.is_remote_frame());
    assert!(frame.is_error_frame());

    let errs = frame.into_error();
    assert!(errs.is_single());
    assert_eq!(*errs.first(), ErrorCause::TransmitTimeout);

    let err = ErrorCause::Protocol { types: ViolationTypes::STUFF(), location: Location::Id0400 };
    let frame = CanErrorFrame::from_error(&CanError::new(err));
    assert!(!frame.is_data_frame());
    assert!(!frame.is_remote_frame());
    assert!(frame.is_error_frame());

    let errs = frame.into_error();
    assert_eq!(errs.len(), 1);
    assert_eq!(*errs.first(), err);
}

/// Encoding a decoded frame reproduces it byte for byte.
#[test]
fn frame_test_error_frame_round_trip() {
    // (class bits, data) pairs drawn from real driver behaviour.
    let cases: &[(u32, [u8; 8])] = &[
        // Single classes.
        (CAN_ERR_TX_TIMEOUT, [0; 8]),
        (CAN_ERR_BUSOFF, [0; 8]),
        (CAN_ERR_RESTARTED, [0; 8]),
        (CAN_ERR_ACK, [0; 8]),
        (CAN_ERR_LOSTARB, [7, 0, 0, 0, 0, 0, 0, 0]),
        // Symmetric warning and passive transitions.
        (CAN_ERR_CRTL, [0, 0x0C, 0, 0, 0, 0, 0, 0]),
        (CAN_ERR_CRTL, [0, 0x30, 0, 0, 0, 0, 0, 0]),
        // Overrun plus a state change.
        (CAN_ERR_CRTL, [0, 0x0D, 0, 0, 0, 0, 0, 0]),
        // CRTL|CNT written literally.
        (CAN_ERR_CRTL | CAN_ERR_CNT, [0, 0x10, 0, 0, 0, 0, 130, 42]),
        // Three classes, five data[2] bits.
        (CAN_ERR_PROT | CAN_ERR_BUSERROR | CAN_ERR_ACK, [0, 0, 0x9E, 0x08, 0, 0, 0, 0]),
        // Both transceiver halves set.
        (CAN_ERR_TRX, [0, 0, 0, 0, 0x44, 0, 0, 0]),
        (CAN_ERR_TRX, [0, 0, 0, 0, 0x05, 0, 0, 0]),
        // Five-class accumulation.
        (
            CAN_ERR_CRTL | CAN_ERR_CNT | CAN_ERR_PROT | CAN_ERR_BUSERROR | CAN_ERR_LOSTARB,
            [3, 0x0D, 0x86, 0x1C, 0, 0, 200, 190],
        ),
        // A location with no name, preserved as Location::Reserved.
        (CAN_ERR_PROT, [0, 0, 0x02, 0x1F, 0, 0, 0, 0]),
        // Unspecified sub-codes.
        (CAN_ERR_CRTL, [0; 8]),
        (CAN_ERR_PROT, [0, 0, 0, 0x03, 0, 0, 0, 0]),
        (CAN_ERR_TRX, [0; 8]),
    ];

    for (bits, data) in cases {
        let orig = CanErrorFrame::new_error(*bits, data).unwrap();
        let errs = orig.into_error();
        let again = CanErrorFrame::from_error(&errs.clone());
        assert_eq!(
            again,
            orig,
            "round-trip failed for bits={:#x} data={:02X?}\n  decoded as: {}",
            bits,
            data,
            errs.to_string()
        );
    }

    // Every value of data[3] survives a round trip, including the seven
    // in-range codes with no name and everything above 0x1F.
    for v in 0u8..=0xFF {
        let orig = CanErrorFrame::new_error(CAN_ERR_PROT, &[0, 0, 0x02, v, 0, 0, 0, 0]).unwrap();
        assert_eq!(CanErrorFrame::from_error(&orig.into_error()), orig, "data[3]={v:#04x}");
    }

    // The documented lossy case: a decoding failure has no encoding.
    let errs = CanError::from_multiple(
        ErrorCause::BusOff,
        &[ErrorCause::DecodingFailure(CanErrorDecodingFailure::InvalidControllerProblem)],
    );
    let frame = CanErrorFrame::from_error(&errs);
    assert_eq!(frame.error_bits(), CAN_ERR_BUSOFF);
    assert_eq!(frame.into_error().len(), 1);

    // Sanity: the pieces used above really do carry their raw values.
    assert_eq!(ControllerProblems::RX_WARNING().bits(), 0x04);
    assert_eq!(ViolationTypes::TX().bits(), 0x80);
    assert_eq!(CanLowFault::NoWire.as_raw(), 0x40);
    assert_eq!(Location::OverloadFlag.as_raw(), 0x1C);
}

#[test]
fn test_fd_frame() {
    let frame = CanFdFrame::new(std_id(), DATA).unwrap();
    assert_eq!(std_id(), frame.id());
    assert_eq!(id_to_raw(std_id()), frame.raw_id());
    assert!(frame.is_standard());
    assert!(!frame.is_extended());
    assert!(frame.is_data_frame());
    assert!(!frame.is_remote_frame());
    assert!(!frame.is_error_frame());
    assert_eq!(DATA, frame.data());

    let frame = CanFdFrame::new(ext_id(), DATA).unwrap();
    assert_eq!(ext_id(), frame.id());
    assert_eq!(id_to_raw(ext_id()), frame.raw_id());
    assert!(!frame.is_standard());
    assert!(frame.is_extended());
    assert!(frame.is_data_frame());
    assert!(!frame.is_remote_frame());
    assert!(!frame.is_error_frame());
    assert_eq!(DATA, frame.data());

    // Should keep Extended flag even if ID <= 0x7FF (standard range)
    let frame = CanFdFrame::new(ext_low_id(), DATA).unwrap();
    assert_eq!(ext_low_id(), frame.id());
    assert!(!frame.is_standard());
    assert!(frame.is_extended());
}

#[test]
fn test_fd_ext_data_len() {
    assert!(CanFdFrame::is_valid_data_len(8));
    assert!(CanFdFrame::is_valid_data_len(12));
    assert!(CanFdFrame::is_valid_data_len(24));
    assert!(CanFdFrame::is_valid_data_len(64));

    assert!(!CanFdFrame::is_valid_data_len(28));
    assert!(!CanFdFrame::is_valid_data_len(42));
    assert!(!CanFdFrame::is_valid_data_len(65));

    assert_eq!(CanFdFrame::next_valid_ext_dlen(9), 12);
    assert_eq!(CanFdFrame::next_valid_ext_dlen(13), 16);
    assert_eq!(CanFdFrame::next_valid_ext_dlen(17), 20);
    assert_eq!(CanFdFrame::next_valid_ext_dlen(21), 24);
    assert_eq!(CanFdFrame::next_valid_ext_dlen(25), 32);
    assert_eq!(CanFdFrame::next_valid_ext_dlen(33), 48);
    assert_eq!(CanFdFrame::next_valid_ext_dlen(49), 64);

    assert_eq!(CanFdFrame::next_valid_ext_dlen(99), 64);
}

#[test]
fn test_fd_frame_padding() {
    // Creating a frame w/ invalid length should "pad up"
    let mut frame = CanFdFrame::new(std_id(), EXT_DATA_INVALID_DLEN).unwrap();

    assert_eq!(frame.data(), EXT_DATA_PADDED);
    assert_eq!(frame.len(), EXT_DATA_PADDED.len());
    assert_eq!(frame.data().len(), frame.len());
    assert_eq!(frame.dlc(), EXT_DATA_PADDED_DLC);

    // Creating a frame w/ valid length
    frame = CanFdFrame::new(std_id(), EXT_DATA).unwrap();

    assert_eq!(frame.data(), EXT_DATA);
    assert_eq!(frame.len(), EXT_DATA.len());
    assert_eq!(frame.data().len(), frame.len());
    assert_eq!(frame.dlc(), EXT_DATA_DLC);

    // Setting frame data to smaller length should pad w/ zeros
    frame.set_data(EXT_DATA_INVALID_DLEN).unwrap();

    assert_eq!(frame.data(), EXT_DATA_PADDED);
    assert_eq!(frame.len(), EXT_DATA_PADDED.len());
    assert_eq!(frame.data().len(), frame.len());
    assert_eq!(frame.dlc(), EXT_DATA_PADDED_DLC);
}

#[test]
fn test_to_fd_frame() {
    let data_frame = CanDataFrame::new(std_id(), DATA).unwrap();

    let frame = CanFdFrame::from_data_frame(data_frame);

    assert_eq!(std_id(), frame.id());
    assert!(frame.is_standard());
    assert!(frame.is_data_frame());
    assert!(!frame.is_remote_frame());
    assert!(!frame.is_error_frame());
    assert!(frame.flags().contains(FdFlags::FDF()));
    assert_eq!(frame.len(), DATA_LEN);
    assert_eq!(frame.data().len(), DATA_LEN);
    assert_eq!(frame.data(), DATA);

    // A zeroed kernel `canfd_frame`.
    let frame = CanFdFrame::from_raw(0, 0, 0, [0; 64]);
    assert!(frame.flags().contains(FdFlags::FDF()));
}

#[test]
fn test_fd_to_data_frame() {
    let fdframe = CanFdFrame::new(std_id(), DATA).unwrap();
    assert!(fdframe.flags().contains(FdFlags::FDF()));

    let frame = CanDataFrame::try_from_fd(fdframe).unwrap();

    assert_eq!(std_id(), frame.id());
    assert_eq!(frame.len(), DATA_LEN);
    assert_eq!(frame.data().len(), DATA_LEN);
    assert_eq!(frame.data(), DATA);
}

#[test]
fn test_frame_eq() {
    // Two CanDataFrames built from the same id/data are equal.
    let a = CanDataFrame::new(std_id(), DATA).unwrap();
    let b = CanDataFrame::new(std_id(), DATA).unwrap();
    assert_eq!(a, b);

    // Different data → not equal.
    let c = CanDataFrame::new(std_id(), &[0xDE, 0xAD]).unwrap();
    assert_ne!(a, c);

    // Different id → not equal.
    let d = CanDataFrame::new(ext_id(), DATA).unwrap();
    assert_ne!(a, d);

    // Remote frames with the same DLC are equal.
    let r1 = CanRemoteFrame::new_remote(std_id(), 4).unwrap();
    let r2 = CanRemoteFrame::new_remote(std_id(), 4).unwrap();
    assert_eq!(r1, r2);
    let r3 = CanRemoteFrame::new_remote(std_id(), 5).unwrap();
    assert_ne!(r1, r3);

    // Error frames with the same class+data are equal.
    let e1 = CanErrorFrame::new_error(0x10, &[]).unwrap();
    let e2 = CanErrorFrame::new_error(0x10, &[]).unwrap();
    assert_eq!(e1, e2);
    let e3 = CanErrorFrame::new_error(0x20, &[]).unwrap();
    assert_ne!(e1, e3);

    // FD frames: equal across constructor, distinct on id/data.
    let fd1 = CanFdFrame::new(std_id(), DATA).unwrap();
    let fd2 = CanFdFrame::new(std_id(), DATA).unwrap();
    assert_eq!(fd1, fd2);
    let fd3 = CanFdFrame::new(std_id(), &[0u8; 16]).unwrap();
    assert_ne!(fd1, fd3);

    // CanFrame variants do not cross-compare.
    let data = CanFrame::Data(a);
    let remote = CanFrame::Remote(r1);
    assert_ne!(data, remote);

    // Classic and FD frames do not cross-compare either.
    assert!(CanAnyFrame::Normal(a) != CanAnyFrame::Fd(fd1));
    assert!(CanAnyFrame::Normal(a) == CanAnyFrame::Normal(b));

    // Hash agrees with Eq on equal frames; insertion into a HashSet
    // dedupes byte-identical frames.
    let mut set: HashSet<CanDataFrame> = HashSet::new();
    set.insert(a);
    set.insert(b);
    assert_eq!(set.len(), 1);
    set.insert(c);
    assert_eq!(set.len(), 2);
}

// ===== Own tests =====

#[test]
fn data_frame_rejects_long_payload_and_clamps_raw_dlc() {
    assert!(CanDataFrame::new(std_id(), &[0u8; 9]).is_none());
    let frame = CanDataFrame::try_from_raw(0x123, 12, [1, 2, 3, 4, 5, 6, 7, 8]).unwrap();
    assert_eq!(frame.len(), 8);
    assert_eq!(frame.data(), &[1, 2, 3, 4, 5, 6, 7, 8]);
}

#[test]
fn set_data_zeroes_the_old_tail() {
    let mut frame = CanDataFrame::new(std_id(), &[9, 9, 9, 9]).unwrap();
    frame.set_data(&[1]).unwrap();
    assert_eq!(frame.data(), &[1]);
    assert!(frame.set_data(&[0u8; 9]).is_err());
    assert_eq!(frame.data(), &[1]);
}

#[test]
fn raw_classic_frame_is_classified_by_its_flags() {
    let data = [0u8; 8];
    assert!(matches!(CanFrame::from_raw(0x123, 2, data), CanFrame::Data(_)));
    assert!(matches!(CanFrame::from_raw(CAN_RTR_FLAG | 0x123, 2, data), CanFrame::Remote(_)));
    assert!(matches!(CanFrame::from_raw(CAN_ERR_FLAG | 0x4, 8, data), CanFrame::Error(_)));
}

#[test]
fn fd_frame_with_more_than_eight_bytes_is_not_classic() {
    let fd = CanFdFrame::new(std_id(), &[0u8; 12]).unwrap();
    assert!(CanDataFrame::try_from_fd(fd).is_err());
    assert!(CanAnyFrame::new(std_id(), &[0u8; 12]).map(|f| matches!(f, CanAnyFrame::Fd(_))).unwrap());
    assert!(CanAnyFrame::new(std_id(), &[0u8; 8]).map(|f| matches!(f, CanAnyFrame::Normal(_))).unwrap());
    assert!(CanFdFrame::new(std_id(), &[0u8; 65]).is_none());
}

#[test]
fn upper_hex_renders_candump_bodies() {
    assert_eq!(CanDataFrame::new(std_id(), &[0x12, 0xAB]).unwrap().to_upper_hex(), "7FF#12AB");
    assert_eq!(CanDataFrame::new(ext_low_id(), &[]).unwrap().to_upper_hex(), "000007FF#");
    assert_eq!(CanRemoteFrame::new_remote(std_id(), 3).unwrap().to_upper_hex(), "7FF#R3");
    assert_eq!(CanFdFrame::new(std_id(), &[1]).unwrap().to_upper_hex(), "7FF##401");
    assert_eq!(CanErrorFrame::new_error(0x40, &[]).unwrap().to_upper_hex(), "20000040#0000000000000000");
}

#[test]
fn fd_brs_and_esi_set_and_clear() {
    let mut fd = CanFdFrame::new(std_id(), DATA).unwrap();
    assert!(!fd.is_brs() && !fd.is_esi());
    fd.set_brs(true);
    fd.set_esi(true);
    assert!(fd.is_brs() && fd.is_esi());
    assert_eq!(fd.flags().bits(), 0x07);
    fd.set_brs(false);
    assert!(!fd.is_brs() && fd.is_esi());
}
