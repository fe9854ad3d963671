use socketcan::nl::{
    can_attr_kind, is_ctrl_mode_supported, is_info_data, CanAttrKind,
    can_bittiming, can_ctrlmode, requested_index, requested_index_of, CanAttr, CanCtrlMode, CanCtrlModes, CanState,
    InterfaceCanParams, InterfaceDetails, LinkAttr, Mtu, NlError,
};

/// Index 0 means "unspecified", the same as no index at all.
#[test]
fn index_zero_is_unspecified() {
    assert_eq!(requested_index(None), None);
    assert_eq!(requested_index(0), None);
    assert_eq!(requested_index(Some(0)), None);
    assert_eq!(requested_index(1), Some(1));
    assert_eq!(requested_index(Some(42)), Some(42));
}

// ===== Own tests =====

#[test]
fn requested_index_of_keeps_nonzero() {
    assert_eq!(requested_index_of(Some(3)), Some(3));
    assert_eq!(requested_index_of(Some(0)), None);
}

#[test]
fn mtu_sizes() {
    assert_eq!(Mtu::try_from_u32(16).unwrap(), Mtu::Standard);
    assert_eq!(Mtu::try_from_u32(72).unwrap(), Mtu::Fd);
    let err = Mtu::try_from_u32(64).unwrap_err();
    assert_eq!(err.kind(), std::io::ErrorKind::InvalidData);
    assert_eq!(Mtu::Fd.as_u32(), 72);
}

#[test]
fn netlink_errno_maps_to_io_kind() {
    let err = NlError::Netlink { errno: 1 };
    assert_eq!(err.errno(), Some(1));
    assert_eq!(err.io_kind(), Some(std::io::ErrorKind::PermissionDenied));
    assert_eq!(NlError::NoAck.io_kind(), None);
}

#[test]
fn ctrl_modes_accumulate() {
    let mut modes = CanCtrlModes::default();
    modes.add(CanCtrlMode::Loopback, true);
    modes.add(CanCtrlMode::Fd, true);
    assert!(modes.has_mode(CanCtrlMode::Loopback));
    // Adding a mode "off" marks it for change and clears its flag.
    modes.add(CanCtrlMode::Loopback, false);
    assert!(!modes.has_mode(CanCtrlMode::Loopback));
    assert!(modes.has_mode(CanCtrlMode::Fd));
    assert_eq!(modes.0.mask, CanCtrlMode::Loopback.mask() | CanCtrlMode::Fd.mask());
    assert_eq!(modes.0.flags, CanCtrlMode::Fd.mask());
    modes.clear();
    assert!(!modes.has_mode(CanCtrlMode::Fd));
}

#[test]
fn can_state_numbers() {
    assert_eq!(CanState::try_from_u32(4).unwrap().as_u32(), 4);
    assert!(CanState::try_from_u32(99).is_none());
}

#[test]
fn can_attributes_fold_into_parameters() {
    let bt = can_bittiming { bitrate: 500_000, sample_point: 875, ..Default::default() };
    let attrs = [
        CanAttr::BitTiming(bt),
        CanAttr::State(1),
        CanAttr::RestartMs(100),
        CanAttr::CtrlMode(can_ctrlmode { mask: 0x20, flags: 0x20 }),
        CanAttr::Other,
        CanAttr::RestartMs(50),
    ];
    let p = InterfaceCanParams::from_can_attrs(&attrs);
    assert_eq!(p.bit_timing, Some(bt));
    assert_eq!(p.state, Some(CanState::ErrorWarning));
    assert_eq!(p.restart_ms, Some(50));
    assert!(p.ctrl_mode.unwrap().has_mode(CanCtrlMode::Fd));
    assert_eq!(p.clock, None);

    // A state the kernel does not define gives no state.
    let p = InterfaceCanParams::from_can_attrs(&[CanAttr::State(1), CanAttr::State(42)]);
    assert_eq!(p.state, None);

    // Only the settable parameters are sent, in their fixed order.
    let mut q = InterfaceCanParams::default();
    q.termination = Some(120);
    q.restart_ms = Some(100);
    q.bit_timing = Some(bt);
    q.clock = p.clock;
    q.state = Some(CanState::BusOff);
    assert_eq!(
        q.to_can_attrs(),
        vec![CanAttr::BitTiming(bt), CanAttr::RestartMs(100), CanAttr::Termination(120)]
    );
}

#[test]
fn link_attributes_fill_the_details() {
    let attrs = vec![
        LinkAttr::Ifname(b"vcan0\0\0".to_vec()),
        LinkAttr::Mtu(Some(72)),
        LinkAttr::Linkinfo(vec![CanAttr::RestartMs(7)]),
        LinkAttr::Other,
    ];
    let d = InterfaceDetails::from_link_attrs(3, true, &attrs);
    assert_eq!(d.index, 3);
    assert!(d.is_up);
    assert_eq!(d.name.as_deref(), Some("vcan0"));
    assert_eq!(d.mtu, Some(Mtu::Fd));
    assert_eq!(d.can.restart_ms, Some(7));

    // No NUL: no name; an MTU of another size: no MTU.
    let d = InterfaceDetails::from_link_attrs(3, false, &[LinkAttr::Ifname(b"can0".to_vec()), LinkAttr::Mtu(Some(1500))]);
    assert_eq!(d.name, None);
    assert_eq!(d.mtu, None);

    let p = InterfaceCanParams::from_link_attrs(&attrs);
    assert_eq!(p.restart_ms, Some(7));
    assert_eq!(InterfaceCanParams::from_link_attrs(&[LinkAttr::Other]), InterfaceCanParams::default());
}

#[test]
fn reply_errors_and_names() {
    assert_eq!(NlError::from_reply_error(0), None);
    assert_eq!(NlError::from_reply_error(-19), Some(NlError::Netlink { errno: 19 }));
    assert!(NlError::check_ifname("vcan0").is_ok());
    assert_eq!(
        NlError::check_ifname("a_very_long_name"),
        Err(NlError::Msg("Interface name too long".to_string()))
    );
}

#[test]
fn an_odd_mtu_is_invalid_data() {
    assert_eq!(Mtu::try_from_u32(17).unwrap_err().kind(), std::io::ErrorKind::InvalidData);
}

#[test]
fn attribute_types_are_read_with_the_nested_flag_aside() {
    assert_eq!(can_attr_kind(1), CanAttrKind::BitTiming);
    assert_eq!(can_attr_kind(0x8000 | 17), CanAttrKind::CtrlModeExt);
    assert_eq!(can_attr_kind(17), CanAttrKind::CtrlModeExt);
    assert_eq!(can_attr_kind(7), CanAttrKind::Other);
    assert_eq!(can_attr_kind(11), CanAttrKind::Termination);
    assert!(is_info_data(2));
    assert!(is_info_data(0x8002));
    assert!(!is_info_data(1));
    assert!(is_ctrl_mode_supported(1));
    assert!(!is_ctrl_mode_supported(2));
}
