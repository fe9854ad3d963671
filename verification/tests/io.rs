use socketcan::io::{io_error_class, io_kind_from_name, io_kind_name, IoKind};
use std::io::ErrorKind;

#[test]
fn kind_names_round_trip() {
    let kinds = [
        ErrorKind::NotFound,
        ErrorKind::PermissionDenied,
        ErrorKind::ConnectionRefused,
        ErrorKind::WouldBlock,
        ErrorKind::InvalidInput,
        ErrorKind::InvalidData,
        ErrorKind::TimedOut,
        ErrorKind::UnexpectedEof,
        ErrorKind::OutOfMemory,
        ErrorKind::Other,
    ];
    for k in kinds {
        assert_eq!(io_kind_from_name(io_kind_name(k)), k);
    }
    assert_eq!(io_kind_name(ErrorKind::TimedOut), "TimedOut");
    assert_eq!(io_kind_name(ErrorKind::AddrInUse), "AddrInUse");
}

#[test]
fn unknown_kinds_and_names_are_other() {
    assert_eq!(io_kind_name(ErrorKind::StorageFull), "Other");
    assert_eq!(io_kind_from_name("NoSuchKind"), ErrorKind::Other);
    assert_eq!(io_kind_from_name(""), ErrorKind::Other);
    assert_eq!(io_kind_from_name("timedout"), ErrorKind::Other);
}

#[test]
fn errors_are_told_apart_by_kind() {
    assert_eq!(io_error_class(&std::io::Error::from(ErrorKind::WouldBlock)), IoKind::WouldBlock);
    assert_eq!(io_error_class(&std::io::Error::from(ErrorKind::BrokenPipe)), IoKind::BrokenPipe);
    assert_eq!(io_error_class(&std::io::Error::from(ErrorKind::StorageFull)), IoKind::Other);
    assert_eq!(IoKind::from_name("BrokenPipe"), IoKind::BrokenPipe);
    assert_eq!(IoKind::Interrupted.name(), "Interrupted");
}
