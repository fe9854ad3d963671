//! The kinds of I/O error, as this library tells them apart and names
//! them, and what it reads of an I/O error.
use vstd::prelude::*;
use crate::text::str_eq;
use std::io::ErrorKind;

verus! {

/// The kinds of I/O error that this library tells apart, named as the
/// variants of `std::io::ErrorKind` are; `Other` stands for every kind not
/// listed here.
#[derive(Debug, Clone, Copy, PartialEq, Eq, Hash, Structural)]
pub enum IoKind {
    /// `io::ErrorKind::NotFound`
    NotFound,
    /// `io::ErrorKind::PermissionDenied`
    PermissionDenied,
    /// `io::ErrorKind::ConnectionRefused`
    ConnectionRefused,
    /// `io::ErrorKind::ConnectionReset`
    ConnectionReset,
    /// `io::ErrorKind::ConnectionAborted`
    ConnectionAborted,
    /// `io::ErrorKind::NotConnected`
    NotConnected,
    /// `io::ErrorKind::NetworkDown`
    NetworkDown,
    /// `io::ErrorKind::NetworkUnreachable`
    NetworkUnreachable,
    /// `io::ErrorKind::HostUnreachable`
    HostUnreachable,
    /// `io::ErrorKind::ResourceBusy`
    ResourceBusy,
    /// `io::ErrorKind::AddrInUse`
    AddrInUse,
    /// `io::ErrorKind::AddrNotAvailable`
    AddrNotAvailable,
    /// `io::ErrorKind::BrokenPipe`
    BrokenPipe,
    /// `io::ErrorKind::AlreadyExists`
    AlreadyExists,
    /// `io::ErrorKind::WouldBlock`
    WouldBlock,
    /// `io::ErrorKind::InvalidInput`
    InvalidInput,
    /// `io::ErrorKind::InvalidData`
    InvalidData,
    /// `io::ErrorKind::TimedOut`
    TimedOut,
    /// `io::ErrorKind::WriteZero`
    WriteZero,
    /// `io::ErrorKind::Interrupted`
    Interrupted,
    /// `io::ErrorKind::Unsupported`
    Unsupported,
    /// `io::ErrorKind::UnexpectedEof`
    UnexpectedEof,
    /// `io::ErrorKind::OutOfMemory`
    OutOfMemory,
    /// `io::ErrorKind::Other`, and every kind not listed above
    Other,
}

/// The kind of an I/O error, as `io::Error::kind` reports it.
pub uninterp spec fn io_error_kind(e: std::io::Error) -> std::io::ErrorKind;

/// The OS error number of an I/O error, as `io::Error::raw_os_error`
/// reports it.
pub uninterp spec fn io_error_errno(e: std::io::Error) -> Option<i32>;

/// Which of the listed kinds a `std::io::ErrorKind` is, `Other` for the
/// rest.
pub uninterp spec fn std_io_kind(k: std::io::ErrorKind) -> IoKind;

/// The kind of an I/O error (`io::Error::kind`).
#[verifier::external_body]
fn error_kind(e: &std::io::Error) -> (r: std::io::ErrorKind)
    ensures
        r == io_error_kind(*e),
{
    e.kind()
}

/// The OS error number of an I/O error, if it came from one
/// (`io::Error::raw_os_error`).
#[verifier::external_body]
pub(crate) fn raw_os_error(e: &std::io::Error) -> (r: Option<i32>)
    ensures
        r == io_error_errno(*e),
{
    e.raw_os_error()
}

/// An I/O error of kind `k` with nothing else in it (`io::Error::from`):
/// its kind is `k`, and it came from no OS error number.
#[verifier::external_body]
pub(crate) fn io_error_from_kind(k: std::io::ErrorKind) -> (r: std::io::Error)
    ensures
        io_error_kind(r) == k,
        io_error_errno(r) is None,
{
    std::io::Error::from(k)
}

/// The group of listed kinds a kind belongs to (each group is told apart
/// by one wrapper below), and 4 for `Other`.
pub open spec fn kind_group(k: IoKind) -> nat {
    match k {
        IoKind::NotFound | IoKind::PermissionDenied | IoKind::ConnectionRefused | IoKind::ConnectionReset | IoKind::ConnectionAborted | IoKind::NotConnected => 0,
        IoKind::NetworkDown | IoKind::NetworkUnreachable | IoKind::HostUnreachable | IoKind::ResourceBusy | IoKind::AddrInUse | IoKind::AddrNotAvailable => 1,
        IoKind::BrokenPipe | IoKind::AlreadyExists | IoKind::WouldBlock | IoKind::InvalidInput | IoKind::InvalidData | IoKind::TimedOut => 2,
        IoKind::WriteZero | IoKind::Interrupted | IoKind::Unsupported | IoKind::UnexpectedEof | IoKind::OutOfMemory => 3,
        IoKind::Other => 4,
    }
}

/// Tells apart the variants of `std::io::ErrorKind` of the first group:
/// each as itself, and `None` for any other kind.
#[verifier::external_body]
fn kind_class_0(k: ErrorKind) -> (r: Option<IoKind>)
    ensures
        r == (if kind_group(std_io_kind(k)) == 0 {
            Some(std_io_kind(k))
        } else {
            None
        }),
{
    match k {
        ErrorKind::NotFound => Some(IoKind::NotFound),
        ErrorKind::PermissionDenied => Some(IoKind::PermissionDenied),
        ErrorKind::ConnectionRefused => Some(IoKind::ConnectionRefused),
        ErrorKind::ConnectionReset => Some(IoKind::ConnectionReset),
        ErrorKind::ConnectionAborted => Some(IoKind::ConnectionAborted),
        ErrorKind::NotConnected => Some(IoKind::NotConnected),
        _ => None,
    }
}

/// Tells apart the variants of `std::io::ErrorKind` of the second group:
/// each as itself, and `None` for any other kind.
#[verifier::external_body]
fn kind_class_1(k: ErrorKind) -> (r: Option<IoKind>)
    ensures
        r == (if kind_group(std_io_kind(k)) == 1 {
            Some(std_io_kind(k))
        } else {
            None
        }),
{
    match k {
        ErrorKind::NetworkDown => Some(IoKind::NetworkDown),
        ErrorKind::NetworkUnreachable => Some(IoKind::NetworkUnreachable),
        ErrorKind::HostUnreachable => Some(IoKind::HostUnreachable),
        ErrorKind::ResourceBusy => Some(IoKind::ResourceBusy),
        ErrorKind::AddrInUse => Some(IoKind::AddrInUse),
        ErrorKind::AddrNotAvailable => Some(IoKind::AddrNotAvailable),
        _ => None,
    }
}

/// Tells apart the variants of `std::io::ErrorKind` of the third group:
/// each as itself, and `None` for any other kind.
#[verifier::external_body]
fn kind_class_2(k: ErrorKind) -> (r: Option<IoKind>)
    ensures
        r == (if kind_group(std_io_kind(k)) == 2 {
            Some(std_io_kind(k))
        } else {
            None
        }),
{
    match k {
        ErrorKind::BrokenPipe => Some(IoKind::BrokenPipe),
        ErrorKind::AlreadyExists => Some(IoKind::AlreadyExists),
        ErrorKind::WouldBlock => Some(IoKind::WouldBlock),
        ErrorKind::InvalidInput => Some(IoKind::InvalidInput),
        ErrorKind::InvalidData => Some(IoKind::InvalidData),
        ErrorKind::TimedOut => Some(IoKind::TimedOut),
        _ => None,
    }
}

/// Tells apart the variants of `std::io::ErrorKind` of the fourth group:
/// each as itself, and `None` for any other kind.
#[verifier::external_body]
fn kind_class_3(k: ErrorKind) -> (r: Option<IoKind>)
    ensures
        r == (if kind_group(std_io_kind(k)) == 3 {
            Some(std_io_kind(k))
        } else {
            None
        }),
{
    match k {
        ErrorKind::WriteZero => Some(IoKind::WriteZero),
        ErrorKind::Interrupted => Some(IoKind::Interrupted),
        ErrorKind::Unsupported => Some(IoKind::Unsupported),
        ErrorKind::UnexpectedEof => Some(IoKind::UnexpectedEof),
        ErrorKind::OutOfMemory => Some(IoKind::OutOfMemory),
        _ => None,
    }
}

/// Which of the listed kinds a `std::io::ErrorKind` is, `Other` for the
/// rest.
fn kind_class(k: ErrorKind) -> (r: IoKind)
    ensures
        r == std_io_kind(k),
{
    if let Some(c) = kind_class_0(k) {
        return c;
    }
    if let Some(c) = kind_class_1(k) {
        return c;
    }
    if let Some(c) = kind_class_2(k) {
        return c;
    }
    if let Some(c) = kind_class_3(k) {
        return c;
    }
    IoKind::Other
}

/// The variant of `std::io::ErrorKind` of the same name as a kind of the
/// first group, which is told apart as that kind again.
#[verifier::external_body]
fn std_kind_0(k: IoKind) -> (r: ErrorKind)
    requires
        kind_group(k) == 0,
    ensures
        std_io_kind(r) == k,
{
    match k {
        IoKind::NotFound => ErrorKind::NotFound,
        IoKind::PermissionDenied => ErrorKind::PermissionDenied,
        IoKind::ConnectionRefused => ErrorKind::ConnectionRefused,
        IoKind::ConnectionReset => ErrorKind::ConnectionReset,
        IoKind::ConnectionAborted => ErrorKind::ConnectionAborted,
        IoKind::NotConnected => ErrorKind::NotConnected,
        _ => ErrorKind::Other,
    }
}

/// The variant of `std::io::ErrorKind` of the same name as a kind of the
/// second group, which is told apart as that kind again.
#[verifier::external_body]
fn std_kind_1(k: IoKind) -> (r: ErrorKind)
    requires
        kind_group(k) == 1,
    ensures
        std_io_kind(r) == k,
{
    match k {
        IoKind::NetworkDown => ErrorKind::NetworkDown,
        IoKind::NetworkUnreachable => ErrorKind::NetworkUnreachable,
        IoKind::HostUnreachable => ErrorKind::HostUnreachable,
        IoKind::ResourceBusy => ErrorKind::ResourceBusy,
        IoKind::AddrInUse => ErrorKind::AddrInUse,
        IoKind::AddrNotAvailable => ErrorKind::AddrNotAvailable,
        _ => ErrorKind::Other,
    }
}

/// The variant of `std::io::ErrorKind` of the same name as a kind of the
/// third group, which is told apart as that kind again.
#[verifier::external_body]
fn std_kind_2(k: IoKind) -> (r: ErrorKind)
    requires
        kind_group(k) == 2,
    ensures
        std_io_kind(r) == k,
{
    match k {
        IoKind::BrokenPipe => ErrorKind::BrokenPipe,
        IoKind::AlreadyExists => ErrorKind::AlreadyExists,
        IoKind::WouldBlock => ErrorKind::WouldBlock,
        IoKind::InvalidInput => ErrorKind::InvalidInput,
        IoKind::InvalidData => ErrorKind::InvalidData,
        IoKind::TimedOut => ErrorKind::TimedOut,
        _ => ErrorKind::Other,
    }
}

/// The variant of `std::io::ErrorKind` of the same name as a kind of the
/// fourth group, which is told apart as that kind again.
#[verifier::external_body]
fn std_kind_3(k: IoKind) -> (r: ErrorKind)
    requires
        kind_group(k) == 3,
    ensures
        std_io_kind(r) == k,
{
    match k {
        IoKind::WriteZero => ErrorKind::WriteZero,
        IoKind::Interrupted => ErrorKind::Interrupted,
        IoKind::Unsupported => ErrorKind::Unsupported,
        IoKind::UnexpectedEof => ErrorKind::UnexpectedEof,
        IoKind::OutOfMemory => ErrorKind::OutOfMemory,
        _ => ErrorKind::Other,
    }
}

/// `io::ErrorKind::Other`, which is told apart as `Other`.
#[verifier::external_body]
fn std_kind_other() -> (r: ErrorKind)
    ensures
        std_io_kind(r) == IoKind::Other,
{
    ErrorKind::Other
}

/// The variant of `std::io::ErrorKind` of the same name as `k` (`Other`
/// for `Other`), which is told apart as `k` again.
pub(crate) fn std_kind(k: IoKind) -> (r: ErrorKind)
    ensures
        std_io_kind(r) == k,
{
    let g = match k {
        IoKind::NotFound | IoKind::PermissionDenied | IoKind::ConnectionRefused | IoKind::ConnectionReset | IoKind::ConnectionAborted | IoKind::NotConnected => 0u8,
        IoKind::NetworkDown | IoKind::NetworkUnreachable | IoKind::HostUnreachable | IoKind::ResourceBusy | IoKind::AddrInUse | IoKind::AddrNotAvailable => 1u8,
        IoKind::BrokenPipe | IoKind::AlreadyExists | IoKind::WouldBlock | IoKind::InvalidInput | IoKind::InvalidData | IoKind::TimedOut => 2u8,
        IoKind::WriteZero | IoKind::Interrupted | IoKind::Unsupported | IoKind::UnexpectedEof | IoKind::OutOfMemory => 3u8,
        IoKind::Other => 4u8,
    };
    if g == 0 {
        std_kind_0(k)
    } else if g == 1 {
        std_kind_1(k)
    } else if g == 2 {
        std_kind_2(k)
    } else if g == 3 {
        std_kind_3(k)
    } else {
        std_kind_other()
    }
}

/// The name of a kind, that of its `std::io::ErrorKind` variant.
pub open spec fn io_kind_text(k: IoKind) -> Seq<char> {
    match k {
        IoKind::NotFound => "NotFound"@,
        IoKind::PermissionDenied => "PermissionDenied"@,
        IoKind::ConnectionRefused => "ConnectionRefused"@,
        IoKind::ConnectionReset => "ConnectionReset"@,
        IoKind::ConnectionAborted => "ConnectionAborted"@,
        IoKind::NotConnected => "NotConnected"@,
        IoKind::NetworkDown => "NetworkDown"@,
        IoKind::NetworkUnreachable => "NetworkUnreachable"@,
        IoKind::HostUnreachable => "HostUnreachable"@,
        IoKind::ResourceBusy => "ResourceBusy"@,
        IoKind::AddrInUse => "AddrInUse"@,
        IoKind::AddrNotAvailable => "AddrNotAvailable"@,
        IoKind::BrokenPipe => "BrokenPipe"@,
        IoKind::AlreadyExists => "AlreadyExists"@,
        IoKind::WouldBlock => "WouldBlock"@,
        IoKind::InvalidInput => "InvalidInput"@,
        IoKind::InvalidData => "InvalidData"@,
        IoKind::TimedOut => "TimedOut"@,
        IoKind::WriteZero => "WriteZero"@,
        IoKind::Interrupted => "Interrupted"@,
        IoKind::Unsupported => "Unsupported"@,
        IoKind::UnexpectedEof => "UnexpectedEof"@,
        IoKind::OutOfMemory => "OutOfMemory"@,
        IoKind::Other => "Other"@,
    }
}

/// The kind a name stands for: the listed kind of that name, and `Other`
/// for any name that is none of them.
pub open spec fn io_kind_of_text(s: Seq<char>) -> IoKind {
    if s == "NotFound"@ {
        IoKind::NotFound
    } else if s == "PermissionDenied"@ {
        IoKind::PermissionDenied
    } else if s == "ConnectionRefused"@ {
        IoKind::ConnectionRefused
    } else if s == "ConnectionReset"@ {
        IoKind::ConnectionReset
    } else if s == "ConnectionAborted"@ {
        IoKind::ConnectionAborted
    } else if s == "NotConnected"@ {
        IoKind::NotConnected
    } else if s == "NetworkDown"@ {
        IoKind::NetworkDown
    } else if s == "NetworkUnreachable"@ {
        IoKind::NetworkUnreachable
    } else if s == "HostUnreachable"@ {
        IoKind::HostUnreachable
    } else if s == "ResourceBusy"@ {
        IoKind::ResourceBusy
    } else if s == "AddrInUse"@ {
        IoKind::AddrInUse
    } else if s == "AddrNotAvailable"@ {
        IoKind::AddrNotAvailable
    } else if s == "BrokenPipe"@ {
        IoKind::BrokenPipe
    } else if s == "AlreadyExists"@ {
        IoKind::AlreadyExists
    } else if s == "WouldBlock"@ {
        IoKind::WouldBlock
    } else if s == "InvalidInput"@ {
        IoKind::InvalidInput
    } else if s == "InvalidData"@ {
        IoKind::InvalidData
    } else if s == "TimedOut"@ {
        IoKind::TimedOut
    } else if s == "WriteZero"@ {
        IoKind::WriteZero
    } else if s == "Interrupted"@ {
        IoKind::Interrupted
    } else if s == "Unsupported"@ {
        IoKind::Unsupported
    } else if s == "UnexpectedEof"@ {
        IoKind::UnexpectedEof
    } else if s == "OutOfMemory"@ {
        IoKind::OutOfMemory
    } else {
        IoKind::Other
    }
}

impl IoKind {
    /// The name of the kind.
    pub fn name(&self) -> (r: &'static str)
        ensures
            r@ == io_kind_text(*self),
    {
        match self {
            IoKind::NotFound => "NotFound",
            IoKind::PermissionDenied => "PermissionDenied",
            IoKind::ConnectionRefused => "ConnectionRefused",
            IoKind::ConnectionReset => "ConnectionReset",
            IoKind::ConnectionAborted => "ConnectionAborted",
            IoKind::NotConnected => "NotConnected",
            IoKind::NetworkDown => "NetworkDown",
            IoKind::NetworkUnreachable => "NetworkUnreachable",
            IoKind::HostUnreachable => "HostUnreachable",
            IoKind::ResourceBusy => "ResourceBusy",
            IoKind::AddrInUse => "AddrInUse",
            IoKind::AddrNotAvailable => "AddrNotAvailable",
            IoKind::BrokenPipe => "BrokenPipe",
            IoKind::AlreadyExists => "AlreadyExists",
            IoKind::WouldBlock => "WouldBlock",
            IoKind::InvalidInput => "InvalidInput",
            IoKind::InvalidData => "InvalidData",
            IoKind::TimedOut => "TimedOut",
            IoKind::WriteZero => "WriteZero",
            IoKind::Interrupted => "Interrupted",
            IoKind::Unsupported => "Unsupported",
            IoKind::UnexpectedEof => "UnexpectedEof",
            IoKind::OutOfMemory => "OutOfMemory",
            IoKind::Other => "Other",
        }
    }

    /// The kind a name stands for, `Other` for an unknown name.
    pub fn from_name(name: &str) -> (r: IoKind)
        ensures
            r == io_kind_of_text(name@),
    {
        if str_eq(name, "NotFound") {
            IoKind::NotFound
        } else if str_eq(name, "PermissionDenied") {
            IoKind::PermissionDenied
        } else if str_eq(name, "ConnectionRefused") {
            IoKind::ConnectionRefused
        } else if str_eq(name, "ConnectionReset") {
            IoKind::ConnectionReset
        } else if str_eq(name, "ConnectionAborted") {
            IoKind::ConnectionAborted
        } else if str_eq(name, "NotConnected") {
            IoKind::NotConnected
        } else if str_eq(name, "NetworkDown") {
            IoKind::NetworkDown
        } else if str_eq(name, "NetworkUnreachable") {
            IoKind::NetworkUnreachable
        } else if str_eq(name, "HostUnreachable") {
            IoKind::HostUnreachable
        } else if str_eq(name, "ResourceBusy") {
            IoKind::ResourceBusy
        } else if str_eq(name, "AddrInUse") {
            IoKind::AddrInUse
        } else if str_eq(name, "AddrNotAvailable") {
            IoKind::AddrNotAvailable
        } else if str_eq(name, "BrokenPipe") {
            IoKind::BrokenPipe
        } else if str_eq(name, "AlreadyExists") {
            IoKind::AlreadyExists
        } else if str_eq(name, "WouldBlock") {
            IoKind::WouldBlock
        } else if str_eq(name, "InvalidInput") {
            IoKind::InvalidInput
        } else if str_eq(name, "InvalidData") {
            IoKind::InvalidData
        } else if str_eq(name, "TimedOut") {
            IoKind::TimedOut
        } else if str_eq(name, "WriteZero") {
            IoKind::WriteZero
        } else if str_eq(name, "Interrupted") {
            IoKind::Interrupted
        } else if str_eq(name, "Unsupported") {
            IoKind::Unsupported
        } else if str_eq(name, "UnexpectedEof") {
            IoKind::UnexpectedEof
        } else if str_eq(name, "OutOfMemory") {
            IoKind::OutOfMemory
        } else {
            IoKind::Other
        }
    }
}

/// The kind of an I/O error, among those this library tells apart.
pub fn io_error_class(e: &std::io::Error) -> (r: IoKind)
    ensures
        r == std_io_kind(io_error_kind(*e)),
{
    kind_class(error_kind(e))
}

/// The name of an I/O error kind: that of its variant for the listed
/// kinds, and `Other` for every other kind.
pub fn io_kind_name(kind: std::io::ErrorKind) -> (r: &'static str)
    ensures
        r@ == io_kind_text(std_io_kind(kind)),
{
    kind_class(kind).name()
}

/// The I/O error kind a name stands for: the listed kind of that name, and
/// `Other` for a name that is none of them.
pub fn io_kind_from_name(name: &str) -> (r: std::io::ErrorKind)
    ensures
        std_io_kind(r) == io_kind_of_text(name@),
{
    std_kind(IoKind::from_name(name))
}

/// Reading back the name of a kind gives the kind: naming loses nothing of
/// the listed kinds.
pub proof fn lemma_io_kind_name_round_trip(k: IoKind)
    ensures
        io_kind_of_text(io_kind_text(k)) == k,
{
    match k {
        IoKind::NotFound => {
            reveal_strlit("NotFound");
        },
        IoKind::PermissionDenied => {
            reveal_strlit("PermissionDenied");
            reveal_strlit("NotFound");
            assert("PermissionDenied"@.len() != "NotFound"@.len());
        },
        IoKind::ConnectionRefused => {
            reveal_strlit("ConnectionRefused");
            reveal_strlit("NotFound");
            assert("ConnectionRefused"@.len() != "NotFound"@.len());
            reveal_strlit("PermissionDenied");
            assert("ConnectionRefused"@.len() != "PermissionDenied"@.len());
        },
        IoKind::ConnectionReset => {
            reveal_strlit("ConnectionReset");
            reveal_strlit("NotFound");
            assert("ConnectionReset"@.len() != "NotFound"@.len());
            reveal_strlit("PermissionDenied");
            assert("ConnectionReset"@.len() != "PermissionDenied"@.len());
            reveal_strlit("ConnectionRefused");
            assert("ConnectionReset"@.len() != "ConnectionRefused"@.len());
        },
        IoKind::ConnectionAborted => {
            reveal_strlit("ConnectionAborted");
            reveal_strlit("NotFound");
            assert("ConnectionAborted"@.len() != "NotFound"@.len());
            reveal_strlit("PermissionDenied");
            assert("ConnectionAborted"@.len() != "PermissionDenied"@.len());
            reveal_strlit("ConnectionRefused");
            assert("ConnectionAborted"@[10] != "ConnectionRefused"@[10]);
            reveal_strlit("ConnectionReset");
            assert("ConnectionAborted"@.len() != "ConnectionReset"@.len());
        },
        IoKind::NotConnected => {
            reveal_strlit("NotConnected");
            reveal_strlit("NotFound");
            assert("NotConnected"@.len() != "NotFound"@.len());
            reveal_strlit("PermissionDenied");
            assert("NotConnected"@.len() != "PermissionDenied"@.len());
            reveal_strlit("ConnectionRefused");
            assert("NotConnected"@.len() != "ConnectionRefused"@.len());
            reveal_strlit("ConnectionReset");
            assert("NotConnected"@.len() != "ConnectionReset"@.len());
            reveal_strlit("ConnectionAborted");
            assert("NotConnected"@.len() != "ConnectionAborted"@.len());
        },
        IoKind::NetworkDown => {
            reveal_strlit("NetworkDown");
            reveal_strlit("NotFound");
            assert("NetworkDown"@.len() != "NotFound"@.len());
            reveal_strlit("PermissionDenied");
            assert("NetworkDown"@.len() != "PermissionDenied"@.len());
            reveal_strlit("ConnectionRefused");
            assert("NetworkDown"@.len() != "ConnectionRefused"@.len());
            reveal_strlit("ConnectionReset");
            assert("NetworkDown"@.len() != "ConnectionReset"@.len());
            reveal_strlit("ConnectionAborted");
            assert("NetworkDown"@.len() != "ConnectionAborted"@.len());
            reveal_strlit("NotConnected");
            assert("NetworkDown"@.len() != "NotConnected"@.len());
        },
        IoKind::NetworkUnreachable => {
            reveal_strlit("NetworkUnreachable");
            reveal_strlit("NotFound");
            assert("NetworkUnreachable"@.len() != "NotFound"@.len());
            reveal_strlit("PermissionDenied");
            assert("NetworkUnreachable"@.len() != "PermissionDenied"@.len());
            reveal_strlit("ConnectionRefused");
            assert("NetworkUnreachable"@.len() != "ConnectionRefused"@.len());
            reveal_strlit("ConnectionReset");
            assert("NetworkUnreachable"@.len() != "ConnectionReset"@.len());
            reveal_strlit("ConnectionAborted");
            assert("NetworkUnreachable"@.len() != "ConnectionAborted"@.len());
            reveal_strlit("NotConnected");
            assert("NetworkUnreachable"@.len() != "NotConnected"@.len());
            reveal_strlit("NetworkDown");
            assert("NetworkUnreachable"@.len() != "NetworkDown"@.len());
        },
        IoKind::HostUnreachable => {
            reveal_strlit("HostUnreachable");
            reveal_strlit("NotFound");
            assert("HostUnreachable"@.len() != "NotFound"@.len());
            reveal_strlit("PermissionDenied");
            assert("HostUnreachable"@.len() != "PermissionDenied"@.len());
            reveal_strlit("ConnectionRefused");
            assert("HostUnreachable"@.len() != "ConnectionRefused"@.len());
            reveal_strlit("ConnectionReset");
            assert("HostUnreachable"@[0] != "ConnectionReset"@[0]);
            reveal_strlit("ConnectionAborted");
            assert("HostUnreachable"@.len() != "ConnectionAborted"@.len());
            reveal_strlit("NotConnected");
            assert("HostUnreachable"@.len() != "NotConnected"@.len());
            reveal_strlit("NetworkDown");
            assert("HostUnreachable"@.len() != "NetworkDown"@.len());
            reveal_strlit("NetworkUnreachable");
            assert("HostUnreachable"@.len() != "NetworkUnreachable"@.len());
        },
        IoKind::ResourceBusy => {
            reveal_strlit("ResourceBusy");
            reveal_strlit("NotFound");
            assert("ResourceBusy"@.len() != "NotFound"@.len());
            reveal_strlit("PermissionDenied");
            assert("ResourceBusy"@.len() != "PermissionDenied"@.len());
            reveal_strlit("ConnectionRefused");
            assert("ResourceBusy"@.len() != "ConnectionRefused"@.len());
            reveal_strlit("ConnectionReset");
            assert("ResourceBusy"@.len() != "ConnectionReset"@.len());
            reveal_strlit("ConnectionAborted");
            assert("ResourceBusy"@.len() != "ConnectionAborted"@.len());
            reveal_strlit("NotConnected");
            assert("ResourceBusy"@[0] != "NotConnected"@[0]);
            reveal_strlit("NetworkDown");
            assert("ResourceBusy"@.len() != "NetworkDown"@.len());
            reveal_strlit("NetworkUnreachable");
            assert("ResourceBusy"@.len() != "NetworkUnreachable"@.len());
            reveal_strlit("HostUnreachable");
            assert("ResourceBusy"@.len() != "HostUnreachable"@.len());
        },
        IoKind::AddrInUse => {
            reveal_strlit("AddrInUse");
            reveal_strlit("NotFound");
            assert("AddrInUse"@.len() != "NotFound"@.len());
            reveal_strlit("PermissionDenied");
            assert("AddrInUse"@.len() != "PermissionDenied"@.len());
            reveal_strlit("ConnectionRefused");
            assert("AddrInUse"@.len() != "ConnectionRefused"@.len());
            reveal_strlit("ConnectionReset");
            assert("AddrInUse"@.len() != "ConnectionReset"@.len());
            reveal_strlit("ConnectionAborted");
            assert("AddrInUse"@.len() != "ConnectionAborted"@.len());
            reveal_strlit("NotConnected");
            assert("AddrInUse"@.len() != "NotConnected"@.len());
            reveal_strlit("NetworkDown");
            assert("AddrInUse"@.len() != "NetworkDown"@.len());
            reveal_strlit("NetworkUnreachable");
            assert("AddrInUse"@.len() != "NetworkUnreachable"@.len());
            reveal_strlit("HostUnreachable");
            assert("AddrInUse"@.len() != "HostUnreachable"@.len());
            reveal_strlit("ResourceBusy");
            assert("AddrInUse"@.len() != "ResourceBusy"@.len());
        },
        IoKind::AddrNotAvailable => {
            reveal_strlit("AddrNotAvailable");
            reveal_strlit("NotFound");
            assert("AddrNotAvailable"@.len() != "NotFound"@.len());
            reveal_strlit("PermissionDenied");
            assert("AddrNotAvailable"@[0] != "PermissionDenied"@[0]);
            reveal_strlit("ConnectionRefused");
            assert("AddrNotAvailable"@.len() != "ConnectionRefused"@.len());
            reveal_strlit("ConnectionReset");
            assert("AddrNotAvailable"@.len() != "ConnectionReset"@.len());
            reveal_strlit("ConnectionAborted");
            assert("AddrNotAvailable"@.len() != "ConnectionAborted"@.len());
            reveal_strlit("NotConnected");
            assert("AddrNotAvailable"@.len() != "NotConnected"@.len());
            reveal_strlit("NetworkDown");
            assert("AddrNotAvailable"@.len() != "NetworkDown"@.len());
            reveal_strlit("NetworkUnreachable");
            assert("AddrNotAvailable"@.len() != "NetworkUnreachable"@.len());
            reveal_strlit("HostUnreachable");
            assert("AddrNotAvailable"@.len() != "HostUnreachable"@.len());
            reveal_strlit("ResourceBusy");
            assert("AddrNotAvailable"@.len() != "ResourceBusy"@.len());
            reveal_strlit("AddrInUse");
            assert("AddrNotAvailable"@.len() != "AddrInUse"@.len());
        },
        IoKind::BrokenPipe => {
            reveal_strlit("BrokenPipe");
            reveal_strlit("NotFound");
            assert("BrokenPipe"@.len() != "NotFound"@.len());
            reveal_strlit("PermissionDenied");
            assert("BrokenPipe"@.len() != "PermissionDenied"@.len());
            reveal_strlit("ConnectionRefused");
            assert("BrokenPipe"@.len() != "ConnectionRefused"@.len());
            reveal_strlit("ConnectionReset");
            assert("BrokenPipe"@.len() != "ConnectionReset"@.len());
            reveal_strlit("ConnectionAborted");
            assert("BrokenPipe"@.len() != "ConnectionAborted"@.len());
            reveal_strlit("NotConnected");
            assert("BrokenPipe"@.len() != "NotConnected"@.len());
            reveal_strlit("NetworkDown");
            assert("BrokenPipe"@.len() != "NetworkDown"@.len());
            reveal_strlit("NetworkUnreachable");
            assert("BrokenPipe"@.len() != "NetworkUnreachable"@.len());
            reveal_strlit("HostUnreachable");
            assert("BrokenPipe"@.len() != "HostUnreachable"@.len());
            reveal_strlit("ResourceBusy");
            assert("BrokenPipe"@.len() != "ResourceBusy"@.len());
            reveal_strlit("AddrInUse");
            assert("BrokenPipe"@.len() != "AddrInUse"@.len());
            reveal_strlit("AddrNotAvailable");
            assert("BrokenPipe"@.len() != "AddrNotAvailable"@.len());
        },
        IoKind::AlreadyExists => {
            reveal_strlit("AlreadyExists");
            reveal_strlit("NotFound");
            assert("AlreadyExists"@.len() != "NotFound"@.len());
            reveal_strlit("PermissionDenied");
            assert("AlreadyExists"@.len() != "PermissionDenied"@.len());
            reveal_strlit("ConnectionRefused");
            assert("AlreadyExists"@.len() != "ConnectionRefused"@.len());
            reveal_strlit("ConnectionReset");
            assert("AlreadyExists"@.len() != "ConnectionReset"@.len());
            reveal_strlit("ConnectionAborted");
            assert("AlreadyExists"@.len() != "ConnectionAborted"@.len());
            reveal_strlit("NotConnected");
            assert("AlreadyExists"@.len() != "NotConnected"@.len());
            reveal_strlit("NetworkDown");
            assert("AlreadyExists"@.len() != "NetworkDown"@.len());
            reveal_strlit("NetworkUnreachable");
            assert("AlreadyExists"@.len() != "NetworkUnreachable"@.len());
            reveal_strlit("HostUnreachable");
            assert("AlreadyExists"@.len() != "HostUnreachable"@.len());
            reveal_strlit("ResourceBusy");
            assert("AlreadyExists"@.len() != "ResourceBusy"@.len());
            reveal_strlit("AddrInUse");
            assert("AlreadyExists"@.len() != "AddrInUse"@.len());
            reveal_strlit("AddrNotAvailable");
            assert("AlreadyExists"@.len() != "AddrNotAvailable"@.len());
            reveal_strlit("BrokenPipe");
            assert("AlreadyExists"@.len() != "BrokenPipe"@.len());
        },
        IoKind::WouldBlock => {
            reveal_strlit("WouldBlock");
            reveal_strlit("NotFound");
            assert("WouldBlock"@.len() != "NotFound"@.len());
            reveal_strlit("PermissionDenied");
            assert("WouldBlock"@.len() != "PermissionDenied"@.len());
            reveal_strlit("ConnectionRefused");
            assert("WouldBlock"@.len() != "ConnectionRefused"@.len());
            reveal_strlit("ConnectionReset");
            assert("WouldBlock"@.len() != "ConnectionReset"@.len());
            reveal_strlit("ConnectionAborted");
            assert("WouldBlock"@.len() != "ConnectionAborted"@.len());
            reveal_strlit("NotConnected");
            assert("WouldBlock"@.len() != "NotConnected"@.len());
            reveal_strlit("NetworkDown");
            assert("WouldBlock"@.len() != "NetworkDown"@.len());
            reveal_strlit("NetworkUnreachable");
            assert("WouldBlock"@.len() != "NetworkUnreachable"@.len());
            reveal_strlit("HostUnreachable");
            assert("WouldBlock"@.len() != "HostUnreachable"@.len());
            reveal_strlit("ResourceBusy");
            assert("WouldBlock"@.len() != "ResourceBusy"@.len());
            reveal_strlit("AddrInUse");
            assert("WouldBlock"@.len() != "AddrInUse"@.len());
            reveal_strlit("AddrNotAvailable");
            assert("WouldBlock"@.len() != "AddrNotAvailable"@.len());
            reveal_strlit("BrokenPipe");
            assert("WouldBlock"@[0] != "BrokenPipe"@[0]);
            reveal_strlit("AlreadyExists");
            assert("WouldBlock"@.len() != "AlreadyExists"@.len());
        },
        IoKind::InvalidInput => {
            reveal_strlit("InvalidInput");
            reveal_strlit("NotFound");
            assert("InvalidInput"@.len() != "NotFound"@.len());
            reveal_strlit("PermissionDenied");
            assert("InvalidInput"@.len() != "PermissionDenied"@.len());
            reveal_strlit("ConnectionRefused");
            assert("InvalidInput"@.len() != "ConnectionRefused"@.len());
            reveal_strlit("ConnectionReset");
            assert("InvalidInput"@.len() != "ConnectionReset"@.len());
            reveal_strlit("ConnectionAborted");
            assert("InvalidInput"@.len() != "ConnectionAborted"@.len());
            reveal_strlit("NotConnected");
            assert("InvalidInput"@[0] != "NotConnected"@[0]);
            reveal_strlit("NetworkDown");
            assert("InvalidInput"@.len() != "NetworkDown"@.len());
            reveal_strlit("NetworkUnreachable");
            assert("InvalidInput"@.len() != "NetworkUnreachable"@.len());
            reveal_strlit("HostUnreachable");
            assert("InvalidInput"@.len() != "HostUnreachable"@.len());
            reveal_strlit("ResourceBusy");
            assert("InvalidInput"@[0] != "ResourceBusy"@[0]);
            reveal_strlit("AddrInUse");
            assert("InvalidInput"@.len() != "AddrInUse"@.len());
            reveal_strlit("AddrNotAvailable");
            assert("InvalidInput"@.len() != "AddrNotAvailable"@.len());
            reveal_strlit("BrokenPipe");
            assert("InvalidInput"@.len() != "BrokenPipe"@.len());
            reveal_strlit("AlreadyExists");
            assert("InvalidInput"@.len() != "AlreadyExists"@.len());
            reveal_strlit("WouldBlock");
            assert("InvalidInput"@.len() != "WouldBlock"@.len());
        },
        IoKind::InvalidData => {
            reveal_strlit("InvalidData");
            reveal_strlit("NotFound");
            assert("InvalidData"@.len() != "NotFound"@.len());
            reveal_strlit("PermissionDenied");
            assert("InvalidData"@.len() != "PermissionDenied"@.len());
            reveal_strlit("ConnectionRefused");
            assert("InvalidData"@.len() != "ConnectionRefused"@.len());
            reveal_strlit("ConnectionReset");
            assert("InvalidData"@.len() != "ConnectionReset"@.len());
            reveal_strlit("ConnectionAborted");
            assert("InvalidData"@.len() != "ConnectionAborted"@.len());
            reveal_strlit("NotConnected");
            assert("InvalidData"@.len() != "NotConnected"@.len());
            reveal_strlit("NetworkDown");
            assert("InvalidData"@[0] != "NetworkDown"@[0]);
            reveal_strlit("NetworkUnreachable");
            assert("InvalidData"@.len() != "NetworkUnreachable"@.len());
            reveal_strlit("HostUnreachable");
            assert("InvalidData"@.len() != "HostUnreachable"@.len());
            reveal_strlit("ResourceBusy");
            assert("InvalidData"@.len() != "ResourceBusy"@.len());
            reveal_strlit("AddrInUse");
            assert("InvalidData"@.len() != "AddrInUse"@.len());
            reveal_strlit("AddrNotAvailable");
            assert("InvalidData"@.len() != "AddrNotAvailable"@.len());
            reveal_strlit("BrokenPipe");
            assert("InvalidData"@.len() != "BrokenPipe"@.len());
            reveal_strlit("AlreadyExists");
            assert("InvalidData"@.len() != "AlreadyExists"@.len());
            reveal_strlit("WouldBlock");
            assert("InvalidData"@.len() != "WouldBlock"@.len());
            reveal_strlit("InvalidInput");
            assert("InvalidData"@.len() != "InvalidInput"@.len());
        },
        IoKind::TimedOut => {
            reveal_strlit("TimedOut");
            reveal_strlit("NotFound");
            assert("TimedOut"@[0] != "NotFound"@[0]);
            reveal_strlit("PermissionDenied");
            assert("TimedOut"@.len() != "PermissionDenied"@.len());
            reveal_strlit("ConnectionRefused");
            assert("TimedOut"@.len() != "ConnectionRefused"@.len());
            reveal_strlit("ConnectionReset");
            assert("TimedOut"@.len() != "ConnectionReset"@.len());
            reveal_strlit("ConnectionAborted");
            assert("TimedOut"@.len() != "ConnectionAborted"@.len());
            reveal_strlit("NotConnected");
            assert("TimedOut"@.len() != "NotConnected"@.len());
            reveal_strlit("NetworkDown");
            assert("TimedOut"@.len() != "NetworkDown"@.len());
            reveal_strlit("NetworkUnreachable");
            assert("TimedOut"@.len() != "NetworkUnreachable"@.len());
            reveal_strlit("HostUnreachable");
            assert("TimedOut"@.len() != "HostUnreachable"@.len());
            reveal_strlit("ResourceBusy");
            assert("TimedOut"@.len() != "ResourceBusy"@.len());
            reveal_strlit("AddrInUse");
            assert("TimedOut"@.len() != "AddrInUse"@.len());
            reveal_strlit("AddrNotAvailable");
            assert("TimedOut"@.len() != "AddrNotAvailable"@.len());
            reveal_strlit("BrokenPipe");
            assert("TimedOut"@.len() != "BrokenPipe"@.len());
            reveal_strlit("AlreadyExists");
            assert("TimedOut"@.len() != "AlreadyExists"@.len());
            reveal_strlit("WouldBlock");
            assert("TimedOut"@.len() != "WouldBlock"@.len());
            reveal_strlit("InvalidInput");
            assert("TimedOut"@.len() != "InvalidInput"@.len());
            reveal_strlit("InvalidData");
            assert("TimedOut"@.len() != "InvalidData"@.len());
        },
        IoKind::WriteZero => {
            reveal_strlit("WriteZero");
            reveal_strlit("NotFound");
            assert("WriteZero"@.len() != "NotFound"@.len());
            reveal_strlit("PermissionDenied");
            assert("WriteZero"@.len() != "PermissionDenied"@.len());
            reveal_strlit("ConnectionRefused");
            assert("WriteZero"@.len() != "ConnectionRefused"@.len());
            reveal_strlit("ConnectionReset");
            assert("WriteZero"@.len() != "ConnectionReset"@.len());
            reveal_strlit("ConnectionAborted");
            assert("WriteZero"@.len() != "ConnectionAborted"@.len());
            reveal_strlit("NotConnected");
            assert("WriteZero"@.len() != "NotConnected"@.len());
            reveal_strlit("NetworkDown");
            assert("WriteZero"@.len() != "NetworkDown"@.len());
            reveal_strlit("NetworkUnreachable");
            assert("WriteZero"@.len() != "NetworkUnreachable"@.len());
            reveal_strlit("HostUnreachable");
            assert("WriteZero"@.len() != "HostUnreachable"@.len());
            reveal_strlit("ResourceBusy");
            assert("WriteZero"@.len() != "ResourceBusy"@.len());
            reveal_strlit("AddrInUse");
            assert("WriteZero"@[0] != "AddrInUse"@[0]);
            reveal_strlit("AddrNotAvailable");
            assert("WriteZero"@.len() != "AddrNotAvailable"@.len());
            reveal_strlit("BrokenPipe");
            assert("WriteZero"@.len() != "BrokenPipe"@.len());
            reveal_strlit("AlreadyExists");
            assert("WriteZero"@.len() != "AlreadyExists"@.len());
            reveal_strlit("WouldBlock");
            assert("WriteZero"@.len() != "WouldBlock"@.len());
            reveal_strlit("InvalidInput");
            assert("WriteZero"@.len() != "InvalidInput"@.len());
            reveal_strlit("InvalidData");
            assert("WriteZero"@.len() != "InvalidData"@.len());
            reveal_strlit("TimedOut");
            assert("WriteZero"@.len() != "TimedOut"@.len());
        },
        IoKind::Interrupted => {
            reveal_strlit("Interrupted");
            reveal_strlit("NotFound");
            assert("Interrupted"@.len() != "NotFound"@.len());
            reveal_strlit("PermissionDenied");
            assert("Interrupted"@.len() != "PermissionDenied"@.len());
            reveal_strlit("ConnectionRefused");
            assert("Interrupted"@.len() != "ConnectionRefused"@.len());
            reveal_strlit("ConnectionReset");
            assert("Interrupted"@.len() != "ConnectionReset"@.len());
            reveal_strlit("ConnectionAborted");
            assert("Interrupted"@.len() != "ConnectionAborted"@.len());
            reveal_strlit("NotConnected");
            assert("Interrupted"@.len() != "NotConnected"@.len());
            reveal_strlit("NetworkDown");
            assert("Interrupted"@[0] != "NetworkDown"@[0]);
            reveal_strlit("NetworkUnreachable");
            assert("Interrupted"@.len() != "NetworkUnreachable"@.len());
            reveal_strlit("HostUnreachable");
            assert("Interrupted"@.len() != "HostUnreachable"@.len());
            reveal_strlit("ResourceBusy");
            assert("Interrupted"@.len() != "ResourceBusy"@.len());
            reveal_strlit("AddrInUse");
            assert("Interrupted"@.len() != "AddrInUse"@.len());
            reveal_strlit("AddrNotAvailable");
            assert("Interrupted"@.len() != "AddrNotAvailable"@.len());
            reveal_strlit("BrokenPipe");
            assert("Interrupted"@.len() != "BrokenPipe"@.len());
            reveal_strlit("AlreadyExists");
            assert("Interrupted"@.len() != "AlreadyExists"@.len());
            reveal_strlit("WouldBlock");
            assert("Interrupted"@.len() != "WouldBlock"@.len());
            reveal_strlit("InvalidInput");
            assert("Interrupted"@.len() != "InvalidInput"@.len());
            reveal_strlit("InvalidData");
            assert("Interrupted"@[2] != "InvalidData"@[2]);
            reveal_strlit("TimedOut");
            assert("Interrupted"@.len() != "TimedOut"@.len());
            reveal_strlit("WriteZero");
            assert("Interrupted"@.len() != "WriteZero"@.len());
        },
        IoKind::Unsupported => {
            reveal_strlit("Unsupported");
            reveal_strlit("NotFound");
            assert("Unsupported"@.len() != "NotFound"@.len());
            reveal_strlit("PermissionDenied");
            assert("Unsupported"@.len() != "PermissionDenied"@.len());
            reveal_strlit("ConnectionRefused");
            assert("Unsupported"@.len() != "ConnectionRefused"@.len());
            reveal_strlit("ConnectionReset");
            assert("Unsupported"@.len() != "ConnectionReset"@.len());
            reveal_strlit("ConnectionAborted");
            assert("Unsupported"@.len() != "ConnectionAborted"@.len());
            reveal_strlit("NotConnected");
            assert("Unsupported"@.len() != "NotConnected"@.len());
            reveal_strlit("NetworkDown");
            assert("Unsupported"@[0] != "NetworkDown"@[0]);
            reveal_strlit("NetworkUnreachable");
            assert("Unsupported"@.len() != "NetworkUnreachable"@.len());
            reveal_strlit("HostUnreachable");
            assert("Unsupported"@.len() != "HostUnreachable"@.len());
            reveal_strlit("ResourceBusy");
            assert("Unsupported"@.len() != "ResourceBusy"@.len());
            reveal_strlit("AddrInUse");
            assert("Unsupported"@.len() != "AddrInUse"@.len());
            reveal_strlit("AddrNotAvailable");
            assert("Unsupported"@.len() != "AddrNotAvailable"@.len());
            reveal_strlit("BrokenPipe");
            assert("Unsupported"@.len() != "BrokenPipe"@.len());
            reveal_strlit("AlreadyExists");
            assert("Unsupported"@.len() != "AlreadyExists"@.len());
            reveal_strlit("WouldBlock");
            assert("Unsupported"@.len() != "WouldBlock"@.len());
            reveal_strlit("InvalidInput");
            assert("Unsupported"@.len() != "InvalidInput"@.len());
            reveal_strlit("InvalidData");
            assert("Unsupported"@[0] != "InvalidData"@[0]);
            reveal_strlit("TimedOut");
            assert("Unsupported"@.len() != "TimedOut"@.len());
            reveal_strlit("WriteZero");
            assert("Unsupported"@.len() != "WriteZero"@.len());
            reveal_strlit("Interrupted");
            assert("Unsupported"@[0] != "Interrupted"@[0]);
        },
        IoKind::UnexpectedEof => {
            reveal_strlit("UnexpectedEof");
            reveal_strlit("NotFound");
            assert("UnexpectedEof"@.len() != "NotFound"@.len());
            reveal_strlit("PermissionDenied");
            assert("UnexpectedEof"@.len() != "PermissionDenied"@.len());
            reveal_strlit("ConnectionRefused");
            assert("UnexpectedEof"@.len() != "ConnectionRefused"@.len());
            reveal_strlit("ConnectionReset");
            assert("UnexpectedEof"@.len() != "ConnectionReset"@.len());
            reveal_strlit("ConnectionAborted");
            assert("UnexpectedEof"@.len() != "ConnectionAborted"@.len());
            reveal_strlit("NotConnected");
            assert("UnexpectedEof"@.len() != "NotConnected"@.len());
            reveal_strlit("NetworkDown");
            assert("UnexpectedEof"@.len() != "NetworkDown"@.len());
            reveal_strlit("NetworkUnreachable");
            assert("UnexpectedEof"@.len() != "NetworkUnreachable"@.len());
            reveal_strlit("HostUnreachable");
            assert("UnexpectedEof"@.len() != "HostUnreachable"@.len());
            reveal_strlit("ResourceBusy");
            assert("UnexpectedEof"@.len() != "ResourceBusy"@.len());
            reveal_strlit("AddrInUse");
            assert("UnexpectedEof"@.len() != "AddrInUse"@.len());
            reveal_strlit("AddrNotAvailable");
            assert("UnexpectedEof"@.len() != "AddrNotAvailable"@.len());
            reveal_strlit("BrokenPipe");
            assert("UnexpectedEof"@.len() != "BrokenPipe"@.len());
            reveal_strlit("AlreadyExists");
            assert("UnexpectedEof"@[0] != "AlreadyExists"@[0]);
            reveal_strlit("WouldBlock");
            assert("UnexpectedEof"@.len() != "WouldBlock"@.len());
            reveal_strlit("InvalidInput");
            assert("UnexpectedEof"@.len() != "InvalidInput"@.len());
            reveal_strlit("InvalidData");
            assert("UnexpectedEof"@.len() != "InvalidData"@.len());
            reveal_strlit("TimedOut");
            assert("UnexpectedEof"@.len() != "TimedOut"@.len());
            reveal_strlit("WriteZero");
            assert("UnexpectedEof"@.len() != "WriteZero"@.len());
            reveal_strlit("Interrupted");
            assert("UnexpectedEof"@.len() != "Interrupted"@.len());
            reveal_strlit("Unsupported");
            assert("UnexpectedEof"@.len() != "Unsupported"@.len());
        },
        IoKind::OutOfMemory => {
            reveal_strlit("OutOfMemory");
            reveal_strlit("NotFound");
            assert("OutOfMemory"@.len() != "NotFound"@.len());
            reveal_strlit("PermissionDenied");
            assert("OutOfMemory"@.len() != "PermissionDenied"@.len());
            reveal_strlit("ConnectionRefused");
            assert("OutOfMemory"@.len() != "ConnectionRefused"@.len());
            reveal_strlit("ConnectionReset");
            assert("OutOfMemory"@.len() != "ConnectionReset"@.len());
            reveal_strlit("ConnectionAborted");
            assert("OutOfMemory"@.len() != "ConnectionAborted"@.len());
            reveal_strlit("NotConnected");
            assert("OutOfMemory"@.len() != "NotConnected"@.len());
            reveal_strlit("NetworkDown");
            assert("OutOfMemory"@[0] != "NetworkDown"@[0]);
            reveal_strlit("NetworkUnreachable");
            assert("OutOfMemory"@.len() != "NetworkUnreachable"@.len());
            reveal_strlit("HostUnreachable");
            assert("OutOfMemory"@.len() != "HostUnreachable"@.len());
            reveal_strlit("ResourceBusy");
            assert("OutOfMemory"@.len() != "ResourceBusy"@.len());
            reveal_strlit("AddrInUse");
            assert("OutOfMemory"@.len() != "AddrInUse"@.len());
            reveal_strlit("AddrNotAvailable");
            assert("OutOfMemory"@.len() != "AddrNotAvailable"@.len());
            reveal_strlit("BrokenPipe");
            assert("OutOfMemory"@.len() != "BrokenPipe"@.len());
            reveal_strlit("AlreadyExists");
            assert("OutOfMemory"@.len() != "AlreadyExists"@.len());
            reveal_strlit("WouldBlock");
            assert("OutOfMemory"@.len() != "WouldBlock"@.len());
            reveal_strlit("InvalidInput");
            assert("OutOfMemory"@.len() != "InvalidInput"@.len());
            reveal_strlit("InvalidData");
            assert("OutOfMemory"@[0] != "InvalidData"@[0]);
            reveal_strlit("TimedOut");
            assert("OutOfMemory"@.len() != "TimedOut"@.len());
            reveal_strlit("WriteZero");
            assert("OutOfMemory"@.len() != "WriteZero"@.len());
            reveal_strlit("Interrupted");
            assert("OutOfMemory"@[0] != "Interrupted"@[0]);
            reveal_strlit("Unsupported");
            assert("OutOfMemory"@[0] != "Unsupported"@[0]);
            reveal_strlit("UnexpectedEof");
            assert("OutOfMemory"@.len() != "UnexpectedEof"@.len());
        },
        IoKind::Other => {
            reveal_strlit("Other");
            reveal_strlit("NotFound");
            assert("Other"@.len() != "NotFound"@.len());
            reveal_strlit("PermissionDenied");
            assert("Other"@.len() != "PermissionDenied"@.len());
            reveal_strlit("ConnectionRefused");
            assert("Other"@.len() != "ConnectionRefused"@.len());
            reveal_strlit("ConnectionReset");
            assert("Other"@.len() != "ConnectionReset"@.len());
            reveal_strlit("ConnectionAborted");
            assert("Other"@.len() != "ConnectionAborted"@.len());
            reveal_strlit("NotConnected");
            assert("Other"@.len() != "NotConnected"@.len());
            reveal_strlit("NetworkDown");
            assert("Other"@.len() != "NetworkDown"@.len());
            reveal_strlit("NetworkUnreachable");
            assert("Other"@.len() != "NetworkUnreachable"@.len());
            reveal_strlit("HostUnreachable");
            assert("Other"@.len() != "HostUnreachable"@.len());
            reveal_strlit("ResourceBusy");
            assert("Other"@.len() != "ResourceBusy"@.len());
            reveal_strlit("AddrInUse");
            assert("Other"@.len() != "AddrInUse"@.len());
            reveal_strlit("AddrNotAvailable");
            assert("Other"@.len() != "AddrNotAvailable"@.len());
            reveal_strlit("BrokenPipe");
            assert("Other"@.len() != "BrokenPipe"@.len());
            reveal_strlit("AlreadyExists");
            assert("Other"@.len() != "AlreadyExists"@.len());
            reveal_strlit("WouldBlock");
            assert("Other"@.len() != "WouldBlock"@.len());
            reveal_strlit("InvalidInput");
            assert("Other"@.len() != "InvalidInput"@.len());
            reveal_strlit("InvalidData");
            assert("Other"@.len() != "InvalidData"@.len());
            reveal_strlit("TimedOut");
            assert("Other"@.len() != "TimedOut"@.len());
            reveal_strlit("WriteZero");
            assert("Other"@.len() != "WriteZero"@.len());
            reveal_strlit("Interrupted");
            assert("Other"@.len() != "Interrupted"@.len());
            reveal_strlit("Unsupported");
            assert("Other"@.len() != "Unsupported"@.len());
            reveal_strlit("UnexpectedEof");
            assert("Other"@.len() != "UnexpectedEof"@.len());
            reveal_strlit("OutOfMemory");
            assert("Other"@.len() != "OutOfMemory"@.len());
        },
    }
}

/// Naming an I/O error kind and reading the name back gives a kind told
/// apart as the first one.
pub proof fn lemma_io_kind_from_name_of_name(kind: std::io::ErrorKind)
    ensures
        io_kind_of_text(io_kind_text(std_io_kind(kind))) == std_io_kind(kind),
{
    lemma_io_kind_name_round_trip(std_io_kind(kind));
}

} // verus!
