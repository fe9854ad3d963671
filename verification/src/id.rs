//! CAN identifiers, and the flag bits of the composite SocketCAN ID word.
//!
//! A standard identifier has 11 bits (`0..=0x7FF`), an extended one 29 bits
//! (`0..=0x1FFF_FFFF`). The kernel carries either in a 32-bit ID word, in
//! which the top three bits flag an extended ID (`EFF`), a remote request
//! (`RTR`) and an error frame (`ERR`).
use vstd::prelude::*;
use vstd::std_specs::cmp::PartialOrdSpecImpl;

verus! {

/// Flag in the ID word: the frame uses a 29-bit extended identifier.
pub const CAN_EFF_FLAG: u32 = 0x8000_0000;
/// Flag in the ID word: the frame is a remote transmission request.
pub const CAN_RTR_FLAG: u32 = 0x4000_0000;
/// Flag in the ID word: the frame is an error frame.
pub const CAN_ERR_FLAG: u32 = 0x2000_0000;
/// Mask of a standard 11-bit identifier.
pub const CAN_SFF_MASK: u32 = 0x0000_07FF;
/// Mask of an extended 29-bit identifier.
pub const CAN_EFF_MASK: u32 = 0x1FFF_FFFF;
/// Mask of the error-class bits of an error frame.
pub const CAN_ERR_MASK: u32 = 0x1FFF_FFFF;
/// The largest payload of a classic CAN frame.
pub const CAN_MAX_DLEN: usize = 8;
/// The largest payload of a CAN FD frame.
pub const CANFD_MAX_DLEN: usize = 64;
/// FD flag: bit rate switch (second bit rate for the payload).
pub const CANFD_BRS: u8 = 0x01;
/// FD flag: error state indicator of the transmitting node.
pub const CANFD_ESI: u8 = 0x02;
/// FD flag: marks a `canfd_frame` as a CAN FD frame.
pub const CANFD_FDF: u8 = 0x04;
/// An error mask that has SocketCAN report all errors.
pub const ERR_MASK_ALL: u32 = 0x1FFF_FFFF;
/// An error mask that has SocketCAN silently drop all errors.
pub const ERR_MASK_NONE: u32 = 0;

/// Facts about the flag bits of an ID word built from a raw identifier.
pub proof fn lemma_id_word_bits(raw: u32)
    ensures
        raw <= 0x7FF ==> (raw & 0x8000_0000u32 == 0 && raw & 0x4000_0000u32 == 0
            && raw & 0x2000_0000u32 == 0 && raw & 0x7FFu32 == raw),
        raw <= 0x1FFF_FFFF ==> ((raw | 0x8000_0000u32) & 0x8000_0000u32 != 0
            && (raw | 0x8000_0000u32) & 0x4000_0000u32 == 0
            && (raw | 0x8000_0000u32) & 0x2000_0000u32 == 0
            && (raw | 0x8000_0000u32) & 0x1FFF_FFFFu32 == raw
            && raw & 0x1FFF_FFFFu32 == raw
            && raw | 0x8000_0000u32 == raw + 0x8000_0000u32),
        raw & 0x7FFu32 <= 0x7FF,
        raw & 0x1FFF_FFFFu32 <= 0x1FFF_FFFF,
        raw & 0x7FFu32 == raw % 0x800,
        raw & 0x1FFF_FFFFu32 == raw % 0x2000_0000,
{
    assert(raw <= 0x7FF ==> (raw & 0x8000_0000u32 == 0 && raw & 0x4000_0000u32 == 0
        && raw & 0x2000_0000u32 == 0 && raw & 0x7FFu32 == raw)) by (bit_vector);
    assert(raw <= 0x1FFF_FFFF ==> ((raw | 0x8000_0000u32) & 0x8000_0000u32 != 0
        && (raw | 0x8000_0000u32) & 0x4000_0000u32 == 0
        && (raw | 0x8000_0000u32) & 0x2000_0000u32 == 0
        && (raw | 0x8000_0000u32) & 0x1FFF_FFFFu32 == raw
        && raw & 0x1FFF_FFFFu32 == raw
        && raw | 0x8000_0000u32 == raw + 0x8000_0000u32)) by (bit_vector);
    assert(raw & 0x7FFu32 <= 0x7FF && raw & 0x1FFF_FFFFu32 <= 0x1FFF_FFFF
        && raw & 0x7FFu32 == raw % 0x800
        && raw & 0x1FFF_FFFFu32 == raw % 0x2000_0000) by (bit_vector);
}

/// A standard 11-bit CAN identifier, `0..=0x7FF`.
#[derive(Clone, Copy, PartialEq, Eq, Debug, Hash, Structural)]
pub struct StandardId {
    raw: u16,
}

impl View for StandardId {
    type V = u16;

    closed spec fn view(&self) -> u16 {
        self.raw
    }
}

impl StandardId {
    #[verifier::type_invariant]
    pub closed spec fn inv(self) -> bool {
        self.raw <= 0x7FF
    }

    /// Creates a standard identifier, or `None` if `raw` needs more than 11 bits.
    pub fn new(raw: u16) -> (r: Option<StandardId>)
        ensures
            r is Some <==> raw <= 0x7FF,
            r matches Some(id) ==> id@ == raw,
    {
        if raw <= 0x7FF {
            Some(StandardId { raw })
        } else {
            None
        }
    }

    /// The identifier `0`.
    #[allow(non_snake_case)]
    pub fn ZERO() -> (r: StandardId)
        ensures
            r@ == 0,
    {
        StandardId { raw: 0 }
    }

    /// The highest standard identifier, `0x7FF`.
    #[allow(non_snake_case)]
    pub fn MAX() -> (r: StandardId)
        ensures
            r@ == 0x7FF,
    {
        StandardId { raw: 0x7FF }
    }

    /// The raw value of the identifier.
    pub fn as_raw(&self) -> (r: u16)
        ensures
            r == self@,
            r <= 0x7FF,
    {
        proof {
            use_type_invariant(self);
        }
        self.raw
    }
}

/// An extended 29-bit CAN identifier, `0..=0x1FFF_FFFF`.
#[derive(Clone, Copy, PartialEq, Eq, Debug, Hash, Structural)]
pub struct ExtendedId {
    raw: u32,
}

impl View for ExtendedId {
    type V = u32;

    closed spec fn view(&self) -> u32 {
        self.raw
    }
}

impl ExtendedId {
    #[verifier::type_invariant]
    pub closed spec fn inv(self) -> bool {
        self.raw <= 0x1FFF_FFFF
    }

    /// Creates an extended identifier, or `None` if `raw` needs more than 29 bits.
    pub fn new(raw: u32) -> (r: Option<ExtendedId>)
        ensures
            r is Some <==> raw <= 0x1FFF_FFFF,
            r matches Some(id) ==> id@ == raw,
    {
        if raw <= 0x1FFF_FFFF {
            Some(ExtendedId { raw })
        } else {
            None
        }
    }

    /// The identifier `0`.
    #[allow(non_snake_case)]
    pub fn ZERO() -> (r: ExtendedId)
        ensures
            r@ == 0,
    {
        ExtendedId { raw: 0 }
    }

    /// The highest extended identifier, `0x1FFF_FFFF`.
    #[allow(non_snake_case)]
    pub fn MAX() -> (r: ExtendedId)
        ensures
            r@ == 0x1FFF_FFFF,
    {
        ExtendedId { raw: 0x1FFF_FFFF }
    }

    /// The raw value of the identifier.
    pub fn as_raw(&self) -> (r: u32)
        ensures
            r == self@,
            r <= 0x1FFF_FFFF,
    {
        proof {
            use_type_invariant(self);
        }
        self.raw
    }
}

/// A CAN identifier that can be standard or extended.
#[derive(Clone, Copy, PartialEq, Eq, Debug, Hash, Structural)]
pub enum CanId {
    /// Standard 11-bit identifier (`0..=0x7FF`).
    Standard(StandardId),
    /// Extended 29-bit identifier (`0..=0x1FFF_FFFF`).
    Extended(ExtendedId),
}

/// The numeric value of an identifier.
pub open spec fn id_raw(id: CanId) -> u32 {
    match id {
        CanId::Standard(s) => s@ as u32,
        CanId::Extended(e) => e@,
    }
}

/// An identifier is valid when its value fits its width; every identifier
/// built through this crate is.
pub open spec fn id_valid(id: CanId) -> bool {
    match id {
        CanId::Standard(s) => s@ <= 0x7FF,
        CanId::Extended(e) => e@ <= 0x1FFF_FFFF,
    }
}

/// The SocketCAN ID word of an identifier: the raw value, with `EFF` set
/// for an extended one.
pub open spec fn id_word_of(id: CanId) -> u32 {
    match id {
        CanId::Standard(s) => s@ as u32,
        CanId::Extended(e) => (e@ + 0x8000_0000u32) as u32,
    }
}

/// The identifier held in an ID word whose `EFF` flag is `extended`.
pub open spec fn id_of_word(word: u32, extended: bool) -> (u32, bool) {
    if extended {
        ((word % 0x2000_0000) as u32, true)
    } else {
        ((word % 0x800) as u32, false)
    }
}

/// The CAN arbitration key of an identifier: the 11 base bits, the IDE bit,
/// then the 18 extension bits. A lower key wins arbitration.
pub open spec fn arbitration_key(id: CanId) -> (int, int, int) {
    match id {
        CanId::Standard(s) => (s@ as int, 0, 0),
        CanId::Extended(e) => ((e@ / 0x4_0000) as int, 1, (e@ % 0x4_0000) as int),
    }
}

/// Lexicographic order on arbitration keys.
pub open spec fn key_less(a: (int, int, int), b: (int, int, int)) -> bool {
    a.0 < b.0 || (a.0 == b.0 && (a.1 < b.1 || (a.1 == b.1 && a.2 < b.2)))
}

impl CanId {
    /// Creates a standard, 11-bit, identifier.
    pub fn standard(id: u16) -> (r: Option<CanId>)
        ensures
            r is Some <==> id <= 0x7FF,
            r matches Some(c) ==> c is Standard && id_raw(c) == id && id_valid(c),
    {
        match StandardId::new(id) {
            Some(s) => Some(CanId::Standard(s)),
            None => None,
        }
    }

    /// Creates an extended, 29-bit, identifier.
    pub fn extended(id: u32) -> (r: Option<CanId>)
        ensures
            r is Some <==> id <= 0x1FFF_FFFF,
            r matches Some(c) ==> c is Extended && id_raw(c) == id && id_valid(c),
    {
        match ExtendedId::new(id) {
            Some(e) => Some(CanId::Extended(e)),
            None => None,
        }
    }

    /// Gets the raw numeric value of the identifier.
    pub fn as_raw(&self) -> (r: u32)
        ensures
            r == id_raw(*self),
            id_valid(*self),
    {
        match self {
            CanId::Standard(s) => s.as_raw() as u32,
            CanId::Extended(e) => e.as_raw(),
        }
    }

    /// Determines if the identifier is a standard, 11-bit, one.
    pub fn is_standard(&self) -> (r: bool)
        ensures
            r == (*self is Standard),
    {
        matches!(self, CanId::Standard(_))
    }

    /// Determines if the identifier is an extended, 29-bit, one.
    pub fn is_extended(&self) -> (r: bool)
        ensures
            r == (*self is Extended),
    {
        matches!(self, CanId::Extended(_))
    }

    /// Creates an identifier from a raw integer value.
    ///
    /// A value up to `0x7FF` gives a standard identifier and a larger one an
    /// extended identifier; a value that needs more than 29 bits is refused
    /// with an I/O error of kind `InvalidInput`.
    pub fn try_from_raw(id: u32) -> (r: Result<CanId, crate::errors::Error>)
        ensures
            r is Ok <==> id <= 0x1FFF_FFFF,
            r matches Ok(c) ==> id_raw(c) == id && id_valid(c) && (c is Standard <==> id <= 0x7FF),
            r matches Err(e) ==> (e matches crate::errors::Error::Io(io) && crate::io::std_io_kind(
                crate::io::io_error_kind(io),
            ) == crate::io::IoKind::InvalidInput),
    {
        match id_from_raw(id) {
            Some(c) => Ok(c),
            None => Err(crate::errors::Error::Io(crate::errors::io_error_of(crate::errors::IoFailure::InvalidInput))),
        }
    }

    /// Adds `val` to the identifier, wrapping around within its width: the
    /// sum modulo 2^11 for a standard identifier, modulo 2^29 for an
    /// extended one. It never overflows and never panics.
    pub fn add(self, val: u32) -> (r: CanId)
        ensures
            self is Standard ==> r is Standard && id_raw(r) == (id_raw(self) + val) % 0x800,
            self is Extended ==> r is Extended && id_raw(r) == (id_raw(self) + val) % 0x2000_0000,
            id_valid(r),
    {
        match self {
            CanId::Standard(s) => {
                let sum: u64 = s.as_raw() as u64 + val as u64;
                let masked: u64 = sum & 0x7FF;
                assert(masked == sum % 0x800 && masked <= 0x7FF) by (bit_vector)
                    requires masked == sum & 0x7FF;
                let r = StandardId::new(masked as u16).unwrap();
                CanId::Standard(r)
            },
            CanId::Extended(e) => {
                let sum: u64 = e.as_raw() as u64 + val as u64;
                let masked: u64 = sum & 0x1FFF_FFFF;
                assert(masked == sum % 0x2000_0000 && masked <= 0x1FFF_FFFF) by (bit_vector)
                    requires masked == sum & 0x1FFF_FFFF;
                let r = ExtendedId::new(masked as u32).unwrap();
                CanId::Extended(r)
            },
        }
    }

    /// Adds `val` to the identifier in place, as [`CanId::add`] does.
    pub fn add_assign(&mut self, val: u32)
        ensures
            *old(self) is Standard ==> *final(self) is Standard
                && id_raw(*final(self)) == (id_raw(*old(self)) + val) % 0x800,
            *old(self) is Extended ==> *final(self) is Extended
                && id_raw(*final(self)) == (id_raw(*old(self)) + val) % 0x2000_0000,
            id_valid(*final(self)),
    {
        *self = self.add(val);
    }

    /// Whether this identifier wins bus arbitration against `other`, that
    /// is, sorts before it in CAN priority order.
    fn has_priority_over(&self, other: &CanId) -> (r: bool)
        ensures
            r == key_less(arbitration_key(*self), arbitration_key(*other)),
    {
        let a = self.key();
        let b = other.key();
        a.0 < b.0 || (a.0 == b.0 && (a.1 < b.1 || (a.1 == b.1 && a.2 < b.2)))
    }

    fn key(&self) -> (r: (u16, u8, u32))
        ensures
            r.0 as int == arbitration_key(*self).0,
            r.1 as int == arbitration_key(*self).1,
            r.2 as int == arbitration_key(*self).2,
    {
        match self {
            CanId::Standard(s) => (s.as_raw(), 0, 0),
            CanId::Extended(e) => {
                let raw = e.as_raw();
                ((raw / 0x4_0000) as u16, 1, raw % 0x4_0000)
            },
        }
    }
}

/// The CAN priority order of two identifiers: by arbitration key, the lower
/// key first.
pub open spec fn arbitration_order(a: CanId, b: CanId) -> std::cmp::Ordering {
    if key_less(arbitration_key(a), arbitration_key(b)) {
        std::cmp::Ordering::Less
    } else if key_less(arbitration_key(b), arbitration_key(a)) {
        std::cmp::Ordering::Greater
    } else {
        std::cmp::Ordering::Equal
    }
}

/// Two extended identifiers with the same arbitration key are the same.
proof fn lemma_split_unique(x: u32, y: u32)
    requires
        x / 0x4_0000u32 == y / 0x4_0000u32,
        x % 0x4_0000u32 == y % 0x4_0000u32,
    ensures
        x == y,
{
    assert(x == 0x4_0000u32 * (x / 0x4_0000u32) + x % 0x4_0000u32) by (nonlinear_arith);
    assert(y == 0x4_0000u32 * (y / 0x4_0000u32) + y % 0x4_0000u32) by (nonlinear_arith);
}

/// The arbitration order is a total order on identifiers: exactly one of
/// two identifiers sorts first unless they are the same identifier, and
/// sorting first is transitive.
pub proof fn lemma_arbitration_order(a: CanId, b: CanId, c: CanId)
    ensures
        (arbitration_order(a, b) == std::cmp::Ordering::Equal) <==> a == b,
        (arbitration_order(a, b) == std::cmp::Ordering::Less) <==> (arbitration_order(b, a)
            == std::cmp::Ordering::Greater),
        arbitration_order(a, b) == std::cmp::Ordering::Less && arbitration_order(b, c)
            == std::cmp::Ordering::Less ==> arbitration_order(a, c) == std::cmp::Ordering::Less,
{
    lemma_key_equal(a, b);
}

/// Identifiers with the same arbitration key are the same identifier.
proof fn lemma_key_equal(a: CanId, b: CanId)
    ensures
        arbitration_key(a) == arbitration_key(b) <==> a == b,
{
    if arbitration_key(a) == arbitration_key(b) {
        match (a, b) {
            (CanId::Standard(x), CanId::Standard(y)) => {
                assert(x.raw == y.raw);
            },
            (CanId::Extended(x), CanId::Extended(y)) => {
                lemma_split_unique(x.raw, y.raw);
            },
            _ => {},
        }
    }
}

/// Identifiers are ordered by the CAN arbitration rules: the one that wins
/// arbitration on the bus sorts first.
impl PartialOrd for CanId {
    fn partial_cmp(&self, other: &CanId) -> (r: Option<std::cmp::Ordering>) {
        if self.has_priority_over(other) {
            Some(std::cmp::Ordering::Less)
        } else if other.has_priority_over(self) {
            Some(std::cmp::Ordering::Greater)
        } else {
            Some(std::cmp::Ordering::Equal)
        }
    }
}

impl PartialOrdSpecImpl for CanId {
    open spec fn obeys_partial_cmp_spec() -> bool {
        true
    }

    open spec fn partial_cmp_spec(&self, other: &CanId) -> Option<std::cmp::Ordering> {
        Some(arbitration_order(*self, *other))
    }
}

impl From<StandardId> for CanId {
    fn from(id: StandardId) -> (r: CanId) {
        CanId::Standard(id)
    }
}

impl vstd::std_specs::convert::FromSpecImpl<StandardId> for CanId {
    open spec fn obeys_from_spec() -> bool {
        true
    }

    open spec fn from_spec(id: StandardId) -> CanId {
        CanId::Standard(id)
    }
}

impl From<ExtendedId> for CanId {
    fn from(id: ExtendedId) -> (r: CanId) {
        CanId::Extended(id)
    }
}

impl vstd::std_specs::convert::FromSpecImpl<ExtendedId> for CanId {
    open spec fn obeys_from_spec() -> bool {
        true
    }

    open spec fn from_spec(id: ExtendedId) -> CanId {
        CanId::Extended(id)
    }
}

/// Gets the ID word for an identifier. An extended identifier also gets
/// the `EFF` flag.
pub fn id_to_canid_t(id: CanId) -> (r: u32)
    ensures
        r == id_word_of(id),
        id_valid(id),
{
    match id {
        CanId::Standard(s) => s.as_raw() as u32,
        CanId::Extended(e) => {
            let raw = e.as_raw();
            proof {
                lemma_id_word_bits(raw);
            }
            raw | CAN_EFF_FLAG
        },
    }
}

/// Determines if the identifier is a standard, 11-bit, one.
pub fn id_is_standard(id: &CanId) -> (r: bool)
    ensures
        r == (*id is Standard),
{
    id.is_standard()
}

/// Determines if the identifier is an extended, 29-bit, one.
pub fn id_is_extended(id: &CanId) -> (r: bool)
    ensures
        r == (*id is Extended),
{
    id.is_extended()
}

/// Creates an identifier from a raw integer value.
///
/// A value up to `0x7FF` is taken as a standard identifier, anything larger
/// as an extended one. An extended identifier up to `0x7FF` has to be
/// created explicitly.
pub fn id_from_raw(id: u32) -> (r: Option<CanId>)
    ensures
        r is Some <==> id <= 0x1FFF_FFFF,
        r matches Some(c) ==> id_raw(c) == id && id_valid(c) && (c is Standard <==> id <= 0x7FF),
{
    if id <= CAN_SFF_MASK {
        CanId::standard(id as u16)
    } else {
        CanId::extended(id)
    }
}

/// The flag bits of the composite SocketCAN ID word.
#[derive(Clone, Copy, PartialEq, Eq, Debug, Hash, Structural)]
pub struct IdFlags {
    bits: u32,
}

impl View for IdFlags {
    type V = u32;

    closed spec fn view(&self) -> u32 {
        self.bits
    }
}

impl IdFlags {
    /// The `EFF` flag: the frame uses a 29-bit extended identifier.
    #[allow(non_snake_case)]
    pub fn EFF() -> (r: IdFlags)
        ensures
            r@ == CAN_EFF_FLAG,
    {
        IdFlags { bits: CAN_EFF_FLAG }
    }

    /// The `RTR` flag: a remote request frame.
    #[allow(non_snake_case)]
    pub fn RTR() -> (r: IdFlags)
        ensures
            r@ == CAN_RTR_FLAG,
    {
        IdFlags { bits: CAN_RTR_FLAG }
    }

    /// The `ERR` flag: an error frame.
    #[allow(non_snake_case)]
    pub fn ERR() -> (r: IdFlags)
        ensures
            r@ == CAN_ERR_FLAG,
    {
        IdFlags { bits: CAN_ERR_FLAG }
    }

    /// The empty set of flags.
    pub fn empty() -> (r: IdFlags)
        ensures
            r@ == 0,
    {
        IdFlags { bits: 0 }
    }

    /// Keeps the flag bits of `bits`, dropping the identifier bits.
    pub fn from_bits_truncate(bits: u32) -> (r: IdFlags)
        ensures
            r@ == bits & 0xE000_0000u32,
    {
        IdFlags { bits: bits & 0xE000_0000u32 }
    }

    /// The raw bits of the flags.
    pub fn bits(&self) -> (r: u32)
        ensures
            r == self@,
    {
        self.bits
    }

    /// Whether no flag is set.
    pub fn is_empty(&self) -> (r: bool)
        ensures
            r == (self@ == 0),
    {
        self.bits == 0
    }

    /// Whether every flag of `other` is set here.
    pub fn contains(&self, other: IdFlags) -> (r: bool)
        ensures
            r == (self@ & other@ == other@),
    {
        self.bits & other.bits == other.bits
    }

    /// Sets or clears the flags of `other`.
    pub fn set(&mut self, other: IdFlags, value: bool)
        ensures
            value ==> final(self)@ == old(self)@ | other@,
            !value ==> final(self)@ == old(self)@ & !other@,
    {
        if value {
            self.bits = self.bits | other.bits;
        } else {
            self.bits = self.bits & !other.bits;
        }
    }
}

/// The flag bits of a CAN FD frame.
///
/// Only `BRS`, `ESI` and `FDF` have a name; the other bits of the byte are
/// kept as they are given.
#[derive(Clone, Copy, PartialEq, Eq, Debug, Hash, Structural)]
pub struct FdFlags {
    pub bits: u8,
}

impl FdFlags {
    /// Bit rate switch.
    #[allow(non_snake_case)]
    pub fn BRS() -> (r: FdFlags)
        ensures
            r.bits == CANFD_BRS,
    {
        FdFlags { bits: CANFD_BRS }
    }

    /// Error state indicator of the transmitting node.
    #[allow(non_snake_case)]
    pub fn ESI() -> (r: FdFlags)
        ensures
            r.bits == CANFD_ESI,
    {
        FdFlags { bits: CANFD_ESI }
    }

    /// Marks a CAN FD frame.
    #[allow(non_snake_case)]
    pub fn FDF() -> (r: FdFlags)
        ensures
            r.bits == CANFD_FDF,
    {
        FdFlags { bits: CANFD_FDF }
    }

    /// No flag set.
    pub fn empty() -> (r: FdFlags)
        ensures
            r.bits == 0,
    {
        FdFlags { bits: 0 }
    }

    /// Keeps only the named flags of `bits`.
    pub fn from_bits_truncate(bits: u8) -> (r: FdFlags)
        ensures
            r.bits == bits & 0x07u8,
    {
        FdFlags { bits: bits & 0x07 }
    }

    /// Keeps every bit of `bits`, named or not.
    pub fn from_bits_retain(bits: u8) -> (r: FdFlags)
        ensures
            r.bits == bits,
    {
        FdFlags { bits }
    }

    /// The raw bits.
    pub fn bits(&self) -> (r: u8)
        ensures
            r == self.bits,
    {
        self.bits
    }

    /// Whether every flag of `other` is set here.
    pub fn contains(&self, other: FdFlags) -> (r: bool)
        ensures
            r == (self.bits & other.bits == other.bits),
    {
        self.bits & other.bits == other.bits
    }

    /// The union of two flag sets.
    pub fn union(self, other: FdFlags) -> (r: FdFlags)
        ensures
            r.bits == self.bits | other.bits,
    {
        FdFlags { bits: self.bits | other.bits }
    }
}

} // verus!
