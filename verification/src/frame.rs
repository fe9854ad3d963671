//! CAN bus frames.
//!
//! The classic CAN 2.0 frame comes in three kinds:
//! - [`CanDataFrame`], a data frame with up to 8 bytes of payload;
//! - [`CanRemoteFrame`], a remote request, which carries only a length;
//! - [`CanErrorFrame`], which the kernel or a driver delivers to report a
//!   problem on the bus; its 8 data bytes describe the error.
//!
//! [`CanFdFrame`] is the flexible data rate frame with up to 64 bytes.
//! [`CanFrame`] holds any classic frame and [`CanAnyFrame`] any frame.
//!
//! Each frame type holds the same fields as the kernel's `can_frame` or
//! `canfd_frame`: the composite ID word, the length, the FD flags and the
//! full data buffer.
use vstd::prelude::*;
use crate::errors::ConstructionError;
use crate::id::{
    CanId, IdFlags, FdFlags, id_to_canid_t, id_from_raw, id_word_of, id_raw, id_valid,
    lemma_id_word_bits, CAN_EFF_FLAG, CAN_RTR_FLAG, CAN_ERR_FLAG, CAN_EFF_MASK, CAN_SFF_MASK,
    CAN_ERR_MASK, CAN_MAX_DLEN, CANFD_MAX_DLEN, CANFD_BRS, CANFD_ESI, CANFD_FDF,
};
use crate::text::{hex_fixed, hex_min, hex_bytes, push_hex_fixed, push_hex_min, push_hex_bytes, string_from_chars};

verus! {

broadcast use vstd::array::group_array_axioms;

/// The fields of a frame, as the kernel structs hold them: the composite ID
/// word, the length (`can_dlc` or `len`), the FD flags byte (zero for a
/// classic frame) and the whole data buffer (8 or 64 bytes).
pub struct FrameFields {
    pub word: u32,
    pub dlc: u8,
    pub flags: u8,
    pub bytes: Seq<u8>,
}

/// Whether the ID word flags an extended identifier.
pub open spec fn word_ext(w: u32) -> bool {
    w & 0x8000_0000u32 != 0
}

/// Whether the ID word flags a remote request.
pub open spec fn word_rtr(w: u32) -> bool {
    w & 0x4000_0000u32 != 0
}

/// Whether the ID word flags an error frame.
pub open spec fn word_err(w: u32) -> bool {
    w & 0x2000_0000u32 != 0
}

/// The raw identifier in an ID word, without the flags.
pub open spec fn word_raw(w: u32) -> u32 {
    if word_ext(w) {
        w & 0x1FFF_FFFFu32
    } else {
        w & 0x7FFu32
    }
}

/// `n` zero bytes.
pub open spec fn zeros(n: nat) -> Seq<u8> {
    Seq::new(n, |i: int| 0u8)
}

/// The identifier as a frame renders it: three hexadecimal digits for a
/// standard one, eight for an extended one.
pub open spec fn id_text(w: u32) -> Seq<char> {
    if word_ext(w) {
        hex_fixed(word_raw(w) as nat, 8)
    } else {
        hex_fixed(word_raw(w) as nat, 3)
    }
}

impl FrameFields {
    /// The payload: the first `dlc` bytes of the buffer.
    pub open spec fn payload(self) -> Seq<u8> {
        self.bytes.take(self.dlc as int)
    }

    /// The payload of fields with length 8 and an 8-byte buffer is the
    /// whole buffer.
    pub proof fn lemma_wf_error(self)
        requires
            self.dlc == 8,
            self.bytes.len() == 8,
        ensures
            self.payload() == self.bytes,
    {
        assert(self.bytes.take(8) =~= self.bytes);
    }
}

/// The fields of a data frame built from an ID word and a payload.
pub open spec fn data_fields(word: u32, data: Seq<u8>) -> FrameFields {
    FrameFields { word, dlc: data.len() as u8, flags: 0, bytes: data + zeros((8 - data.len()) as nat) }
}

/// The fields of a remote frame built from an ID word and a length.
pub open spec fn remote_fields(word: u32, dlc: nat) -> FrameFields {
    FrameFields { word: word | 0x4000_0000u32, dlc: dlc as u8, flags: 0, bytes: zeros(8) }
}

/// The fields of an error frame built from error-class bits and detail bytes.
pub open spec fn error_fields(bits: u32, data: Seq<u8>) -> FrameFields {
    FrameFields {
        word: (bits & 0x1FFF_FFFFu32) | 0x2000_0000u32,
        dlc: 8,
        flags: 0,
        bytes: data + zeros((8 - data.len()) as nat),
    }
}

/// The lengths a CAN FD frame can have: `0..=8`, 12, 16, 20, 24, 32, 48, 64.
pub open spec fn valid_fd_len(len: nat) -> bool {
    len <= 8 || len == 12 || len == 16 || len == 20 || len == 24 || len == 32 || len == 48 || len == 64
}

/// The smallest valid CAN FD length that holds `len` bytes, at most 64.
pub open spec fn next_fd_len(len: nat) -> nat {
    if len <= 8 {
        len
    } else if len <= 12 {
        12
    } else if len <= 16 {
        16
    } else if len <= 20 {
        20
    } else if len <= 24 {
        24
    } else if len <= 32 {
        32
    } else if len <= 48 {
        48
    } else {
        64
    }
}

/// The DLC code of a CAN FD length.
pub open spec fn fd_dlc_code(len: nat) -> nat {
    if len <= 8 {
        len
    } else if len == 12 {
        9
    } else if len == 16 {
        10
    } else if len == 20 {
        11
    } else if len == 24 {
        12
    } else if len == 32 {
        13
    } else if len == 48 {
        14
    } else if len == 64 {
        15
    } else {
        0
    }
}

/// The fields of an FD frame built from an ID word, a payload and flags.
pub open spec fn fd_fields(word: u32, data: Seq<u8>, flags: u8) -> FrameFields {
    FrameFields {
        word,
        dlc: next_fd_len(data.len()) as u8,
        flags: flags | 0x04u8,
        bytes: data + zeros((64 - data.len()) as nat),
    }
}

/// The rendering of a data frame: identifier, `#`, payload in hex.
pub open spec fn data_text(f: FrameFields) -> Seq<char> {
    id_text(f.word) + seq!['#'] + hex_bytes(f.payload())
}

/// The rendering of a remote frame: identifier, `#R`, and the length in
/// hex unless it is zero.
pub open spec fn remote_text(f: FrameFields) -> Seq<char> {
    id_text(f.word) + seq!['#', 'R'] + (if f.dlc == 0 {
        Seq::<char>::empty()
    } else {
        hex_min(f.dlc as nat)
    })
}

/// The rendering of an error frame: the error class bits with the `ERR`
/// flag in eight hex digits, `#`, and all eight detail bytes.
pub open spec fn error_text(f: FrameFields) -> Seq<char> {
    hex_fixed(((f.word & 0x1FFF_FFFFu32) | 0x2000_0000u32) as nat, 8) + seq!['#'] + hex_bytes(f.bytes)
}

/// The rendering of an FD frame: identifier, `##`, the low nibble of the
/// flags, and the payload in hex.
pub open spec fn fd_text(f: FrameFields) -> Seq<char> {
    id_text(f.word) + seq!['#', '#'] + hex_min((f.flags & 0x0Fu8) as nat) + hex_bytes(f.payload())
}

/// Facts about the masks applied to an ID word.
pub proof fn lemma_word_masks(w: u32)
    ensures
        w & 0x7FFu32 <= 0x7FF,
        w & 0x1FFF_FFFFu32 <= 0x1FFF_FFFF,
        (w & 0x1FFF_FFFFu32) | 0x2000_0000u32 <= 0x3FFF_FFFF,
        word_err((w & 0x1FFF_FFFFu32) | 0x2000_0000u32),
        !word_ext((w & 0x1FFF_FFFFu32) | 0x2000_0000u32),
        !word_rtr((w & 0x1FFF_FFFFu32) | 0x2000_0000u32),
        ((w & 0x1FFF_FFFFu32) | 0x2000_0000u32) & 0x1FFF_FFFFu32 == w & 0x1FFF_FFFFu32,
        word_rtr(w | 0x4000_0000u32),
        word_ext(w | 0x4000_0000u32) == word_ext(w),
        word_err(w | 0x4000_0000u32) == word_err(w),
        (w | 0x4000_0000u32) & 0x7FFu32 == w & 0x7FFu32,
        (w | 0x4000_0000u32) & 0x1FFF_FFFFu32 == w & 0x1FFF_FFFFu32,
{
    assert(w & 0x7FFu32 <= 0x7FF && w & 0x1FFF_FFFFu32 <= 0x1FFF_FFFF
        && (w & 0x1FFF_FFFFu32) | 0x2000_0000u32 <= 0x3FFF_FFFF
        && ((w & 0x1FFF_FFFFu32) | 0x2000_0000u32) & 0x2000_0000u32 != 0
        && ((w & 0x1FFF_FFFFu32) | 0x2000_0000u32) & 0x8000_0000u32 == 0
        && ((w & 0x1FFF_FFFFu32) | 0x2000_0000u32) & 0x4000_0000u32 == 0
        && ((w & 0x1FFF_FFFFu32) | 0x2000_0000u32) & 0x1FFF_FFFFu32 == w & 0x1FFF_FFFFu32
        && (w | 0x4000_0000u32) & 0x4000_0000u32 != 0
        && ((w | 0x4000_0000u32) & 0x8000_0000u32 != 0) == (w & 0x8000_0000u32 != 0)
        && ((w | 0x4000_0000u32) & 0x2000_0000u32 != 0) == (w & 0x2000_0000u32 != 0)
        && (w | 0x4000_0000u32) & 0x7FFu32 == w & 0x7FFu32
        && (w | 0x4000_0000u32) & 0x1FFF_FFFFu32 == w & 0x1FFF_FFFFu32) by (bit_vector);
}

/// The ID word of an identifier carries no flag but `EFF`, and gives back
/// the identifier.
pub proof fn lemma_id_word(id: CanId)
    requires
        id_valid(id),
    ensures
        word_ext(id_word_of(id)) == (id is Extended),
        !word_rtr(id_word_of(id)),
        !word_err(id_word_of(id)),
        word_raw(id_word_of(id)) == id_raw(id),
{
    match id {
        CanId::Standard(s) => {
            lemma_id_word_bits(s@ as u32);
        },
        CanId::Extended(e) => {
            lemma_id_word_bits(e@);
        },
    }
}

/// Copies `data` over the start of `arr`, keeping the rest of it.
fn write_prefix<const N: usize>(arr: [u8; N], data: &[u8]) -> (r: [u8; N])
    requires
        data@.len() <= N,
    ensures
        r@ == data@ + arr@.skip(data@.len() as int),
{
    let mut out = arr;
    let mut i: usize = 0;
    while i < data.len()
        invariant
            i <= data@.len() <= N,
            out@.len() == N,
            out@ == data@.take(i as int) + arr@.skip(i as int),
        decreases data@.len() - i,
    {
        out[i] = data[i];
        i = i + 1;
        assert(out@ =~= data@.take(i as int) + arr@.skip(i as int));
    }
    assert(data@.take(i as int) =~= data@);
    out
}

/// Sets the bytes `from..to` of `arr` to zero.
fn zero_range<const N: usize>(arr: [u8; N], from: usize, to: usize) -> (r: [u8; N])
    requires
        from <= to <= N,
    ensures
        r@ == arr@.take(from as int) + zeros((to - from) as nat) + arr@.skip(to as int),
{
    let mut out = arr;
    let mut i: usize = from;
    while i < to
        invariant
            from <= i <= to <= N,
            out@.len() == N,
            out@ == arr@.take(from as int) + zeros((i - from) as nat) + arr@.skip(i as int),
        decreases to - i,
    {
        out[i] = 0;
        i = i + 1;
        assert(out@ =~= arr@.take(from as int) + zeros((i - from) as nat) + arr@.skip(i as int));
    }
    out
}

/// Whether a word flags an extended identifier.
fn is_ext_word(w: u32) -> (r: bool)
    ensures
        r == word_ext(w),
{
    w & CAN_EFF_FLAG != 0
}

/// The raw identifier in a word.
fn raw_of_word(w: u32) -> (r: u32)
    ensures
        r == word_raw(w),
        r <= 0x1FFF_FFFF,
        !word_ext(w) ==> r <= 0x7FF,
{
    proof {
        lemma_word_masks(w);
    }
    if is_ext_word(w) {
        w & CAN_EFF_MASK
    } else {
        w & CAN_SFF_MASK
    }
}

/// The identifier held in a word.
fn can_id_of_word(w: u32) -> (r: CanId)
    ensures
        id_raw(r) == word_raw(w),
        (r is Extended) == word_ext(w),
        id_valid(r),
{
    let raw = raw_of_word(w);
    if is_ext_word(w) {
        CanId::extended(raw).unwrap()
    } else {
        CanId::standard(raw as u16).unwrap()
    }
}

/// Appends the rendering of an identifier word.
fn push_id_text(out: &mut Vec<char>, w: u32)
    ensures
        final(out)@ == old(out)@ + id_text(w),
{
    let raw = raw_of_word(w);
    if is_ext_word(w) {
        push_hex_fixed(out, raw as u64, 8);
    } else {
        push_hex_fixed(out, raw as u64, 3);
    }
}

/// The `RTR` and `ERR` flags of the ID word together.
pub const RTR_ERR_FLAGS: u32 = 0x6000_0000;

/// A classic frame's length taken from a kernel struct: at most 8.
pub open spec fn clamp_dlc(d: u8) -> u8 {
    if d <= 8 {
        d
    } else {
        8
    }
}

fn clamp_dlc_exec(d: u8) -> (r: u8)
    ensures
        r == clamp_dlc(d),
{
    if d <= 8 {
        d
    } else {
        8
    }
}

// ===== CanDataFrame =====

/// The classic CAN 2.0 data frame with up to 8 bytes of data.
#[derive(Clone, Copy, PartialEq, Eq, Debug, Hash)]
pub struct CanDataFrame {
    can_id: u32,
    can_dlc: u8,
    data: [u8; 8],
}

impl View for CanDataFrame {
    type V = FrameFields;

    closed spec fn view(&self) -> FrameFields {
        FrameFields { word: self.can_id, dlc: self.can_dlc, flags: 0, bytes: self.data@ }
    }
}

impl CanDataFrame {
    #[verifier::type_invariant]
    closed spec fn inv(self) -> bool {
        self.can_dlc <= 8
    }

    /// Every data frame holds at most 8 bytes and an 8-byte buffer.
    pub proof fn lemma_wf(self)
        ensures
            self@.dlc <= 8 ==> self@.payload().len() == self@.dlc,
            self@.bytes.len() == 8,
            self@.flags == 0,
    {
    }

    /// Initializes a data frame from an ID word and a payload.
    pub(crate) fn init(can_id: u32, data: &[u8]) -> (r: Result<CanDataFrame, ConstructionError>)
        ensures
            r is Ok <==> data@.len() <= 8,
            r matches Ok(f) ==> f@ == data_fields(can_id, data@),
            r matches Err(e) ==> e == ConstructionError::TooMuchData,
    {
        if data.len() <= CAN_MAX_DLEN {
            let bytes = write_prefix([0u8; 8], data);
            assert(bytes@ =~= data@ + zeros((8 - data@.len()) as nat));
            Ok(CanDataFrame { can_id, can_dlc: data.len() as u8, data: bytes })
        } else {
            Err(ConstructionError::TooMuchData)
        }
    }

    /// Creates a data frame, or `None` if the payload is longer than 8 bytes.
    pub fn new(id: CanId, data: &[u8]) -> (r: Option<CanDataFrame>)
        ensures
            r is Some <==> data@.len() <= 8,
            r matches Some(f) ==> f@ == data_fields(id_word_of(id), data@),
    {
        let can_id = id_to_canid_t(id);
        match Self::init(can_id, data) {
            Ok(f) => Some(f),
            Err(_) => None,
        }
    }

    /// A data frame cannot be a remote request: always `None`.
    pub fn new_remote(id: CanId, dlc: usize) -> (r: Option<CanDataFrame>)
        ensures
            r is None,
    {
        None
    }

    /// Creates a data frame from a raw identifier: up to `0x7FF` a standard
    /// one, above it an extended one.
    pub fn from_raw_id(id: u32, data: &[u8]) -> (r: Option<CanDataFrame>)
        ensures
            r is Some <==> id <= 0x1FFF_FFFF && data@.len() <= 8,
            r matches Some(f) ==> f@ == data_fields(
                if id <= 0x7FF { id } else { (id + 0x8000_0000u32) as u32 },
                data@,
            ),
    {
        match id_from_raw(id) {
            Some(c) => Self::new(c, data),
            None => None,
        }
    }

    /// Takes the fields of a kernel `can_frame` as a data frame: this
    /// succeeds unless the ID word flags an error or a remote frame. A length
    /// above 8 is clamped to 8.
    pub fn try_from_raw(can_id: u32, can_dlc: u8, data: [u8; 8]) -> (r: Result<CanDataFrame, ConstructionError>)
        ensures
            r is Ok <==> !word_err(can_id) && !word_rtr(can_id),
            r matches Ok(f) ==> f@ == (FrameFields { word: can_id, dlc: clamp_dlc(can_dlc), flags: 0, bytes: data@ }),
            r matches Err(e) ==> e == ConstructionError::WrongFrameType,
    {
        if can_id & (CAN_ERR_FLAG | CAN_RTR_FLAG) == 0 {
            assert(!word_err(can_id) && !word_rtr(can_id)) by (bit_vector)
                requires can_id & (0x2000_0000u32 | 0x4000_0000u32) == 0;
            Ok(CanDataFrame { can_id, can_dlc: clamp_dlc_exec(can_dlc), data })
        } else {
            assert(word_err(can_id) || word_rtr(can_id)) by (bit_vector)
                requires can_id & (0x2000_0000u32 | 0x4000_0000u32) != 0;
            Err(ConstructionError::WrongFrameType)
        }
    }

    /// The composite ID word, with the `EFF`/`RTR`/`ERR` flags.
    pub fn id_word(&self) -> (r: u32)
        ensures
            r == self@.word,
    {
        self.can_id
    }

    /// The flag bits of the ID word.
    pub fn id_flags(&self) -> (r: IdFlags)
        ensures
            r@ == self@.word & 0xE000_0000u32,
    {
        IdFlags::from_bits_truncate(self.can_id)
    }

    /// Whether the frame uses a 29-bit extended identifier.
    pub fn is_extended(&self) -> (r: bool)
        ensures
            r == word_ext(self@.word),
    {
        is_ext_word(self.can_id)
    }

    /// Whether the frame uses an 11-bit standard identifier.
    pub fn is_standard(&self) -> (r: bool)
        ensures
            r == !word_ext(self@.word),
    {
        !self.is_extended()
    }

    /// A data frame is never a remote request.
    pub fn is_remote_frame(&self) -> (r: bool)
        ensures
            !r,
    {
        false
    }

    /// A data frame is a data frame.
    pub fn is_data_frame(&self) -> (r: bool)
        ensures
            r,
    {
        true
    }

    /// Whether the ID word carries the `ERR` flag.
    pub fn is_error_frame(&self) -> (r: bool)
        ensures
            r == word_err(self@.word),
    {
        self.can_id & CAN_ERR_FLAG != 0
    }

    /// The raw identifier, without the flags.
    pub fn raw_id(&self) -> (r: u32)
        ensures
            r == word_raw(self@.word),
    {
        raw_of_word(self.can_id)
    }

    /// The identifier of the frame.
    pub fn can_id(&self) -> (r: CanId)
        ensures
            id_raw(r) == word_raw(self@.word),
            (r is Extended) == word_ext(self@.word),
            id_valid(r),
    {
        can_id_of_word(self.can_id)
    }

    /// The identifier of the frame.
    pub fn id(&self) -> (r: CanId)
        ensures
            id_raw(r) == word_raw(self@.word),
            (r is Extended) == word_ext(self@.word),
            id_valid(r),
    {
        self.can_id()
    }

    /// The data length code.
    pub fn dlc(&self) -> (r: usize)
        ensures
            r == self@.dlc,
            r <= 8,
    {
        proof {
            use_type_invariant(self);
        }
        self.can_dlc as usize
    }

    /// The payload length, the same as the data length code.
    pub fn len(&self) -> (r: usize)
        ensures
            r == self@.dlc,
    {
        self.dlc()
    }

    /// The payload.
    pub fn data(&self) -> (r: &[u8])
        ensures
            r@ == self@.payload(),
            r@.len() == self@.dlc,
            self@.dlc <= 8,
    {
        proof {
            use_type_invariant(self);
        }
        &self.data.as_slice()[0..self.can_dlc as usize]
    }

    /// Sets the identifier, keeping any `RTR`/`ERR` flag already in the word.
    pub fn set_id(&mut self, id: CanId)
        ensures
            final(self)@ == (FrameFields { word: id_word_of(id) | (old(self)@.word & RTR_ERR_FLAGS), ..old(self)@ }),
    {
        proof {
            use_type_invariant(&*self);
        }
        let w = id_to_canid_t(id) | (self.can_id & RTR_ERR_FLAGS);
        self.can_id = w;
    }

    /// Sets the payload. The bytes of the buffer past the new payload are
    /// zeroed.
    pub fn set_data(&mut self, data: &[u8]) -> (r: Result<(), ConstructionError>)
        ensures
            r is Ok <==> data@.len() <= 8,
            r is Ok ==> final(self)@ == data_fields(old(self)@.word, data@),
            r is Err ==> final(self)@ == old(self)@ && r == Err::<(), _>(ConstructionError::TooMuchData),
    {
        if data.len() <= CAN_MAX_DLEN {
            let bytes = write_prefix([0u8; 8], data);
            assert(bytes@ =~= data@ + zeros((8 - data@.len()) as nat));
            *self = CanDataFrame { can_id: self.can_id, can_dlc: data.len() as u8, data: bytes };
            Ok(())
        } else {
            Err(ConstructionError::TooMuchData)
        }
    }

    /// Appends the candump rendering of the frame.
    pub fn push_text(&self, out: &mut Vec<char>)
        ensures
            final(out)@ == old(out)@ + data_text(self@),
    {
        push_id_text(out, self.can_id);
        out.push('#');
        push_hex_bytes(out, self.data());
        proof {
            assert(final(out)@ =~= old(out)@ + data_text(self@));
        }
    }
}

impl CanDataFrame {
    /// Converts an FD frame that holds at most 8 bytes: same ID word and
    /// payload.
    pub fn try_from_fd(frame: CanFdFrame) -> (r: Result<CanDataFrame, ConstructionError>)
        ensures
            r is Ok <==> frame@.dlc <= 8,
            r matches Ok(f) ==> f@ == data_fields(frame@.word, frame@.payload()),
            r matches Err(e) ==> e == ConstructionError::TooMuchData,
    {
        let n = frame.len();
        if n > CAN_MAX_DLEN {
            Err(ConstructionError::TooMuchData)
        } else {
            Self::init(frame.id_word(), frame.data())
        }
    }
}

impl Default for CanDataFrame {
    /// The default data frame has all fields and data set to zero.
    fn default() -> (r: CanDataFrame)
        ensures
            r@ == data_fields(0, Seq::empty()),
    {
        let r = CanDataFrame { can_id: 0, can_dlc: 0, data: [0u8; 8] };
        assert(r@.bytes =~= Seq::<u8>::empty() + zeros(8));
        r
    }
}


// ===== CanRemoteFrame =====

/// The classic CAN 2.0 remote request frame.
///
/// It asks another node on the bus for a transmission and carries no data,
/// only the requested length.
#[derive(Clone, Copy, PartialEq, Eq, Debug, Hash)]
pub struct CanRemoteFrame {
    can_id: u32,
    can_dlc: u8,
    data: [u8; 8],
}

impl View for CanRemoteFrame {
    type V = FrameFields;

    closed spec fn view(&self) -> FrameFields {
        FrameFields { word: self.can_id, dlc: self.can_dlc, flags: 0, bytes: self.data@ }
    }
}

impl CanRemoteFrame {
    #[verifier::type_invariant]
    closed spec fn inv(self) -> bool {
        self.can_dlc <= 8
    }

    /// Initializes a remote frame from an ID word and a length; the `RTR`
    /// flag is set in the word.
    pub(crate) fn init(can_id: u32, len: usize) -> (r: Result<CanRemoteFrame, ConstructionError>)
        ensures
            r is Ok <==> len <= 8,
            r matches Ok(f) ==> f@ == remote_fields(can_id, len as nat),
            r matches Err(e) ==> e == ConstructionError::TooMuchData,
    {
        if len <= CAN_MAX_DLEN {
            let f = CanRemoteFrame { can_id: can_id | CAN_RTR_FLAG, can_dlc: len as u8, data: [0u8; 8] };
            assert(f@.bytes =~= zeros(8));
            Ok(f)
        } else {
            Err(ConstructionError::TooMuchData)
        }
    }

    /// Creates a remote frame requesting `dlc` bytes, or `None` above 8.
    pub fn new_remote(id: CanId, dlc: usize) -> (r: Option<CanRemoteFrame>)
        ensures
            r is Some <==> dlc <= 8,
            r matches Some(f) ==> f@ == remote_fields(id_word_of(id), dlc as nat),
    {
        let can_id = id_to_canid_t(id);
        match Self::init(can_id, dlc) {
            Ok(f) => Some(f),
            Err(_) => None,
        }
    }

    /// Creates a remote frame requesting as many bytes as `data` holds.
    pub fn new(id: CanId, data: &[u8]) -> (r: Option<CanRemoteFrame>)
        ensures
            r is Some <==> data@.len() <= 8,
            r matches Some(f) ==> f@ == remote_fields(id_word_of(id), data@.len()),
    {
        Self::new_remote(id, data.len())
    }

    /// Creates a remote frame from a raw identifier: up to `0x7FF` a
    /// standard one, above it an extended one.
    pub fn remote_from_raw_id(id: u32, dlc: usize) -> (r: Option<CanRemoteFrame>)
        ensures
            r is Some <==> id <= 0x1FFF_FFFF && dlc <= 8,
            r matches Some(f) ==> f@ == remote_fields(
                if id <= 0x7FF { id } else { (id + 0x8000_0000u32) as u32 },
                dlc as nat,
            ),
    {
        match id_from_raw(id) {
            Some(c) => Self::new_remote(c, dlc),
            None => None,
        }
    }

    /// Creates a remote frame from a raw identifier, requesting as many
    /// bytes as `data` holds.
    pub fn from_raw_id(id: u32, data: &[u8]) -> (r: Option<CanRemoteFrame>)
        ensures
            r is Some <==> id <= 0x1FFF_FFFF && data@.len() <= 8,
            r matches Some(f) ==> f@ == remote_fields(
                if id <= 0x7FF { id } else { (id + 0x8000_0000u32) as u32 },
                data@.len(),
            ),
    {
        Self::remote_from_raw_id(id, data.len())
    }

    /// Takes the fields of a kernel `can_frame` as a remote frame: this
    /// succeeds only if the ID word flags a remote request. A length above 8
    /// is clamped to 8.
    pub fn try_from_raw(can_id: u32, can_dlc: u8, data: [u8; 8]) -> (r: Result<CanRemoteFrame, ConstructionError>)
        ensures
            r is Ok <==> word_rtr(can_id),
            r matches Ok(f) ==> f@ == (FrameFields { word: can_id, dlc: clamp_dlc(can_dlc), flags: 0, bytes: data@ }),
            r matches Err(e) ==> e == ConstructionError::WrongFrameType,
    {
        if can_id & CAN_RTR_FLAG != 0 {
            Ok(CanRemoteFrame { can_id, can_dlc: clamp_dlc_exec(can_dlc), data })
        } else {
            Err(ConstructionError::WrongFrameType)
        }
    }

    /// Sets the requested length.
    pub fn set_dlc(&mut self, dlc: usize) -> (r: Result<(), ConstructionError>)
        ensures
            r is Ok <==> dlc <= 8,
            r is Ok ==> final(self)@ == (FrameFields { dlc: dlc as u8, ..old(self)@ }),
            r is Err ==> final(self)@ == old(self)@ && r == Err::<(), _>(ConstructionError::TooMuchData),
    {
        if dlc <= CAN_MAX_DLEN {
            *self = CanRemoteFrame { can_id: self.can_id, can_dlc: dlc as u8, data: self.data };
            Ok(())
        } else {
            Err(ConstructionError::TooMuchData)
        }
    }

    /// Sets the identifier; the `RTR` flag is set in the word.
    pub fn set_id(&mut self, id: CanId)
        ensures
            final(self)@ == (FrameFields { word: id_word_of(id) | 0x4000_0000u32, ..old(self)@ }),
    {
        proof {
            use_type_invariant(&*self);
        }
        let w = id_to_canid_t(id) | CAN_RTR_FLAG;
        self.can_id = w;
    }

    /// A remote frame has no payload: this sets the requested length to
    /// the length of `data`.
    pub fn set_data(&mut self, data: &[u8]) -> (r: Result<(), ConstructionError>)
        ensures
            r is Ok <==> data@.len() <= 8,
            r is Ok ==> final(self)@ == (FrameFields { dlc: data@.len() as u8, ..old(self)@ }),
            r is Err ==> final(self)@ == old(self)@ && r == Err::<(), _>(ConstructionError::TooMuchData),
    {
        self.set_dlc(data.len())
    }

    /// The composite ID word, with the `EFF`/`RTR`/`ERR` flags.
    pub fn id_word(&self) -> (r: u32)
        ensures
            r == self@.word,
    {
        self.can_id
    }

    /// The flag bits of the ID word.
    pub fn id_flags(&self) -> (r: IdFlags)
        ensures
            r@ == self@.word & 0xE000_0000u32,
    {
        IdFlags::from_bits_truncate(self.can_id)
    }

    /// Whether the frame uses a 29-bit extended identifier.
    pub fn is_extended(&self) -> (r: bool)
        ensures
            r == word_ext(self@.word),
    {
        is_ext_word(self.can_id)
    }

    /// Whether the frame uses an 11-bit standard identifier.
    pub fn is_standard(&self) -> (r: bool)
        ensures
            r == !word_ext(self@.word),
    {
        !self.is_extended()
    }

    /// A remote frame is a remote request.
    pub fn is_remote_frame(&self) -> (r: bool)
        ensures
            r,
    {
        true
    }

    /// A remote frame is not a data frame.
    pub fn is_data_frame(&self) -> (r: bool)
        ensures
            !r,
    {
        false
    }

    /// Whether the ID word carries the `ERR` flag.
    pub fn is_error_frame(&self) -> (r: bool)
        ensures
            r == word_err(self@.word),
    {
        self.can_id & CAN_ERR_FLAG != 0
    }

    /// The raw identifier, without the flags.
    pub fn raw_id(&self) -> (r: u32)
        ensures
            r == word_raw(self@.word),
    {
        raw_of_word(self.can_id)
    }

    /// The identifier of the frame.
    pub fn can_id(&self) -> (r: CanId)
        ensures
            id_raw(r) == word_raw(self@.word),
            (r is Extended) == word_ext(self@.word),
            id_valid(r),
    {
        can_id_of_word(self.can_id)
    }

    /// The identifier of the frame.
    pub fn id(&self) -> (r: CanId)
        ensures
            id_raw(r) == word_raw(self@.word),
            (r is Extended) == word_ext(self@.word),
            id_valid(r),
    {
        self.can_id()
    }

    /// The requested length.
    pub fn dlc(&self) -> (r: usize)
        ensures
            r == self@.dlc,
            r <= 8,
    {
        proof {
            use_type_invariant(self);
        }
        self.can_dlc as usize
    }

    /// The length, the same as the requested length.
    pub fn len(&self) -> (r: usize)
        ensures
            r == self@.dlc,
    {
        self.dlc()
    }

    /// A remote frame carries no payload: always empty.
    pub fn data(&self) -> (r: &[u8])
        ensures
            r@ == Seq::<u8>::empty(),
    {
        let r: &[u8] = &self.data.as_slice()[0..0];
        assert(r@ =~= Seq::<u8>::empty());
        r
    }

    /// Appends the candump rendering of the frame.
    pub fn push_text(&self, out: &mut Vec<char>)
        ensures
            final(out)@ == old(out)@ + remote_text(self@),
    {
        push_id_text(out, self.can_id);
        out.push('#');
        out.push('R');
        let dlc = self.dlc();
        if dlc != 0 {
            push_hex_min(out, dlc as u64);
        }
        proof {
            assert(final(out)@ =~= old(out)@ + remote_text(self@));
        }
    }
}

impl Default for CanRemoteFrame {
    /// The default remote frame has all fields and data set to zero, except
    /// the `RTR` flag.
    fn default() -> (r: CanRemoteFrame)
        ensures
            r@ == remote_fields(0, 0),
    {
        let r = CanRemoteFrame { can_id: CAN_RTR_FLAG, can_dlc: 0, data: [0u8; 8] };
        assert(0u32 | 0x4000_0000u32 == 0x4000_0000u32) by (bit_vector);
        assert(r@.bytes =~= zeros(8));
        r
    }
}


// ===== CanErrorFrame =====

/// A SocketCAN error frame.
///
/// The kernel or a device driver delivers one when it detects an error,
/// such as a problem on the bus. The error-class bits of the ID word and the
/// 8 data bytes describe the error; see [`crate::errors`].
///
/// An error frame always carries the full 8-byte payload.
#[derive(Clone, Copy, PartialEq, Eq, Debug, Hash)]
pub struct CanErrorFrame {
    can_id: u32,
    data: [u8; 8],
}

impl View for CanErrorFrame {
    type V = FrameFields;

    closed spec fn view(&self) -> FrameFields {
        FrameFields { word: self.can_id, dlc: 8, flags: 0, bytes: self.data@ }
    }
}

impl CanErrorFrame {
    /// Every error frame has length 8 and an 8-byte buffer.
    pub proof fn lemma_wf(self)
        ensures
            self@.dlc == 8,
            self@.bytes.len() == 8,
            self@.payload() == self@.bytes,
            self@.flags == 0,
    {
        assert(self@.bytes.take(8) =~= self@.bytes);
    }

    /// Creates an error frame from error-class bits and detail bytes.
    ///
    /// The `ERR` flag is forced on and the other flags off, and the data is
    /// padded with zeros to 8 bytes. More than 8 bytes are refused.
    pub fn new_error(can_id: u32, data: &[u8]) -> (r: Result<CanErrorFrame, ConstructionError>)
        ensures
            r is Ok <==> data@.len() <= 8,
            r matches Ok(f) ==> f@ == error_fields(can_id, data@),
            r matches Err(e) ==> e == ConstructionError::TooMuchData,
    {
        if data.len() <= CAN_MAX_DLEN {
            let bytes = write_prefix([0u8; 8], data);
            assert(bytes@ =~= data@ + zeros((8 - data@.len()) as nat));
            Ok(CanErrorFrame { can_id: (can_id & CAN_ERR_MASK) | CAN_ERR_FLAG, data: bytes })
        } else {
            Err(ConstructionError::TooMuchData)
        }
    }

    /// Creates an error frame whose error-class bits are the ID word of
    /// `id`.
    pub fn new(id: CanId, data: &[u8]) -> (r: Option<CanErrorFrame>)
        ensures
            r is Some <==> data@.len() <= 8,
            r matches Some(f) ==> f@ == error_fields(id_word_of(id), data@),
    {
        let can_id = id_to_canid_t(id);
        match Self::new_error(can_id, data) {
            Ok(f) => Some(f),
            Err(_) => None,
        }
    }

    /// An error frame cannot be a remote request: always `None`.
    pub fn new_remote(id: CanId, dlc: usize) -> (r: Option<CanErrorFrame>)
        ensures
            r is None,
    {
        None
    }

    /// Takes the fields of a kernel `can_frame` as an error frame: this
    /// succeeds only if the ID word flags an error. The length is forced to 8.
    pub fn try_from_raw(can_id: u32, can_dlc: u8, data: [u8; 8]) -> (r: Result<CanErrorFrame, ConstructionError>)
        ensures
            r is Ok <==> word_err(can_id),
            r matches Ok(f) ==> f@ == (FrameFields { word: can_id, dlc: 8, flags: 0, bytes: data@ }),
            r matches Err(e) ==> e == ConstructionError::WrongFrameType,
    {
        if can_id & CAN_ERR_FLAG != 0 {
            Ok(CanErrorFrame { can_id, data })
        } else {
            Err(ConstructionError::WrongFrameType)
        }
    }

    /// The error-class bits of the ID word.
    pub fn error_bits(&self) -> (r: u32)
        ensures
            r == self@.word & 0x1FFF_FFFFu32,
    {
        self.can_id & CAN_ERR_MASK
    }

    /// Setting the identifier of an error frame does nothing.
    pub fn set_id(&mut self, id: CanId)
        ensures
            *final(self) == *old(self),
    {
    }

    /// The payload of an error frame cannot be set: always an error.
    pub fn set_data(&mut self, data: &[u8]) -> (r: Result<(), ConstructionError>)
        ensures
            *final(self) == *old(self),
            r == Err::<(), _>(ConstructionError::WrongFrameType),
    {
        Err(ConstructionError::WrongFrameType)
    }

    /// The composite ID word, with the `EFF`/`RTR`/`ERR` flags.
    pub fn id_word(&self) -> (r: u32)
        ensures
            r == self@.word,
    {
        self.can_id
    }

    /// The flag bits of the ID word.
    pub fn id_flags(&self) -> (r: IdFlags)
        ensures
            r@ == self@.word & 0xE000_0000u32,
    {
        IdFlags::from_bits_truncate(self.can_id)
    }

    /// Whether the ID word carries the `EFF` flag.
    pub fn is_extended(&self) -> (r: bool)
        ensures
            r == word_ext(self@.word),
    {
        is_ext_word(self.can_id)
    }

    /// Whether the ID word lacks the `EFF` flag.
    pub fn is_standard(&self) -> (r: bool)
        ensures
            r == !word_ext(self@.word),
    {
        !self.is_extended()
    }

    /// An error frame is not a remote request.
    pub fn is_remote_frame(&self) -> (r: bool)
        ensures
            !r,
    {
        false
    }

    /// An error frame is not a data frame.
    pub fn is_data_frame(&self) -> (r: bool)
        ensures
            !r,
    {
        false
    }

    /// Whether the ID word carries the `ERR` flag.
    pub fn is_error_frame(&self) -> (r: bool)
        ensures
            r == word_err(self@.word),
    {
        self.can_id & CAN_ERR_FLAG != 0
    }

    /// The identifier bits of the word, without the flags.
    pub fn raw_id(&self) -> (r: u32)
        ensures
            r == word_raw(self@.word),
    {
        raw_of_word(self.can_id)
    }

    /// The identifier bits of the word, as an identifier.
    pub fn can_id(&self) -> (r: CanId)
        ensures
            id_raw(r) == word_raw(self@.word),
            (r is Extended) == word_ext(self@.word),
            id_valid(r),
    {
        can_id_of_word(self.can_id)
    }

    /// The identifier bits of the word, as an identifier.
    pub fn id(&self) -> (r: CanId)
        ensures
            id_raw(r) == word_raw(self@.word),
            (r is Extended) == word_ext(self@.word),
            id_valid(r),
    {
        self.can_id()
    }

    /// The length: always 8.
    pub fn dlc(&self) -> (r: usize)
        ensures
            r == 8,
    {
        CAN_MAX_DLEN
    }

    /// The length: always 8.
    pub fn len(&self) -> (r: usize)
        ensures
            r == 8,
    {
        CAN_MAX_DLEN
    }

    /// The whole 8-byte payload.
    pub fn data(&self) -> (r: &[u8])
        ensures
            r@ == self@.bytes,
            r@.len() == 8,
    {
        self.data.as_slice()
    }

    /// Appends the candump rendering of the frame: the error-class bits
    /// with the `ERR` flag in eight hex digits, `#`, and the 8 data bytes.
    pub fn push_text(&self, out: &mut Vec<char>)
        ensures
            final(out)@ == old(out)@ + error_text(self@),
    {
        proof {
            lemma_word_masks(self.can_id);
        }
        push_hex_fixed(out, ((self.can_id & CAN_ERR_MASK) | CAN_ERR_FLAG) as u64, 8);
        out.push('#');
        push_hex_bytes(out, self.data.as_slice());
        proof {
            assert(final(out)@ =~= old(out)@ + error_text(self@));
        }
    }
}

// ===== CanFdFrame =====

/// The CAN flexible data rate frame with up to 64 bytes of data.
///
/// A payload longer than 8 bytes whose length is not a valid CAN FD length
/// is padded with zero bytes to the next valid one. The `FDF` flag is forced
/// on when a frame is created.
#[derive(Clone, Copy, PartialEq, Eq, Debug, Hash)]
pub struct CanFdFrame {
    can_id: u32,
    len: u8,
    flags: u8,
    data: [u8; 64],
}

impl View for CanFdFrame {
    type V = FrameFields;

    closed spec fn view(&self) -> FrameFields {
        FrameFields { word: self.can_id, dlc: self.len, flags: self.flags, bytes: self.data@ }
    }
}

/// The fields of an FD frame built from a classic data frame.
pub open spec fn fd_of_data_fields(d: FrameFields) -> FrameFields {
    FrameFields { word: d.word, dlc: d.dlc, flags: 0x04, bytes: d.payload() + zeros((64 - d.dlc) as nat) }
}

/// A classic data frame converted to an FD frame, and that converted back,
/// carries the same ID word and payload, with the unused bytes zeroed.
pub proof fn lemma_fd_conversion_round_trip(d: FrameFields)
    requires
        d.dlc <= 8,
        d.bytes.len() == 8,
    ensures
        fd_of_data_fields(d).dlc <= 8,
        fd_of_data_fields(d).word == d.word,
        fd_of_data_fields(d).payload() == d.payload(),
        data_fields(fd_of_data_fields(d).word, fd_of_data_fields(d).payload()) == data_fields(
            d.word,
            d.payload(),
        ),
{
    let fd = fd_of_data_fields(d);
    assert(fd.bytes.take(fd.dlc as int) =~= d.bytes.take(d.dlc as int));
}

/// The fields of an FD frame taken from a kernel `canfd_frame`: the length
/// is clamped to 64 and rounded up to a valid FD length, the padding this
/// adds is zeroed, and `FDF` is set.
pub open spec fn fd_raw_fields(can_id: u32, len: u8, flags: u8, data: Seq<u8>) -> FrameFields {
    let actual: nat = if len <= 64 { len as nat } else { 64 };
    let n = next_fd_len(actual);
    FrameFields {
        word: can_id,
        dlc: n as u8,
        flags: flags | 0x04u8,
        bytes: data.take(actual as int) + zeros((n - actual) as nat) + data.skip(n as int),
    }
}

impl CanFdFrame {
    #[verifier::type_invariant]
    closed spec fn inv(self) -> bool {
        valid_fd_len(self.len as nat)
    }

    /// Whether `len` is a valid CAN FD length: `0..=8`, 12, 16, 20, 24, 32,
    /// 48 or 64.
    pub fn is_valid_data_len(len: usize) -> (r: bool)
        ensures
            r == valid_fd_len(len as nat),
    {
        len <= CAN_MAX_DLEN || len == 12 || len == 16 || len == 20 || len == 24 || len == 32 || len == 48
            || len == 64
    }

    /// The smallest valid CAN FD length that holds `len` bytes, at most 64.
    pub fn next_valid_ext_dlen(len: usize) -> (r: usize)
        ensures
            r == next_fd_len(len as nat),
            valid_fd_len(r as nat),
            len <= 64 ==> len <= r,
            r <= 64,
    {
        if len <= CAN_MAX_DLEN {
            return len;
        }
        let lens: [usize; 7] = [12, 16, 20, 24, 32, 48, 64];
        let mut i: usize = 0;
        while i < 7
            invariant
                i <= 7,
                len > 8,
                lens@ == seq![12usize, 16, 20, 24, 32, 48, 64],
                forall|j: int| 0 <= j < i ==> lens@[j] < len,
            decreases 7 - i,
        {
            if lens[i] >= len {
                return lens[i];
            }
            i = i + 1;
        }
        CANFD_MAX_DLEN
    }

    /// Initializes an FD frame from an ID word, a payload and flags; `FDF`
    /// is set, and the payload is padded with zeros to a valid length.
    pub(crate) fn init(can_id: u32, data: &[u8], fd_flags: FdFlags) -> (r: Result<CanFdFrame, ConstructionError>)
        ensures
            r is Ok <==> data@.len() <= 64,
            r matches Ok(f) ==> f@ == fd_fields(can_id, data@, fd_flags.bits),
            r matches Err(e) ==> e == ConstructionError::TooMuchData,
    {
        if data.len() <= CANFD_MAX_DLEN {
            let bytes = write_prefix([0u8; 64], data);
            assert(bytes@ =~= data@ + zeros((64 - data@.len()) as nat));
            let len = Self::next_valid_ext_dlen(data.len());
            Ok(CanFdFrame { can_id, len: len as u8, flags: fd_flags.bits | CANFD_FDF, data: bytes })
        } else {
            Err(ConstructionError::TooMuchData)
        }
    }

    /// Creates an FD frame with the given flags, or `None` if the payload is
    /// longer than 64 bytes.
    pub fn with_flags(id: CanId, data: &[u8], flags: FdFlags) -> (r: Option<CanFdFrame>)
        ensures
            r is Some <==> data@.len() <= 64,
            r matches Some(f) ==> f@ == fd_fields(id_word_of(id), data@, flags.bits),
    {
        let can_id = id_to_canid_t(id);
        match Self::init(can_id, data, flags) {
            Ok(f) => Some(f),
            Err(_) => None,
        }
    }

    /// Creates an FD frame, or `None` if the payload is longer than 64 bytes.
    pub fn new(id: CanId, data: &[u8]) -> (r: Option<CanFdFrame>)
        ensures
            r is Some <==> data@.len() <= 64,
            r matches Some(f) ==> f@ == fd_fields(id_word_of(id), data@, 0),
    {
        Self::with_flags(id, data, FdFlags::empty())
    }

    /// CAN FD has no remote requests: always `None`.
    pub fn new_remote(id: CanId, dlc: usize) -> (r: Option<CanFdFrame>)
        ensures
            r is None,
    {
        None
    }

    /// Creates an FD frame from a raw identifier: up to `0x7FF` a standard
    /// one, above it an extended one.
    pub fn from_raw_id(id: u32, data: &[u8]) -> (r: Option<CanFdFrame>)
        ensures
            r is Some <==> id <= 0x1FFF_FFFF && data@.len() <= 64,
            r matches Some(f) ==> f@ == fd_fields(
                if id <= 0x7FF { id } else { (id + 0x8000_0000u32) as u32 },
                data@,
                0,
            ),
    {
        match id_from_raw(id) {
            Some(c) => Self::new(c, data),
            None => None,
        }
    }

    /// Takes the fields of a kernel `canfd_frame`. The length is clamped to
    /// 64 and rounded up to a valid FD length, the padding that adds is
    /// zeroed, and `FDF` is set.
    pub fn from_raw(can_id: u32, len: u8, flags: u8, data: [u8; 64]) -> (r: CanFdFrame)
        ensures
            r@ == fd_raw_fields(can_id, len, flags, data@),
    {
        let actual: usize = if len as usize <= CANFD_MAX_DLEN {
            len as usize
        } else {
            CANFD_MAX_DLEN
        };
        let n = Self::next_valid_ext_dlen(actual);
        let bytes = zero_range(data, actual, n);
        CanFdFrame { can_id, len: n as u8, flags: flags | CANFD_FDF, data: bytes }
    }

    /// Converts a classic data frame: same ID word and payload, `FDF` set.
    pub fn from_data_frame(frame: CanDataFrame) -> (r: CanFdFrame)
        ensures
            r@ == fd_of_data_fields(frame@),
    {
        let data = frame.data();
        let n = data.len();
        let bytes = write_prefix([0u8; 64], data);
        assert(bytes@ =~= frame@.payload() + zeros((64 - frame@.dlc) as nat));
        CanFdFrame { can_id: frame.id_word(), len: n as u8, flags: CANFD_FDF, data: bytes }
    }

    /// The FD flags, limited to the named ones (not the flags of the ID
    /// word).
    pub fn flags(&self) -> (r: FdFlags)
        ensures
            r.bits == self@.flags & 0x07u8,
    {
        FdFlags::from_bits_truncate(self.flags)
    }

    /// The whole FD flags byte, named bits or not.
    pub fn raw_flags(&self) -> (r: u8)
        ensures
            r == self@.flags,
    {
        self.flags
    }

    /// Whether the frame uses a bit rate switch.
    pub fn is_brs(&self) -> (r: bool)
        ensures
            r == (self@.flags & 0x01u8 != 0),
    {
        self.flags & CANFD_BRS != 0
    }

    /// Sets or clears the bit rate switch.
    pub fn set_brs(&mut self, on: bool)
        ensures
            on ==> final(self)@ == (FrameFields { flags: old(self)@.flags | 0x01u8, ..old(self)@ }),
            !on ==> final(self)@ == (FrameFields { flags: old(self)@.flags & 0xFEu8, ..old(self)@ }),
    {
        proof {
            use_type_invariant(&*self);
        }
        if on {
            self.flags = self.flags | CANFD_BRS;
        } else {
            self.flags = self.flags & 0xFE;
        }
    }

    /// Whether the transmitting node is in the error-passive state.
    pub fn is_esi(&self) -> (r: bool)
        ensures
            r == (self@.flags & 0x02u8 != 0),
    {
        self.flags & CANFD_ESI != 0
    }

    /// Sets or clears the error state indicator.
    pub fn set_esi(&mut self, on: bool)
        ensures
            on ==> final(self)@ == (FrameFields { flags: old(self)@.flags | 0x02u8, ..old(self)@ }),
            !on ==> final(self)@ == (FrameFields { flags: old(self)@.flags & 0xFDu8, ..old(self)@ }),
    {
        proof {
            use_type_invariant(&*self);
        }
        if on {
            self.flags = self.flags | CANFD_ESI;
        } else {
            self.flags = self.flags & 0xFD;
        }
    }

    /// Sets the identifier, keeping any `RTR`/`ERR` flag already in the word.
    pub fn set_id(&mut self, id: CanId)
        ensures
            final(self)@ == (FrameFields { word: id_word_of(id) | (old(self)@.word & RTR_ERR_FLAGS), ..old(self)@ }),
    {
        proof {
            use_type_invariant(&*self);
        }
        let w = id_to_canid_t(id) | (self.can_id & RTR_ERR_FLAGS);
        self.can_id = w;
    }

    /// Sets the payload, padded with zeros to a valid length; the rest of
    /// the buffer is zeroed.
    pub fn set_data(&mut self, data: &[u8]) -> (r: Result<(), ConstructionError>)
        ensures
            r is Ok <==> data@.len() <= 64,
            r is Ok ==> final(self)@ == (FrameFields {
                dlc: next_fd_len(data@.len()) as u8,
                bytes: data@ + zeros((64 - data@.len()) as nat),
                ..old(self)@
            }),
            r is Err ==> final(self)@ == old(self)@ && r == Err::<(), _>(ConstructionError::TooMuchData),
    {
        if data.len() <= CANFD_MAX_DLEN {
            let bytes = write_prefix([0u8; 64], data);
            assert(bytes@ =~= data@ + zeros((64 - data@.len()) as nat));
            let len = Self::next_valid_ext_dlen(data.len());
            *self = CanFdFrame { can_id: self.can_id, len: len as u8, flags: self.flags, data: bytes };
            Ok(())
        } else {
            Err(ConstructionError::TooMuchData)
        }
    }

    /// The composite ID word, with the `EFF`/`RTR`/`ERR` flags.
    pub fn id_word(&self) -> (r: u32)
        ensures
            r == self@.word,
    {
        self.can_id
    }

    /// The flag bits of the ID word.
    pub fn id_flags(&self) -> (r: IdFlags)
        ensures
            r@ == self@.word & 0xE000_0000u32,
    {
        IdFlags::from_bits_truncate(self.can_id)
    }

    /// Whether the frame uses a 29-bit extended identifier.
    pub fn is_extended(&self) -> (r: bool)
        ensures
            r == word_ext(self@.word),
    {
        is_ext_word(self.can_id)
    }

    /// Whether the frame uses an 11-bit standard identifier.
    pub fn is_standard(&self) -> (r: bool)
        ensures
            r == !word_ext(self@.word),
    {
        !self.is_extended()
    }

    /// An FD frame is never a remote request.
    pub fn is_remote_frame(&self) -> (r: bool)
        ensures
            !r,
    {
        false
    }

    /// An FD frame is a data frame.
    pub fn is_data_frame(&self) -> (r: bool)
        ensures
            r,
    {
        true
    }

    /// Whether the ID word carries the `ERR` flag.
    pub fn is_error_frame(&self) -> (r: bool)
        ensures
            r == word_err(self@.word),
    {
        self.can_id & CAN_ERR_FLAG != 0
    }

    /// The raw identifier, without the flags.
    pub fn raw_id(&self) -> (r: u32)
        ensures
            r == word_raw(self@.word),
    {
        raw_of_word(self.can_id)
    }

    /// The identifier of the frame.
    pub fn can_id(&self) -> (r: CanId)
        ensures
            id_raw(r) == word_raw(self@.word),
            (r is Extended) == word_ext(self@.word),
            id_valid(r),
    {
        can_id_of_word(self.can_id)
    }

    /// The identifier of the frame.
    pub fn id(&self) -> (r: CanId)
        ensures
            id_raw(r) == word_raw(self@.word),
            (r is Extended) == word_ext(self@.word),
            id_valid(r),
    {
        self.can_id()
    }

    /// The data length code of the frame's length: the length itself up to
    /// 8, then 9 for 12 up to 15 for 64.
    pub fn dlc(&self) -> (r: usize)
        ensures
            r == fd_dlc_code(self@.dlc as nat),
    {
        proof {
            use_type_invariant(self);
        }
        let n = self.len;
        if n <= 8 {
            n as usize
        } else if n == 12 {
            9
        } else if n == 16 {
            10
        } else if n == 20 {
            11
        } else if n == 24 {
            12
        } else if n == 32 {
            13
        } else if n == 48 {
            14
        } else {
            15
        }
    }

    /// The payload length.
    pub fn len(&self) -> (r: usize)
        ensures
            r == self@.dlc,
            valid_fd_len(r as nat),
    {
        proof {
            use_type_invariant(self);
        }
        self.len as usize
    }

    /// The payload.
    pub fn data(&self) -> (r: &[u8])
        ensures
            r@ == self@.payload(),
            r@.len() == self@.dlc,
    {
        proof {
            use_type_invariant(self);
        }
        &self.data.as_slice()[0..self.len as usize]
    }

    /// Appends the candump rendering of the frame.
    pub fn push_text(&self, out: &mut Vec<char>)
        ensures
            final(out)@ == old(out)@ + fd_text(self@),
    {
        push_id_text(out, self.can_id);
        out.push('#');
        out.push('#');
        push_hex_min(out, (self.flags & 0x0F) as u64);
        push_hex_bytes(out, self.data());
        proof {
            assert(final(out)@ =~= old(out)@ + fd_text(self@));
        }
    }
}

impl Default for CanFdFrame {
    /// The default FD frame has all fields and data set to zero, except the
    /// `FDF` flag.
    fn default() -> (r: CanFdFrame)
        ensures
            r@ == fd_fields(0, Seq::empty(), 0),
    {
        let r = CanFdFrame { can_id: 0, len: 0, flags: CANFD_FDF, data: [0u8; 64] };
        assert(0u8 | 0x04u8 == 0x04u8) by (bit_vector);
        assert(r@.bytes =~= Seq::<u8>::empty() + zeros(64));
        r
    }
}


// ===== CanFrame =====

/// A classic CAN 2.0 frame of any kind.
#[derive(Clone, Copy, PartialEq, Eq, Debug, Hash)]
pub enum CanFrame {
    /// A data frame
    Data(CanDataFrame),
    /// A remote frame
    Remote(CanRemoteFrame),
    /// An error frame
    Error(CanErrorFrame),
}

impl View for CanFrame {
    type V = FrameFields;

    open spec fn view(&self) -> FrameFields {
        match self {
            CanFrame::Data(f) => f@,
            CanFrame::Remote(f) => f@,
            CanFrame::Error(f) => f@,
        }
    }
}

/// The candump rendering of a classic frame.
pub open spec fn can_frame_text(f: CanFrame) -> Seq<char> {
    match f {
        CanFrame::Data(d) => data_text(d@),
        CanFrame::Remote(r) => remote_text(r@),
        CanFrame::Error(e) => error_text(e@),
    }
}

impl CanFrame {
    /// Creates a data frame, or `None` if the payload is longer than 8 bytes.
    pub fn new(id: CanId, data: &[u8]) -> (r: Option<CanFrame>)
        ensures
            r is Some <==> data@.len() <= 8,
            r matches Some(f) ==> f is Data && f@ == data_fields(id_word_of(id), data@),
    {
        match CanDataFrame::new(id, data) {
            Some(f) => Some(CanFrame::Data(f)),
            None => None,
        }
    }

    /// Creates a remote frame, or `None` if `dlc` is above 8.
    pub fn new_remote(id: CanId, dlc: usize) -> (r: Option<CanFrame>)
        ensures
            r is Some <==> dlc <= 8,
            r matches Some(f) ==> f is Remote && f@ == remote_fields(id_word_of(id), dlc as nat),
    {
        match CanRemoteFrame::new_remote(id, dlc) {
            Some(f) => Some(CanFrame::Remote(f)),
            None => None,
        }
    }

    /// Creates a data frame from a raw identifier: up to `0x7FF` a standard
    /// one, above it an extended one.
    pub fn from_raw_id(id: u32, data: &[u8]) -> (r: Option<CanFrame>)
        ensures
            r is Some <==> id <= 0x1FFF_FFFF && data@.len() <= 8,
            r matches Some(f) ==> f is Data && f@ == data_fields(
                if id <= 0x7FF { id } else { (id + 0x8000_0000u32) as u32 },
                data@,
            ),
    {
        match CanDataFrame::from_raw_id(id, data) {
            Some(f) => Some(CanFrame::Data(f)),
            None => None,
        }
    }

    /// Creates a remote frame from a raw identifier: up to `0x7FF` a
    /// standard one, above it an extended one.
    pub fn remote_from_raw_id(id: u32, dlc: usize) -> (r: Option<CanFrame>)
        ensures
            r is Some <==> id <= 0x1FFF_FFFF && dlc <= 8,
            r matches Some(f) ==> f is Remote && f@ == remote_fields(
                if id <= 0x7FF { id } else { (id + 0x8000_0000u32) as u32 },
                dlc as nat,
            ),
    {
        match CanRemoteFrame::remote_from_raw_id(id, dlc) {
            Some(f) => Some(CanFrame::Remote(f)),
            None => None,
        }
    }

    /// Takes the fields of a kernel `can_frame`: an error frame if the ID
    /// word flags one (length forced to 8), else a remote frame if it flags
    /// one, else a data frame (length clamped to 8).
    pub fn from_raw(can_id: u32, can_dlc: u8, data: [u8; 8]) -> (r: CanFrame)
        ensures
            r is Error <==> word_err(can_id),
            r is Remote <==> !word_err(can_id) && word_rtr(can_id),
            r@ == (FrameFields {
                word: can_id,
                dlc: if word_err(can_id) { 8 } else { clamp_dlc(can_dlc) },
                flags: 0,
                bytes: data@,
            }),
    {
        match CanErrorFrame::try_from_raw(can_id, can_dlc, data) {
            Ok(f) => CanFrame::Error(f),
            Err(_) => match CanRemoteFrame::try_from_raw(can_id, can_dlc, data) {
                Ok(f) => CanFrame::Remote(f),
                Err(_) => match CanDataFrame::try_from_raw(can_id, can_dlc, data) {
                    Ok(f) => CanFrame::Data(f),
                    Err(_) => CanFrame::Data(CanDataFrame::default()),
                },
            },
        }
    }

    /// Converts an FD frame that holds at most 8 bytes into a data frame.
    pub fn try_from_fd(frame: CanFdFrame) -> (r: Result<CanFrame, ConstructionError>)
        ensures
            r is Ok <==> frame@.dlc <= 8,
            r matches Ok(f) ==> f is Data && f@ == data_fields(frame@.word, frame@.payload()),
            r matches Err(e) ==> e == ConstructionError::TooMuchData,
    {
        match CanDataFrame::try_from_fd(frame) {
            Ok(f) => Ok(CanFrame::Data(f)),
            Err(e) => Err(e),
        }
    }

    /// The composite ID word, with the `EFF`/`RTR`/`ERR` flags.
    pub fn id_word(&self) -> (r: u32)
        ensures
            r == self@.word,
    {
        match self {
            CanFrame::Data(f) => f.id_word(),
            CanFrame::Remote(f) => f.id_word(),
            CanFrame::Error(f) => f.id_word(),
        }
    }

    /// The flag bits of the ID word.
    pub fn id_flags(&self) -> (r: IdFlags)
        ensures
            r@ == self@.word & 0xE000_0000u32,
    {
        IdFlags::from_bits_truncate(self.id_word())
    }

    /// Whether the frame uses a 29-bit extended identifier.
    pub fn is_extended(&self) -> (r: bool)
        ensures
            r == word_ext(self@.word),
    {
        is_ext_word(self.id_word())
    }

    /// Whether the frame uses an 11-bit standard identifier.
    pub fn is_standard(&self) -> (r: bool)
        ensures
            r == !word_ext(self@.word),
    {
        !self.is_extended()
    }

    /// Whether this is a remote frame.
    pub fn is_remote_frame(&self) -> (r: bool)
        ensures
            r == (*self is Remote),
    {
        matches!(self, CanFrame::Remote(_))
    }

    /// Whether this is not a remote frame (an error frame counts as one).
    pub fn is_data_frame(&self) -> (r: bool)
        ensures
            r == !(*self is Remote),
    {
        !self.is_remote_frame()
    }

    /// Whether the ID word carries the `ERR` flag.
    pub fn is_error_frame(&self) -> (r: bool)
        ensures
            r == word_err(self@.word),
    {
        self.id_word() & CAN_ERR_FLAG != 0
    }

    /// The raw identifier, without the flags.
    pub fn raw_id(&self) -> (r: u32)
        ensures
            r == word_raw(self@.word),
    {
        raw_of_word(self.id_word())
    }

    /// The identifier of the frame.
    pub fn can_id(&self) -> (r: CanId)
        ensures
            id_raw(r) == word_raw(self@.word),
            (r is Extended) == word_ext(self@.word),
            id_valid(r),
    {
        can_id_of_word(self.id_word())
    }

    /// The identifier of the frame.
    pub fn id(&self) -> (r: CanId)
        ensures
            id_raw(r) == word_raw(self@.word),
            (r is Extended) == word_ext(self@.word),
            id_valid(r),
    {
        self.can_id()
    }

    /// The data length code.
    pub fn dlc(&self) -> (r: usize)
        ensures
            r == self@.dlc,
            r <= 8,
    {
        match self {
            CanFrame::Data(f) => f.dlc(),
            CanFrame::Remote(f) => f.dlc(),
            CanFrame::Error(f) => f.dlc(),
        }
    }

    /// The length, the same as the data length code.
    pub fn len(&self) -> (r: usize)
        ensures
            r == self@.dlc,
    {
        self.dlc()
    }

    /// The payload: empty for a remote frame, all 8 bytes for an error
    /// frame.
    pub fn data(&self) -> (r: &[u8])
        ensures
            *self is Remote ==> r@ == Seq::<u8>::empty(),
            !(*self is Remote) ==> r@ == self@.payload(),
    {
        match self {
            CanFrame::Data(f) => f.data(),
            CanFrame::Remote(f) => f.data(),
            CanFrame::Error(f) => {
                proof {
                    f@.lemma_wf_error();
                }
                f.data()
            },
        }
    }

    /// Sets the identifier, as the frame's own kind does.
    pub fn set_id(&mut self, id: CanId)
        ensures
            *old(self) is Data ==> *final(self) is Data && final(self)@ == (FrameFields {
                word: id_word_of(id) | (old(self)@.word & RTR_ERR_FLAGS),
                ..old(self)@
            }),
            *old(self) is Remote ==> *final(self) is Remote && final(self)@ == (FrameFields {
                word: id_word_of(id) | 0x4000_0000u32,
                ..old(self)@
            }),
            *old(self) is Error ==> *final(self) == *old(self),
    {
        match self {
            CanFrame::Data(f) => f.set_id(id),
            CanFrame::Remote(f) => f.set_id(id),
            CanFrame::Error(f) => f.set_id(id),
        }
    }

    /// Sets the payload, as the frame's own kind does.
    pub fn set_data(&mut self, data: &[u8]) -> (r: Result<(), ConstructionError>)
        ensures
            *old(self) is Data ==> *final(self) is Data && (r is Ok <==> data@.len() <= 8) && (r is Ok
                ==> final(self)@ == data_fields(old(self)@.word, data@)),
            *old(self) is Remote ==> *final(self) is Remote && (r is Ok <==> data@.len() <= 8) && (r is Ok
                ==> final(self)@ == (FrameFields { dlc: data@.len() as u8, ..old(self)@ })),
            *old(self) is Error ==> *final(self) == *old(self) && r == Err::<(), _>(
                ConstructionError::WrongFrameType,
            ),
            r is Err ==> final(self)@ == old(self)@,
            r matches Err(e) ==> (*old(self) is Error <==> e == ConstructionError::WrongFrameType),
    {
        match self {
            CanFrame::Data(f) => f.set_data(data),
            CanFrame::Remote(f) => f.set_data(data),
            CanFrame::Error(f) => f.set_data(data),
        }
    }

    /// Appends the candump rendering of the frame.
    pub fn push_text(&self, out: &mut Vec<char>)
        ensures
            final(out)@ == old(out)@ + can_frame_text(*self),
    {
        match self {
            CanFrame::Data(f) => f.push_text(out),
            CanFrame::Remote(f) => f.push_text(out),
            CanFrame::Error(f) => f.push_text(out),
        }
    }
}

impl Default for CanFrame {
    /// The default frame is a default data frame.
    fn default() -> (r: CanFrame)
        ensures
            r is Data,
            r@ == data_fields(0, Seq::empty()),
    {
        CanFrame::Data(CanDataFrame::default())
    }
}

impl From<CanDataFrame> for CanFrame {
    fn from(frame: CanDataFrame) -> (r: CanFrame) {
        CanFrame::Data(frame)
    }
}

impl vstd::std_specs::convert::FromSpecImpl<CanDataFrame> for CanFrame {
    open spec fn obeys_from_spec() -> bool {
        true
    }

    open spec fn from_spec(v: CanDataFrame) -> CanFrame {
        CanFrame::Data(v)
    }
}


// ===== CanAnyFrame =====

/// A frame of any kind, classic or FD.
#[derive(Clone, Copy, PartialEq, Eq, Debug, Hash)]
pub enum CanAnyFrame {
    /// A classic CAN 2.0 data frame, with up to 8 bytes of data
    Normal(CanDataFrame),
    /// A remote frame
    Remote(CanRemoteFrame),
    /// An error frame
    Error(CanErrorFrame),
    /// A flexible data rate frame, with up to 64 bytes of data
    Fd(CanFdFrame),
}

impl View for CanAnyFrame {
    type V = FrameFields;

    open spec fn view(&self) -> FrameFields {
        match self {
            CanAnyFrame::Normal(f) => f@,
            CanAnyFrame::Remote(f) => f@,
            CanAnyFrame::Error(f) => f@,
            CanAnyFrame::Fd(f) => f@,
        }
    }
}

/// The candump rendering of any frame.
pub open spec fn any_frame_text(f: CanAnyFrame) -> Seq<char> {
    match f {
        CanAnyFrame::Normal(d) => data_text(d@),
        CanAnyFrame::Remote(r) => remote_text(r@),
        CanAnyFrame::Error(e) => error_text(e@),
        CanAnyFrame::Fd(d) => fd_text(d@),
    }
}

impl CanAnyFrame {
    /// Creates a classic data frame if the payload fits in 8 bytes, else an
    /// FD frame; `None` above 64 bytes.
    pub fn new(id: CanId, data: &[u8]) -> (r: Option<CanAnyFrame>)
        ensures
            r is Some <==> data@.len() <= 64,
            data@.len() <= 8 ==> (r matches Some(f) && f is Normal && f@ == data_fields(id_word_of(id), data@)),
            8 < data@.len() <= 64 ==> (r matches Some(f) && f is Fd && f@ == fd_fields(id_word_of(id), data@, 0)),
    {
        if data.len() <= CAN_MAX_DLEN {
            match CanDataFrame::new(id, data) {
                Some(f) => Some(CanAnyFrame::Normal(f)),
                None => None,
            }
        } else {
            match CanFdFrame::new(id, data) {
                Some(f) => Some(CanAnyFrame::Fd(f)),
                None => None,
            }
        }
    }

    /// Creates a remote frame, or `None` if `dlc` is above 8.
    pub fn new_remote(id: CanId, dlc: usize) -> (r: Option<CanAnyFrame>)
        ensures
            r is Some <==> dlc <= 8,
            r matches Some(f) ==> f is Remote && f@ == remote_fields(id_word_of(id), dlc as nat),
    {
        match CanRemoteFrame::new_remote(id, dlc) {
            Some(f) => Some(CanAnyFrame::Remote(f)),
            None => None,
        }
    }

    /// The composite ID word, with the `EFF`/`RTR`/`ERR` flags.
    pub fn id_word(&self) -> (r: u32)
        ensures
            r == self@.word,
    {
        match self {
            CanAnyFrame::Normal(f) => f.id_word(),
            CanAnyFrame::Remote(f) => f.id_word(),
            CanAnyFrame::Error(f) => f.id_word(),
            CanAnyFrame::Fd(f) => f.id_word(),
        }
    }

    /// The flag bits of the ID word.
    pub fn id_flags(&self) -> (r: IdFlags)
        ensures
            r@ == self@.word & 0xE000_0000u32,
    {
        IdFlags::from_bits_truncate(self.id_word())
    }

    /// Whether the frame uses a 29-bit extended identifier.
    pub fn is_extended(&self) -> (r: bool)
        ensures
            r == word_ext(self@.word),
    {
        is_ext_word(self.id_word())
    }

    /// Whether the frame uses an 11-bit standard identifier.
    pub fn is_standard(&self) -> (r: bool)
        ensures
            r == !word_ext(self@.word),
    {
        !self.is_extended()
    }

    /// Whether this is a remote frame.
    pub fn is_remote_frame(&self) -> (r: bool)
        ensures
            r == (*self is Remote),
    {
        matches!(self, CanAnyFrame::Remote(_))
    }

    /// Whether this is not a remote frame (an error frame counts as one).
    pub fn is_data_frame(&self) -> (r: bool)
        ensures
            r == !(*self is Remote),
    {
        !self.is_remote_frame()
    }

    /// Whether the ID word carries the `ERR` flag.
    pub fn is_error_frame(&self) -> (r: bool)
        ensures
            r == word_err(self@.word),
    {
        self.id_word() & CAN_ERR_FLAG != 0
    }

    /// The raw identifier, without the flags.
    pub fn raw_id(&self) -> (r: u32)
        ensures
            r == word_raw(self@.word),
    {
        raw_of_word(self.id_word())
    }

    /// The identifier of the frame.
    pub fn can_id(&self) -> (r: CanId)
        ensures
            id_raw(r) == word_raw(self@.word),
            (r is Extended) == word_ext(self@.word),
            id_valid(r),
    {
        can_id_of_word(self.id_word())
    }

    /// The identifier of the frame.
    pub fn id(&self) -> (r: CanId)
        ensures
            id_raw(r) == word_raw(self@.word),
            (r is Extended) == word_ext(self@.word),
            id_valid(r),
    {
        self.can_id()
    }

    /// The data length code: the length of a classic frame, the DLC code of
    /// an FD frame's length.
    pub fn dlc(&self) -> (r: usize)
        ensures
            *self is Fd ==> r == fd_dlc_code(self@.dlc as nat),
            !(*self is Fd) ==> r == self@.dlc,
    {
        match self {
            CanAnyFrame::Normal(f) => f.dlc(),
            CanAnyFrame::Remote(f) => f.dlc(),
            CanAnyFrame::Error(f) => f.dlc(),
            CanAnyFrame::Fd(f) => f.dlc(),
        }
    }

    /// The same as [`dlc`](Self::dlc), for every kind of frame.
    pub fn len(&self) -> (r: usize)
        ensures
            *self is Fd ==> r == fd_dlc_code(self@.dlc as nat),
            !(*self is Fd) ==> r == self@.dlc,
    {
        self.dlc()
    }

    /// The payload: empty for a remote frame, all 8 bytes for an error
    /// frame.
    pub fn data(&self) -> (r: &[u8])
        ensures
            *self is Remote ==> r@ == Seq::<u8>::empty(),
            !(*self is Remote) ==> r@ == self@.payload(),
    {
        match self {
            CanAnyFrame::Normal(f) => f.data(),
            CanAnyFrame::Remote(f) => f.data(),
            CanAnyFrame::Error(f) => {
                proof {
                    f@.lemma_wf_error();
                }
                f.data()
            },
            CanAnyFrame::Fd(f) => f.data(),
        }
    }

    /// Sets the identifier, as the frame's own kind does.
    pub fn set_id(&mut self, id: CanId)
        ensures
            (*old(self) is Normal || *old(self) is Fd) ==> final(self)@ == (FrameFields {
                word: id_word_of(id) | (old(self)@.word & RTR_ERR_FLAGS),
                ..old(self)@
            }),
            *old(self) is Remote ==> final(self)@ == (FrameFields {
                word: id_word_of(id) | 0x4000_0000u32,
                ..old(self)@
            }),
            *old(self) is Error ==> *final(self) == *old(self),
            *old(self) is Normal <==> *final(self) is Normal,
            *old(self) is Remote <==> *final(self) is Remote,
            *old(self) is Fd <==> *final(self) is Fd,
    {
        match self {
            CanAnyFrame::Normal(f) => f.set_id(id),
            CanAnyFrame::Remote(f) => f.set_id(id),
            CanAnyFrame::Error(f) => f.set_id(id),
            CanAnyFrame::Fd(f) => f.set_id(id),
        }
    }

    /// Sets the payload, as the frame's own kind does.
    pub fn set_data(&mut self, data: &[u8]) -> (r: Result<(), ConstructionError>)
        ensures
            *old(self) is Normal ==> *final(self) is Normal && (r is Ok <==> data@.len() <= 8) && (r is Ok
                ==> final(self)@ == data_fields(old(self)@.word, data@)),
            *old(self) is Remote ==> *final(self) is Remote && (r is Ok <==> data@.len() <= 8) && (r is Ok
                ==> final(self)@ == (FrameFields { dlc: data@.len() as u8, ..old(self)@ })),
            *old(self) is Error ==> *final(self) == *old(self) && r == Err::<(), _>(
                ConstructionError::WrongFrameType,
            ),
            *old(self) is Fd ==> *final(self) is Fd && (r is Ok <==> data@.len() <= 64) && (r is Ok
                ==> final(self)@ == (FrameFields {
                dlc: next_fd_len(data@.len()) as u8,
                bytes: data@ + zeros((64 - data@.len()) as nat),
                ..old(self)@
            })),
            r is Err ==> final(self)@ == old(self)@,
    {
        match self {
            CanAnyFrame::Normal(f) => f.set_data(data),
            CanAnyFrame::Remote(f) => f.set_data(data),
            CanAnyFrame::Error(f) => f.set_data(data),
            CanAnyFrame::Fd(f) => f.set_data(data),
        }
    }

    /// Appends the candump rendering of the frame.
    pub fn push_text(&self, out: &mut Vec<char>)
        ensures
            final(out)@ == old(out)@ + any_frame_text(*self),
    {
        match self {
            CanAnyFrame::Normal(f) => f.push_text(out),
            CanAnyFrame::Remote(f) => f.push_text(out),
            CanAnyFrame::Error(f) => f.push_text(out),
            CanAnyFrame::Fd(f) => f.push_text(out),
        }
    }
}

impl From<CanRemoteFrame> for CanFrame {
    fn from(frame: CanRemoteFrame) -> (r: CanFrame) {
        CanFrame::Remote(frame)
    }
}

impl vstd::std_specs::convert::FromSpecImpl<CanRemoteFrame> for CanFrame {
    open spec fn obeys_from_spec() -> bool {
        true
    }

    open spec fn from_spec(frame: CanRemoteFrame) -> CanFrame {
        CanFrame::Remote(frame)
    }
}

impl From<CanErrorFrame> for CanFrame {
    fn from(frame: CanErrorFrame) -> (r: CanFrame) {
        CanFrame::Error(frame)
    }
}

impl vstd::std_specs::convert::FromSpecImpl<CanErrorFrame> for CanFrame {
    open spec fn obeys_from_spec() -> bool {
        true
    }

    open spec fn from_spec(frame: CanErrorFrame) -> CanFrame {
        CanFrame::Error(frame)
    }
}

impl From<CanDataFrame> for CanAnyFrame {
    fn from(frame: CanDataFrame) -> (r: CanAnyFrame) {
        CanAnyFrame::Normal(frame)
    }
}

impl vstd::std_specs::convert::FromSpecImpl<CanDataFrame> for CanAnyFrame {
    open spec fn obeys_from_spec() -> bool {
        true
    }

    open spec fn from_spec(frame: CanDataFrame) -> CanAnyFrame {
        CanAnyFrame::Normal(frame)
    }
}

impl From<CanRemoteFrame> for CanAnyFrame {
    fn from(frame: CanRemoteFrame) -> (r: CanAnyFrame) {
        CanAnyFrame::Remote(frame)
    }
}

impl vstd::std_specs::convert::FromSpecImpl<CanRemoteFrame> for CanAnyFrame {
    open spec fn obeys_from_spec() -> bool {
        true
    }

    open spec fn from_spec(frame: CanRemoteFrame) -> CanAnyFrame {
        CanAnyFrame::Remote(frame)
    }
}

impl From<CanErrorFrame> for CanAnyFrame {
    fn from(frame: CanErrorFrame) -> (r: CanAnyFrame) {
        CanAnyFrame::Error(frame)
    }
}

impl vstd::std_specs::convert::FromSpecImpl<CanErrorFrame> for CanAnyFrame {
    open spec fn obeys_from_spec() -> bool {
        true
    }

    open spec fn from_spec(frame: CanErrorFrame) -> CanAnyFrame {
        CanAnyFrame::Error(frame)
    }
}

impl From<CanFdFrame> for CanAnyFrame {
    fn from(frame: CanFdFrame) -> (r: CanAnyFrame) {
        CanAnyFrame::Fd(frame)
    }
}

impl vstd::std_specs::convert::FromSpecImpl<CanFdFrame> for CanAnyFrame {
    open spec fn obeys_from_spec() -> bool {
        true
    }

    open spec fn from_spec(frame: CanFdFrame) -> CanAnyFrame {
        CanAnyFrame::Fd(frame)
    }
}

impl From<CanFrame> for CanAnyFrame {
    fn from(frame: CanFrame) -> (r: CanAnyFrame) {
        match frame {
            CanFrame::Data(f) => CanAnyFrame::Normal(f),
            CanFrame::Remote(f) => CanAnyFrame::Remote(f),
            CanFrame::Error(f) => CanAnyFrame::Error(f),
        }
    }
}

impl vstd::std_specs::convert::FromSpecImpl<CanFrame> for CanAnyFrame {
    open spec fn obeys_from_spec() -> bool {
        true
    }

    open spec fn from_spec(frame: CanFrame) -> CanAnyFrame {
        match frame {
            CanFrame::Data(f) => CanAnyFrame::Normal(f),
            CanFrame::Remote(f) => CanAnyFrame::Remote(f),
            CanFrame::Error(f) => CanAnyFrame::Error(f),
        }
    }
}

impl TryFrom<CanFrame> for CanDataFrame {
    type Error = ConstructionError;

    fn try_from(frame: CanFrame) -> (r: Result<CanDataFrame, ConstructionError>) {
        match frame {
            CanFrame::Data(f) => Ok(f),
            _ => Err(ConstructionError::WrongFrameType),
        }
    }
}

impl vstd::std_specs::convert::TryFromSpecImpl<CanFrame> for CanDataFrame {
    open spec fn obeys_try_from_spec() -> bool {
        true
    }

    open spec fn try_from_spec(frame: CanFrame) -> Result<CanDataFrame, ConstructionError> {
        match frame {
            CanFrame::Data(f) => Ok(f),
            _ => Err(ConstructionError::WrongFrameType),
        }
    }
}

impl TryFrom<CanFrame> for CanRemoteFrame {
    type Error = ConstructionError;

    fn try_from(frame: CanFrame) -> (r: Result<CanRemoteFrame, ConstructionError>) {
        match frame {
            CanFrame::Remote(f) => Ok(f),
            _ => Err(ConstructionError::WrongFrameType),
        }
    }
}

impl vstd::std_specs::convert::TryFromSpecImpl<CanFrame> for CanRemoteFrame {
    open spec fn obeys_try_from_spec() -> bool {
        true
    }

    open spec fn try_from_spec(frame: CanFrame) -> Result<CanRemoteFrame, ConstructionError> {
        match frame {
            CanFrame::Remote(f) => Ok(f),
            _ => Err(ConstructionError::WrongFrameType),
        }
    }
}

impl TryFrom<CanFrame> for CanErrorFrame {
    type Error = ConstructionError;

    fn try_from(frame: CanFrame) -> (r: Result<CanErrorFrame, ConstructionError>) {
        match frame {
            CanFrame::Error(f) => Ok(f),
            _ => Err(ConstructionError::WrongFrameType),
        }
    }
}

impl vstd::std_specs::convert::TryFromSpecImpl<CanFrame> for CanErrorFrame {
    open spec fn obeys_try_from_spec() -> bool {
        true
    }

    open spec fn try_from_spec(frame: CanFrame) -> Result<CanErrorFrame, ConstructionError> {
        match frame {
            CanFrame::Error(f) => Ok(f),
            _ => Err(ConstructionError::WrongFrameType),
        }
    }
}

impl TryFrom<CanAnyFrame> for CanDataFrame {
    type Error = ConstructionError;

    fn try_from(frame: CanAnyFrame) -> (r: Result<CanDataFrame, ConstructionError>) {
        match frame {
            CanAnyFrame::Normal(f) => Ok(f),
            _ => Err(ConstructionError::WrongFrameType),
        }
    }
}

impl vstd::std_specs::convert::TryFromSpecImpl<CanAnyFrame> for CanDataFrame {
    open spec fn obeys_try_from_spec() -> bool {
        true
    }

    open spec fn try_from_spec(frame: CanAnyFrame) -> Result<CanDataFrame, ConstructionError> {
        match frame {
            CanAnyFrame::Normal(f) => Ok(f),
            _ => Err(ConstructionError::WrongFrameType),
        }
    }
}

impl TryFrom<CanAnyFrame> for CanRemoteFrame {
    type Error = ConstructionError;

    fn try_from(frame: CanAnyFrame) -> (r: Result<CanRemoteFrame, ConstructionError>) {
        match frame {
            CanAnyFrame::Remote(f) => Ok(f),
            _ => Err(ConstructionError::WrongFrameType),
        }
    }
}

impl vstd::std_specs::convert::TryFromSpecImpl<CanAnyFrame> for CanRemoteFrame {
    open spec fn obeys_try_from_spec() -> bool {
        true
    }

    open spec fn try_from_spec(frame: CanAnyFrame) -> Result<CanRemoteFrame, ConstructionError> {
        match frame {
            CanAnyFrame::Remote(f) => Ok(f),
            _ => Err(ConstructionError::WrongFrameType),
        }
    }
}

impl TryFrom<CanAnyFrame> for CanErrorFrame {
    type Error = ConstructionError;

    fn try_from(frame: CanAnyFrame) -> (r: Result<CanErrorFrame, ConstructionError>) {
        match frame {
            CanAnyFrame::Error(f) => Ok(f),
            _ => Err(ConstructionError::WrongFrameType),
        }
    }
}

impl vstd::std_specs::convert::TryFromSpecImpl<CanAnyFrame> for CanErrorFrame {
    open spec fn obeys_try_from_spec() -> bool {
        true
    }

    open spec fn try_from_spec(frame: CanAnyFrame) -> Result<CanErrorFrame, ConstructionError> {
        match frame {
            CanAnyFrame::Error(f) => Ok(f),
            _ => Err(ConstructionError::WrongFrameType),
        }
    }
}

impl TryFrom<CanAnyFrame> for CanFdFrame {
    type Error = ConstructionError;

    fn try_from(frame: CanAnyFrame) -> (r: Result<CanFdFrame, ConstructionError>) {
        match frame {
            CanAnyFrame::Fd(f) => Ok(f),
            _ => Err(ConstructionError::WrongFrameType),
        }
    }
}

impl vstd::std_specs::convert::TryFromSpecImpl<CanAnyFrame> for CanFdFrame {
    open spec fn obeys_try_from_spec() -> bool {
        true
    }

    open spec fn try_from_spec(frame: CanAnyFrame) -> Result<CanFdFrame, ConstructionError> {
        match frame {
            CanAnyFrame::Fd(f) => Ok(f),
            _ => Err(ConstructionError::WrongFrameType),
        }
    }
}

impl CanDataFrame {
    /// The candump rendering of the frame (its upper-case hex form).
    pub fn to_upper_hex(&self) -> (r: String)
        ensures
            r@ == data_text(self@),
    {
        let mut out: Vec<char> = Vec::new();
        self.push_text(&mut out);
        assert(out@ =~= data_text(self@));
        string_from_chars(out.as_slice())
    }
}

impl CanRemoteFrame {
    /// The candump rendering of the frame (its upper-case hex form).
    pub fn to_upper_hex(&self) -> (r: String)
        ensures
            r@ == remote_text(self@),
    {
        let mut out: Vec<char> = Vec::new();
        self.push_text(&mut out);
        assert(out@ =~= remote_text(self@));
        string_from_chars(out.as_slice())
    }
}

impl CanErrorFrame {
    /// The candump rendering of the frame (its upper-case hex form).
    pub fn to_upper_hex(&self) -> (r: String)
        ensures
            r@ == error_text(self@),
    {
        let mut out: Vec<char> = Vec::new();
        self.push_text(&mut out);
        assert(out@ =~= error_text(self@));
        string_from_chars(out.as_slice())
    }
}

impl CanFdFrame {
    /// The candump rendering of the frame (its upper-case hex form).
    pub fn to_upper_hex(&self) -> (r: String)
        ensures
            r@ == fd_text(self@),
    {
        let mut out: Vec<char> = Vec::new();
        self.push_text(&mut out);
        assert(out@ =~= fd_text(self@));
        string_from_chars(out.as_slice())
    }
}

impl CanFrame {
    /// The candump rendering of the frame (its upper-case hex form).
    pub fn to_upper_hex(&self) -> (r: String)
        ensures
            r@ == can_frame_text(*self),
    {
        let mut out: Vec<char> = Vec::new();
        self.push_text(&mut out);
        assert(out@ =~= can_frame_text(*self));
        string_from_chars(out.as_slice())
    }
}

impl CanAnyFrame {
    /// The candump rendering of the frame (its upper-case hex form).
    pub fn to_upper_hex(&self) -> (r: String)
        ensures
            r@ == any_frame_text(*self),
    {
        let mut out: Vec<char> = Vec::new();
        self.push_text(&mut out);
        assert(out@ =~= any_frame_text(*self));
        string_from_chars(out.as_slice())
    }
}

/// The payload length of a CAN FD DLC code (the kernel's
/// `can_fd_dlc2len`): codes 0 to 8 are lengths, 9 to 15 stand for 12, 16,
/// 20, 24, 32, 48 and 64 bytes.
pub open spec fn fd_len_of_code(c: nat) -> nat {
    if c <= 8 {
        c
    } else if c == 9 {
        12
    } else if c == 10 {
        16
    } else if c == 11 {
        20
    } else if c == 12 {
        24
    } else if c == 13 {
        32
    } else if c == 14 {
        48
    } else {
        64
    }
}

/// The DLC code of every valid CAN FD length is a four-bit code that the
/// length table reads back as that length: the code of a frame is the one
/// the kernel's table gives for its length. So a 64-byte frame has code 15,
/// and only an empty frame has code 0.
pub proof fn lemma_fd_dlc_code_inverts_length_table(len: nat)
    requires
        valid_fd_len(len),
    ensures
        fd_dlc_code(len) <= 15,
        fd_len_of_code(fd_dlc_code(len)) == len,
        fd_dlc_code(len) == 0 <==> len == 0,
{
}

/// A frame read from an FD socket keeps what the kernel delivered: the ID
/// word as it came; every bit of the received flags, with only `CANFD_FDF`
/// added (so bit rate switch and error state are as received); as length
/// the smallest valid FD length that holds the received one (capped at
/// 64); the received bytes up to that, and zeros in the padding.
pub proof fn lemma_fd_read_keeps_what_was_received(can_id: u32, len: u8, flags: u8, data: Seq<u8>)
    requires
        data.len() == 64,
    ensures
        ({
            let f = fd_raw_fields(can_id, len, flags, data);
            let actual: nat = if len <= 64 { len as nat } else { 64 };
            &&& f.word == can_id
            &&& f.flags & flags == flags
            &&& f.flags & CANFD_FDF != 0
            &&& f.flags & !CANFD_FDF == flags & !CANFD_FDF
            &&& (f.flags & CANFD_BRS != 0 <==> flags & CANFD_BRS != 0)
            &&& (f.flags & CANFD_ESI != 0 <==> flags & CANFD_ESI != 0)
            &&& valid_fd_len(f.dlc as nat) && actual <= f.dlc
            &&& forall|l: nat| valid_fd_len(l) && actual <= l ==> f.dlc <= l
            &&& f.bytes.len() == 64
            &&& forall|i: int| 0 <= i < actual ==> f.bytes[i] == data[i]
            &&& forall|i: int| actual <= i < f.dlc ==> f.bytes[i] == 0
        }),
{
    let f = fd_raw_fields(can_id, len, flags, data);
    let g = f.flags;
    assert(g == flags | 0x04u8);
    assert(g & flags == flags && g & 0x04u8 != 0 && g & !0x04u8 == flags & !0x04u8 && (g & 0x01u8 != 0 <==> flags
        & 0x01u8 != 0) && (g & 0x02u8 != 0 <==> flags & 0x02u8 != 0)) by (bit_vector)
        requires
            g == flags | 0x04u8,
    ;
    let actual: nat = if len <= 64 { len as nat } else { 64 };
    let n = next_fd_len(actual);
    assert forall|i: int| actual <= i < f.dlc implies f.bytes[i] == 0 by {
        assert(f.bytes[i] == zeros((n - actual) as nat)[i - actual]);
    }
}

} // verus!
