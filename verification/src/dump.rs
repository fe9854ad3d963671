//! The candump log format.
//!
//! A line of the log that `candump -L` writes holds a timestamp, an
//! interface name and a frame:
//!
//! ```text
//! record    = "(" sec "." usec ")" SP iface SP frame
//! usec      = 6DIGIT           ; exactly six digits
//! frame     = can_id ( classical / canfd )
//! can_id    = 3HEXDIG          ; standard 11-bit identifier
//!           | 8HEXDIG          ; extended 29-bit identifier, or an error frame
//! classical = "#" ( rtr / data )
//! canfd     = "##" flags data
//! rtr       = "R" [ HEXDIG ]   ; remote frame; length 0..8
//! data      = *(2HEXDIG)       ; 0..8 bytes classical, 0..64 bytes FD
//! flags     = HEXDIG           ; the FD flags nibble: BRS=0x1 ESI=0x2 FDF=0x4
//! ```
//!
//! The width of the identifier picks the format: three digits for a
//! standard identifier, eight for an extended one. An eight-digit field with
//! the `ERR` flag (`0x2000_0000`) is an error frame, whose data are the eight
//! detail bytes. The `_dlc` suffix of classical frames is not supported.
//!
//! [`CanDumpRecord::to_string`] writes the same format, so a record read
//! from a log is written back as the same text.
use vstd::prelude::*;
use crate::errors::ConstructionError;
use crate::frame::{
    CanAnyFrame, CanDataFrame, CanErrorFrame, CanFdFrame, CanRemoteFrame, FrameFields, any_frame_text,
    data_fields, error_fields, fd_fields, remote_fields, data_text, remote_text, error_text, fd_text,
    id_text, word_ext, word_raw, zeros, valid_fd_len, next_fd_len,
};
use crate::id::{CanId, FdFlags, CAN_ERR_FLAG, CAN_ERR_MASK};
use crate::text::{
    all_digits, digit_value, parse_unsigned, parse_unsigned_exec, digit_of, dec, dec_fixed, push_dec,
    push_dec_fixed, chars_of, string_from_chars, push_str, hex_char, hex_fixed, hex_min, hex_bytes,
    pow16, pow10, digits_value, lemma_hex_char, lemma_hex_fixed_value, lemma_dec_value,
    lemma_dec_fixed_value, lemma_parse_digits, lemma_hex_bytes, lemma_digits_value_push,
};

verus! {

/// The I/O error type of the standard library.
#[verifier::external_type_specification]
#[verifier::external_body]
pub struct ExIoError(std::io::Error);

/// A candump line could not be read or parsed.
#[derive(Debug)]
pub enum ParseError {
    /// I/O Error
    Io(std::io::Error),
    /// Unexpected end of line
    UnexpectedEndOfLine,
    /// Invalid time stamp
    InvalidTimestamp,
    /// Invalid device name
    InvalidDeviceName,
    /// Invalid CAN frame
    InvalidCanFrame,
    /// Error creating the frame
    ConstructionError(ConstructionError),
}

/// The rendering of a parse error that is not an I/O error.
pub open spec fn parse_error_text(e: ParseError) -> Seq<char> {
    match e {
        ParseError::Io(_) => Seq::empty(),
        ParseError::UnexpectedEndOfLine => "Unexpected end of line"@,
        ParseError::InvalidTimestamp => "Invalid timestamp"@,
        ParseError::InvalidDeviceName => "Invalid device name"@,
        ParseError::InvalidCanFrame => "Invalid CAN frame"@,
        ParseError::ConstructionError(c) => crate::errors::construction_error_text(c),
    }
}

impl ParseError {
    /// The rendering of the error. An I/O error renders as the I/O error
    /// itself does, which is not made here.
    pub fn to_str(&self) -> (r: &'static str)
        requires
            !(self is Io),
        ensures
            r@ == parse_error_text(*self),
    {
        match self {
            ParseError::Io(_) => "",
            ParseError::UnexpectedEndOfLine => "Unexpected end of line",
            ParseError::InvalidTimestamp => "Invalid timestamp",
            ParseError::InvalidDeviceName => "Invalid device name",
            ParseError::InvalidCanFrame => "Invalid CAN frame",
            ParseError::ConstructionError(c) => c.to_str(),
        }
    }
}

/// The text of an I/O error (its `Display`). It comes from the operating
/// system's message for an OS error, so nothing is stated of it.
#[verifier::external_body]
fn io_error_text(e: &std::io::Error) -> String {
    e.to_string()
}

impl ParseError {
    /// The rendering of the error, an I/O error included: that renders as
    /// the I/O error itself does.
    pub fn to_string(&self) -> (r: String)
        ensures
            !(self is Io) ==> r@ == parse_error_text(*self),
    {
        match self {
            ParseError::Io(e) => io_error_text(e),
            _ => self.to_str().to_string(),
        }
    }
}

impl From<std::io::Error> for ParseError {
    /// Wraps an I/O error.
    fn from(err: std::io::Error) -> (r: ParseError) {
        ParseError::Io(err)
    }
}

impl vstd::std_specs::convert::FromSpecImpl<std::io::Error> for ParseError {
    open spec fn obeys_from_spec() -> bool {
        true
    }

    open spec fn from_spec(err: std::io::Error) -> ParseError {
        ParseError::Io(err)
    }
}

impl From<ConstructionError> for ParseError {
    /// Wraps an error of building a frame.
    fn from(err: ConstructionError) -> (r: ParseError) {
        ParseError::ConstructionError(err)
    }
}

impl vstd::std_specs::convert::FromSpecImpl<ConstructionError> for ParseError {
    open spec fn obeys_from_spec() -> bool {
        true
    }

    open spec fn from_spec(err: ConstructionError) -> ParseError {
        ParseError::ConstructionError(err)
    }
}

/// The longest line a log may hold, in bytes.
pub const MAX_LINE: u64 = 65536;

/// The kind of a frame.
#[derive(Debug, Copy, Clone, PartialEq, Eq, Hash, Structural)]
pub enum FrameKind {
    /// A classic data frame
    Normal,
    /// A remote frame
    Remote,
    /// An error frame
    Error,
    /// An FD frame
    Fd,
}

/// The kind of any frame.
pub open spec fn frame_kind(f: CanAnyFrame) -> FrameKind {
    match f {
        CanAnyFrame::Normal(_) => FrameKind::Normal,
        CanAnyFrame::Remote(_) => FrameKind::Remote,
        CanAnyFrame::Error(_) => FrameKind::Error,
        CanAnyFrame::Fd(_) => FrameKind::Fd,
    }
}

/// A recorded CAN frame: the information in a line of a candump log.
#[derive(Debug)]
pub struct CanDumpRecord {
    /// The timestamp, in microseconds
    pub t_us: u64,
    /// The name of the device
    pub device: String,
    /// The parsed frame
    pub frame: CanAnyFrame,
}

/// What a record holds: the timestamp, the device name, and the kind and
/// fields of the frame.
pub struct RecordView {
    pub t_us: u64,
    pub device: Seq<char>,
    pub kind: FrameKind,
    pub frame: FrameFields,
}

impl View for CanDumpRecord {
    type V = RecordView;

    open spec fn view(&self) -> RecordView {
        RecordView { t_us: self.t_us, device: self.device@, kind: frame_kind(self.frame), frame: self.frame@ }
    }
}

// ===== Splitting =====

/// The position of the first `c` in `s`, if there is one.
pub open spec fn first_index(s: Seq<char>, c: char) -> Option<int> {
    if exists|i: int| 0 <= i < s.len() && s[i] == c {
        Some(choose|i: int| is_first_index(s, c, i))
    } else {
        None
    }
}

/// Whether `i` is the position of the first `c` in `s`.
pub open spec fn is_first_index(s: Seq<char>, c: char, i: int) -> bool {
    0 <= i < s.len() && s[i] == c && forall|j: int| 0 <= j < i ==> s[j] != c
}

/// `s` split at its first `c`, if it holds one (`str::split_once`).
pub open spec fn split_once(s: Seq<char>, c: char) -> Option<(Seq<char>, Seq<char>)> {
    match first_index(s, c) {
        Some(i) => Some((s.take(i), s.skip(i + 1))),
        None => None,
    }
}

/// The next piece of a split on single spaces (`str::split(' ')`) and what
/// is left after it; `None` once the split is done.
pub open spec fn next_field(rest: Option<Seq<char>>) -> (Option<Seq<char>>, Option<Seq<char>>) {
    match rest {
        None => (None, None),
        Some(r) => match first_index(r, ' ') {
            Some(i) => (Some(r.take(i)), Some(r.skip(i + 1))),
            None => (Some(r), None),
        },
    }
}

/// Whether `c` is white space (Unicode `White_Space`, as `char::is_whitespace`).
pub open spec fn is_space(c: char) -> bool {
    let v = c as u32;
    (0x09 <= v && v <= 0x0D) || v == 0x20 || v == 0x85 || v == 0xA0 || v == 0x1680 || (0x2000 <= v && v
        <= 0x200A) || v == 0x2028 || v == 0x2029 || v == 0x202F || v == 0x205F || v == 0x3000
}

/// `s` without its leading and trailing white space (`str::trim`).
#[verifier::opaque]
pub open spec fn trim(s: Seq<char>) -> Seq<char> {
    if exists|i: int| 0 <= i < s.len() && !is_space(s[i]) {
        let a = choose|i: int| 0 <= i < s.len() && !is_space(s[i]) && forall|j: int| 0 <= j < i ==> is_space(s[j]);
        let b = choose|i: int| 0 <= i < s.len() && !is_space(s[i]) && forall|j: int| i < j < s.len() ==> is_space(s[j]);
        s.subrange(a, b + 1)
    } else {
        Seq::empty()
    }
}

// ===== Parsing =====

/// The bytes of a string of hex digit pairs.
pub open spec fn hex_pairs(s: Seq<char>) -> Seq<u8> {
    Seq::new(
        s.len() / 2,
        |i: int| (digit_value(s[2 * i], 16)->0 * 16 + digit_value(s[2 * i + 1], 16)->0) as u8,
    )
}

/// What `hex` decodes a string to: its digit pairs as bytes, if it has an
/// even length and only hex digits.
pub open spec fn hex_decode(s: Seq<char>) -> Option<Seq<u8>> {
    if s.len() % 2 == 0 && all_digits(s, 16) {
        Some(hex_pairs(s))
    } else {
        None
    }
}

/// Decodes hex digit pairs into bytes (`hex::FromHex` for `Vec<u8>`): `None`
/// for an odd length or a character that is not a hex digit (`0-9`, `a-f`,
/// `A-F`), else each pair of digits as one byte, high nibble first.
#[verifier::external_body]
fn hex_decode_exec(s: &[char]) -> (r: Option<Vec<u8>>)
    ensures
        r is Some <==> hex_decode(s@) is Some,
        r matches Some(v) ==> v@ == hex_decode(s@)->0,
{
    let text: String = s.iter().collect();
    match <Vec<u8> as hex::FromHex>::from_hex(text) {
        Ok(v) => Some(v),
        Err(_) => None,
    }
}

/// The timestamp of a `(sec.usec)` field, in microseconds: exactly six
/// digits after the point, and a value that fits in 64 bits.
#[verifier::opaque]
pub open spec fn parse_timestamp(ts: Seq<char>) -> Option<u64> {
    if ts.len() < 3 || ts[0] != '(' || ts[ts.len() - 1] != ')' {
        None
    } else {
        match split_once(ts.subrange(1, ts.len() - 1), '.') {
            None => None,
            Some((num, mant)) => if mant.len() != 6 {
                None
            } else {
                match (parse_unsigned(num, 10, 0xFFFF_FFFF_FFFF_FFFF), parse_unsigned(mant, 10, 0xFFFF_FFFF_FFFF_FFFF)) {
                    (Some(n), Some(m)) => if n * 1_000_000 + m <= 0xFFFF_FFFF_FFFF_FFFF {
                        Some((n * 1_000_000 + m) as u64)
                    } else {
                        None
                    },
                    _ => None,
                }
            },
        }
    }
}

/// The kind and fields of the frame a frame field describes, if it is
/// valid.
#[verifier::opaque]
pub open spec fn parse_frame(raw: Seq<char>) -> Option<(FrameKind, FrameFields)> {
    match split_once(raw, '#') {
        None => None,
        Some((id_s, data_s)) => if id_s.len() != 3 && id_s.len() != 8 {
            None
        } else {
            match parse_unsigned(id_s, 16, 0xFFFF_FFFF) {
                None => None,
                Some(v) => {
                    let id = v as u32;
                    if id & 0x2000_0000u32 != 0 {
                        match hex_decode(data_s) {
                            Some(d) => if d.len() <= 8 {
                                Some((FrameKind::Error, error_fields(id & 0x1FFF_FFFFu32, d)))
                            } else {
                                None
                            },
                            None => None,
                        }
                    } else if (id_s.len() == 8 && id > 0x1FFF_FFFF) || (id_s.len() == 3 && id > 0x7FF) {
                        None
                    } else {
                        let word: u32 = if id_s.len() == 8 {
                            (id + 0x8000_0000u32) as u32
                        } else {
                            id
                        };
                        if data_s.len() > 0 && data_s[0] == '#' {
                            if data_s.len() < 2 || digit_value(data_s[1], 16) is None {
                                None
                            } else {
                                match hex_decode(data_s.skip(2)) {
                                    Some(d) => if d.len() <= 64 {
                                        Some(
                                            (
                                                FrameKind::Fd,
                                                fd_fields(word, d, digit_value(data_s[1], 16)->0 as u8),
                                            ),
                                        )
                                    } else {
                                        None
                                    },
                                    None => None,
                                }
                            }
                        } else if data_s.len() > 0 && data_s[0] == 'R' {
                            let rest = data_s.skip(1);
                            let n: Option<nat> = if rest.len() == 0 {
                                Some(0)
                            } else if rest.len() == 1 {
                                parse_unsigned(rest, 16, 8)
                            } else {
                                None
                            };
                            match n {
                                Some(n) => Some((FrameKind::Remote, remote_fields(word, n))),
                                None => None,
                            }
                        } else {
                            match hex_decode(data_s) {
                                Some(d) => if d.len() <= 8 {
                                    Some((FrameKind::Normal, data_fields(word, d)))
                                } else {
                                    None
                                },
                                None => None,
                            }
                        }
                    }
                },
            }
        },
    }
}

/// Whether a device name is valid: one or more visible ASCII characters
/// (`!` to `~`), as the log format's grammar has it.
pub open spec fn device_name_valid(dev: Seq<char>) -> bool {
    dev.len() > 0 && forall|i: int| 0 <= i < dev.len() ==> 0x21 <= (#[trigger] dev[i]) as u32 <= 0x7E
}

/// How a candump line parses: the trimmed line split on single spaces into
/// exactly three fields, a timestamp, a device name of visible ASCII
/// characters and a frame.
/// A further field after the frame makes the frame field invalid.
pub open spec fn parse_line(line: Seq<char>) -> Result<RecordView, ParseError> {
    let (f0, r0) = next_field(Some(trim(line)));
    match f0 {
        None => Err(ParseError::UnexpectedEndOfLine),
        Some(ts) => match parse_timestamp(ts) {
            None => Err(ParseError::InvalidTimestamp),
            Some(t) => {
                let (f1, r1) = next_field(r0);
                match f1 {
                    None => Err(ParseError::UnexpectedEndOfLine),
                    Some(dev) => if !device_name_valid(dev) {
                        Err(ParseError::InvalidDeviceName)
                    } else {
                        let (f2, r2) = next_field(r1);
                        match f2 {
                            None => Err(ParseError::UnexpectedEndOfLine),
                            Some(raw) => if r2 is Some {
                                Err(ParseError::InvalidCanFrame)
                            } else {
                                match parse_frame(raw) {
                                    None => Err(ParseError::InvalidCanFrame),
                                    Some((k, f)) => Ok(RecordView { t_us: t, device: dev, kind: k, frame: f }),
                                }
                            },
                        }
                    },
                }
            },
        },
    }
}

// ===== Parsing, executable =====

/// The first `c` is the first `c`.
proof fn lemma_first_index_is(s: Seq<char>, c: char, i: int)
    requires
        is_first_index(s, c, i),
    ensures
        first_index(s, c) == Some(i),
{
    let k = choose|k: int| is_first_index(s, c, k);
    assert(is_first_index(s, c, k));
    if k < i {
        assert(s[k] != c);
    } else if k > i {
        assert(s[i] != c);
    }
}

/// The position of the first `c` in `s[from..to]`, counted from the start
/// of `s`.
fn find_char(s: &[char], from: usize, to: usize, c: char) -> (r: Option<usize>)
    requires
        from <= to <= s@.len(),
    ensures
        r matches Some(i) ==> from <= i < to && first_index(s@.subrange(from as int, to as int), c) == Some(
            i - from,
        ),
        r is None ==> first_index(s@.subrange(from as int, to as int), c) is None,
{
    let ghost sub = s@.subrange(from as int, to as int);
    let mut i: usize = from;
    while i < to
        invariant
            from <= i <= to <= s@.len(),
            sub == s@.subrange(from as int, to as int),
            forall|j: int| 0 <= j < i - from ==> sub[j] != c,
        decreases to - i,
    {
        if s[i] == c {
            proof {
                lemma_first_index_is(sub, c, i - from);
            }
            return Some(i);
        }
        i = i + 1;
    }
    None
}

/// Whether `c` is white space.
fn is_space_exec(c: char) -> (r: bool)
    ensures
        r == is_space(c),
{
    let v = c as u32;
    (0x09 <= v && v <= 0x0D) || v == 0x20 || v == 0x85 || v == 0xA0 || v == 0x1680 || (0x2000 <= v && v
        <= 0x200A) || v == 0x2028 || v == 0x2029 || v == 0x202F || v == 0x205F || v == 0x3000
}

/// The bounds of `s` without its leading and trailing white space.
fn trim_bounds(s: &[char]) -> (r: (usize, usize))
    ensures
        r.0 <= r.1 <= s@.len(),
        s@.subrange(r.0 as int, r.1 as int) == trim(s@),
{
    let mut a: usize = 0;
    while a < s.len() && is_space_exec(s[a])
        invariant
            a <= s@.len(),
            forall|j: int| 0 <= j < a ==> is_space(s@[j]),
        decreases s@.len() - a,
    {
        a = a + 1;
    }
    if a == s.len() {
        reveal(trim);
        assert(s@.subrange(a as int, a as int) =~= Seq::<char>::empty());
        return (a, a);
    }
    let mut b: usize = s.len();
    while b > a + 1 && is_space_exec(s[b - 1])
        invariant
            a < b <= s@.len(),
            !is_space(s@[a as int]),
            forall|j: int| b <= j < s@.len() ==> is_space(s@[j]),
        decreases b,
    {
        b = b - 1;
    }
    proof {
        reveal(trim);
        let x = choose|i: int| 0 <= i < s@.len() && !is_space(s@[i]) && forall|j: int| 0 <= j < i ==> is_space(s@[j]);
        assert(0 <= a < s@.len() && !is_space(s@[a as int]) && forall|j: int| 0 <= j < a ==> is_space(s@[j]));
        if x < a {
            assert(is_space(s@[x]));
        } else if x > a {
            assert(is_space(s@[a as int]));
        }
        let y = choose|i: int| 0 <= i < s@.len() && !is_space(s@[i]) && forall|j: int| i < j < s@.len() ==> is_space(s@[j]);
        assert(!is_space(s@[b - 1]));
        assert(0 <= b - 1 < s@.len() && !is_space(s@[b - 1]) && forall|j: int| b - 1 < j < s@.len() ==> is_space(s@[j]));
        if y < b - 1 {
            assert(is_space(s@[b - 1]));
        } else if y > b - 1 {
            assert(is_space(s@[y]));
        }
    }
    (a, b)
}

/// Parses the timestamp field `s[from..to]`.
fn parse_timestamp_exec(s: &[char], from: usize, to: usize) -> (r: Option<u64>)
    requires
        from <= to <= s@.len(),
    ensures
        r == parse_timestamp(s@.subrange(from as int, to as int)),
{
    reveal(parse_timestamp);
    let ghost ts = s@.subrange(from as int, to as int);
    if to - from < 3 || s[from] != '(' || s[to - 1] != ')' {
        return None;
    }
    let ghost inner = ts.subrange(1, ts.len() - 1);
    assert(inner =~= s@.subrange(from + 1, to - 1));
    let dot = match find_char(s, from + 1, to - 1, '.') {
        Some(d) => d,
        None => {
            return None;
        },
    };
    assert(inner.take(dot - (from + 1)) =~= s@.subrange(from + 1, dot as int));
    assert(inner.skip(dot - (from + 1) + 1) =~= s@.subrange(dot + 1, to - 1));
    if to - 1 - (dot + 1) != 6 {
        return None;
    }
    let num = match parse_unsigned_exec(s, from + 1, dot, 10, 0xFFFF_FFFF_FFFF_FFFF) {
        Some(n) => n,
        None => {
            return None;
        },
    };
    let mant = match parse_unsigned_exec(s, dot + 1, to - 1, 10, 0xFFFF_FFFF_FFFF_FFFF) {
        Some(m) => m,
        None => {
            return None;
        },
    };
    match num.checked_mul(1_000_000) {
        Some(v) => v.checked_add(mant),
        None => None,
    }
}

/// The frame a frame field `s[from..to]` describes, if it is valid.
fn parse_frame_exec(s: &[char], from: usize, to: usize) -> (r: Option<CanAnyFrame>)
    requires
        from <= to <= s@.len(),
    ensures
        r is Some <==> parse_frame(s@.subrange(from as int, to as int)) is Some,
        r matches Some(f) ==> parse_frame(s@.subrange(from as int, to as int)) == Some(
            (frame_kind(f), f@),
        ),
{
    reveal(parse_frame);
    let ghost raw = s@.subrange(from as int, to as int);
    let hash = match find_char(s, from, to, '#') {
        Some(h) => h,
        None => {
            return None;
        },
    };
    let ghost id_s = raw.take(hash - from);
    let ghost data_s = raw.skip(hash - from + 1);
    assert(id_s =~= s@.subrange(from as int, hash as int));
    assert(data_s =~= s@.subrange(hash + 1, to as int));
    let width = hash - from;
    if width != 3 && width != 8 {
        return None;
    }
    let v = match parse_unsigned_exec(s, from, hash, 16, 0xFFFF_FFFF) {
        Some(v) => v,
        None => {
            return None;
        },
    };
    let id = v as u32;
    let d_from = hash + 1;
    if id & CAN_ERR_FLAG != 0 {
        return match hex_decode_exec(&s[d_from..to]) {
            Some(d) => match CanErrorFrame::new_error(id & CAN_ERR_MASK, d.as_slice()) {
                Ok(f) => Some(CanAnyFrame::Error(f)),
                Err(_) => None,
            },
            None => None,
        };
    }
    let can_id = if width == 8 {
        CanId::extended(id)
    } else {
        if id > 0x7FF {
            return None;
        }
        CanId::standard(id as u16)
    };
    let can_id = match can_id {
        Some(c) => c,
        None => {
            return None;
        },
    };
    if d_from < to && s[d_from] == '#' {
        if to - d_from < 2 {
            return None;
        }
        let nibble = match digit_of(s[d_from + 1], 16) {
            Some(n) => n,
            None => {
                return None;
            },
        };
        assert(data_s.skip(2) =~= s@.subrange(d_from + 2, to as int));
        match hex_decode_exec(&s[d_from + 2..to]) {
            Some(d) => match CanFdFrame::with_flags(can_id, d.as_slice(), FdFlags::from_bits_retain(nibble as u8)) {
                Some(f) => Some(CanAnyFrame::Fd(f)),
                None => None,
            },
            None => None,
        }
    } else if d_from < to && s[d_from] == 'R' {
        assert(data_s.skip(1) =~= s@.subrange(d_from + 1, to as int));
        let n: usize = if d_from + 1 == to {
            0
        } else if d_from + 2 != to {
            return None;
        } else {
            match parse_unsigned_exec(s, d_from + 1, to, 16, 8) {
                Some(n) => n as usize,
                None => {
                    return None;
                },
            }
        };
        match CanRemoteFrame::new_remote(can_id, n) {
            Some(f) => Some(CanAnyFrame::Remote(f)),
            None => None,
        }
    } else {
        match hex_decode_exec(&s[d_from..to]) {
            Some(d) => match CanDataFrame::new(can_id, d.as_slice()) {
                Some(f) => Some(CanAnyFrame::Normal(f)),
                None => None,
            },
            None => None,
        }
    }
}

/// The next piece of a split on single spaces of `s[from..to]`: its end,
/// and where the rest starts, if any.
fn next_field_exec(s: &[char], from: usize, to: usize) -> (r: (usize, Option<usize>))
    requires
        from <= to <= s@.len(),
    ensures
        from <= r.0 <= to,
        next_field(Some(s@.subrange(from as int, to as int))) == (
            Some(s@.subrange(from as int, r.0 as int)),
            match r.1 {
                Some(n) => Some(s@.subrange(n as int, to as int)),
                None => None::<Seq<char>>,
            },
        ),
        r.1 matches Some(n) ==> n == r.0 + 1 && n <= to,
{
    let ghost rest = s@.subrange(from as int, to as int);
    match find_char(s, from, to, ' ') {
        Some(i) => {
            assert(rest.take(i - from) =~= s@.subrange(from as int, i as int));
            assert(rest.skip(i - from + 1) =~= s@.subrange(i + 1, to as int));
            (i, Some(i + 1))
        },
        None => (to, None),
    }
}

/// Whether `s[from..to]` is a valid device name.
fn device_name_valid_exec(s: &[char], from: usize, to: usize) -> (r: bool)
    requires
        from <= to <= s@.len(),
    ensures
        r == device_name_valid(s@.subrange(from as int, to as int)),
{
    let ghost dev = s@.subrange(from as int, to as int);
    if from == to {
        return false;
    }
    let mut i: usize = from;
    while i < to
        invariant
            from <= i <= to <= s@.len(),
            dev == s@.subrange(from as int, to as int),
            forall|j: int| 0 <= j < i - from ==> 0x21 <= (#[trigger] dev[j]) as u32 <= 0x7E,
        decreases to - i,
    {
        let v = s[i] as u32;
        if v < 0x21 || v > 0x7E {
            assert(dev[i - from] == s@[i as int]);
            return false;
        }
        assert(dev[i - from] == s@[i as int]);
        i = i + 1;
    }
    true
}

impl CanDumpRecord {
    /// Parses a line of a candump log.
    pub fn parse(line: &str) -> (r: Result<CanDumpRecord, ParseError>)
        ensures
            r is Ok <==> parse_line(line@) is Ok,
            r matches Ok(rec) ==> parse_line(line@) == Ok::<RecordView, ParseError>(rec@),
            r matches Err(e) ==> parse_line(line@) == Err::<RecordView, ParseError>(e),
    {
        let cs = chars_of(line);
        let s = cs.as_slice();
        let (a, b) = trim_bounds(s);
        let ghost t = trim(line@);
        assert(t == s@.subrange(a as int, b as int));
        let (e0, r0) = next_field_exec(s, a, b);
        let t_us = match parse_timestamp_exec(s, a, e0) {
            Some(t) => t,
            None => {
                return Err(ParseError::InvalidTimestamp);
            },
        };
        let d_from = match r0 {
            Some(n) => n,
            None => {
                return Err(ParseError::UnexpectedEndOfLine);
            },
        };
        let (e1, r1) = next_field_exec(s, d_from, b);
        if !device_name_valid_exec(s, d_from, e1) {
            return Err(ParseError::InvalidDeviceName);
        }
        let f_from = match r1 {
            Some(n) => n,
            None => {
                return Err(ParseError::UnexpectedEndOfLine);
            },
        };
        let (e2, r2) = next_field_exec(s, f_from, b);
        if r2.is_some() {
            return Err(ParseError::InvalidCanFrame);
        }
        let frame = match parse_frame_exec(s, f_from, e2) {
            Some(f) => f,
            None => {
                return Err(ParseError::InvalidCanFrame);
            },
        };
        let device = string_from_chars(&s[d_from..e1]);
        assert(device@ =~= s@.subrange(d_from as int, e1 as int));
        Ok(CanDumpRecord { t_us, device, frame })
    }

    /// What reading a line of a log gives: no record at the end of the
    /// input (nothing read), an error for a line that filled the whole
    /// [`MAX_LINE`] bytes without ending, and else the parsed record.
    pub fn from_read_line(line: &str, nread: u64) -> (r: Result<Option<CanDumpRecord>, ParseError>)
        ensures
            nread == 0 ==> r matches Ok(None),
            nread != 0 && nread == MAX_LINE && !(line@.len() > 0 && line@.last() == '\n') ==> r matches Err(
                ParseError::InvalidCanFrame,
            ),
            nread != 0 && !(nread == MAX_LINE && !(line@.len() > 0 && line@.last() == '\n')) ==> (match r {
                Ok(Some(rec)) => parse_line(line@) == Ok::<RecordView, ParseError>(rec@),
                Ok(None) => false,
                Err(e) => parse_line(line@) == Err::<RecordView, ParseError>(e),
            }),
    {
        if nread == 0 {
            return Ok(None);
        }
        if nread == MAX_LINE && !ends_with_newline(line) {
            return Err(ParseError::InvalidCanFrame);
        }
        match Self::parse(line) {
            Ok(rec) => Ok(Some(rec)),
            Err(e) => Err(e),
        }
    }
}

/// Whether `s` ends with a line feed.
fn ends_with_newline(s: &str) -> (r: bool)
    ensures
        r == (s@.len() > 0 && s@.last() == '\n'),
{
    let cs = chars_of(s);
    cs.len() > 0 && cs[cs.len() - 1] == '\n'
}

// ===== Writing =====

/// The text of a record: `(sec.usec) device frame`, with exactly six
/// digits of microseconds and the frame in its candump rendering.
pub open spec fn record_text(t_us: u64, device: Seq<char>, frame: CanAnyFrame) -> Seq<char> {
    seq!['('] + dec((t_us / 1_000_000) as nat) + seq!['.'] + dec_fixed((t_us % 1_000_000) as nat, 6)
        + seq![')', ' '] + device + seq![' '] + any_frame_text(frame)
}

impl CanDumpRecord {
    /// Appends the text of the record.
    pub fn push_text(&self, out: &mut Vec<char>)
        ensures
            final(out)@ == old(out)@ + record_text(self.t_us, self.device@, self.frame),
    {
        out.push('(');
        push_dec(out, self.t_us / 1_000_000);
        out.push('.');
        push_dec_fixed(out, self.t_us % 1_000_000, 6);
        out.push(')');
        out.push(' ');
        push_str(out, self.device.as_str());
        out.push(' ');
        self.frame.push_text(out);
        assert(out@ =~= old(out)@ + record_text(self.t_us, self.device@, self.frame));
    }

    /// The text of the record, as a line of a candump log (without the line
    /// feed).
    pub fn to_string(&self) -> (r: String)
        ensures
            r@ == record_text(self.t_us, self.device@, self.frame),
    {
        let mut out: Vec<char> = Vec::new();
        self.push_text(&mut out);
        assert(out@ =~= record_text(self.t_us, self.device@, self.frame));
        string_from_chars(out.as_slice())
    }
}

// ===== Writing then reading =====

/// Whether `s` holds no `c`.
pub open spec fn no_char(s: Seq<char>, c: char) -> bool {
    forall|i: int| 0 <= i < s.len() ==> s[i] != c
}

/// The first `c` of `a + [c] + b` is the one between them, when `a` holds
/// none.
proof fn lemma_split_at(a: Seq<char>, c: char, b: Seq<char>)
    requires
        no_char(a, c),
    ensures
        first_index(a + seq![c] + b, c) == Some(a.len() as int),
        (a + seq![c] + b).take(a.len() as int) == a,
        (a + seq![c] + b).skip(a.len() as int + 1) == b,
{
    let s = a + seq![c] + b;
    assert forall|j: int| 0 <= j < a.len() implies s[j] != c by {
        assert(s[j] == a[j]);
    }
    lemma_first_index_is(s, c, a.len() as int);
    assert(s.take(a.len() as int) =~= a);
    assert(s.skip(a.len() as int + 1) =~= b);
}

/// A string with no `c` has no first `c`.
proof fn lemma_no_index(a: Seq<char>, c: char)
    requires
        no_char(a, c),
    ensures
        first_index(a, c) is None,
{
}

/// A string of hex digits holds none of the separators.
proof fn lemma_digits_no_sep(s: Seq<char>)
    requires
        all_digits(s, 16),
    ensures
        no_char(s, ' '),
        no_char(s, '#'),
        no_char(s, '.'),
        forall|i: int| 0 <= i < s.len() ==> !is_space(#[trigger] s[i]) && s[i] != 'R',
{
    assert forall|i: int| 0 <= i < s.len() implies s[i] != ' ' && s[i] != '#' && s[i] != '.' && s[i] != 'R'
        && !is_space(s[i]) by {
        assert(digit_value(s[i], 16) is Some);
    }
}

/// The digits of a byte string are hex digits, and read back as it.
proof fn lemma_hex_bytes_decode(d: Seq<u8>)
    ensures
        all_digits(hex_bytes(d), 16),
        hex_decode(hex_bytes(d)) == Some(d),
{
    lemma_hex_bytes(d);
    let h = hex_bytes(d);
    assert forall|k: int| 0 <= k < h.len() implies (#[trigger] digit_value(h[k], 16)) is Some by {
        let i = k / 2;
        assert(0 <= i < d.len());
        lemma_hex_char((d[i] / 16) as nat);
        lemma_hex_char((d[i] % 16) as nat);
        if k % 2 == 0 {
            assert(h[2 * i] == h[k]);
        } else {
            assert(h[2 * i + 1] == h[k]);
        }
    }
    assert forall|i: int| 0 <= i < d.len() implies #[trigger] hex_pairs(h)[i] == d[i] by {
        lemma_hex_char((d[i] / 16) as nat);
        lemma_hex_char((d[i] % 16) as nat);
    }
    assert(hex_pairs(h) =~= d);
}

/// `16^3` and `16^8`.
proof fn lemma_pow16_values()
    ensures
        pow16(3) == 4096,
        pow16(8) == 0x1_0000_0000,
{
    reveal_with_fuel(pow16, 9);
}

/// `10^6`.
proof fn lemma_pow10_values()
    ensures
        pow10(6) == 1_000_000,
{
    reveal_with_fuel(pow10, 7);
}

/// An identifier's ID word: a standard identifier, or an extended one with
/// `EFF` set.
pub open spec fn is_id_word(w: u32) -> bool {
    w <= 0x7FF || (0x8000_0000 <= w && w <= 0x9FFF_FFFF)
}

/// Bit facts about ID words.
proof fn lemma_id_word_text_bits(w: u32)
    by (bit_vector)
    ensures
        w <= 0x7FF ==> (w & 0x8000_0000u32 == 0 && w & 0x7FFu32 == w && w & 0x2000_0000u32 == 0
            && (w | 0x4000_0000u32) == w + 0x4000_0000u32 && ((w + 0x4000_0000u32) as u32) & 0x8000_0000u32 == 0
            && ((w + 0x4000_0000u32) as u32) & 0x7FFu32 == w),
        (0x8000_0000u32 <= w && w <= 0x9FFF_FFFFu32) ==> (w & 0x8000_0000u32 != 0 && w & 0x1FFF_FFFFu32 == w
            - 0x8000_0000u32 && (w | 0x4000_0000u32) == w + 0x4000_0000u32 && ((w + 0x4000_0000u32) as u32)
            & 0x8000_0000u32 != 0 && ((w + 0x4000_0000u32) as u32) & 0x1FFF_FFFFu32 == w - 0x8000_0000u32),
        w <= 0x1FFF_FFFF ==> w & 0x2000_0000u32 == 0,
        (0x2000_0000u32 <= w && w <= 0x3FFF_FFFFu32) ==> (((w & 0x1FFF_FFFFu32) | 0x2000_0000u32) == w
            && w & 0x2000_0000u32 != 0 && ((w & 0x1FFF_FFFFu32) & 0x1FFF_FFFFu32) | 0x2000_0000u32 == w),
{
}

/// The identifier text of an ID word, and what it reads back as.
proof fn lemma_id_text(w: u32)
    requires
        is_id_word(w),
    ensures
        w <= 0x7FF ==> id_text(w) == hex_fixed(w as nat, 3),
        w > 0x7FF ==> id_text(w) == hex_fixed((w - 0x8000_0000) as nat, 8),
        id_text(w).len() == 3 || id_text(w).len() == 8,
        id_text(w).len() == 8 <==> w > 0x7FF,
        all_digits(id_text(w), 16),
        w <= 0x7FF ==> digits_value(id_text(w), 16) == w,
        w > 0x7FF ==> digits_value(id_text(w), 16) == w - 0x8000_0000,
        w <= 0x7FF ==> id_text((w + 0x4000_0000) as u32) == id_text(w),
        w > 0x7FF ==> id_text((w + 0x4000_0000) as u32) == id_text(w),
{
    lemma_id_word_text_bits(w);
    lemma_pow16_values();
    if w <= 0x7FF {
        lemma_hex_fixed_value(w as nat, 3);
    } else {
        lemma_hex_fixed_value((w - 0x8000_0000) as nat, 8);
    }
}

/// The fields of a frame as the frame types build them, which writing and
/// reading give back.
pub open spec fn frame_canonical(kind: FrameKind, f: FrameFields) -> bool {
    match kind {
        FrameKind::Normal => is_id_word(f.word) && f.dlc <= 8 && f.bytes.len() == 8 && f == data_fields(
            f.word,
            f.payload(),
        ),
        FrameKind::Remote => 0x4000_0000 <= f.word && is_id_word((f.word - 0x4000_0000) as u32) && f.dlc <= 8
            && f == remote_fields((f.word - 0x4000_0000) as u32, f.dlc as nat),
        FrameKind::Error => 0x2000_0000 <= f.word <= 0x3FFF_FFFF && f.dlc == 8 && f.flags == 0 && f.bytes.len()
            == 8,
        FrameKind::Fd => is_id_word(f.word) && valid_fd_len(f.dlc as nat) && f.dlc <= 64 && f.bytes.len() == 64
            && f.flags < 16 && f == fd_fields(f.word, f.payload(), f.flags),
    }
}

/// The candump rendering of a frame of kind `kind` with fields `f`.
pub open spec fn frame_text(kind: FrameKind, f: FrameFields) -> Seq<char> {
    match kind {
        FrameKind::Normal => data_text(f),
        FrameKind::Remote => remote_text(f),
        FrameKind::Error => error_text(f),
        FrameKind::Fd => fd_text(f),
    }
}

/// The rendering of a frame holds only hex digits, `#` and `R`: no space.
proof fn lemma_frame_text_chars(kind: FrameKind, f: FrameFields)
    requires
        frame_canonical(kind, f),
    ensures
        no_char(frame_text(kind, f), ' '),
        frame_text(kind, f).len() > 0,
        forall|i: int| 0 <= i < frame_text(kind, f).len() ==> !is_space(#[trigger] frame_text(kind, f)[i]),
{
    let t = frame_text(kind, f);
    assert(forall|i: int| 0 <= i < t.len() ==> (#[trigger] t[i] == '#' || t[i] == 'R' || digit_value(t[i], 16) is Some)) by {
        match kind {
            FrameKind::Normal => {
                lemma_id_text(f.word);
                lemma_hex_bytes_decode(f.payload());
            },
            FrameKind::Remote => {
                lemma_id_text((f.word - 0x4000_0000) as u32);
                lemma_id_word_text_bits((f.word - 0x4000_0000) as u32);
                if f.dlc != 0 {
                    lemma_hex_char(f.dlc as nat);
                }
            },
            FrameKind::Error => {
                lemma_pow16_values();
                lemma_hex_fixed_value(((f.word & 0x1FFF_FFFFu32) | 0x2000_0000u32) as nat, 8);
                lemma_hex_bytes_decode(f.bytes);
            },
            FrameKind::Fd => {
                lemma_id_text(f.word);
                lemma_hex_bytes_decode(f.payload());
                lemma_fd_nibble(f.flags);
            },
        }
    }
    assert forall|i: int| 0 <= i < t.len() implies t[i] != ' ' && !is_space(t[i]) by {
        if digit_value(t[i], 16) is Some {
        }
    }
    match kind {
        FrameKind::Normal => {
            lemma_id_text(f.word);
        },
        FrameKind::Remote => {
            lemma_id_text((f.word - 0x4000_0000) as u32);
            lemma_id_word_text_bits((f.word - 0x4000_0000) as u32);
        },
        FrameKind::Error => {},
        FrameKind::Fd => {
            lemma_id_text(f.word);
        },
    }
}

/// The FD flags nibble of a flags byte below 16 is one hex digit.
proof fn lemma_fd_nibble(flags: u8)
    requires
        flags < 16,
    ensures
        flags & 0x0Fu8 == flags,
        hex_min((flags & 0x0Fu8) as nat) == seq![hex_char(flags as nat)],
        digit_value(hex_char(flags as nat), 16) == Some(flags as nat),
{
    assert(flags < 16 ==> flags & 0x0Fu8 == flags) by (bit_vector);
    lemma_hex_char(flags as nat);
}

/// The identifier field of an ID word reads back as the raw identifier,
/// and the word follows from it and the field's width.
proof fn lemma_parse_id(w: u32)
    requires
        is_id_word(w),
    ensures
        parse_unsigned(id_text(w), 16, 0xFFFF_FFFF) == Some(word_raw(w) as nat),
        word_raw(w) & 0x2000_0000u32 == 0,
        id_text(w).len() == 8 ==> word_raw(w) <= 0x1FFF_FFFF && (word_raw(w) + 0x8000_0000u32) as u32 == w,
        id_text(w).len() == 3 ==> word_raw(w) <= 0x7FF && word_raw(w) == w,
        all_digits(id_text(w), 16),
        id_text(w).len() == 3 || id_text(w).len() == 8,
{
    lemma_id_text(w);
    lemma_id_word_text_bits(w);
    lemma_id_word_text_bits(word_raw(w));
    lemma_parse_digits(id_text(w), 16, 0xFFFF_FFFF);
}

/// Reading the rendering of a canonical data frame gives it back.
proof fn lemma_parse_data_text(f: FrameFields)
    requires
        frame_canonical(FrameKind::Normal, f),
    ensures
        parse_frame(data_text(f)) == Some((FrameKind::Normal, f)),
{
    reveal(parse_frame);
    lemma_parse_id(f.word);
    lemma_digits_no_sep(id_text(f.word));
    let p = f.payload();
    lemma_hex_bytes_decode(p);
    lemma_hex_bytes(p);
    lemma_digits_no_sep(hex_bytes(p));
    lemma_split_at(id_text(f.word), '#', hex_bytes(p));
    if hex_bytes(p).len() > 0 {
        assert(hex_bytes(p)[0] != '#' && hex_bytes(p)[0] != 'R');
    }
}

/// Reading the rendering of a canonical remote frame gives it back.
proof fn lemma_parse_remote_text(f: FrameFields)
    requires
        frame_canonical(FrameKind::Remote, f),
    ensures
        parse_frame(remote_text(f)) == Some((FrameKind::Remote, f)),
{
    reveal(parse_frame);
    let base = (f.word - 0x4000_0000) as u32;
    lemma_id_text(base);
    lemma_id_word_text_bits(base);
    lemma_parse_id(base);
    lemma_digits_no_sep(id_text(base));
    assert(id_text(f.word) == id_text(base));
    let tail: Seq<char> = if f.dlc == 0 {
        Seq::<char>::empty()
    } else {
        hex_min(f.dlc as nat)
    };
    assert(remote_text(f) == id_text(base) + seq!['#'] + (seq!['R'] + tail)) by {
        assert(remote_text(f) =~= id_text(base) + seq!['#'] + (seq!['R'] + tail));
    }
    lemma_split_at(id_text(base), '#', seq!['R'] + tail);
    assert((seq!['R'] + tail).skip(1) =~= tail);
    if f.dlc != 0 {
        lemma_hex_char(f.dlc as nat);
        assert(tail == seq![hex_char(f.dlc as nat)]);
        assert(digits_value(tail, 16) == f.dlc) by {
            lemma_digits_value_push(Seq::<char>::empty(), hex_char(f.dlc as nat), 16);
            assert(tail =~= Seq::<char>::empty().push(hex_char(f.dlc as nat)));
        }
        lemma_parse_digits(tail, 16, 8);
    }
    assert(word_raw(base) == word_raw(f.word)) by {
        lemma_id_word_text_bits(base);
    }
}

/// Reading the rendering of a canonical error frame gives it back.
proof fn lemma_parse_error_text(f: FrameFields)
    requires
        frame_canonical(FrameKind::Error, f),
    ensures
        parse_frame(error_text(f)) == Some((FrameKind::Error, f)),
{
    reveal(parse_frame);
    lemma_id_word_text_bits(f.word);
    lemma_pow16_values();
    let w = f.word;
    lemma_hex_fixed_value(w as nat, 8);
    let id_s = hex_fixed(w as nat, 8);
    lemma_digits_no_sep(id_s);
    lemma_parse_digits(id_s, 16, 0xFFFF_FFFF);
    lemma_hex_bytes_decode(f.bytes);
    lemma_digits_no_sep(hex_bytes(f.bytes));
    lemma_split_at(id_s, '#', hex_bytes(f.bytes));
    assert(f.bytes + zeros(0) =~= f.bytes);
}

/// Reading the rendering of a canonical FD frame gives it back.
proof fn lemma_parse_fd_text(f: FrameFields)
    requires
        frame_canonical(FrameKind::Fd, f),
    ensures
        parse_frame(fd_text(f)) == Some((FrameKind::Fd, f)),
{
    reveal(parse_frame);
    lemma_parse_id(f.word);
    lemma_digits_no_sep(id_text(f.word));
    lemma_fd_nibble(f.flags);
    let p = f.payload();
    lemma_hex_bytes_decode(p);
    let data_s = seq!['#', hex_char(f.flags as nat)] + hex_bytes(p);
    assert(fd_text(f) == id_text(f.word) + seq!['#'] + data_s) by {
        assert(fd_text(f) =~= id_text(f.word) + seq!['#'] + data_s);
    }
    lemma_split_at(id_text(f.word), '#', data_s);
    assert(data_s.skip(2) =~= hex_bytes(p));
}

/// Reading the rendering of a canonical frame gives it back.
pub proof fn lemma_parse_frame_text(kind: FrameKind, f: FrameFields)
    requires
        frame_canonical(kind, f),
    ensures
        parse_frame(frame_text(kind, f)) == Some((kind, f)),
{
    match kind {
        FrameKind::Normal => lemma_parse_data_text(f),
        FrameKind::Remote => lemma_parse_remote_text(f),
        FrameKind::Error => lemma_parse_error_text(f),
        FrameKind::Fd => lemma_parse_fd_text(f),
    }
}

/// The text of a record whose frame has kind `kind` and fields `f`.
pub open spec fn record_line(t_us: u64, device: Seq<char>, kind: FrameKind, f: FrameFields) -> Seq<char> {
    seq!['('] + dec((t_us / 1_000_000) as nat) + seq!['.'] + dec_fixed((t_us % 1_000_000) as nat, 6)
        + seq![')', ' '] + device + seq![' '] + frame_text(kind, f)
}

/// The text of a record is the text of its frame's kind and fields.
pub proof fn lemma_record_text_line(t_us: u64, device: Seq<char>, frame: CanAnyFrame)
    ensures
        record_text(t_us, device, frame) == record_line(t_us, device, frame_kind(frame), frame@),
{
}

/// A string that neither starts nor ends with white space is its own trim.
proof fn lemma_trim_noop(s: Seq<char>)
    requires
        s.len() > 0,
        !is_space(s[0]),
        !is_space(s[s.len() - 1]),
    ensures
        trim(s) == s,
{
    reveal(trim);
    let a = choose|i: int| 0 <= i < s.len() && !is_space(s[i]) && forall|j: int| 0 <= j < i ==> is_space(s[j]);
    assert(0 <= 0 < s.len() && !is_space(s[0]) && forall|j: int| 0 <= j < 0 ==> is_space(s[j]));
    let b = choose|i: int| 0 <= i < s.len() && !is_space(s[i]) && forall|j: int| i < j < s.len() ==> is_space(s[j]);
    let l = s.len() - 1;
    assert(0 <= l < s.len() && !is_space(s[l]) && forall|j: int| l < j < s.len() ==> is_space(s[j]));
    if a > 0 {
        assert(is_space(s[0]));
    }
    if b < l {
        assert(is_space(s[l]));
    }
    assert(s.subrange(0, s.len() as int) =~= s);
}

/// Decimal digits are hex digits.
proof fn lemma_dec_digits_hex(s: Seq<char>)
    requires
        all_digits(s, 10),
    ensures
        all_digits(s, 16),
{
    assert forall|i: int| 0 <= i < s.len() implies (#[trigger] digit_value(s[i], 16)) is Some by {
        assert(digit_value(s[i], 10) is Some);
    }
}

/// The timestamp field of a record reads back as its timestamp.
proof fn lemma_parse_timestamp_text(t_us: u64)
    ensures
        parse_timestamp(
            seq!['('] + dec((t_us / 1_000_000) as nat) + seq!['.'] + dec_fixed((t_us % 1_000_000) as nat, 6)
                + seq![')'],
        ) == Some(t_us),
{
    reveal(parse_timestamp);
    let sec = (t_us / 1_000_000) as nat;
    let usec = (t_us % 1_000_000) as nat;
    let d1 = dec(sec);
    let d6 = dec_fixed(usec, 6);
    lemma_dec_value(sec);
    lemma_pow10_values();
    lemma_dec_fixed_value(usec, 6);
    lemma_dec_digits_hex(d1);
    lemma_digits_no_sep(d1);
    let ts = seq!['('] + d1 + seq!['.'] + d6 + seq![')'];
    assert(ts.subrange(1, ts.len() - 1) =~= d1 + seq!['.'] + d6);
    lemma_split_at(d1, '.', d6);
    lemma_parse_digits(d1, 10, 0xFFFF_FFFF_FFFF_FFFF);
    lemma_parse_digits(d6, 10, 0xFFFF_FFFF_FFFF_FFFF);
    assert(sec * 1_000_000 + usec == t_us) by (nonlinear_arith)
        requires
            sec == t_us / 1_000_000,
            usec == t_us % 1_000_000,
    ;
}

/// Whether a device name can be written in a record and read back: it is
/// valid, which also keeps out the space that separates the fields.
pub open spec fn device_canonical(device: Seq<char>) -> bool {
    device_name_valid(device)
}

/// The timestamp field of a record holds no space.
proof fn lemma_stamp_no_space(t_us: u64)
    ensures
        no_char(
            seq!['('] + dec((t_us / 1_000_000) as nat) + seq!['.'] + dec_fixed((t_us % 1_000_000) as nat, 6)
                + seq![')'],
            ' ',
        ),
{
    let d1 = dec((t_us / 1_000_000) as nat);
    let d6 = dec_fixed((t_us % 1_000_000) as nat, 6);
    let ts = seq!['('] + d1 + seq!['.'] + d6 + seq![')'];
    lemma_dec_value((t_us / 1_000_000) as nat);
    lemma_pow10_values();
    lemma_dec_fixed_value((t_us % 1_000_000) as nat, 6);
    lemma_dec_digits_hex(d1);
    lemma_dec_digits_hex(d6);
    lemma_digits_no_sep(d1);
    lemma_digits_no_sep(d6);
    assert forall|i: int| 0 <= i < ts.len() implies ts[i] != ' ' by {
        if 1 <= i < 1 + d1.len() {
            assert(ts[i] == d1[i - 1]);
        } else if 1 + d1.len() + 1 <= i < 1 + d1.len() + 1 + d6.len() {
            assert(ts[i] == d6[i - 1 - d1.len() - 1]);
        }
    }
}

/// Writing a record and reading the text back gives the record: its
/// timestamp, device name and frame, when the device name is valid and the
/// frame is as the frame types build it.
#[verifier::spinoff_prover]
pub proof fn lemma_record_round_trip(t_us: u64, device: Seq<char>, kind: FrameKind, f: FrameFields)
    requires
        device_canonical(device),
        frame_canonical(kind, f),
    ensures
        parse_line(record_line(t_us, device, kind, f)) == Ok::<RecordView, ParseError>(
            RecordView { t_us, device, kind, frame: f },
        ),
{
    let d1 = dec((t_us / 1_000_000) as nat);
    let d6 = dec_fixed((t_us % 1_000_000) as nat, 6);
    let ts = seq!['('] + d1 + seq!['.'] + d6 + seq![')'];
    let body = frame_text(kind, f);
    let rest = device + seq![' '] + body;
    let line = record_line(t_us, device, kind, f);
    assert(line =~= ts + seq![' '] + rest);
    lemma_stamp_no_space(t_us);
    lemma_frame_text_chars(kind, f);
    assert(line[0] == '(');
    assert(line[line.len() - 1] == body[body.len() - 1]);
    lemma_trim_noop(line);
    lemma_split_at(ts, ' ', rest);
    lemma_parse_timestamp_text(t_us);
    lemma_split_at(device, ' ', body);
    lemma_no_index(body, ' ');
    lemma_parse_frame_text(kind, f);
}

/// Where a `c` occurs, there is a first one.
proof fn lemma_exists_first(s: Seq<char>, c: char, i: int)
    requires
        0 <= i < s.len(),
        s[i] == c,
    ensures
        exists|k: int| is_first_index(s, c, k),
    decreases i,
{
    if exists|j: int| 0 <= j < i && s[j] == c {
        let j = choose|j: int| 0 <= j < i && s[j] == c;
        lemma_exists_first(s, c, j);
    } else {
        assert(is_first_index(s, c, i));
    }
}

/// Every frame that reading gives is canonical: writing it and reading it
/// again gives it back.
pub proof fn lemma_parsed_frame_canonical(raw: Seq<char>)
    requires
        parse_frame(raw) is Some,
    ensures
        match parse_frame(raw) {
            Some((k, f)) => frame_canonical(k, f),
            None => false,
        },
{
    reveal(parse_frame);
    let (id_s, data_s) = split_once(raw, '#')->0;
    let id = parse_unsigned(id_s, 16, 0xFFFF_FFFF)->0 as u32;
    let (k, f) = parse_frame(raw)->0;
    lemma_id_word_text_bits(id);
    lemma_id_word_text_bits((id + 0x8000_0000u32) as u32);
    lemma_id_word_text_bits(f.word);
    match k {
        FrameKind::Error => {
            let w = id & 0x1FFF_FFFFu32;
            assert(0x2000_0000u32 <= (w | 0x2000_0000u32) <= 0x3FFF_FFFFu32) by (bit_vector)
                requires w == id & 0x1FFF_FFFFu32;
            assert(w & 0x1FFF_FFFFu32 == w) by (bit_vector)
                requires w == id & 0x1FFF_FFFFu32;
        },
        FrameKind::Normal => {
            assert(f.payload() =~= hex_decode(data_s)->0);
        },
        FrameKind::Remote => {},
        FrameKind::Fd => {
            let nib = digit_value(data_s[1], 16)->0 as u8;
            let d = hex_decode(data_s.skip(2))->0;
            assert((nib | 0x04u8) < 16 && (nib | 0x04u8) | 0x04u8 == nib | 0x04u8) by (bit_vector)
                requires nib < 16;
            assert(f.payload() =~= d + zeros((next_fd_len(d.len()) - d.len()) as nat));
            assert(f.payload() + zeros((64 - f.payload().len()) as nat) =~= f.bytes);
        },
    }
}

/// Every record that reading gives has a valid device name and a canonical
/// frame.
pub proof fn lemma_parsed_record_canonical(line: Seq<char>)
    requires
        parse_line(line) is Ok,
    ensures
        device_canonical(parse_line(line)->Ok_0.device),
        frame_canonical(parse_line(line)->Ok_0.kind, parse_line(line)->Ok_0.frame),
{
    let (f0, r0) = next_field(Some(trim(line)));
    let (f1, r1) = next_field(r0);
    let (f2, r2) = next_field(r1);
    lemma_parsed_frame_canonical(f2->0);
}

/// Reading a line, writing the record and reading that text gives the same
/// record again.
pub proof fn lemma_reparse(line: Seq<char>)
    requires
        parse_line(line) is Ok,
    ensures
        ({
            let v = parse_line(line)->Ok_0;
            parse_line(record_line(v.t_us, v.device, v.kind, v.frame)) == parse_line(line)
        }),
{
    lemma_parsed_record_canonical(line);
    let v = parse_line(line)->Ok_0;
    lemma_record_round_trip(v.t_us, v.device, v.kind, v.frame);
}

/// A string of hex digits is worth less than 16 to the power of its length.
proof fn lemma_hex_digits_below(s: Seq<char>)
    requires
        all_digits(s, 16),
    ensures
        digits_value(s, 16) < pow16(s.len()),
    decreases s.len(),
{
    if s.len() > 0 {
        let p = s.drop_last();
        assert forall|i: int| 0 <= i < p.len() implies (#[trigger] digit_value(p[i], 16)) is Some by {
            assert(p[i] == s[i]);
        }
        lemma_hex_digits_below(p);
        assert(digit_value(s.last(), 16) is Some);
        let a = digits_value(p, 16);
        let d = digit_value(s.last(), 16)->0;
        let q = pow16(p.len());
        assert(a * 16 + d < 16 * q) by (nonlinear_arith)
            requires a < q, d < 16;
        assert(pow16(s.len()) == 16 * q);
    }
}

/// The width of the identifier field picks the format, whatever its value:
/// three hex digits give a standard frame with that identifier, eight give
/// an extended frame with it, or an error frame where `CAN_ERR_FLAG` is set.
/// Any other width is refused, and so is a value that does not fit the width
/// it was written in: it is never read as the other format.
pub proof fn lemma_id_width_picks_format(id_s: Seq<char>, body: Seq<char>)
    requires
        no_char(id_s, '#'),
    ensures
        ({
            let raw = id_s + seq!['#'] + body;
            let v = parse_unsigned(id_s, 16, 0xFFFF_FFFF);
            let pf = parse_frame(raw)->0;
            let k = pf.0;
            let f = pf.1;
            &&& id_s.len() != 3 && id_s.len() != 8 ==> parse_frame(raw) is None
            &&& id_s.len() == 3 && v is Some && v->0 > 0x7FF ==> parse_frame(raw) is None
            &&& id_s.len() == 8 && v is Some && (v->0 as u32) & 0x2000_0000u32 == 0 && v->0 > 0x1FFF_FFFF
                ==> parse_frame(raw) is None
            &&& parse_frame(raw) is Some ==> v is Some && (k is Error <==> id_s.len() == 8 && (v->0 as u32)
                & 0x2000_0000u32 != 0)
            &&& parse_frame(raw) is Some && k !is Error ==> word_raw(f.word) == v->0 && (word_ext(f.word)
                <==> id_s.len() == 8)
        }),
{
    reveal(parse_frame);
    let raw = id_s + seq!['#'] + body;
    lemma_split_at(id_s, '#', body);
    assert(split_once(raw, '#') == Some((id_s, body)));
    let v = parse_unsigned(id_s, 16, 0xFFFF_FFFF);
    if v is Some && (id_s.len() == 3 || id_s.len() == 8) {
        let id = v->0 as u32;
        assert(id == v->0);
        if id_s.len() == 3 {
            lemma_hex_digits_below(id_s);
            lemma_pow16_values();
            assert(id < 4096);
            assert(id < 4096 ==> id & 0x2000_0000u32 == 0) by (bit_vector);
        }
        lemma_id_word_text_bits(id);
        lemma_id_word_text_bits((id + 0x8000_0000u32) as u32);
    }
}

/// The flags nibble of an FD frame field is kept bit for bit, the unnamed
/// `0x8` bit too, with only `CANFD_FDF` forced on. A standard identifier and
/// a payload of at most 64 bytes give that frame.
pub proof fn lemma_fd_flags_nibble(id_s: Seq<char>, c: char, data: Seq<char>)
    requires
        no_char(id_s, '#'),
        digit_value(c, 16) is Some,
    ensures
        ({
            let raw = id_s + seq!['#', '#', c] + data;
            let nib = digit_value(c, 16)->0 as u8;
            let pf = parse_frame(raw)->0;
            let d = hex_decode(data)->0;
            &&& parse_frame(raw) is Some ==> pf.0 is Fd && pf.1.flags == nib | 0x04u8
            &&& id_s.len() == 3 && parse_unsigned(id_s, 16, 0x7FF) is Some && hex_decode(data) is Some
                && d.len() <= 64 ==> parse_frame(raw) == Some(
                (FrameKind::Fd, fd_fields(parse_unsigned(id_s, 16, 0x7FF)->0 as u32, d, nib)),
            )
        }),
{
    reveal(parse_frame);
    let body = seq!['#', c] + data;
    let raw = id_s + seq!['#'] + body;
    assert(raw =~= id_s + seq!['#', '#', c] + data);
    lemma_split_at(id_s, '#', body);
    assert(body.skip(2) =~= data);
    assert(body[0] == '#' && body[1] == c);
    let v = parse_unsigned(id_s, 16, 0xFFFF_FFFF);
    if v is Some {
        let id = v->0 as u32;
        if id & 0x2000_0000u32 != 0 {
            lemma_hex_decode_hash(body);
        }
        if id_s.len() == 3 {
            lemma_hex_digits_below(id_s);
            lemma_pow16_values();
            assert(id < 4096 ==> id & 0x2000_0000u32 == 0) by (bit_vector);
        }
    }
}

/// Hex decoding refuses a string that starts with `#`.
proof fn lemma_hex_decode_hash(s: Seq<char>)
    requires
        s.len() > 0,
        s[0] == '#',
    ensures
        hex_decode(s) is None,
{
    assert(digit_value(s[0], 16) is None);
}

/// The text of a line: a timestamp, a device name and a frame field, each
/// followed by one space but the last.
pub open spec fn line_text(t_us: u64, device: Seq<char>, raw: Seq<char>) -> Seq<char> {
    seq!['('] + dec((t_us / 1_000_000) as nat) + seq!['.'] + dec_fixed((t_us % 1_000_000) as nat, 6)
        + seq![')', ' '] + device + seq![' '] + raw
}

/// Whether `s` holds no white space.
pub open spec fn no_space(s: Seq<char>) -> bool {
    forall|i: int| 0 <= i < s.len() ==> !is_space(#[trigger] s[i])
}

/// A line of a timestamp, a device name and a frame field reads as its
/// frame field does: a record with that timestamp and device name where the
/// field is a valid frame, else an invalid-frame error.
pub proof fn lemma_line_reads_frame_field(t_us: u64, device: Seq<char>, raw: Seq<char>)
    requires
        device_canonical(device),
        raw.len() > 0,
        no_space(raw),
    ensures
        parse_line(line_text(t_us, device, raw)) == match parse_frame(raw) {
            None => Err::<RecordView, ParseError>(ParseError::InvalidCanFrame),
            Some((k, f)) => Ok(RecordView { t_us, device, kind: k, frame: f }),
        },
{
    let d1 = dec((t_us / 1_000_000) as nat);
    let d6 = dec_fixed((t_us % 1_000_000) as nat, 6);
    let ts = seq!['('] + d1 + seq!['.'] + d6 + seq![')'];
    let rest = device + seq![' '] + raw;
    let line = line_text(t_us, device, raw);
    assert(line =~= ts + seq![' '] + rest);
    lemma_stamp_no_space(t_us);
    assert(line[0] == '(');
    assert(line[line.len() - 1] == raw[raw.len() - 1]);
    lemma_trim_noop(line);
    lemma_split_at(ts, ' ', rest);
    lemma_parse_timestamp_text(t_us);
    lemma_split_at(device, ' ', raw);
    assert(no_char(raw, ' ')) by {
        assert forall|i: int| 0 <= i < raw.len() implies raw[i] != ' ' by {
            assert(!is_space(raw[i]));
        }
    }
    lemma_no_index(raw, ' ');
}

/// The identifier-width rule on whole lines: where the identifier of the
/// frame field has a width other than three or eight digits, or a value that
/// does not fit the width it was written in, the line is refused as an
/// invalid frame.
pub proof fn lemma_line_id_width(t_us: u64, device: Seq<char>, id_s: Seq<char>, body: Seq<char>)
    requires
        device_canonical(device),
        no_char(id_s, '#'),
        no_space(id_s + seq!['#'] + body),
    ensures
        ({
            let v = parse_unsigned(id_s, 16, 0xFFFF_FFFF);
            ||| id_s.len() != 3 && id_s.len() != 8
            ||| id_s.len() == 3 && v is Some && v->0 > 0x7FF
            ||| id_s.len() == 8 && v is Some && (v->0 as u32) & 0x2000_0000u32 == 0 && v->0 > 0x1FFF_FFFF
        }) ==> parse_line(line_text(t_us, device, id_s + seq!['#'] + body)) == Err::<RecordView, ParseError>(
            ParseError::InvalidCanFrame,
        ),
{
    let raw = id_s + seq!['#'] + body;
    assert(raw.len() > 0);
    lemma_id_width_picks_format(id_s, body);
    lemma_line_reads_frame_field(t_us, device, raw);
}

/// The FD flags nibble on whole lines: a line whose frame field is a
/// standard identifier, `##`, a flags digit and a payload of at most 64
/// bytes reads as an FD frame with those flags, `CANFD_FDF` forced on, and
/// that payload.
pub proof fn lemma_line_fd_flags(t_us: u64, device: Seq<char>, id_s: Seq<char>, c: char, data: Seq<char>)
    requires
        device_canonical(device),
        id_s.len() == 3,
        parse_unsigned(id_s, 16, 0x7FF) is Some,
        digit_value(c, 16) is Some,
        hex_decode(data) is Some,
        (hex_decode(data)->0).len() <= 64,
    ensures
        parse_line(line_text(t_us, device, id_s + seq!['#', '#', c] + data)) == Ok::<RecordView, ParseError>(
            RecordView {
                t_us,
                device,
                kind: FrameKind::Fd,
                frame: fd_fields(
                    parse_unsigned(id_s, 16, 0x7FF)->0 as u32,
                    hex_decode(data)->0,
                    digit_value(c, 16)->0 as u8,
                ),
            },
        ),
{
    let raw = id_s + seq!['#', '#', c] + data;
    lemma_digits_no_sep(id_s);
    lemma_digits_no_sep(data);
    lemma_fd_flags_nibble(id_s, c, data);
    assert(no_space(raw)) by {
        assert forall|i: int| 0 <= i < raw.len() implies !is_space(#[trigger] raw[i]) by {
            if i < id_s.len() {
                assert(raw[i] == id_s[i]);
            } else if i < id_s.len() + 3 {
                assert(digit_value(c, 16) is Some);
            } else {
                assert(raw[i] == data[i - id_s.len() - 3]);
            }
        }
    }
    lemma_line_reads_frame_field(t_us, device, raw);
}

/// Where a `c` occurs, the first one splits `s` around it.
proof fn lemma_first_index_splits(s: Seq<char>, c: char)
    requires
        first_index(s, c) is Some,
    ensures
        is_first_index(s, c, first_index(s, c)->0),
        s == s.take(first_index(s, c)->0) + seq![c] + s.skip(first_index(s, c)->0 + 1),
{
    let i0 = choose|i0: int| 0 <= i0 < s.len() && s[i0] == c;
    lemma_exists_first(s, c, i0);
    let i = first_index(s, c)->0;
    assert(s =~= s.take(i) + seq![c] + s.skip(i + 1));
}

/// The text of a record put together from its pieces: seconds,
/// microseconds, device name, identifier and what follows the identifier's
/// `#`.
pub open spec fn record_text_of(
    sec: Seq<char>,
    usec: Seq<char>,
    dev: Seq<char>,
    id: Seq<char>,
    body: Seq<char>,
) -> Seq<char> {
    seq!['('] + sec + seq!['.'] + usec + seq![')', ' '] + dev + seq![' '] + id + seq!['#'] + body
}

/// Whether what follows the identifier's `#` has the form of a frame body:
/// pairs of hex digits (a data or error frame), `R` and at most one hex
/// digit (a remote frame), or `#`, a hex digit and pairs of hex digits (an
/// FD frame).
pub open spec fn frame_body_form(body: Seq<char>) -> bool {
    ||| body.len() % 2 == 0 && all_digits(body, 16)
    ||| body.len() >= 1 && body[0] == 'R' && (body.len() == 1 || (body.len() == 2 && digit_value(body[1], 16) is Some))
    ||| body.len() >= 2 && body[0] == '#' && digit_value(body[1], 16) is Some && body.skip(2).len() % 2 == 0
        && all_digits(body.skip(2), 16)
}

/// Whether the pieces of a record have the forms of the log format's
/// grammar: one or more decimal digits of seconds, exactly six of
/// microseconds, a device name of visible ASCII characters, an identifier
/// of three or eight hex digits, and a frame body.
pub open spec fn record_pieces_form(
    sec: Seq<char>,
    usec: Seq<char>,
    dev: Seq<char>,
    id: Seq<char>,
    body: Seq<char>,
) -> bool {
    &&& sec.len() > 0 && all_digits(sec, 10)
    &&& usec.len() == 6 && all_digits(usec, 10)
    &&& device_name_valid(dev)
    &&& (id.len() == 3 || id.len() == 8) && all_digits(id, 16)
    &&& frame_body_form(body)
}

/// Whether a text follows the grammar of a record line.
pub open spec fn record_grammar(s: Seq<char>) -> bool {
    exists|sec: Seq<char>, usec: Seq<char>, dev: Seq<char>, id: Seq<char>, body: Seq<char>|
        #[trigger] record_text_of(sec, usec, dev, id, body) == s && record_pieces_form(sec, usec, dev, id, body)
}

/// A line that reads as a record follows the grammar of the log format,
/// once trimmed: digits only in the seconds and microseconds, six of the
/// latter, a device name of visible characters, an identifier of three or
/// eight hex digits, at most one digit after `R`, and nothing after the
/// frame.
pub proof fn lemma_parsed_line_grammar(line: Seq<char>)
    requires
        parse_line(line) is Ok,
    ensures
        record_grammar(trim(line)),
{
    reveal(parse_timestamp);
    let t = trim(line);
    let (f0, r0) = next_field(Some(t));
    let (f1, r1) = next_field(r0);
    let (f2, r2) = next_field(r1);
    let ts = f0->0;
    let dev = f1->0;
    let raw = f2->0;
    lemma_first_index_splits(t, ' ');
    lemma_first_index_splits(r0->0, ' ');
    assert(raw == r1->0);
    let inner = ts.subrange(1, ts.len() - 1);
    lemma_first_index_splits(inner, '.');
    let (sec, usec) = split_once(inner, '.')->0;
    assert(ts =~= seq!['('] + sec + seq!['.'] + usec + seq![')']);
    lemma_parsed_frame_form(raw);
    let (id, body) = split_once(raw, '#')->0;
    assert(t =~= record_text_of(sec, usec, dev, id, body));
    assert(record_pieces_form(sec, usec, dev, id, body));
}

/// A frame field that reads as a frame is an identifier of three or eight
/// hex digits, `#` and a frame body.
proof fn lemma_parsed_frame_form(raw: Seq<char>)
    requires
        parse_frame(raw) is Some,
    ensures
        split_once(raw, '#') is Some,
        ({
            let (id, body) = split_once(raw, '#')->0;
            &&& raw == id + seq!['#'] + body
            &&& (id.len() == 3 || id.len() == 8) && all_digits(id, 16)
            &&& frame_body_form(body)
        }),
{
    reveal(parse_frame);
    lemma_first_index_splits(raw, '#');
    let (id, body) = split_once(raw, '#')->0;
    let v = parse_unsigned(id, 16, 0xFFFF_FFFF)->0 as u32;
    if v & 0x2000_0000u32 == 0 && body.len() > 0 && body[0] == 'R' {
        if body.len() == 2 {
            assert(body.skip(1)[0] == body[1]);
        }
    }
}

/// The timestamp field `(sec.usec)` reads as `sec * 1_000_000 + usec`
/// microseconds exactly when both are decimal numbers, the microseconds
/// exactly six digits, and the sum fits in 64 bits; else it is refused.
pub proof fn lemma_timestamp_field(sec: Seq<char>, usec: Seq<char>)
    requires
        no_char(sec, '.'),
    ensures
        parse_timestamp(seq!['('] + sec + seq!['.'] + usec + seq![')']) == (if sec.len() > 0 && all_digits(sec, 10)
            && usec.len() == 6 && all_digits(usec, 10) && digits_value(sec, 10) * 1_000_000 + digits_value(usec, 10)
            <= 0xFFFF_FFFF_FFFF_FFFF {
            Some((digits_value(sec, 10) * 1_000_000 + digits_value(usec, 10)) as u64)
        } else {
            None
        }),
{
    reveal(parse_timestamp);
    let ts = seq!['('] + sec + seq!['.'] + usec + seq![')'];
    assert(ts.subrange(1, ts.len() - 1) =~= sec + seq!['.'] + usec);
    lemma_split_at(sec, '.', usec);
    let a = digits_value(sec, 10);
    assert(a <= a * 1_000_000) by (nonlinear_arith);
}

/// The text of a line of three fields, each followed by one space but the
/// last.
pub open spec fn fields_line(ts: Seq<char>, device: Seq<char>, raw: Seq<char>) -> Seq<char> {
    ts + seq![' '] + device + seq![' '] + raw
}

/// A line of a timestamp field, a device name and a frame field reads as
/// its fields do: an invalid timestamp is refused first, then an invalid
/// frame; else it is the record of those fields.
pub proof fn lemma_line_fields(ts: Seq<char>, device: Seq<char>, raw: Seq<char>)
    requires
        ts.len() > 0,
        no_space(ts),
        device_name_valid(device),
        raw.len() > 0,
        no_space(raw),
    ensures
        parse_line(fields_line(ts, device, raw)) == match parse_timestamp(ts) {
            None => Err::<RecordView, ParseError>(ParseError::InvalidTimestamp),
            Some(t) => match parse_frame(raw) {
                None => Err::<RecordView, ParseError>(ParseError::InvalidCanFrame),
                Some((k, f)) => Ok(RecordView { t_us: t, device, kind: k, frame: f }),
            },
        },
{
    let rest = device + seq![' '] + raw;
    let line = fields_line(ts, device, raw);
    assert(line =~= ts + seq![' '] + rest);
    assert(line[0] == ts[0]);
    assert(line[line.len() - 1] == raw[raw.len() - 1]);
    lemma_trim_noop(line);
    assert(no_char(ts, ' '));
    lemma_split_at(ts, ' ', rest);
    assert(no_char(device, ' ')) by {
        assert forall|i: int| 0 <= i < device.len() implies device[i] != ' ' by {
            assert(0x21 <= device[i] as u32 <= 0x7E);
        }
    }
    lemma_split_at(device, ' ', raw);
    assert(no_char(raw, ' ')) by {
        assert forall|i: int| 0 <= i < raw.len() implies raw[i] != ' ' by {
            assert(!is_space(raw[i]));
        }
    }
    lemma_no_index(raw, ' ');
}

impl Clone for CanDumpRecord {
    /// A copy of the record.
    fn clone(&self) -> (r: CanDumpRecord)
        ensures
            r@ == self@,
    {
        CanDumpRecord { t_us: self.t_us, device: self.device.clone(), frame: self.frame }
    }
}

} // verus!
