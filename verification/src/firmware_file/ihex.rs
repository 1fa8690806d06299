//! Intel HEX firmware images: reading records from the file's bytes, gathering their data
//! into contiguous segments, and flattening the segments into one image.
use vstd::prelude::*;

use crate::text::{push_decimal, string_extend_str};
use crate::firmware_file::address_map;

verus! {

/// Why an Intel HEX file could not be read.
#[derive(Debug, PartialEq, Eq, Clone, Copy, Structural)]
pub enum IntelHexError {
    /// The file ended in the middle of a record (or before one started).
    UnexpectedEndOfFile,
    /// A field of a record is not written in hexadecimal.
    InvalidHexDigits,
    /// A record's checksum does not match its contents.
    ChecksumInvalid,
    /// A record has a type other than 0 to 5.
    InvalidRecordType(u8),
    /// An end-of-file record carries data.
    InvalidEofByteCount(u8),
    /// An extended address record does not carry exactly two bytes.
    InvalidExtendedAddressByteCount(u8),
    /// A start address record does not carry exactly four bytes.
    InvalidStartAddressByteCount(u8),
    /// An end-of-file record is followed by more records.
    PrematureEndOfFileRecord,
    /// The file uses segment-based (16-bit) addressing records.
    UnsupportedRecordType,
    /// Data runs past the end of the 32-bit address space.
    AddressOverflow,
    /// A segment reaches past the end of the flattened image.
    SegmentOutsideImage,
}

/// The message for this error.
pub open spec fn intel_hex_error_text(e: IntelHexError) -> Seq<char> {
    match e {
        IntelHexError::UnexpectedEndOfFile => "failed to fill whole buffer"@,
        IntelHexError::InvalidHexDigits => "invalid digit found in string"@,
        IntelHexError::ChecksumInvalid => "Checksum invalid for ihex record"@,
        IntelHexError::InvalidRecordType(v) => "Invalid record type "@ + crate::text::decimal_digits(v as nat) + " found"@,
        IntelHexError::InvalidEofByteCount(n) => "Invalid EOF, expected 0 bytes in record, got "@ + crate::text::decimal_digits(n as nat),
        IntelHexError::InvalidExtendedAddressByteCount(n) => "Invalid extended address record, expected 2 bytes, got "@ + crate::text::decimal_digits(n as nat),
        IntelHexError::InvalidStartAddressByteCount(n) => "Invalid extended address record, expected 4 bytes, got "@ + crate::text::decimal_digits(n as nat),
        IntelHexError::PrematureEndOfFileRecord => "Premature EOF record found, invalid Intel HEX file"@,
        IntelHexError::UnsupportedRecordType => "Segment-based Intel HEX address records are not supported"@,
        IntelHexError::AddressOverflow => "Intel HEX data extends beyond the 32-bit address space"@,
        IntelHexError::SegmentOutsideImage => "Intel HEX segments overlap in a way that cannot be flattened"@,
    }
}

impl IntelHexError {
    /// The message for this error.
    pub fn to_string(&self) -> (r: String)
        ensures
            r@ == intel_hex_error_text(*self),
    {
        match self {
            IntelHexError::UnexpectedEndOfFile => "failed to fill whole buffer".to_owned(),
            IntelHexError::InvalidHexDigits => "invalid digit found in string".to_owned(),
            IntelHexError::ChecksumInvalid => "Checksum invalid for ihex record".to_owned(),
            IntelHexError::InvalidRecordType(v) => {
                let mut r = "Invalid record type ".to_owned();
                push_decimal(&mut r, *v as usize);
                string_extend_str(&mut r, " found");
                r
            },
            IntelHexError::InvalidEofByteCount(n) => {
                let mut r = "Invalid EOF, expected 0 bytes in record, got ".to_owned();
                push_decimal(&mut r, *n as usize);
                r
            },
            IntelHexError::InvalidExtendedAddressByteCount(n) => {
                let mut r = "Invalid extended address record, expected 2 bytes, got ".to_owned();
                push_decimal(&mut r, *n as usize);
                r
            },
            IntelHexError::InvalidStartAddressByteCount(n) => {
                let mut r = "Invalid extended address record, expected 4 bytes, got ".to_owned();
                push_decimal(&mut r, *n as usize);
                r
            },
            IntelHexError::PrematureEndOfFileRecord => "Premature EOF record found, invalid Intel HEX file".to_owned(),
            IntelHexError::UnsupportedRecordType => "Segment-based Intel HEX address records are not supported".to_owned(),
            IntelHexError::AddressOverflow => "Intel HEX data extends beyond the 32-bit address space".to_owned(),
            IntelHexError::SegmentOutsideImage => "Intel HEX segments overlap in a way that cannot be flattened".to_owned(),
        }
    }
}

/// The kinds of Intel HEX record.
#[derive(Debug, PartialEq, Eq, Clone, Copy, Structural)]
pub enum IntelHexRecordType {
    Data,
    EndOfFile,
    ExtendedSegmentAddress,
    StartSegmentAddress,
    ExtendedLinearAddress,
    StartLinearAddress,
}

/// The record type a type code names, if any.
pub open spec fn record_type_from_code(value: u8) -> Option<IntelHexRecordType> {
    if value == 0 {
        Some(IntelHexRecordType::Data)
    } else if value == 1 {
        Some(IntelHexRecordType::EndOfFile)
    } else if value == 2 {
        Some(IntelHexRecordType::ExtendedSegmentAddress)
    } else if value == 3 {
        Some(IntelHexRecordType::StartSegmentAddress)
    } else if value == 4 {
        Some(IntelHexRecordType::ExtendedLinearAddress)
    } else if value == 5 {
        Some(IntelHexRecordType::StartLinearAddress)
    } else {
        None
    }
}

/// Whether a record of type `t` may carry `byte_count` bytes.
pub open spec fn spec_validate_byte_count(t: IntelHexRecordType, byte_count: u8) -> Result<(), IntelHexError> {
    match t {
        IntelHexRecordType::EndOfFile => if byte_count == 0 {
            Ok(())
        } else {
            Err(IntelHexError::InvalidEofByteCount(byte_count))
        },
        IntelHexRecordType::ExtendedSegmentAddress | IntelHexRecordType::ExtendedLinearAddress => if byte_count == 2 {
            Ok(())
        } else {
            Err(IntelHexError::InvalidExtendedAddressByteCount(byte_count))
        },
        IntelHexRecordType::StartSegmentAddress | IntelHexRecordType::StartLinearAddress => if byte_count == 4 {
            Ok(())
        } else {
            Err(IntelHexError::InvalidStartAddressByteCount(byte_count))
        },
        _ => Ok(()),
    }
}

impl IntelHexRecordType {
    /// The record type for a type code.
    pub fn try_from(value: u8) -> (r: Result<Self, IntelHexError>)
        ensures
            match r {
                Ok(t) => record_type_from_code(value) == Some(t),
                Err(e) => record_type_from_code(value) is None && e == IntelHexError::InvalidRecordType(value),
            },
    {
        match value {
            0 => Ok(IntelHexRecordType::Data),
            1 => Ok(IntelHexRecordType::EndOfFile),
            2 => Ok(IntelHexRecordType::ExtendedSegmentAddress),
            3 => Ok(IntelHexRecordType::StartSegmentAddress),
            4 => Ok(IntelHexRecordType::ExtendedLinearAddress),
            5 => Ok(IntelHexRecordType::StartLinearAddress),
            _ => Err(IntelHexError::InvalidRecordType(value)),
        }
    }

    /// Checks that a record of this type may carry `byte_count` bytes.
    pub fn validate_byte_count(&self, byte_count: u8) -> (r: Result<(), IntelHexError>)
        ensures
            r == spec_validate_byte_count(*self, byte_count),
    {
        match self {
            IntelHexRecordType::EndOfFile => {
                if byte_count == 0 {
                    Ok(())
                } else {
                    Err(IntelHexError::InvalidEofByteCount(byte_count))
                }
            },
            IntelHexRecordType::ExtendedSegmentAddress | IntelHexRecordType::ExtendedLinearAddress => {
                if byte_count == 2 {
                    Ok(())
                } else {
                    Err(IntelHexError::InvalidExtendedAddressByteCount(byte_count))
                }
            },
            IntelHexRecordType::StartSegmentAddress | IntelHexRecordType::StartLinearAddress => {
                if byte_count == 4 {
                    Ok(())
                } else {
                    Err(IntelHexError::InvalidStartAddressByteCount(byte_count))
                }
            },
            _ => Ok(()),
        }
    }
}

/// One record of an Intel HEX file.
#[derive(Debug, PartialEq, Eq, Clone)]
pub struct IntelHexRecord {
    pub byte_count: u8,
    pub address: u16,
    pub record_type: IntelHexRecordType,
    /// The `byte_count` data bytes of the record.
    pub data: Vec<u8>,
}

/// Mathematical model of an [`IntelHexRecord`].
pub struct IntelHexRecordView {
    pub byte_count: u8,
    pub address: u16,
    pub record_type: IntelHexRecordType,
    pub data: Seq<u8>,
}

impl View for IntelHexRecord {
    type V = IntelHexRecordView;

    open spec fn view(&self) -> IntelHexRecordView {
        IntelHexRecordView {
            byte_count: self.byte_count,
            address: self.address,
            record_type: self.record_type,
            data: self.data@,
        }
    }
}

/// Whether a record is one the reader can produce: its data is as long as its byte count says
/// and the byte count suits its type.
pub open spec fn record_wf(r: IntelHexRecordView) -> bool {
    &&& r.data.len() == r.byte_count
    &&& spec_validate_byte_count(r.record_type, r.byte_count) is Ok
}

/// Value of an ASCII hexadecimal digit.
pub open spec fn hex_digit_value(b: u8) -> Option<nat> {
    if 0x30 <= b <= 0x39 {
        Some((b - 0x30) as nat)
    } else if 0x61 <= b <= 0x66 {
        Some((b - 0x61 + 10) as nat)
    } else if 0x41 <= b <= 0x46 {
        Some((b - 0x41 + 10) as nat)
    } else {
        None
    }
}

/// Whether every byte of `s` is an ASCII hexadecimal digit.
pub open spec fn all_hex(s: Seq<u8>) -> bool {
    forall|i: int| 0 <= i < s.len() ==> (#[trigger] hex_digit_value(s[i])) is Some
}

/// The number written by hexadecimal digits (most significant first).
pub open spec fn hex_value(s: Seq<u8>) -> nat
    decreases s.len(),
{
    if s.len() == 0 {
        0
    } else {
        hex_value(s.drop_last()) * 16 + hex_digit_value(s.last())->0
    }
}

/// Reads a field as `from_str_radix(_, 16)` does: an optional `+`, then at least one
/// hexadecimal digit.
pub open spec fn spec_hex_field(s: Seq<u8>) -> Option<nat> {
    let digits = if s.len() > 0 && s[0] == 0x2b {
        s.drop_first()
    } else {
        s
    };
    if digits.len() == 0 || !all_hex(digits) {
        None
    } else {
        Some(hex_value(digits))
    }
}

/// Sixteen to the power `n`.
pub open spec fn pow16(n: nat) -> nat
    decreases n,
{
    if n == 0 {
        1
    } else {
        16 * pow16((n - 1) as nat)
    }
}

/// `n` hexadecimal digits write a number below sixteen to the power `n`.
pub proof fn lemma_hex_value_bound(s: Seq<u8>)
    requires
        all_hex(s),
    ensures
        hex_value(s) < pow16(s.len()),
    decreases s.len(),
{
    if s.len() > 0 {
        let t = s.drop_last();
        assert(all_hex(t)) by {
            assert forall|i: int| 0 <= i < t.len() implies (#[trigger] hex_digit_value(t[i])) is Some by {
                assert(t[i] == s[i]);
            }
        }
        lemma_hex_value_bound(t);
        assert(hex_digit_value(s[s.len() - 1]) is Some);
        let p = pow16(t.len());
        let d = hex_digit_value(s.last())->0;
        assert(d < 16);
        assert(hex_value(t) * 16 + d < p * 16) by (nonlinear_arith)
            requires hex_value(t) < p, d < 16;
    }
}

/// Decodes one hexadecimal digit.
fn hex_digit(b: u8) -> (r: Option<u8>)
    ensures
        match r {
            Some(v) => hex_digit_value(b) == Some(v as nat),
            None => hex_digit_value(b) is None,
        },
{
    if 0x30 <= b && b <= 0x39 {
        Some(b - 0x30)
    } else if 0x61 <= b && b <= 0x66 {
        Some(b - 0x61 + 10)
    } else if 0x41 <= b && b <= 0x46 {
        Some(b - 0x41 + 10)
    } else {
        None
    }
}

/// Reads a field of at most four characters as hexadecimal (see [`spec_hex_field`]).
fn hex_field(s: &[u8]) -> (r: Option<u16>)
    requires
        s@.len() <= 4,
    ensures
        match r {
            Some(v) => spec_hex_field(s@) == Some(v as nat),
            None => spec_hex_field(s@) is None,
        },
{
    let start: usize = if s.len() > 0 && s[0] == 0x2b {
        1
    } else {
        0
    };
    let ghost digits = s@.subrange(start as int, s@.len() as int);
    assert(digits == (if s@.len() > 0 && s@[0] == 0x2b { s@.drop_first() } else { s@ }));
    if start == s.len() {
        return None;
    }
    let mut value: u16 = 0;
    let mut i: usize = start;
    while i < s.len()
        invariant
            start <= i <= s@.len(),
            start < s@.len(),
            s@.len() <= 4,
            digits == s@.subrange(start as int, s@.len() as int),
            digits == (if s@.len() > 0 && s@[0] == 0x2b { s@.drop_first() } else { s@ }),
            all_hex(s@.subrange(start as int, i as int)),
            value as nat == hex_value(s@.subrange(start as int, i as int)),
        decreases s@.len() - i,
    {
        let ghost prev = s@.subrange(start as int, i as int);
        let ghost next = s@.subrange(start as int, i + 1);
        assert(next.drop_last() == prev);
        match hex_digit(s[i]) {
            None => {
                assert(digits[i - start] == s@[i as int]);
                assert(!all_hex(digits));
                return None;
            },
            Some(d) => {
                proof {
                    lemma_hex_value_bound(prev);
                    assert(pow16(0) == 1);
                    assert(pow16(1) == 16);
                    assert(pow16(2) == 256);
                    assert(pow16(3) == 4096);
                    assert(prev.len() <= 3);
                    assert(hex_value(prev) < 4096);
                }
                value = value * 16 + d as u16;
                i = i + 1;
                assert(all_hex(next)) by {
                    assert forall|k: int| 0 <= k < next.len() implies (#[trigger] hex_digit_value(next[k])) is Some by {
                        if k < prev.len() {
                            assert(next[k] == prev[k]);
                        }
                    }
                }
            },
        }
    }
    assert(s@.subrange(start as int, s@.len() as int) == digits);
    Some(value)
}

/// Whether `i` is the first position at or after `pos` that holds `b`.
pub open spec fn is_first_byte_from(s: Seq<u8>, pos: int, b: u8, i: int) -> bool {
    &&& pos <= i < s.len()
    &&& s[i] == b
    &&& forall|j: int| pos <= j < i ==> s[j] != b
}

/// The first position at or after `pos` that holds `b`.
pub open spec fn find_byte_from(s: Seq<u8>, pos: int, b: u8) -> Option<int> {
    if exists|i: int| is_first_byte_from(s, pos, b, i) {
        Some(choose|i: int| is_first_byte_from(s, pos, b, i))
    } else {
        None
    }
}

/// The `n` bytes of `s` starting at `at`.
pub open spec fn field(s: Seq<u8>, at: int, n: int) -> Seq<u8> {
    s.subrange(at, at + n)
}

/// Whether all `count` data byte pairs starting at `at` are hexadecimal.
pub open spec fn data_pairs_hex(s: Seq<u8>, at: int, count: nat) -> bool {
    forall|k: int| 0 <= k < count ==> (#[trigger] spec_hex_field(field(s, at + 2 * k, 2))) is Some
}

/// The `count` data bytes written as hexadecimal pairs starting at `at`.
pub open spec fn data_pairs(s: Seq<u8>, at: int, count: nat) -> Seq<u8> {
    Seq::new(count, |k: int| spec_hex_field(field(s, at + 2 * k, 2))->0 as u8)
}

/// The sum of some bytes.
pub open spec fn byte_sum(d: Seq<u8>) -> nat
    decreases d.len(),
{
    if d.len() == 0 {
        0
    } else {
        (byte_sum(d.drop_last()) + d.last()) as nat
    }
}

/// The checksum a record must carry: the two's complement of the low byte of the sum of all
/// its other bytes.
pub open spec fn record_checksum(count: nat, address: nat, code: nat, data: Seq<u8>) -> nat {
    let actual = (count + address / 256 + address % 256 + code + byte_sum(data)) % 256;
    ((256 - actual) % 256) as nat
}

/// The record made of checked fields, once its type code is known good for its byte count.
pub open spec fn spec_record_typed(count: nat, address: nat, code: nat, data: Seq<u8>, next: int) -> Result<
    (IntelHexRecordView, int),
    IntelHexError,
> {
    match record_type_from_code(code as u8) {
        None => Err(IntelHexError::InvalidRecordType(code as u8)),
        Some(t) => match spec_validate_byte_count(t, count as u8) {
            Err(e) => Err(e),
            Ok(_) => Ok(
                (
                    IntelHexRecordView { byte_count: count as u8, address: address as u16, record_type: t, data },
                    next,
                ),
            ),
        },
    }
}

/// Reads the data pairs and the checksum of a record whose header has been read; `q3` is where
/// its data starts.
pub open spec fn spec_record_body(s: Seq<u8>, q3: int, count: nat, address: nat, code: nat) -> Result<
    (IntelHexRecordView, int),
    IntelHexError,
> {
    let q4 = q3 + 2 * count;
    if q4 > s.len() {
        Err(IntelHexError::UnexpectedEndOfFile)
    } else if !data_pairs_hex(s, q3, count) {
        Err(IntelHexError::InvalidHexDigits)
    } else if q4 + 2 > s.len() {
        Err(IntelHexError::UnexpectedEndOfFile)
    } else {
        match spec_hex_field(field(s, q4, 2)) {
            None => Err(IntelHexError::InvalidHexDigits),
            Some(expected) => {
                let data = data_pairs(s, q3, count);
                if expected != record_checksum(count, address, code, data) {
                    Err(IntelHexError::ChecksumInvalid)
                } else {
                    spec_record_typed(count, address, code, data, q4 + 2)
                }
            },
        }
    }
}

/// Reads the record whose `:` stands just before `q0`.
pub open spec fn spec_record_at(s: Seq<u8>, q0: int) -> Result<(IntelHexRecordView, int), IntelHexError> {
    if q0 + 2 > s.len() {
        Err(IntelHexError::UnexpectedEndOfFile)
    } else {
        match spec_hex_field(field(s, q0, 2)) {
            None => Err(IntelHexError::InvalidHexDigits),
            Some(count) => if q0 + 6 > s.len() {
                Err(IntelHexError::UnexpectedEndOfFile)
            } else {
                match spec_hex_field(field(s, q0 + 2, 4)) {
                    None => Err(IntelHexError::InvalidHexDigits),
                    Some(address) => if q0 + 8 > s.len() {
                        Err(IntelHexError::UnexpectedEndOfFile)
                    } else {
                        match spec_hex_field(field(s, q0 + 6, 2)) {
                            None => Err(IntelHexError::InvalidHexDigits),
                            Some(code) => spec_record_body(s, q0 + 8, count, address, code),
                        }
                    },
                }
            },
        }
    }
}

/// Reads the record that starts at the first `:` at or after `pos`; gives the record and the
/// position just after it.
pub open spec fn spec_read_record(s: Seq<u8>, pos: int) -> Result<(IntelHexRecordView, int), IntelHexError> {
    match find_byte_from(s, pos, 0x3a) {
        None => Err(IntelHexError::UnexpectedEndOfFile),
        Some(c) => spec_record_at(s, c + 1),
    }
}

/// A two-character field holds a byte.
proof fn lemma_hex_field_bound(s: Seq<u8>)
    ensures
        s.len() <= 2 && spec_hex_field(s) is Some ==> spec_hex_field(s)->0 < 256,
{
    if s.len() <= 2 && spec_hex_field(s) is Some {
        let digits = if s.len() > 0 && s[0] == 0x2b {
            s.drop_first()
        } else {
            s
        };
        lemma_hex_value_bound(digits);
        assert(pow16(0) == 1);
        assert(pow16(1) == 16);
        assert(pow16(2) == 256);
    }
}

/// Finds the first `b` at or after `pos`.
pub(crate) fn find_byte(s: &[u8], pos: usize, b: u8) -> (r: Option<usize>)
    requires
        pos <= s@.len(),
    ensures
        match r {
            Some(i) => find_byte_from(s@, pos as int, b) == Some(i as int) && is_first_byte_from(
                s@,
                pos as int,
                b,
                i as int,
            ),
            None => find_byte_from(s@, pos as int, b) is None,
        },
{
    let mut i: usize = pos;
    while i < s.len()
        invariant
            pos <= i <= s@.len(),
            forall|j: int| pos <= j < i ==> s@[j] != b,
        decreases s@.len() - i,
    {
        if s[i] == b {
            proof {
                assert(is_first_byte_from(s@, pos as int, b, i as int));
                let k = choose|k: int| is_first_byte_from(s@, pos as int, b, k);
                assert(is_first_byte_from(s@, pos as int, b, k));
                if k < i {
                    assert(s@[k] != b);
                }
                if i < k {
                    assert(s@[i as int] != b);
                }
            }
            return Some(i);
        }
        i = i + 1;
    }
    None
}

/// Decodes `n` hexadecimal byte pairs starting at `at`, with the low byte of their sum.
fn decode_pairs(s: &[u8], at: usize, n: usize) -> (r: Option<(Vec<u8>, u8)>)
    requires
        at + 2 * n <= s@.len(),
    ensures
        match r {
            Some((data, sum)) => data_pairs_hex(s@, at as int, n as nat) && data@ == data_pairs(
                s@,
                at as int,
                n as nat,
            ) && sum as nat == byte_sum(data@) % 256,
            None => !data_pairs_hex(s@, at as int, n as nat),
        },
{
    let mut data: Vec<u8> = Vec::new();
    let mut sum: u8 = 0;
    let mut k: usize = 0;
    while k < n
        invariant
            k <= n,
            at + 2 * n <= s.len(),
            data@.len() == k,
            forall|j: int| 0 <= j < k ==> (#[trigger] spec_hex_field(field(s@, at + 2 * j, 2))) is Some,
            data@ == data_pairs(s@, at as int, n as nat).subrange(0, k as int),
            sum as nat == byte_sum(data@) % 256,
        decreases n - k,
    {
        let p = at + 2 * k;
        match hex_field(&s[p..p + 2]) {
            None => {
                assert(field(s@, p as int, 2) == s@.subrange(p as int, p + 2));
                return None;
            },
            Some(v) => {
                proof {
                    assert(field(s@, p as int, 2) == s@.subrange(p as int, p + 2));
                    lemma_hex_field_bound(field(s@, p as int, 2));
                }
                let ghost prev = data@;
                data.push(v as u8);
                assert(data@.drop_last() == prev);
                sum = sum.wrapping_add(v as u8);
                k = k + 1;
                assert(data@ =~= data_pairs(s@, at as int, n as nat).subrange(0, k as int));
            },
        }
    }
    assert(data@ =~= data_pairs(s@, at as int, n as nat));
    Some((data, sum))
}

/// The record made of checked fields (see [`spec_record_typed`]).
fn record_typed(count: u8, address: u16, code: u8, data: Vec<u8>, next: usize) -> (r: Result<
    (IntelHexRecord, usize),
    IntelHexError,
>)
    ensures
        match r {
            Ok((rec, q)) => spec_record_typed(count as nat, address as nat, code as nat, data@, next as int) == Ok::<
                (IntelHexRecordView, int),
                IntelHexError,
            >((rec@, q as int)),
            Err(e) => spec_record_typed(count as nat, address as nat, code as nat, data@, next as int) == Err::<
                (IntelHexRecordView, int),
                IntelHexError,
            >(e),
        },
{
    let record_type = match IntelHexRecordType::try_from(code) {
        Err(e) => return Err(e),
        Ok(t) => t,
    };
    match record_type.validate_byte_count(count) {
        Err(e) => Err(e),
        Ok(_) => Ok((IntelHexRecord { byte_count: count, address, record_type, data }, next)),
    }
}

/// Whether `expected` is the checksum of a record with these fields, where `sum` is the low
/// byte of the sum of its data bytes.
fn checksum_ok(count: u8, address: u16, code: u8, sum: u8, expected: u8, Ghost(data): Ghost<Seq<u8>>) -> (b: bool)
    requires
        sum as nat == byte_sum(data) % 256,
    ensures
        b == (expected as nat == record_checksum(count as nat, address as nat, code as nat, data)),
{
    let total: u32 = count as u32 + (address / 256) as u32 + (address % 256) as u32 + code as u32 + sum as u32;
    let actual: u32 = total % 256;
    proof {
        let x = count as int + address as int / 256 + address as int % 256 + code as int;
        vstd::arithmetic::div_mod::lemma_add_mod_noop(x, byte_sum(data) as int, 256);
        vstd::arithmetic::div_mod::lemma_add_mod_noop(x, sum as int, 256);
        vstd::arithmetic::div_mod::lemma_mod_twice(byte_sum(data) as int, 256);
    }
    expected as u32 == (256 - actual) % 256
}

/// Reads the data and checksum of a record (see [`spec_record_body`]).
fn record_body(s: &[u8], q3: usize, count: u8, address: u16, code: u8) -> (r: Result<
    (IntelHexRecord, usize),
    IntelHexError,
>)
    requires
        q3 <= s@.len(),
    ensures
        match r {
            Ok((rec, q)) => spec_record_body(s@, q3 as int, count as nat, address as nat, code as nat) == Ok::<
                (IntelHexRecordView, int),
                IntelHexError,
            >((rec@, q as int)),
            Err(e) => spec_record_body(s@, q3 as int, count as nat, address as nat, code as nat) == Err::<
                (IntelHexRecordView, int),
                IntelHexError,
            >(e),
        },
{
    let n = count as usize;
    if (s.len() - q3) / 2 < n {
        return Err(IntelHexError::UnexpectedEndOfFile);
    }
    let (data, sum) = match decode_pairs(s, q3, n) {
        None => return Err(IntelHexError::InvalidHexDigits),
        Some(d) => d,
    };
    let q4 = q3 + 2 * n;
    if s.len() - q4 < 2 {
        return Err(IntelHexError::UnexpectedEndOfFile);
    }
    let expected = match hex_field(&s[q4..q4 + 2]) {
        None => {
            assert(field(s@, q4 as int, 2) == s@.subrange(q4 as int, q4 + 2));
            return Err(IntelHexError::InvalidHexDigits);
        },
        Some(v) => v,
    };
    proof {
        assert(field(s@, q4 as int, 2) == s@.subrange(q4 as int, q4 + 2));
        lemma_hex_field_bound(field(s@, q4 as int, 2));
    }
    if !checksum_ok(count, address, code, sum, expected as u8, Ghost(data@)) {
        return Err(IntelHexError::ChecksumInvalid);
    }
    record_typed(count, address, code, data, q4 + 2)
}

/// Reads the record whose `:` stands just before `q0` (see [`spec_record_at`]).
fn record_at(s: &[u8], q0: usize) -> (r: Result<(IntelHexRecord, usize), IntelHexError>)
    requires
        q0 <= s@.len(),
    ensures
        match r {
            Ok((rec, q)) => spec_record_at(s@, q0 as int) == Ok::<(IntelHexRecordView, int), IntelHexError>(
                (rec@, q as int),
            ),
            Err(e) => spec_record_at(s@, q0 as int) == Err::<(IntelHexRecordView, int), IntelHexError>(e),
        },
{
    if s.len() - q0 < 2 {
        return Err(IntelHexError::UnexpectedEndOfFile);
    }
    assert(field(s@, q0 as int, 2) == s@.subrange(q0 as int, q0 + 2));
    let count = match hex_field(&s[q0..q0 + 2]) {
        None => return Err(IntelHexError::InvalidHexDigits),
        Some(v) => v,
    };
    proof {
        lemma_hex_field_bound(field(s@, q0 as int, 2));
    }
    if s.len() - q0 < 6 {
        return Err(IntelHexError::UnexpectedEndOfFile);
    }
    assert(field(s@, q0 + 2, 4) == s@.subrange(q0 + 2, q0 + 6));
    let address = match hex_field(&s[q0 + 2..q0 + 6]) {
        None => return Err(IntelHexError::InvalidHexDigits),
        Some(v) => v,
    };
    if s.len() - q0 < 8 {
        return Err(IntelHexError::UnexpectedEndOfFile);
    }
    assert(field(s@, q0 + 6, 2) == s@.subrange(q0 + 6, q0 + 8));
    let code = match hex_field(&s[q0 + 6..q0 + 8]) {
        None => return Err(IntelHexError::InvalidHexDigits),
        Some(v) => v,
    };
    proof {
        lemma_hex_field_bound(field(s@, q0 + 6, 2));
    }
    record_body(s, q0 + 8, count as u8, address, code as u8)
}

/// Reads a record (see [`spec_read_record`]).
pub fn read_record(s: &[u8], pos: usize) -> (r: Result<(IntelHexRecord, usize), IntelHexError>)
    requires
        pos <= s@.len(),
    ensures
        match r {
            Ok((rec, next)) => spec_read_record(s@, pos as int) == Ok::<(IntelHexRecordView, int), IntelHexError>(
                (rec@, next as int),
            ),
            Err(e) => spec_read_record(s@, pos as int) == Err::<(IntelHexRecordView, int), IntelHexError>(e),
        },
{
    match find_byte(s, pos, 0x3a) {
        None => Err(IntelHexError::UnexpectedEndOfFile),
        Some(c) => {
            assert(c < s.len());
            record_at(s, c + 1)
        },
    }
}


/// What a successful read of a record promises: it moves forward and the record is well formed.
pub proof fn lemma_read_record_facts(s: Seq<u8>, pos: int)
    requires
        0 <= pos,
    ensures
        spec_read_record(s, pos) matches Ok((r, q)) ==> q > pos && record_wf(r),
{
    match find_byte_from(s, pos, 0x3a) {
        None => {},
        Some(c) => {
            assert(is_first_byte_from(s, pos, 0x3a, c));
            let q0 = c + 1;
            if spec_record_at(s, q0) is Ok {
                lemma_hex_field_bound(field(s, q0, 2));
                let count = spec_hex_field(field(s, q0, 2))->0;
                let address = spec_hex_field(field(s, q0 + 2, 4))->0;
                let code = spec_hex_field(field(s, q0 + 6, 2))->0;
                assert(spec_record_at(s, q0) == spec_record_body(s, q0 + 8, count, address, code));
                let data = data_pairs(s, q0 + 8, count);
                assert(data.len() == count);
                assert(count as u8 == count);
                assert(spec_record_body(s, q0 + 8, count, address, code) == spec_record_typed(
                    count,
                    address,
                    code,
                    data,
                    q0 + 8 + 2 * count + 2,
                ));
            }
        },
    }
}

/// The first position at or after `pos` that is not a carriage return or a line feed.
pub open spec fn skip_line_ends(s: Seq<u8>, pos: int) -> int
    decreases s.len() - pos,
{
    if 0 <= pos < s.len() && (s[pos] == 0x0d || s[pos] == 0x0a) {
        skip_line_ends(s, pos + 1)
    } else {
        pos
    }
}

/// Prepends records to a successful read.
pub open spec fn prepend_records(front: Seq<IntelHexRecordView>, rest: Result<Seq<IntelHexRecordView>, IntelHexError>) -> Result<
    Seq<IntelHexRecordView>,
    IntelHexError,
> {
    match rest {
        Ok(rs) => Ok(front + rs),
        Err(e) => Err(e),
    }
}

/// Reads records from `pos` on: after each record the line ends are skipped, and the file ends
/// where they run to its end.
pub open spec fn spec_read_records(s: Seq<u8>, pos: int) -> Result<Seq<IntelHexRecordView>, IntelHexError>
    decreases s.len() - pos,
{
    match spec_read_record(s, pos) {
        Err(e) => Err(e),
        Ok((r, q)) => {
            let p = skip_line_ends(s, q);
            if p >= s.len() {
                Ok(seq![r])
            } else if p <= pos {
                // a record always moves forward (see `lemma_read_record_facts`)
                Err(IntelHexError::UnexpectedEndOfFile)
            } else {
                prepend_records(seq![r], spec_read_records(s, p))
            }
        },
    }
}

/// The models of some records.
pub open spec fn records_view(v: Seq<IntelHexRecord>) -> Seq<IntelHexRecordView> {
    v.map_values(|r: IntelHexRecord| r@)
}

/// Skips carriage returns and line feeds.
fn skip_line_ends_exec(s: &[u8], pos: usize) -> (r: usize)
    requires
        pos <= s@.len(),
    ensures
        r as int == skip_line_ends(s@, pos as int),
        pos <= r <= s@.len(),
{
    let mut i = pos;
    while i < s.len() && (s[i] == 0x0d || s[i] == 0x0a)
        invariant
            pos <= i <= s@.len(),
            skip_line_ends(s@, i as int) == skip_line_ends(s@, pos as int),
        decreases s@.len() - i,
    {
        i = i + 1;
    }
    i
}

/// Reads all the records of a file (see [`spec_read_records`]).
pub fn read_records(s: &[u8]) -> (r: Result<Vec<IntelHexRecord>, IntelHexError>)
    ensures
        match r {
            Ok(v) => spec_read_records(s@, 0) == Ok::<Seq<IntelHexRecordView>, IntelHexError>(records_view(v@))
                && forall|i: int| 0 <= i < v@.len() ==> record_wf(#[trigger] v@[i]@),
            Err(e) => spec_read_records(s@, 0) == Err::<Seq<IntelHexRecordView>, IntelHexError>(e),
        },
{
    let mut records: Vec<IntelHexRecord> = Vec::new();
    let mut pos: usize = 0;
    loop
        invariant
            pos <= s@.len(),
            spec_read_records(s@, 0) == prepend_records(records_view(records@), spec_read_records(s@, pos as int)),
            forall|i: int| 0 <= i < records@.len() ==> record_wf(#[trigger] records@[i]@),
        decreases s@.len() - pos,
    {
        let ghost old_records = records@;
        proof {
            lemma_read_record_facts(s@, pos as int);
        }
        match read_record(s, pos) {
            Err(e) => {
                return Err(e);
            },
            Ok((rec, q)) => {
                let ghost rv = rec@;
                let p = skip_line_ends_exec(s, q);
                records.push(rec);
                assert(records_view(records@) =~= records_view(old_records) + seq![rv]);
                if p >= s.len() {
                    return Ok(records);
                }
                assert(prepend_records(records_view(old_records), prepend_records(seq![rv], spec_read_records(s@, p as int)))
                    == prepend_records(records_view(records@), spec_read_records(s@, p as int))) by {
                    match spec_read_records(s@, p as int) {
                        Ok(rs) => {
                            assert(records_view(old_records) + (seq![rv] + rs) =~= records_view(records@) + rs);
                        },
                        Err(_) => {},
                    }
                }
                pos = p;
            },
        }
    }
}

/// A run of contiguous data and the address where it starts.
#[derive(Debug, PartialEq, Eq, Clone)]
pub struct IntelHexSegment {
    pub base_address: u32,
    pub data: Vec<u8>,
}

impl View for IntelHexSegment {
    type V = (u32, Seq<u8>);

    open spec fn view(&self) -> (u32, Seq<u8>) {
        (self.base_address, self.data@)
    }
}

/// The models of some segments.
pub open spec fn segments_view(v: Seq<IntelHexSegment>) -> Seq<(u32, Seq<u8>)> {
    v.map_values(|g: IntelHexSegment| g@)
}

/// Where the scan of the records stands: the current base address, the segment being gathered
/// (from `begin` to `end`, holding `data`), and the segments closed so far.
pub struct SegmentScan {
    pub base: u32,
    pub begin: u32,
    pub end: u32,
    pub data: Seq<u8>,
    pub segments: Seq<(u32, Seq<u8>)>,
}

/// The scan before any record.
pub open spec fn scan_start() -> SegmentScan {
    SegmentScan { base: 0, begin: 0, end: 0, data: seq![], segments: seq![] }
}

/// The closed segments, with the one being gathered added if it holds data.
pub open spec fn close_segment(st: SegmentScan) -> Seq<(u32, Seq<u8>)> {
    if st.end != st.begin {
        st.segments.push((st.begin, st.data))
    } else {
        st.segments
    }
}

/// The first `n` bytes of `d` read as a big-endian number.
pub open spec fn be_value(d: Seq<u8>, n: int) -> nat
    decreases n,
{
    if n <= 0 {
        0
    } else {
        (be_value(d, n - 1) * 256 + d[n - 1]) as nat
    }
}

/// One record's effect on the scan; `last` says whether it is the file's last record.
pub open spec fn scan_step(st: SegmentScan, r: IntelHexRecordView, last: bool) -> Result<SegmentScan, IntelHexError> {
    match r.record_type {
        IntelHexRecordType::Data => {
            let address = st.base + r.address;
            if address > 0xffff_ffff {
                Err(IntelHexError::AddressOverflow)
            } else {
                let fresh = st.end != address;
                let end = address + r.byte_count;
                if end > 0xffff_ffff {
                    Err(IntelHexError::AddressOverflow)
                } else {
                    Ok(
                        SegmentScan {
                            base: st.base,
                            begin: if fresh {
                                address as u32
                            } else {
                                st.begin
                            },
                            end: end as u32,
                            data: (if fresh {
                                seq![]
                            } else {
                                st.data
                            }) + r.data,
                            segments: if fresh {
                                close_segment(st)
                            } else {
                                st.segments
                            },
                        },
                    )
                }
            }
        },
        IntelHexRecordType::EndOfFile => if !last {
            Err(IntelHexError::PrematureEndOfFileRecord)
        } else {
            Ok(
                SegmentScan {
                    base: st.base,
                    begin: st.begin,
                    end: st.end,
                    data: if st.end != st.begin {
                        seq![]
                    } else {
                        st.data
                    },
                    segments: close_segment(st),
                },
            )
        },
        IntelHexRecordType::ExtendedLinearAddress => Ok(
            SegmentScan {
                base: (be_value(r.data, 2) * 65536) as u32,
                begin: st.begin,
                end: st.end,
                data: st.data,
                segments: st.segments,
            },
        ),
        IntelHexRecordType::StartLinearAddress => Ok(
            SegmentScan {
                base: be_value(r.data, 4) as u32,
                begin: st.begin,
                end: st.end,
                data: st.data,
                segments: st.segments,
            },
        ),
        _ => Err(IntelHexError::UnsupportedRecordType),
    }
}

/// The scan after the first `k` of the records `rs`.
pub open spec fn scan_prefix(rs: Seq<IntelHexRecordView>, k: int) -> Result<SegmentScan, IntelHexError>
    decreases k,
{
    if k <= 0 {
        Ok(scan_start())
    } else {
        match scan_prefix(rs, k - 1) {
            Err(e) => Err(e),
            Ok(st) => scan_step(st, rs[k - 1], k == rs.len()),
        }
    }
}

/// The segments that the records describe, in the order in which they were closed.
pub open spec fn spec_from_records(rs: Seq<IntelHexRecordView>) -> Result<Seq<(u32, Seq<u8>)>, IntelHexError> {
    match scan_prefix(rs, rs.len() as int) {
        Err(e) => Err(e),
        Ok(st) => Ok(st.segments),
    }
}

/// Whether every segment ends within the 32-bit address space.
pub open spec fn segments_fit(segs: Seq<(u32, Seq<u8>)>) -> bool {
    forall|i: int| 0 <= i < segs.len() ==> (#[trigger] segs[i]).0 + segs[i].1.len() <= 0xffff_ffff
}


/// Appends bytes to a buffer.
fn extend_bytes(dst: &mut Vec<u8>, src: &[u8])
    ensures
        final(dst)@ == old(dst)@ + src@,
{
    let mut i: usize = 0;
    while i < src.len()
        invariant
            i <= src@.len(),
            dst@ == old(dst)@ + src@.subrange(0, i as int),
        decreases src@.len() - i,
    {
        dst.push(src[i]);
        i = i + 1;
        assert(dst@ =~= old(dst)@ + src@.subrange(0, i as int));
    }
    assert(src@.subrange(0, src@.len() as int) =~= src@);
}

/// Once the scan has failed, it stays failed with the same error.
proof fn lemma_scan_error_sticks(rs: Seq<IntelHexRecordView>, k: int, m: int)
    requires
        0 <= k <= m,
        scan_prefix(rs, k) is Err,
    ensures
        scan_prefix(rs, m) == scan_prefix(rs, k),
    decreases m - k,
{
    if m > k {
        lemma_scan_error_sticks(rs, k, m - 1);
    }
}

/// Gathers the data of the records into segments (see [`spec_from_records`]).
pub fn from_records(records: &[IntelHexRecord]) -> (r: Result<Vec<IntelHexSegment>, IntelHexError>)
    requires
        forall|i: int| 0 <= i < records@.len() ==> record_wf(#[trigger] records@[i]@),
    ensures
        match r {
            Ok(v) => spec_from_records(records_view(records@)) == Ok::<Seq<(u32, Seq<u8>)>, IntelHexError>(
                segments_view(v@),
            ) && segments_fit(segments_view(v@)),
            Err(e) => spec_from_records(records_view(records@)) == Err::<Seq<(u32, Seq<u8>)>, IntelHexError>(e),
        },
{
    let ghost rs = records_view(records@);
    let mut base: u32 = 0;
    let mut begin: u32 = 0;
    let mut end: u32 = 0;
    let mut segment_data: Vec<u8> = Vec::new();
    let mut segments: Vec<IntelHexSegment> = Vec::new();
    let mut idx: usize = 0;
    assert(segments_view(segments@) =~= seq![]);
    assert(segment_data@ =~= seq![]);
    while idx < records.len()
        invariant
            idx <= records@.len(),
            rs == records_view(records@),
            forall|i: int| 0 <= i < records@.len() ==> record_wf(#[trigger] records@[i]@),
            scan_prefix(rs, idx as int) == Ok::<SegmentScan, IntelHexError>(
                SegmentScan { base, begin, end, data: segment_data@, segments: segments_view(segments@) },
            ),
            idx < records@.len() ==> begin + segment_data@.len() == end,
            segments_fit(segments_view(segments@)),
        decreases records@.len() - idx,
    {
        let record = &records[idx];
        let ghost st = SegmentScan { base, begin, end, data: segment_data@, segments: segments_view(segments@) };
        let ghost old_segments = segments@;
        assert(rs[idx as int] == record@);
        assert(record_wf(records@[idx as int]@));
        assert(scan_prefix(rs, idx + 1) == scan_step(st, record@, idx + 1 == rs.len()));
        match record.record_type {
            IntelHexRecordType::Data => {
                let address64: u64 = base as u64 + record.address as u64;
                if address64 > 0xffff_ffff {
                    proof {
                        lemma_scan_error_sticks(rs, idx + 1, rs.len() as int);
                    }
                    return Err(IntelHexError::AddressOverflow);
                }
                let address = address64 as u32;
                if end != address {
                    if end != begin {
                        segments.push(IntelHexSegment { base_address: begin, data: segment_data });
                        assert(segments_view(segments@) =~= segments_view(old_segments).push((begin, st.data)));
                    }
                    begin = address;
                    end = address;
                    segment_data = Vec::new();
                    assert(segment_data@ =~= seq![]);
                }
                let end64: u64 = end as u64 + record.byte_count as u64;
                if end64 > 0xffff_ffff {
                    proof {
                        lemma_scan_error_sticks(rs, idx + 1, rs.len() as int);
                    }
                    return Err(IntelHexError::AddressOverflow);
                }
                extend_bytes(&mut segment_data, record.data.as_slice());
                end = end64 as u32;
            },
            IntelHexRecordType::EndOfFile => {
                if idx + 1 != records.len() {
                    proof {
                        lemma_scan_error_sticks(rs, idx + 1, rs.len() as int);
                    }
                    return Err(IntelHexError::PrematureEndOfFileRecord);
                }
                if end != begin {
                    segments.push(IntelHexSegment { base_address: begin, data: segment_data });
                    assert(segments_view(segments@) =~= segments_view(old_segments).push((begin, st.data)));
                    segment_data = Vec::new();
                    assert(segment_data@ =~= seq![]);
                }
            },
            IntelHexRecordType::ExtendedLinearAddress => {
                let high: u32 = record.data[0] as u32 * 256 + record.data[1] as u32;
                proof {
                    reveal_with_fuel(be_value, 3);
                }
                base = high * 65536;
            },
            IntelHexRecordType::StartLinearAddress => {
                let v: u64 = ((record.data[0] as u64 * 256 + record.data[1] as u64) * 256 + record.data[2] as u64)
                    * 256 + record.data[3] as u64;
                proof {
                    reveal_with_fuel(be_value, 5);
                }
                base = v as u32;
            },
            _ => {
                proof {
                    lemma_scan_error_sticks(rs, idx + 1, rs.len() as int);
                }
                return Err(IntelHexError::UnsupportedRecordType);
            },
        }
        idx = idx + 1;
    }
    Ok(segments)
}

/// Orders segments by address, a later segment at the same address replacing an earlier one
/// (see [`address_map::sorted_keyed`]).
pub fn collect_segments(list: Vec<IntelHexSegment>) -> (r: Vec<IntelHexSegment>)
    requires
        segments_fit(segments_view(list@)),
    ensures
        segments_view(r@) == address_map::sorted_keyed(segments_view(list@)),
        address_map::keys_strictly_sorted(segments_view(r@)),
        segments_fit(segments_view(r@)),
{
    let ghost orig = segments_view(list@);
    let mut list = list;
    let mut sorted: Vec<IntelHexSegment> = Vec::new();
    let ghost mut k: int = 0;
    assert(segments_view(sorted@) =~= seq![]);
    assert(orig.take(0) =~= seq![]);
    assert(segments_view(list@) =~= orig.subrange(0, orig.len() as int));
    while list.len() > 0
        invariant
            0 <= k <= orig.len(),
            segments_fit(orig),
            segments_view(list@) == orig.subrange(k, orig.len() as int),
            segments_view(sorted@) == address_map::sorted_keyed(orig.take(k)),
            address_map::keys_strictly_sorted(segments_view(sorted@)),
            segments_fit(segments_view(sorted@)),
        decreases list@.len(),
    {
        let ghost old_list = list@;
        let ghost old_sorted = sorted@;
        let ghost sv = segments_view(old_sorted);
        assert(segments_view(old_list).len() == old_list.len());
        assert(segments_view(old_list)[0] == old_list[0]@);
        assert(orig.subrange(k, orig.len() as int)[0] == orig[k]);
        let g = list.remove(0);
        assert(g@ == orig[k]);
        assert(segments_view(list@) =~= orig.subrange(k + 1, orig.len() as int)) by {
            assert forall|j: int| 0 <= j < list@.len() implies segments_view(list@)[j] == orig[k + 1 + j] by {
                assert(list@[j] == old_list[j + 1]);
                assert(segments_view(old_list)[j + 1] == old_list[j + 1]@);
            }
        }
        let mut i: usize = 0;
        while i < sorted.len() && sorted[i].base_address < g.base_address
            invariant
                i <= sorted@.len(),
                sorted@ == old_sorted,
                sv == segments_view(sorted@),
                sv.len() == sorted@.len(),
                forall|j: int| 0 <= j < i ==> (#[trigger] sv[j]).0 < g.base_address,
            decreases sorted@.len() - i,
        {
            assert(sv[i as int].0 == sorted@[i as int].base_address);
            i = i + 1;
        }
        proof {
            if i < sv.len() {
                assert(sv[i as int].0 == sorted@[i as int].base_address);
            }
            address_map::lemma_insert_keyed_at(sv, g@, i as int);
            assert(orig.take(k + 1).drop_last() =~= orig.take(k));
            assert(orig.take(k + 1).last() == orig[k]);
        }
        let ghost gv = g@;
        if i < sorted.len() && sorted[i].base_address == g.base_address {
            sorted.set(i, g);
            assert(segments_view(sorted@) =~= sv.update(i as int, gv));
        } else {
            sorted.insert(i, g);
            assert(segments_view(sorted@) =~= sv.insert(i as int, gv));
        }
        proof {
            k = k + 1;
            let nv = segments_view(sorted@);
            assert forall|j: int| 0 <= j < nv.len() implies (#[trigger] nv[j]).0 + nv[j].1.len() <= 0xffff_ffff by {
                if nv[j] != gv {
                    assert(exists|m: int| 0 <= m < sv.len() && sv[m] == nv[j]);
                }
            }
        }
    }
    assert(orig.take(k) =~= orig);
    sorted
}


/// Where the flattened image loads: the address of the first segment, or 0 without segments.
pub open spec fn image_load_address(segs: Seq<(u32, Seq<u8>)>) -> u32 {
    if segs.len() == 0 {
        0
    } else {
        segs[0].0
    }
}

/// The length of the flattened image: from the first segment's address to the last segment's end.
pub open spec fn image_length(segs: Seq<(u32, Seq<u8>)>) -> nat {
    if segs.len() == 0 {
        0
    } else {
        let end = segs.last().0 + segs.last().1.len();
        if end > segs[0].0 {
            (end - segs[0].0) as nat
        } else {
            0
        }
    }
}

/// `img` with `d` written over it from offset `off` on.
pub open spec fn paint(img: Seq<u8>, off: int, d: Seq<u8>) -> Seq<u8> {
    Seq::new(img.len(), |i: int| if off <= i < off + d.len() { d[i - off] } else { img[i] })
}

/// `n` erased bytes.
pub open spec fn erased_image(n: nat) -> Seq<u8> {
    Seq::new(n, |i: int| 0xffu8)
}

/// `img` with the first `k` segments written over it in order, each at its address less `load`.
pub open spec fn paint_segments(segs: Seq<(u32, Seq<u8>)>, load: int, k: int, img: Seq<u8>) -> Seq<u8>
    decreases k,
{
    if k <= 0 {
        img
    } else {
        paint(paint_segments(segs, load, k - 1, img), segs[k - 1].0 - load, segs[k - 1].1)
    }
}

/// Whether a segment lies within an image of `total` bytes loading at `load`.
pub open spec fn segment_inside(g: (u32, Seq<u8>), load: int, total: int) -> bool {
    g.0 - load + g.1.len() <= total
}

/// The flattened image of segments ordered by address: erased bytes, with every segment written
/// at its place in order; it fails where a segment reaches past the end of the image.
pub open spec fn spec_firmware_image(segs: Seq<(u32, Seq<u8>)>) -> Result<Seq<u8>, IntelHexError> {
    let load = image_load_address(segs) as int;
    let total = image_length(segs);
    if exists|i: int| 0 <= i < segs.len() && !segment_inside(#[trigger] segs[i], load, total as int) {
        Err(IntelHexError::SegmentOutsideImage)
    } else {
        Ok(paint_segments(segs, load, segs.len() as int, erased_image(total)))
    }
}

/// Builds the flattened image of segments ordered by address (see [`spec_firmware_image`]).
pub fn build_firmware_image(segs: &[IntelHexSegment]) -> (r: Result<Vec<u8>, IntelHexError>)
    requires
        address_map::keys_strictly_sorted(segments_view(segs@)),
        segments_fit(segments_view(segs@)),
    ensures
        match r {
            Ok(img) => spec_firmware_image(segments_view(segs@)) == Ok::<Seq<u8>, IntelHexError>(img@),
            Err(e) => spec_firmware_image(segments_view(segs@)) == Err::<Seq<u8>, IntelHexError>(e),
        },
{
    let ghost sv = segments_view(segs@);
    assert(sv.len() == segs@.len());
    let n = segs.len();
    let load: u32 = if n == 0 {
        0
    } else {
        segs[0].base_address
    };
    let total: usize = if n == 0 {
        0
    } else {
        assert(sv[n - 1] == segs@[n - 1]@);
        assert(sv[0] == segs@[0]@);
        let end: u32 = segs[n - 1].base_address + segs[n - 1].data.len() as u32;
        if end > load {
            (end - load) as usize
        } else {
            0
        }
    };
    assert(load == image_load_address(sv));
    assert(total == image_length(sv));
    let mut image: Vec<u8> = Vec::new();
    while image.len() < total
        invariant
            image@.len() <= total,
            forall|i: int| 0 <= i < image@.len() ==> image@[i] == 0xffu8,
        decreases total - image@.len(),
    {
        image.push(0xff);
    }
    assert(image@ =~= erased_image(total as nat));
    let mut k: usize = 0;
    while k < n
        invariant
            k <= n,
            n == segs@.len(),
            sv == segments_view(segs@),
            sv.len() == n,
            address_map::keys_strictly_sorted(sv),
            segments_fit(sv),
            load == image_load_address(sv),
            total == image_length(sv),
            forall|j: int| 0 <= j < k ==> segment_inside(#[trigger] sv[j], load as int, total as int),
            image@ == paint_segments(sv, load as int, k as int, erased_image(total as nat)),
            image@.len() == total,
        decreases n - k,
    {
        let seg = &segs[k];
        assert(sv[k as int] == seg@);
        assert(seg.base_address >= load) by {
            if k > 0 {
                assert(sv[0].0 < sv[k as int].0);
            }
        }
        let off: usize = (seg.base_address - load) as usize;
        let len: usize = seg.data.len();
        if off > total || len > total - off {
            assert(!segment_inside(sv[k as int], load as int, total as int));
            return Err(IntelHexError::SegmentOutsideImage);
        }
        let ghost prev = image@;
        let mut j: usize = 0;
        assert(image@ =~= paint(prev, off as int, seg.data@.subrange(0, 0)));
        while j < len
            invariant
                j <= len,
                len == seg.data@.len(),
                off + len <= total,
                prev.len() == total,
                image@ == paint(prev, off as int, seg.data@.subrange(0, j as int)),
            decreases len - j,
        {
            image.set(off + j, seg.data[j]);
            j = j + 1;
            assert(image@ =~= paint(prev, off as int, seg.data@.subrange(0, j as int)));
        }
        assert(seg.data@.subrange(0, len as int) =~= seg.data@);
        k = k + 1;
    }
    assert(!exists|i: int| 0 <= i < sv.len() && !segment_inside(#[trigger] sv[i], load as int, total as int));
    Ok(image)
}

/// An Intel HEX firmware file: its segments ordered by address, and the flattened image.
pub struct IntelHexFirmwareFile {
    segments: Vec<IntelHexSegment>,
    firmware_image: Vec<u8>,
}

/// Mathematical model of an [`IntelHexFirmwareFile`].
pub struct IntelHexFirmwareFileView {
    pub segments: Seq<(u32, Seq<u8>)>,
    pub image: Seq<u8>,
}

impl View for IntelHexFirmwareFile {
    type V = IntelHexFirmwareFileView;

    closed spec fn view(&self) -> IntelHexFirmwareFileView {
        IntelHexFirmwareFileView { segments: segments_view(self.segments@), image: self.firmware_image@ }
    }
}

/// What an Intel HEX file's bytes hold: its records are read, gathered into segments, the
/// segments ordered by address (a later one at the same address replacing an earlier one),
/// and flattened into one image.
pub open spec fn spec_intel_hex_file(s: Seq<u8>) -> Result<IntelHexFirmwareFileView, IntelHexError> {
    match spec_read_records(s, 0) {
        Err(e) => Err(e),
        Ok(rs) => match spec_from_records(rs) {
            Err(e) => Err(e),
            Ok(list) => {
                let segs = address_map::sorted_keyed(list);
                match spec_firmware_image(segs) {
                    Err(e) => Err(e),
                    Ok(image) => Ok(IntelHexFirmwareFileView { segments: segs, image }),
                }
            },
        },
    }
}

impl IntelHexFirmwareFile {
    /// Reads an Intel HEX file from its bytes (see [`spec_intel_hex_file`]).
    pub fn try_from(bytes: &[u8]) -> (r: Result<Self, IntelHexError>)
        ensures
            match r {
                Ok(f) => spec_intel_hex_file(bytes@) == Ok::<IntelHexFirmwareFileView, IntelHexError>(f@),
                Err(e) => spec_intel_hex_file(bytes@) == Err::<IntelHexFirmwareFileView, IntelHexError>(e),
            },
    {
        let records = match read_records(bytes) {
            Err(e) => return Err(e),
            Ok(v) => v,
        };
        let list = match from_records(records.as_slice()) {
            Err(e) => return Err(e),
            Ok(v) => v,
        };
        let segments = collect_segments(list);
        let firmware_image = match build_firmware_image(segments.as_slice()) {
            Err(e) => return Err(e),
            Ok(v) => v,
        };
        Ok(IntelHexFirmwareFile { segments, firmware_image })
    }

    /// Where the image loads: the address of the first segment, if there is one.
    pub fn load_address(&self) -> (r: Option<u32>)
        ensures
            r == (if self@.segments.len() == 0 {
                None
            } else {
                Some(self@.segments[0].0)
            }),
    {
        if self.segments.len() == 0 {
            None
        } else {
            assert(self@.segments[0] == self.segments@[0]@);
            Some(self.segments[0].base_address)
        }
    }

    /// The flattened firmware image.
    pub fn firmware_data(&self) -> (r: &[u8])
        ensures
            r@ == self@.image,
    {
        self.firmware_image.as_slice()
    }
}

/// The data of the data records among the first `k` records, one after the other.
pub open spec fn records_data(rs: Seq<IntelHexRecordView>, k: int) -> Seq<u8>
    decreases k,
{
    if k <= 0 {
        seq![]
    } else if rs[k - 1].record_type == IntelHexRecordType::Data {
        records_data(rs, k - 1) + rs[k - 1].data
    } else {
        records_data(rs, k - 1)
    }
}

/// The data of some segments, one after the other.
pub open spec fn segments_data(segs: Seq<(u32, Seq<u8>)>) -> Seq<u8>
    decreases segs.len(),
{
    if segs.len() == 0 {
        seq![]
    } else {
        segments_data(segs.drop_last()) + segs.last().1
    }
}

/// Where a segment ends: the address after its last byte.
pub open spec fn segment_end(g: (u32, Seq<u8>)) -> int {
    g.0 + g.1.len()
}

/// Whether segments are maximal runs: each holds data, and none ends where the next begins, so
/// no two neighbours could have been one run.
pub open spec fn segments_separate(segs: Seq<(u32, Seq<u8>)>) -> bool {
    &&& forall|i: int| 0 <= i < segs.len() ==> (#[trigger] segs[i]).1.len() > 0
    &&& forall|i: int, j: int|
        0 <= i && j == i + 1 && j < segs.len() ==> segment_end(#[trigger] segs[i]) != (#[trigger] segs[j]).0
}

/// Whether every data record holds data.
pub open spec fn data_records_nonempty(rs: Seq<IntelHexRecordView>) -> bool {
    forall|i: int| 0 <= i < rs.len() && (#[trigger] rs[i]).record_type == IntelHexRecordType::Data ==> rs[i].data.len() > 0
}

/// What holds of the scan before the end-of-file record: the segment being gathered spans its
/// data; the closed segments and it hold the data records' data in order; the closed segments
/// are maximal runs; and the last of them does not end where the one being gathered begins.
pub open spec fn scan_inv(st: SegmentScan, rs: Seq<IntelHexRecordView>, k: int) -> bool {
    &&& st.begin + st.data.len() == st.end
    &&& segments_data(st.segments) + st.data == records_data(rs, k)
    &&& segments_separate(st.segments)
    &&& st.segments.len() > 0 ==> st.data.len() > 0 && segment_end(st.segments.last()) != st.begin
}

/// Closing the segment being gathered keeps the segments maximal runs and adds its data.
proof fn lemma_close_segment(st: SegmentScan)
    requires
        st.begin + st.data.len() == st.end,
        segments_separate(st.segments),
        st.segments.len() > 0 ==> st.data.len() > 0 && segment_end(st.segments.last()) != st.begin,
    ensures
        segments_separate(close_segment(st)),
        segments_data(close_segment(st)) == segments_data(st.segments) + st.data,
        close_segment(st).len() > 0 ==> segment_end(close_segment(st).last()) == st.end,
        st.end == st.begin ==> close_segment(st) == st.segments && st.data.len() == 0,
{
    let segs = st.segments;
    if st.end != st.begin {
        let c = segs.push((st.begin, st.data));
        assert(c.drop_last() =~= segs);
        assert forall|i: int, j: int| 0 <= i && j == i + 1 && j < c.len() implies segment_end(
            #[trigger] c[i],
        ) != (#[trigger] c[j]).0 by {
            if j < segs.len() {
                assert(c[i] == segs[i] && c[j] == segs[j]);
            } else {
                assert(c[i] == segs.last());
            }
        }
        assert forall|i: int| 0 <= i < c.len() implies (#[trigger] c[i]).1.len() > 0 by {
            if i < segs.len() {
                assert(c[i] == segs[i]);
            }
        }
    } else {
        assert(st.data =~= seq![]);
        assert(segments_data(segs) + st.data =~= segments_data(segs));
        if segs.len() > 0 {
            assert(false);
        }
    }
}

/// The invariant holds after each record before the last one.
proof fn lemma_scan_inv(rs: Seq<IntelHexRecordView>, k: int)
    requires
        0 <= k < rs.len(),
        forall|i: int| 0 <= i < rs.len() ==> record_wf(#[trigger] rs[i]),
        data_records_nonempty(rs),
        scan_prefix(rs, k) is Ok,
    ensures
        scan_inv(scan_prefix(rs, k)->Ok_0, rs, k),
    decreases k,
{
    if k == 0 {
        assert(segments_data(seq![]) + seq![] =~= records_data(rs, 0));
    } else {
        if scan_prefix(rs, k - 1) is Err {
            lemma_scan_error_sticks(rs, k - 1, k);
        }
        lemma_scan_inv(rs, k - 1);
        let st = scan_prefix(rs, k - 1)->Ok_0;
        let r = rs[k - 1];
        let st2 = scan_prefix(rs, k)->Ok_0;
        assert(record_wf(r));
        assert(scan_step(st, r, false) == Ok::<SegmentScan, IntelHexError>(st2));
        match r.record_type {
            IntelHexRecordType::Data => {
                assert(r.data.len() > 0);
                let address = st.base + r.address;
                if st.end != address {
                    lemma_close_segment(st);
                    assert(st2.data == seq![] + r.data);
                    assert(st2.data =~= r.data);
                    assert(segments_data(st2.segments) + st2.data =~= (segments_data(st.segments) + st.data) + r.data);
                } else {
                    assert(st2.segments == st.segments);
                    assert(segments_data(st2.segments) + st2.data =~= (segments_data(st.segments) + st.data) + r.data);
                }
            },
            _ => {},
        }
    }
}

/// The segments read from records that end with the end-of-file record, every data record
/// holding data, are the maximal address-contiguous runs of the data records: together they hold
/// all the records' data in order, each holds data, and no segment ends where the next begins.
pub proof fn law_segments_are_maximal_runs(rs: Seq<IntelHexRecordView>)
    requires
        forall|i: int| 0 <= i < rs.len() ==> record_wf(#[trigger] rs[i]),
        data_records_nonempty(rs),
        rs.len() > 0,
        rs.last().record_type == IntelHexRecordType::EndOfFile,
        spec_from_records(rs) is Ok,
    ensures
        segments_data(spec_from_records(rs)->Ok_0) == records_data(rs, rs.len() as int),
        segments_separate(spec_from_records(rs)->Ok_0),
{
    let n = rs.len() as int;
    if scan_prefix(rs, n - 1) is Err {
        lemma_scan_error_sticks(rs, n - 1, n);
    }
    lemma_scan_inv(rs, n - 1);
    let st = scan_prefix(rs, n - 1)->Ok_0;
    lemma_close_segment(st);
    assert(rs[n - 1] == rs.last());
}

/// An extended linear address record with data `[hi, lo]` sets the upper 16 bits of the
/// addresses that follow to `hi * 256 + lo`: a data record at offset `address` after it, then the
/// end of the file, make one segment at `(hi * 256 + lo) * 65536 + address` holding its data.
pub proof fn law_extended_linear_address_sets_upper_bits(hi: u8, lo: u8, address: u16, d: Seq<u8>)
    requires
        0 < d.len() <= 255,
        (hi * 256 + lo) * 65536 + address + d.len() <= 0xffff_ffff,
    ensures
        spec_from_records(
            seq![
                IntelHexRecordView {
                    byte_count: 2,
                    address: 0,
                    record_type: IntelHexRecordType::ExtendedLinearAddress,
                    data: seq![hi, lo],
                },
                IntelHexRecordView {
                    byte_count: d.len() as u8,
                    address,
                    record_type: IntelHexRecordType::Data,
                    data: d,
                },
                IntelHexRecordView { byte_count: 0, address: 0, record_type: IntelHexRecordType::EndOfFile, data: seq![] },
            ],
        ) == Ok::<Seq<(u32, Seq<u8>)>, IntelHexError>(seq![((((hi * 256 + lo) * 65536 + address) as u32), d)]),
{
    let ela = IntelHexRecordView {
        byte_count: 2,
        address: 0,
        record_type: IntelHexRecordType::ExtendedLinearAddress,
        data: seq![hi, lo],
    };
    let dat = IntelHexRecordView { byte_count: d.len() as u8, address, record_type: IntelHexRecordType::Data, data: d };
    let eof = IntelHexRecordView { byte_count: 0, address: 0, record_type: IntelHexRecordType::EndOfFile, data: seq![] };
    let rs = seq![ela, dat, eof];
    reveal_with_fuel(be_value, 3);
    assert(be_value(seq![hi, lo], 2) == hi * 256 + lo);
    let base = ((hi * 256 + lo) * 65536) as u32;
    assert(scan_prefix(rs, 0) == Ok::<SegmentScan, IntelHexError>(scan_start()));
    let st1 = SegmentScan { base, begin: 0, end: 0, data: seq![], segments: seq![] };
    assert(scan_prefix(rs, 1) == Ok::<SegmentScan, IntelHexError>(st1));
    let a = base + address;
    let st2 = SegmentScan {
        base,
        begin: a as u32,
        end: (a + d.len()) as u32,
        data: seq![] + d,
        segments: seq![],
    };
    assert(st1.segments =~= seq![]);
    assert(close_segment(st1) =~= seq![]);
    assert(scan_prefix(rs, 2) == Ok::<SegmentScan, IntelHexError>(st2));
    assert(seq![] + d =~= d);
    assert(close_segment(st2) =~= seq![((a as u32), d)]);
}

/// A record's checksum balances it: the low byte of the sum of all its bytes, the checksum
/// included, is zero.
pub proof fn law_record_checksum_balances(count: nat, address: nat, code: nat, data: Seq<u8>)
    ensures
        (count + address / 256 + address % 256 + code + byte_sum(data) + record_checksum(count, address, code, data))
            % 256 == 0,
{
    let x = count + address / 256 + address % 256 + code + byte_sum(data);
    let actual = x % 256;
    vstd::arithmetic::div_mod::lemma_add_mod_noop(x as int, ((256 - actual) % 256) as int, 256);
    vstd::arithmetic::div_mod::lemma_mod_twice(x as int, 256);
    if actual == 0 {
        assert((256 - actual) % 256 == 0);
    } else {
        assert((256 - actual) % 256 == 256 - actual);
    }
}

/// Painting keeps the image's length.
proof fn lemma_paint_segments_len(segs: Seq<(u32, Seq<u8>)>, load: int, k: int, img: Seq<u8>)
    ensures
        paint_segments(segs, load, k, img).len() == img.len(),
    decreases k,
{
    if k > 0 {
        lemma_paint_segments_len(segs, load, k - 1, img);
    }
}

/// Whether segments ordered by address do not overlap.
pub open spec fn segments_disjoint(segs: Seq<(u32, Seq<u8>)>) -> bool {
    forall|i: int, j: int| 0 <= i < j < segs.len() ==> (#[trigger] segs[i]).0 + segs[i].1.len() <= (#[trigger] segs[j]).0
}

/// Whether segment `k` covers offset `p` of an image loading at `load`.
pub open spec fn covers(g: (u32, Seq<u8>), load: int, p: int) -> bool {
    g.0 - load <= p < g.0 - load + g.1.len()
}

/// Once painted, a segment's bytes stay where they are when later, disjoint segments are
/// painted; a byte that no segment covers keeps its first value.
proof fn lemma_paint_segments_at(segs: Seq<(u32, Seq<u8>)>, load: int, k: int, img: Seq<u8>, p: int)
    requires
        0 <= k <= segs.len(),
        0 <= p < img.len(),
        segments_disjoint(segs),
    ensures
        forall|m: int| 0 <= m < k && #[trigger] covers(segs[m], load, p) ==> paint_segments(segs, load, k, img)[p]
            == segs[m].1[p - (segs[m].0 - load)],
        (forall|m: int| 0 <= m < k ==> !#[trigger] covers(segs[m], load, p)) ==> paint_segments(segs, load, k, img)[p]
            == img[p],
    decreases k,
{
    if k > 0 {
        lemma_paint_segments_at(segs, load, k - 1, img, p);
        lemma_paint_segments_len(segs, load, k - 1, img);
        let prev = paint_segments(segs, load, k - 1, img);
        let g = segs[k - 1];
        assert(paint_segments(segs, load, k, img) == paint(prev, g.0 - load, g.1));
        assert forall|m: int| 0 <= m < k && #[trigger] covers(segs[m], load, p) implies paint_segments(
            segs,
            load,
            k,
            img,
        )[p] == segs[m].1[p - (segs[m].0 - load)] by {
            if m < k - 1 {
                assert(segs[m].0 + segs[m].1.len() <= segs[k - 1].0);
                assert(!covers(g, load, p));
            }
        }
        if forall|m: int| 0 <= m < k ==> !#[trigger] covers(segs[m], load, p) {
            assert(!covers(segs[k - 1], load, p));
            assert(forall|m: int| 0 <= m < k - 1 ==> !#[trigger] covers(segs[m], load, p));
        }
    }
}

/// Flattening keeps every segment: where segments ordered by address do not overlap, the image
/// is made, each segment's bytes are found at its address less the load address, and every
/// byte that no segment covers is erased.
pub proof fn law_image_holds_segments(segs: Seq<(u32, Seq<u8>)>)
    requires
        address_map::keys_strictly_sorted(segs),
        segments_disjoint(segs),
    ensures
        spec_firmware_image(segs) is Ok,
        forall|k: int, b: int|
            0 <= k < segs.len() && 0 <= b < segs[k].1.len() ==> (#[trigger] spec_firmware_image(segs)->Ok_0[segs[k].0
                - image_load_address(segs) + b]) == segs[k].1[b],
        forall|p: int|
            0 <= p < image_length(segs) && (forall|k: int| 0 <= k < segs.len() ==> !#[trigger] covers(
                segs[k],
                image_load_address(segs) as int,
                p,
            )) ==> #[trigger] spec_firmware_image(segs)->Ok_0[p] == 0xffu8,
{
    let load = image_load_address(segs) as int;
    let total = image_length(segs);
    let n = segs.len() as int;
    assert forall|i: int| 0 <= i < n implies segment_inside(#[trigger] segs[i], load, total as int) by {
        if i < n - 1 {
            assert(segs[i].0 + segs[i].1.len() <= segs[n - 1].0);
        }
        if i > 0 {
            assert(segs[0].0 < segs[i].0);
        }
    }
    let img0 = erased_image(total);
    lemma_paint_segments_len(segs, load, n, img0);
    assert forall|k: int, b: int| 0 <= k < segs.len() && 0 <= b < segs[k].1.len() implies (#[trigger] spec_firmware_image(
        segs,
    )->Ok_0[segs[k].0 - image_load_address(segs) + b]) == segs[k].1[b] by {
        assert(segment_inside(segs[k], load, total as int));
        if k > 0 {
            assert(segs[0].0 < segs[k].0);
        }
        let p = segs[k].0 - load + b;
        lemma_paint_segments_at(segs, load, n, img0, p);
        assert(covers(segs[k], load, p));
    }
    assert forall|p: int|
        0 <= p < image_length(segs) && (forall|k: int| 0 <= k < segs.len() ==> !#[trigger] covers(segs[k], load, p)) implies #[trigger] spec_firmware_image(
        segs,
    )->Ok_0[p] == 0xffu8 by {
        lemma_paint_segments_at(segs, load, n, img0, p);
    }
}

} // verus!
