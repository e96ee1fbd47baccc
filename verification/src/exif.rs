//! The TIFF/EXIF decoding engine: header interpretation, IFD traversal,
//! per-field value decoding under the inline-versus-offset storage rule, and
//! assembly of the 0th, Exif and GPS directories into one document.
//!
//! All offsets stored inside field records and IFD headers are relative to the
//! start of the 8-byte TIFF header, never to the start of the surrounding
//! file; the decoding functions therefore take the byte buffer that begins at
//! the TIFF header.

use vstd::prelude::*;

use crate::arrays::{spec_dec, spec_join_dec, spec_join_rationals};
use crate::conversions::{
    read_i32_at, read_u16_at, read_u32_at, spec_i32_at, spec_u16_at, spec_u32_at, spec_widen_i32s,
    spec_widen_u32s, spec_widen_u8s,
};
use crate::tags::{
    spec_short_string_for_tag, spec_rational_string_for_tag, spec_tag_name,
    spec_undefined_string_for_tag, Tag, TAG_EXIF_OFFSET, TAG_GPS_OFFSET,
};

verus! {

/// The size of the TIFF header, in bytes.
pub const TIFF_HEADER_SIZE: usize = 8;

/// The size of one interoperability field record, in bytes.
pub const INTEROPERABILITY_FIELD_SIZE: usize = 12;

/// A failure while parsing a fixed-size structure.
#[derive(Clone, Copy, Debug, PartialEq, Eq, Structural)]
pub enum DecodeError {
    /// A fixed-size structure (header, field record, IFD field array) does
    /// not fit within the remaining buffer.
    Truncated,
    /// No EXIF identifier code occurs in the image buffer.
    MissingExifMarker,
}

/// The TIFF/EXIF field type system. Codes outside the defined set decode as
/// `Error` and render as `"N/A"`, never abort the rest of the document.
#[derive(Clone, Copy, Debug, PartialEq, Eq, Structural)]
pub enum ExifTypes {
    Byte,
    Ascii,
    Short,
    Long,
    Rational,
    Undefined,
    Slong,
    Srational,
    Error,
}

/// Which directory a tag belongs to.
#[derive(Clone, Copy, Debug, PartialEq, Eq, Structural)]
pub enum IFDTypes {
    TIFF,
    Exif,
    GPS,
}

/// The field type encoded by a type code: 1 is `Byte`, 2 `Ascii`, 3 `Short`,
/// 4 `Long`, 5 `Rational`, 7 `Undefined`, 9 `Slong`, 10 `Srational`; any
/// other code is `Error`.
pub open spec fn spec_exif_type_of(code: u16) -> ExifTypes {
    if code == 1 {
        ExifTypes::Byte
    } else if code == 2 {
        ExifTypes::Ascii
    } else if code == 3 {
        ExifTypes::Short
    } else if code == 4 {
        ExifTypes::Long
    } else if code == 5 {
        ExifTypes::Rational
    } else if code == 7 {
        ExifTypes::Undefined
    } else if code == 9 {
        ExifTypes::Slong
    } else if code == 10 {
        ExifTypes::Srational
    } else {
        ExifTypes::Error
    }
}

/// The parsed 8-byte TIFF header.
#[derive(Clone, Copy, Debug, PartialEq, Eq, Structural)]
pub struct TIFFHeader {
    /// The byte-order marker was `"II"`. Any marker other than `"MM"` and
    /// `"II"` is read as big-endian by convention.
    pub is_little_endian: bool,
    /// The offset of the 0th IFD in bytes past the end of the header. The raw
    /// offset field counts from the start of the header, so a raw value of 8
    /// (the 0th IFD immediately follows the header) is normalized to 0.
    pub zero_th_ifd_offset: u32,
    /// The byte-order marker was one of the two the format defines.
    pub recognized_byte_order: bool,
}

/// The byte-order marker at `off` is `"II"` (little-endian).
pub open spec fn spec_header_is_le(b: Seq<u8>, off: int) -> bool {
    b[off] == 0x49 && b[off + 1] == 0x49
}

/// The byte-order marker at `off` is `"MM"` (big-endian).
pub open spec fn spec_header_is_be_marker(b: Seq<u8>, off: int) -> bool {
    b[off] == 0x4D && b[off + 1] == 0x4D
}

/// The header parsed from the 8 bytes of `b` starting at `off`.
pub open spec fn spec_parse_header_at(b: Seq<u8>, off: int) -> TIFFHeader
    recommends
        0 <= off,
        off + 8 <= b.len(),
{
    let le = spec_header_is_le(b, off);
    let raw = spec_u32_at(b, off + 4, le);
    TIFFHeader {
        is_little_endian: le,
        zero_th_ifd_offset: if raw == 8 {
            0u32
        } else {
            raw
        },
        recognized_byte_order: le || spec_header_is_be_marker(b, off),
    }
}

/// The header parsed from an exactly 8-byte span.
pub open spec fn spec_parse_header(b: Seq<u8>) -> Result<TIFFHeader, DecodeError> {
    if b.len() != 8 {
        Err(DecodeError::Truncated)
    } else {
        Ok(spec_parse_header_at(b, 0))
    }
}

impl TIFFHeader {
    /// Reads the header from the 8 bytes of `slice` starting at `off`.
    pub fn read_at(slice: &[u8], off: usize) -> (h: TIFFHeader)
        requires
            off + 8 <= slice@.len(),
        ensures
            h == spec_parse_header_at(slice@, off as int),
    {
        let le = slice[off] == 0x49 && slice[off + 1] == 0x49;
        let recognized = le || (slice[off] == 0x4D && slice[off + 1] == 0x4D);
        let raw = read_u32_at(slice, off + 4, le);
        TIFFHeader {
            is_little_endian: le,
            zero_th_ifd_offset: if raw == 8 {
                0
            } else {
                raw
            },
            recognized_byte_order: recognized,
        }
    }

    /// Parses the header from an exactly 8-byte span; any other length is
    /// `Truncated`.
    pub fn from(slice: &[u8]) -> (r: Result<TIFFHeader, DecodeError>)
        ensures
            r == spec_parse_header(slice@),
    {
        if slice.len() != TIFF_HEADER_SIZE {
            return Err(DecodeError::Truncated);
        }
        Ok(TIFFHeader::read_at(slice, 0))
    }

    /// The rendering of the header as a string.
    pub open spec fn spec_as_string(self) -> Seq<char> {
        "TIFF { Byte Order: "@ + (if self.is_little_endian {
            "Little endian (II)"@
        } else {
            "Big endian (MM)"@
        }) + ", 0th IFD offset: "@ + spec_dec(self.zero_th_ifd_offset as int) + " }"@
    }

    /// Renders the header as a string.
    pub fn get_as_string(&self) -> (s: String)
        ensures
            s@ == self.spec_as_string(),
    {
        let mut s = "TIFF { Byte Order: ".to_owned();
        if self.is_little_endian {
            s.append("Little endian (II)");
        } else {
            s.append("Big endian (MM)");
        }
        s.append(", 0th IFD offset: ");
        s.append(crate::arrays::u64_to_dec_string(self.zero_th_ifd_offset as u64).as_str());
        s.append(" }");
        s
    }
}

/// One 12-byte interoperability field record: a tag, a type code, a value
/// count, and the 4-byte value slot, which holds the value itself when
/// `count * unit_size <= 4` and otherwise a byte offset, relative to the
/// start of the TIFF header, where the value bytes live.
#[derive(Clone, Copy, Debug, PartialEq, Eq)]
pub struct InteroperabilityField {
    pub tag: u16,
    pub data_type: u16,
    pub count: u32,
    /// The raw 4-byte value-or-offset slot, in file order.
    pub value_slot: [u8; 4],
    /// The slot read as a 32-bit offset in the field's byte order.
    pub value_offset: u32,
    pub is_little_endian: bool,
}

/// `f` holds exactly what the 12-byte record of `b` starting at `off`
/// encodes, in byte order `le`.
pub open spec fn spec_field_parsed(
    f: InteroperabilityField,
    b: Seq<u8>,
    off: int,
    le: bool,
) -> bool {
    &&& f.tag == spec_u16_at(b, off, le)
    &&& f.data_type == spec_u16_at(b, off + 2, le)
    &&& f.count == spec_u32_at(b, off + 4, le)
    &&& f.value_slot@ == b.subrange(off + 8, off + 12)
    &&& f.value_offset == spec_u32_at(b, off + 8, le)
    &&& f.is_little_endian == le
}

/// The characters of a byte sequence, each byte one character.
pub open spec fn spec_chars_of_bytes(s: Seq<u8>) -> Seq<char> {
    s.map_values(|x: u8| x as char)
}

/// The byte values of a field with unit size 1 (`Byte`, `Ascii`,
/// `Undefined`): the first `count` bytes of the value slot when they fit
/// inline, else `count` bytes at the slot's offset; empty when that span
/// exceeds the buffer.
pub open spec fn spec_field_bytes(f: InteroperabilityField, b: Seq<u8>) -> Seq<u8> {
    if f.count <= 4 {
        f.value_slot@.take(f.count as int)
    } else if f.value_offset + f.count <= b.len() {
        b.subrange(f.value_offset as int, f.value_offset + f.count)
    } else {
        Seq::empty()
    }
}

/// The field's bytes read as text, one character per byte.
pub open spec fn spec_field_ascii(f: InteroperabilityField, b: Seq<u8>) -> Seq<char> {
    spec_chars_of_bytes(spec_field_bytes(f, b))
}

/// The 16-bit values of a `Short` field, in file order.
pub open spec fn spec_field_shorts(f: InteroperabilityField, b: Seq<u8>) -> Seq<u16> {
    if f.count * 2 <= 4 {
        Seq::new(f.count as nat, |i: int| spec_u16_at(f.value_slot@, 2 * i, f.is_little_endian))
    } else if f.value_offset + f.count * 2 <= b.len() {
        Seq::new(f.count as nat, |i: int| spec_u16_at(b, f.value_offset + 2 * i, f.is_little_endian))
    } else {
        Seq::empty()
    }
}

/// The 32-bit values of a `Long` field, in file order.
pub open spec fn spec_field_longs(f: InteroperabilityField, b: Seq<u8>) -> Seq<u32> {
    if f.count * 4 <= 4 {
        Seq::new(f.count as nat, |i: int| spec_u32_at(f.value_slot@, 4 * i, f.is_little_endian))
    } else if f.value_offset + f.count * 4 <= b.len() {
        Seq::new(f.count as nat, |i: int| spec_u32_at(b, f.value_offset + 4 * i, f.is_little_endian))
    } else {
        Seq::empty()
    }
}

/// The signed 32-bit values of an `Slong` field, in file order.
pub open spec fn spec_field_slongs(f: InteroperabilityField, b: Seq<u8>) -> Seq<i32> {
    if f.count * 4 <= 4 {
        Seq::new(f.count as nat, |i: int| spec_i32_at(f.value_slot@, 4 * i, f.is_little_endian))
    } else if f.value_offset + f.count * 4 <= b.len() {
        Seq::new(f.count as nat, |i: int| spec_i32_at(b, f.value_offset + 4 * i, f.is_little_endian))
    } else {
        Seq::empty()
    }
}

/// The numerator/denominator pairs of a `Rational` field, in file order. A
/// rational takes 8 bytes, so a non-empty value never fits the inline slot.
pub open spec fn spec_field_rationals(f: InteroperabilityField, b: Seq<u8>) -> Seq<(u32, u32)> {
    if f.count == 0 {
        Seq::empty()
    } else if f.value_offset + f.count * 8 <= b.len() {
        Seq::new(
            f.count as nat,
            |i: int|
                (
                    spec_u32_at(b, f.value_offset + 8 * i, f.is_little_endian),
                    spec_u32_at(b, f.value_offset + 8 * i + 4, f.is_little_endian),
                ),
        )
    } else {
        Seq::empty()
    }
}

/// The numerator/denominator pairs of an `Srational` field, in file order.
pub open spec fn spec_field_srationals(f: InteroperabilityField, b: Seq<u8>) -> Seq<(i32, i32)> {
    if f.count == 0 {
        Seq::empty()
    } else if f.value_offset + f.count * 8 <= b.len() {
        Seq::new(
            f.count as nat,
            |i: int|
                (
                    spec_i32_at(b, f.value_offset + 8 * i, f.is_little_endian),
                    spec_i32_at(b, f.value_offset + 8 * i + 4, f.is_little_endian),
                ),
        )
    } else {
        Seq::empty()
    }
}

impl InteroperabilityField {
    /// Reads the field record from the 12 bytes of `slice` starting at `off`.
    pub fn read_at(slice: &[u8], off: usize, le: bool) -> (f: InteroperabilityField)
        requires
            off + 12 <= slice@.len(),
        ensures
            spec_field_parsed(f, slice@, off as int, le),
    {
        let n = slice.len();
        proof {
            assert(off + 12 <= n);
        }
        let tag = read_u16_at(slice, off, le);
        let data_type = read_u16_at(slice, off + 2, le);
        let count = read_u32_at(slice, off + 4, le);
        let value_slot: [u8; 4] = [
            slice[off + 8],
            slice[off + 9],
            slice[off + 10],
            slice[off + 11],
        ];
        let value_offset = read_u32_at(slice, off + 8, le);
        proof {
            assert(value_slot@ =~= slice@.subrange(off + 8, off + 12));
        }
        InteroperabilityField { tag, data_type, count, value_slot, value_offset, is_little_endian: le }
    }

    /// Parses the field record from an exactly 12-byte span; any other length
    /// is `Truncated`.
    pub fn from(slice: &[u8], is_little_endian: bool) -> (r: Result<
        InteroperabilityField,
        DecodeError,
    >)
        ensures
            match r {
                Ok(f) => slice@.len() == 12 && spec_field_parsed(f, slice@, 0, is_little_endian),
                Err(e) => slice@.len() != 12 && e == DecodeError::Truncated,
            },
    {
        if slice.len() != INTEROPERABILITY_FIELD_SIZE {
            return Err(DecodeError::Truncated);
        }
        Ok(InteroperabilityField::read_at(slice, 0, is_little_endian))
    }

    /// Decodes the field's byte values (unit size 1): inline from the value
    /// slot when `count <= 4`, otherwise from the offset-indirected span;
    /// empty when that span exceeds the buffer.
    pub fn get_bytes(&self, slice: &[u8]) -> (r: Vec<u8>)
        ensures
            r@ == spec_field_bytes(*self, slice@),
    {
        if self.count <= 4 {
            let n = self.count as usize;
            let mut r: Vec<u8> = Vec::new();
            let mut i: usize = 0;
            while i < n
                invariant
                    n == self.count,
                    n <= 4,
                    0 <= i <= n,
                    r@.len() == i,
                    forall|k: int| 0 <= k < i ==> r@[k] == self.value_slot@[k],
                decreases n - i,
            {
                r.push(self.value_slot[i]);
                i = i + 1;
            }
            proof {
                assert(r@ =~= spec_field_bytes(*self, slice@));
            }
            r
        } else {
            let len = slice.len();
            if (self.value_offset as u64) + (self.count as u64) <= len as u64 {
                let off = self.value_offset as usize;
                let n = self.count as usize;
                let mut r: Vec<u8> = Vec::new();
                let mut i: usize = 0;
                while i < n
                    invariant
                        off == self.value_offset,
                        n == self.count,
                        off + n <= slice@.len(),
                        slice@.len() <= usize::MAX,
                        0 <= i <= n,
                        r@.len() == i,
                        forall|k: int| 0 <= k < i ==> r@[k] == slice@[off + k],
                    decreases n - i,
                {
                    r.push(slice[off + i]);
                    i = i + 1;
                }
                proof {
                    assert(r@ =~= spec_field_bytes(*self, slice@));
                }
                r
            } else {
                Vec::new()
            }
        }
    }

    /// Decodes the field's bytes as text, each byte one character.
    pub fn get_ascii(&self, slice: &[u8]) -> (s: String)
        ensures
            s@ == spec_field_ascii(*self, slice@),
    {
        let bytes = self.get_bytes(slice);
        let mut s = String::new();
        let mut i: usize = 0;
        while i < bytes.len()
            invariant
                bytes@ == spec_field_bytes(*self, slice@),
                0 <= i <= bytes@.len(),
                s@ == spec_chars_of_bytes(bytes@.take(i as int)),
            decreases bytes@.len() - i,
        {
            crate::arrays::push_char(&mut s, bytes[i] as char);
            proof {
                assert(spec_chars_of_bytes(bytes@.take(i + 1 as int)) =~= spec_chars_of_bytes(
                    bytes@.take(i as int),
                ) + seq![bytes@[i as int] as char]);
            }
            i = i + 1;
        }
        proof {
            assert(bytes@.take(bytes@.len() as int) =~= bytes@);
        }
        s
    }

    /// Decodes the field's 16-bit values in file order: inline from the value
    /// slot when `count * 2 <= 4`, otherwise from the offset-indirected span;
    /// empty when that span exceeds the buffer.
    pub fn get_shorts(&self, slice: &[u8]) -> (r: Vec<u16>)
        ensures
            r@ == spec_field_shorts(*self, slice@),
    {
        let le = self.is_little_endian;
        if self.count <= 2 {
            let n = self.count as usize;
            let mut r: Vec<u16> = Vec::new();
            let mut i: usize = 0;
            while i < n
                invariant
                    n == self.count,
                    n <= 2,
                    le == self.is_little_endian,
                    0 <= i <= n,
                    r@.len() == i,
                    forall|k: int|
                        0 <= k < i ==> r@[k] == spec_u16_at(self.value_slot@, 2 * k, le),
                decreases n - i,
            {
                r.push(read_u16_at(self.value_slot.as_slice(), 2 * i, le));
                i = i + 1;
            }
            proof {
                assert(r@ =~= spec_field_shorts(*self, slice@));
            }
            r
        } else {
            let len = slice.len();
            if (self.value_offset as u64) + (self.count as u64) * 2 <= len as u64 {
                let off = self.value_offset as usize;
                let n = self.count as usize;
                let mut r: Vec<u16> = Vec::new();
                let mut i: usize = 0;
                while i < n
                    invariant
                        off == self.value_offset,
                        n == self.count,
                        le == self.is_little_endian,
                        off + 2 * n <= slice@.len(),
                        slice@.len() <= usize::MAX,
                        0 <= i <= n,
                        r@.len() == i,
                        forall|k: int| 0 <= k < i ==> r@[k] == spec_u16_at(slice@, off + 2 * k, le),
                    decreases n - i,
                {
                    r.push(read_u16_at(slice, off + 2 * i, le));
                    i = i + 1;
                }
                proof {
                    assert(r@ =~= spec_field_shorts(*self, slice@));
                }
                r
            } else {
                Vec::new()
            }
        }
    }

    /// Decodes the field's 32-bit values in file order: inline when
    /// `count <= 1`, otherwise offset-indirected; empty when out of bounds.
    pub fn get_longs(&self, slice: &[u8]) -> (r: Vec<u32>)
        ensures
            r@ == spec_field_longs(*self, slice@),
    {
        let le = self.is_little_endian;
        if self.count <= 1 {
            let n = self.count as usize;
            let mut r: Vec<u32> = Vec::new();
            let mut i: usize = 0;
            while i < n
                invariant
                    n == self.count,
                    n <= 1,
                    le == self.is_little_endian,
                    0 <= i <= n,
                    r@.len() == i,
                    forall|k: int|
                        0 <= k < i ==> r@[k] == spec_u32_at(self.value_slot@, 4 * k, le),
                decreases n - i,
            {
                r.push(read_u32_at(self.value_slot.as_slice(), 4 * i, le));
                i = i + 1;
            }
            proof {
                assert(r@ =~= spec_field_longs(*self, slice@));
            }
            r
        } else {
            let len = slice.len();
            if (self.value_offset as u64) + (self.count as u64) * 4 <= len as u64 {
                let off = self.value_offset as usize;
                let n = self.count as usize;
                let mut r: Vec<u32> = Vec::new();
                let mut i: usize = 0;
                while i < n
                    invariant
                        off == self.value_offset,
                        n == self.count,
                        le == self.is_little_endian,
                        off + 4 * n <= slice@.len(),
                        slice@.len() <= usize::MAX,
                        0 <= i <= n,
                        r@.len() == i,
                        forall|k: int| 0 <= k < i ==> r@[k] == spec_u32_at(slice@, off + 4 * k, le),
                    decreases n - i,
                {
                    r.push(read_u32_at(slice, off + 4 * i, le));
                    i = i + 1;
                }
                proof {
                    assert(r@ =~= spec_field_longs(*self, slice@));
                }
                r
            } else {
                Vec::new()
            }
        }
    }

    /// Decodes the field's signed 32-bit values in file order.
    pub fn get_slongs(&self, slice: &[u8]) -> (r: Vec<i32>)
        ensures
            r@ == spec_field_slongs(*self, slice@),
    {
        let le = self.is_little_endian;
        if self.count <= 1 {
            let n = self.count as usize;
            let mut r: Vec<i32> = Vec::new();
            let mut i: usize = 0;
            while i < n
                invariant
                    n == self.count,
                    n <= 1,
                    le == self.is_little_endian,
                    0 <= i <= n,
                    r@.len() == i,
                    forall|k: int|
                        0 <= k < i ==> r@[k] == spec_i32_at(self.value_slot@, 4 * k, le),
                decreases n - i,
            {
                r.push(read_i32_at(self.value_slot.as_slice(), 4 * i, le));
                i = i + 1;
            }
            proof {
                assert(r@ =~= spec_field_slongs(*self, slice@));
            }
            r
        } else {
            let len = slice.len();
            if (self.value_offset as u64) + (self.count as u64) * 4 <= len as u64 {
                let off = self.value_offset as usize;
                let n = self.count as usize;
                let mut r: Vec<i32> = Vec::new();
                let mut i: usize = 0;
                while i < n
                    invariant
                        off == self.value_offset,
                        n == self.count,
                        le == self.is_little_endian,
                        off + 4 * n <= slice@.len(),
                        slice@.len() <= usize::MAX,
                        0 <= i <= n,
                        r@.len() == i,
                        forall|k: int| 0 <= k < i ==> r@[k] == spec_i32_at(slice@, off + 4 * k, le),
                    decreases n - i,
                {
                    r.push(read_i32_at(slice, off + 4 * i, le));
                    i = i + 1;
                }
                proof {
                    assert(r@ =~= spec_field_slongs(*self, slice@));
                }
                r
            } else {
                Vec::new()
            }
        }
    }

    /// Decodes the field's rational values in file order, numerator before
    /// denominator. A rational never fits the 4-byte slot, so the values are
    /// always offset-indirected; empty when out of bounds.
    pub fn get_rationals(&self, slice: &[u8]) -> (r: Vec<(u32, u32)>)
        ensures
            r@ == spec_field_rationals(*self, slice@),
    {
        let le = self.is_little_endian;
        if self.count == 0 {
            return Vec::new();
        }
        let len = slice.len();
        if (self.value_offset as u64) + (self.count as u64) * 8 <= len as u64 {
            let off = self.value_offset as usize;
            let n = self.count as usize;
            let mut r: Vec<(u32, u32)> = Vec::new();
            let mut i: usize = 0;
            while i < n
                invariant
                    off == self.value_offset,
                    n == self.count,
                    le == self.is_little_endian,
                    off + 8 * n <= slice@.len(),
                    slice@.len() <= usize::MAX,
                    0 <= i <= n,
                    r@.len() == i,
                    forall|k: int|
                        0 <= k < i ==> r@[k] == (
                            spec_u32_at(slice@, off + 8 * k, le),
                            spec_u32_at(slice@, off + 8 * k + 4, le),
                        ),
                decreases n - i,
            {
                let num = read_u32_at(slice, off + 8 * i, le);
                let den = read_u32_at(slice, off + 8 * i + 4, le);
                r.push((num, den));
                i = i + 1;
            }
            proof {
                assert(r@ =~= spec_field_rationals(*self, slice@));
            }
            r
        } else {
            Vec::new()
        }
    }

    /// Decodes the field's signed rational values in file order.
    pub fn get_srational(&self, slice: &[u8]) -> (r: Vec<(i32, i32)>)
        ensures
            r@ == spec_field_srationals(*self, slice@),
    {
        let le = self.is_little_endian;
        if self.count == 0 {
            return Vec::new();
        }
        let len = slice.len();
        if (self.value_offset as u64) + (self.count as u64) * 8 <= len as u64 {
            let off = self.value_offset as usize;
            let n = self.count as usize;
            let mut r: Vec<(i32, i32)> = Vec::new();
            let mut i: usize = 0;
            while i < n
                invariant
                    off == self.value_offset,
                    n == self.count,
                    le == self.is_little_endian,
                    off + 8 * n <= slice@.len(),
                    slice@.len() <= usize::MAX,
                    0 <= i <= n,
                    r@.len() == i,
                    forall|k: int|
                        0 <= k < i ==> r@[k] == (
                            spec_i32_at(slice@, off + 8 * k, le),
                            spec_i32_at(slice@, off + 8 * k + 4, le),
                        ),
                decreases n - i,
            {
                let num = read_i32_at(slice, off + 8 * i, le);
                let den = read_i32_at(slice, off + 8 * i + 4, le);
                r.push((num, den));
                i = i + 1;
            }
            proof {
                assert(r@ =~= spec_field_srationals(*self, slice@));
            }
            r
        } else {
            Vec::new()
        }
    }

    /// The first byte of the value slot, for undefined-typed fields whose
    /// meaning is field-specific.
    pub fn get_undefined(&self) -> (r: u8)
        ensures
            r == self.value_slot@[0],
    {
        self.value_slot[0]
    }

    /// The field's type, from its type code.
    pub fn get_data_type(&self) -> (t: ExifTypes)
        ensures
            t == spec_exif_type_of(self.data_type),
    {
        if self.data_type == 1 {
            ExifTypes::Byte
        } else if self.data_type == 2 {
            ExifTypes::Ascii
        } else if self.data_type == 3 {
            ExifTypes::Short
        } else if self.data_type == 4 {
            ExifTypes::Long
        } else if self.data_type == 5 {
            ExifTypes::Rational
        } else if self.data_type == 7 {
            ExifTypes::Undefined
        } else if self.data_type == 9 {
            ExifTypes::Slong
        } else if self.data_type == 10 {
            ExifTypes::Srational
        } else {
            ExifTypes::Error
        }
    }

    /// The decoded bytes when the field is byte-typed, `None` otherwise.
    pub fn get_value_byte(&self, slice: &[u8]) -> (r: Option<Vec<u8>>)
        ensures
            match r {
                Some(v) => spec_exif_type_of(self.data_type) == ExifTypes::Byte && v@
                    == spec_field_bytes(*self, slice@),
                None => spec_exif_type_of(self.data_type) != ExifTypes::Byte,
            },
    {
        if self.get_data_type() == ExifTypes::Byte {
            return Some(self.get_bytes(slice));
        }
        None
    }

    /// The decoded text when the field is ascii-typed, `None` otherwise.
    pub fn get_value_ascii(&self, slice: &[u8]) -> (r: Option<String>)
        ensures
            match r {
                Some(s) => spec_exif_type_of(self.data_type) == ExifTypes::Ascii && s@
                    == spec_field_ascii(*self, slice@),
                None => spec_exif_type_of(self.data_type) != ExifTypes::Ascii,
            },
    {
        if self.get_data_type() == ExifTypes::Ascii {
            return Some(self.get_ascii(slice));
        }
        None
    }

    /// The decoded 16-bit values when the field is short-typed, `None`
    /// otherwise.
    pub fn get_value_short(&self, slice: &[u8]) -> (r: Option<Vec<u16>>)
        ensures
            match r {
                Some(v) => spec_exif_type_of(self.data_type) == ExifTypes::Short && v@
                    == spec_field_shorts(*self, slice@),
                None => spec_exif_type_of(self.data_type) != ExifTypes::Short,
            },
    {
        if self.get_data_type() == ExifTypes::Short {
            return Some(self.get_shorts(slice));
        }
        None
    }

    /// The decoded 32-bit values when the field is long-typed, `None`
    /// otherwise.
    pub fn get_value_long(&self, slice: &[u8]) -> (r: Option<Vec<u32>>)
        ensures
            match r {
                Some(v) => spec_exif_type_of(self.data_type) == ExifTypes::Long && v@
                    == spec_field_longs(*self, slice@),
                None => spec_exif_type_of(self.data_type) != ExifTypes::Long,
            },
    {
        if self.get_data_type() == ExifTypes::Long {
            return Some(self.get_longs(slice));
        }
        None
    }

    /// The decoded rational pairs when the field is rational-typed, `None`
    /// otherwise.
    pub fn get_value_rational(&self, slice: &[u8]) -> (r: Option<Vec<(u32, u32)>>)
        ensures
            match r {
                Some(v) => spec_exif_type_of(self.data_type) == ExifTypes::Rational && v@
                    == spec_field_rationals(*self, slice@),
                None => spec_exif_type_of(self.data_type) != ExifTypes::Rational,
            },
    {
        if self.get_data_type() == ExifTypes::Rational {
            return Some(self.get_rationals(slice));
        }
        None
    }

    /// The first slot byte when the field is undefined-typed, `None`
    /// otherwise.
    pub fn get_value_undefined(&self) -> (r: Option<u8>)
        ensures
            match r {
                Some(v) => spec_exif_type_of(self.data_type) == ExifTypes::Undefined && v
                    == self.value_slot@[0],
                None => spec_exif_type_of(self.data_type) != ExifTypes::Undefined,
            },
    {
        if self.get_data_type() == ExifTypes::Undefined {
            return Some(self.get_undefined());
        }
        None
    }

    /// The decoded payload when the field is undefined-typed, `None`
    /// otherwise: all `count` raw bytes under the inline/offset storage rule.
    /// `get_value_undefined` hands back only the first slot byte; this
    /// accessor returns the field's whole declared payload.
    pub fn get_value_undefined_bytes(&self, slice: &[u8]) -> (r: Option<Vec<u8>>)
        ensures
            match r {
                Some(v) => spec_exif_type_of(self.data_type) == ExifTypes::Undefined && v@
                    == spec_field_bytes(*self, slice@),
                None => spec_exif_type_of(self.data_type) != ExifTypes::Undefined,
            },
    {
        if self.get_data_type() == ExifTypes::Undefined {
            return Some(self.get_bytes(slice));
        }
        None
    }

    /// The decoded signed 32-bit values when the field is slong-typed,
    /// `None` otherwise.
    pub fn get_value_slong(&self, slice: &[u8]) -> (r: Option<Vec<i32>>)
        ensures
            match r {
                Some(v) => spec_exif_type_of(self.data_type) == ExifTypes::Slong && v@
                    == spec_field_slongs(*self, slice@),
                None => spec_exif_type_of(self.data_type) != ExifTypes::Slong,
            },
    {
        if self.get_data_type() == ExifTypes::Slong {
            return Some(self.get_slongs(slice));
        }
        None
    }

    /// The decoded signed rational pairs when the field is srational-typed,
    /// `None` otherwise.
    pub fn get_value_srational(&self, slice: &[u8]) -> (r: Option<Vec<(i32, i32)>>)
        ensures
            match r {
                Some(v) => spec_exif_type_of(self.data_type) == ExifTypes::Srational && v@
                    == spec_field_srationals(*self, slice@),
                None => spec_exif_type_of(self.data_type) != ExifTypes::Srational,
            },
    {
        if self.get_data_type() == ExifTypes::Srational {
            return Some(self.get_srational(slice));
        }
        None
    }

    /// Renders the field's type name.
    pub fn get_type_as_string(&self) -> (s: String)
        ensures
            s@ == spec_type_name(spec_exif_type_of(self.data_type)),
    {
        match self.get_data_type() {
            ExifTypes::Byte => "Byte".to_owned(),
            ExifTypes::Ascii => "Ascii".to_owned(),
            ExifTypes::Short => "Short".to_owned(),
            ExifTypes::Long => "Long".to_owned(),
            ExifTypes::Rational => "Rational".to_owned(),
            ExifTypes::Undefined => "Undefined".to_owned(),
            ExifTypes::Slong => "Slong".to_owned(),
            ExifTypes::Srational => "Srational".to_owned(),
            ExifTypes::Error => "Error".to_owned(),
        }
    }

    /// Renders the field's decoded value together with its tag name,
    /// consulting the per-tag vocabularies; fields of an undefined type code
    /// render as `"N/A"`.
    pub fn get_value_as_string(&self, slice: &[u8]) -> (s: String)
        ensures
            s@ == spec_value_string(*self, slice@),
    {
        let tag = Tag(self.tag as usize);
        match self.get_data_type() {
            ExifTypes::Byte => {
                let mut s = tag.get_as_string();
                s.append(": ");
                s.append(
                    crate::arrays::get_vec_as_string(
                        &crate::conversions::u8s_to_i64s(&self.get_bytes(slice)),
                    ).as_str(),
                );
                s
            },
            ExifTypes::Ascii => {
                let mut s = tag.get_as_string();
                s.append(": ");
                s.append(self.get_ascii(slice).as_str());
                s
            },
            ExifTypes::Short => crate::tags::get_short_string_for_tag(
                tag,
                self.count as usize,
                self.get_shorts(slice),
            ),
            ExifTypes::Long => {
                let mut s = tag.get_as_string();
                s.append(": ");
                s.append(
                    crate::arrays::get_vec_as_string(
                        &crate::conversions::u32s_to_i64s(&self.get_longs(slice)),
                    ).as_str(),
                );
                s
            },
            ExifTypes::Rational => crate::tags::get_rational_string_for_tag(
                tag,
                self.count as usize,
                self.get_rationals(slice),
            ),
            ExifTypes::Undefined => crate::tags::get_undefined_string_for_tag(
                tag,
                self.count as usize,
                self.value_slot,
            ),
            ExifTypes::Slong => {
                let mut s = tag.get_as_string();
                s.append(": ");
                s.append(
                    crate::arrays::get_vec_as_string(
                        &crate::conversions::i32s_to_i64s(&self.get_slongs(slice)),
                    ).as_str(),
                );
                s
            },
            ExifTypes::Srational => {
                let mut s = tag.get_as_string();
                s.append(": ");
                s.append(
                    crate::arrays::get_ratioanls_vec_as_string(
                        &crate::conversions::i32_pairs_to_i64s(&self.get_srational(slice)),
                    ).as_str(),
                );
                s
            },
            ExifTypes::Error => "N/A".to_owned(),
        }
    }

    /// Renders the field record: its tag, type, count, and value-or-offset
    /// slot read as an offset.
    pub fn get_as_string(&self) -> (s: String)
        ensures
            s@ == spec_field_string(*self),
    {
        let mut s = "{ tag: ".to_owned();
        s.append(crate::arrays::u64_to_dec_string(self.tag as u64).as_str());
        s.append(" (");
        s.append(Tag(self.tag as usize).get_as_string().as_str());
        s.append("), type: ");
        s.append(self.get_type_as_string().as_str());
        s.append(", count: ");
        s.append(crate::arrays::u64_to_dec_string(self.count as u64).as_str());
        s.append(", value_offset: ");
        s.append(crate::arrays::u64_to_dec_string(self.value_offset as u64).as_str());
        s.append(" }");
        s
    }
}

/// The rendering of a field type's name.
pub open spec fn spec_type_name(t: ExifTypes) -> Seq<char> {
    match t {
        ExifTypes::Byte => "Byte"@,
        ExifTypes::Ascii => "Ascii"@,
        ExifTypes::Short => "Short"@,
        ExifTypes::Long => "Long"@,
        ExifTypes::Rational => "Rational"@,
        ExifTypes::Undefined => "Undefined"@,
        ExifTypes::Slong => "Slong"@,
        ExifTypes::Srational => "Srational"@,
        ExifTypes::Error => "Error"@,
    }
}

/// The rendering of a field's decoded value, dispatched on its type code.
pub open spec fn spec_value_string(f: InteroperabilityField, b: Seq<u8>) -> Seq<char> {
    let tag = Tag(f.tag as usize);
    let name = spec_tag_name(f.tag as int);
    match spec_exif_type_of(f.data_type) {
        ExifTypes::Byte => name + ": "@ + spec_join_dec(spec_widen_u8s(spec_field_bytes(f, b))),
        ExifTypes::Ascii => name + ": "@ + spec_field_ascii(f, b),
        ExifTypes::Short => spec_short_string_for_tag(tag, f.count as int, spec_field_shorts(f, b)),
        ExifTypes::Long => name + ": "@ + spec_join_dec(spec_widen_u32s(spec_field_longs(f, b))),
        ExifTypes::Rational => spec_rational_string_for_tag(tag, spec_field_rationals(f, b)),
        ExifTypes::Undefined => spec_undefined_string_for_tag(tag, f.count as int, f.value_slot@),
        ExifTypes::Slong => name + ": "@ + spec_join_dec(spec_widen_i32s(spec_field_slongs(f, b))),
        ExifTypes::Srational => name + ": "@ + spec_join_rationals(
            crate::conversions::spec_widen_i32_pairs(spec_field_srationals(f, b)),
        ),
        ExifTypes::Error => "N/A"@,
    }
}

/// The rendering of a field record itself.
pub open spec fn spec_field_string(f: InteroperabilityField) -> Seq<char> {
    "{ tag: "@ + spec_dec(f.tag as int) + " ("@ + spec_tag_name(f.tag as int) + "), type: "@
        + spec_type_name(spec_exif_type_of(f.data_type)) + ", count: "@ + spec_dec(f.count as int)
        + ", value_offset: "@ + spec_dec(f.value_offset as int) + " }"@
}

/// One Image File Directory: a count-prefixed sequence of field records. The
/// 4-byte offset to a chained next IFD follows the last record and is not
/// followed by this decoder.
pub struct IFD {
    pub number_of_fields: u16,
    /// The parsed field records, in the order encountered.
    pub interoperability_arrays: Vec<InteroperabilityField>,
    pub is_little_endian: bool,
}

/// An IFD starting at `off` fits within `b`: its 2-byte field count is
/// readable and so are all its `count` 12-byte records.
pub open spec fn spec_ifd_ok(b: Seq<u8>, off: int, le: bool) -> bool {
    &&& 0 <= off
    &&& off + 2 <= b.len()
    &&& off + 2 + 12 * (spec_u16_at(b, off, le) as int) <= b.len()
}

/// `ifd` holds exactly what the directory of `b` starting at `off` encodes.
pub open spec fn spec_ifd_parsed(ifd: IFD, b: Seq<u8>, off: int, le: bool) -> bool {
    &&& ifd.number_of_fields == spec_u16_at(b, off, le)
    &&& ifd.is_little_endian == le
    &&& ifd.interoperability_arrays@.len() == ifd.number_of_fields
    &&& forall|i: int|
        0 <= i < ifd.number_of_fields ==> spec_field_parsed(
            #[trigger] ifd.interoperability_arrays@[i],
            b,
            off + 2 + 12 * i,
            le,
        )
}

/// The first field of `fields` whose tag is `tag`, if any.
pub open spec fn spec_first_match(
    fields: Seq<InteroperabilityField>,
    tag: int,
) -> Option<InteroperabilityField>
    decreases fields.len(),
{
    if fields.len() == 0 {
        None
    } else if fields[0].tag == tag {
        Some(fields[0])
    } else {
        spec_first_match(fields.drop_first(), tag)
    }
}

/// When no field among the first `i` carries `tag`, the first match over the
/// whole sequence is the first match past `i`.
pub(crate) proof fn lemma_first_match_skip(fields: Seq<InteroperabilityField>, tag: int, i: int)
    requires
        0 <= i <= fields.len(),
        forall|j: int| 0 <= j < i ==> fields[j].tag != tag,
    ensures
        spec_first_match(fields, tag) == spec_first_match(fields.skip(i), tag),
    decreases i,
{
    if i > 0 {
        lemma_first_match_skip(fields, tag, i - 1);
        assert(fields.skip(i - 1)[0] == fields[i - 1]);
        assert(fields.skip(i - 1).drop_first() =~= fields.skip(i));
    } else {
        assert(fields.skip(0) =~= fields);
    }
}

impl IFD {
    /// Reads the directory of `slice` starting at `off`: the 2-byte field
    /// count, then that many 12-byte field records. `Truncated` exactly when
    /// the directory does not fit within the buffer.
    pub fn read_at(slice: &[u8], off: usize, le: bool) -> (r: Result<IFD, DecodeError>)
        ensures
            match r {
                Ok(ifd) => spec_ifd_ok(slice@, off as int, le) && spec_ifd_parsed(
                    ifd,
                    slice@,
                    off as int,
                    le,
                ),
                Err(e) => !spec_ifd_ok(slice@, off as int, le) && e == DecodeError::Truncated,
            },
    {
        let len = slice.len();
        if len < 2 || off > len - 2 {
            return Err(DecodeError::Truncated);
        }
        let number_of_fields = read_u16_at(slice, off, le);
        let remaining = len - (off + 2);
        if 12 * (number_of_fields as u64) > remaining as u64 {
            return Err(DecodeError::Truncated);
        }
        let n = number_of_fields as usize;
        let mut fields: Vec<InteroperabilityField> = Vec::new();
        let mut i: usize = 0;
        while i < n
            invariant
                n == number_of_fields,
                off + 2 + 12 * n <= slice@.len(),
                slice@.len() <= usize::MAX,
                0 <= i <= n,
                fields@.len() == i,
                forall|k: int|
                    0 <= k < i ==> spec_field_parsed(
                        #[trigger] fields@[k],
                        slice@,
                        off + 2 + 12 * k,
                        le,
                    ),
            decreases n - i,
        {
            fields.push(InteroperabilityField::read_at(slice, off + 2 + 12 * i, le));
            i = i + 1;
        }
        Ok(IFD { number_of_fields, interoperability_arrays: fields, is_little_endian: le })
    }

    /// Parses the directory from the start of `slice`.
    pub fn from(slice: &[u8], is_little_endian: bool) -> (r: Result<IFD, DecodeError>)
        ensures
            match r {
                Ok(ifd) => spec_ifd_ok(slice@, 0, is_little_endian) && spec_ifd_parsed(
                    ifd,
                    slice@,
                    0,
                    is_little_endian,
                ),
                Err(e) => !spec_ifd_ok(slice@, 0, is_little_endian) && e == DecodeError::Truncated,
            },
    {
        IFD::read_at(slice, 0, is_little_endian)
    }

    /// The parsed field records.
    pub fn get_interops(&self) -> (r: &Vec<InteroperabilityField>)
        ensures
            r@ == self.interoperability_arrays@,
    {
        &self.interoperability_arrays
    }

    /// The offset of the 4-byte next-IFD pointer past this directory's start:
    /// the 2-byte count, the field records, and the pointer itself.
    pub fn get_offset_to_next_ifd(&self) -> (r: usize)
        ensures
            r == 2 + 12 * (self.number_of_fields as int) + 4,
    {
        2 + (self.number_of_fields as usize) * INTEROPERABILITY_FIELD_SIZE + 4
    }

    /// The first field carrying `tag`, if any.
    pub fn get_interop_for_tag(&self, tag: usize) -> (r: Option<&InteroperabilityField>)
        ensures
            match r {
                Some(f) => spec_first_match(self.interoperability_arrays@, tag as int) == Some(*f),
                None => spec_first_match(self.interoperability_arrays@, tag as int) is None,
            },
    {
        let n = self.interoperability_arrays.len();
        let mut i: usize = 0;
        while i < n
            invariant
                n == self.interoperability_arrays@.len(),
                0 <= i <= n,
                forall|j: int|
                    0 <= j < i ==> #[trigger] self.interoperability_arrays@[j].tag != tag as int,
            decreases n - i,
        {
            let f = &self.interoperability_arrays[i];
            if f.tag as usize == tag {
                proof {
                    lemma_first_match_skip(self.interoperability_arrays@, tag as int, i as int);
                    assert(self.interoperability_arrays@.skip(i as int)[0]
                        == self.interoperability_arrays@[i as int]);
                }
                return Some(f);
            }
            i = i + 1;
        }
        proof {
            lemma_first_match_skip(self.interoperability_arrays@, tag as int, n as int);
            assert(self.interoperability_arrays@.skip(n as int) =~= Seq::<
                InteroperabilityField,
            >::empty());
        }
        None
    }

    /// The value slot of the first field carrying `tag`, read as an offset,
    /// whatever the field's declared type: the pointer tags (`ExifOffset`,
    /// `GPSOffset`) are conventionally encoded as `Long`.
    pub fn get_offset_for_tag(&self, tag: Tag) -> (r: Option<usize>)
        ensures
            match spec_first_match(self.interoperability_arrays@, tag.0 as int) {
                Some(f) => r == Some(f.value_offset as usize),
                None => r is None,
            },
    {
        match self.get_interop_for_tag(tag.0) {
            Some(f) => Some(f.value_offset as usize),
            None => None,
        }
    }

    /// Renders the value of the first field carrying `tag`, `"Error"` when
    /// the directory has no such field.
    pub fn get_value_as_string_for_tag(&self, tag: usize, slice: &[u8]) -> (s: String)
        ensures
            match spec_first_match(self.interoperability_arrays@, tag as int) {
                Some(f) => s@ == spec_value_string(f, slice@),
                None => s@ == "Error"@,
            },
    {
        match self.get_interop_for_tag(tag) {
            Some(f) => f.get_value_as_string(slice),
            None => "Error".to_owned(),
        }
    }

    /// Renders every field's value, in directory order.
    pub fn get_values_as_strings(&self, slice: &[u8]) -> (r: Vec<String>)
        ensures
            r@.len() == self.interoperability_arrays@.len(),
            forall|i: int|
                0 <= i < r@.len() ==> #[trigger] r@[i]@ == spec_value_string(
                    self.interoperability_arrays@[i],
                    slice@,
                ),
    {
        let n = self.interoperability_arrays.len();
        let mut r: Vec<String> = Vec::new();
        let mut i: usize = 0;
        while i < n
            invariant
                n == self.interoperability_arrays@.len(),
                0 <= i <= n,
                r@.len() == i,
                forall|k: int|
                    0 <= k < i ==> #[trigger] r@[k]@ == spec_value_string(
                        self.interoperability_arrays@[k],
                        slice@,
                    ),
            decreases n - i,
        {
            r.push(self.interoperability_arrays[i].get_value_as_string(slice));
            i = i + 1;
        }
        r
    }

    /// Renders the directory: its field count and each field record.
    pub fn get_as_string(&self) -> (s: String)
        ensures
            s@ == spec_ifd_string(*self),
    {
        let mut s = "IFD {\n\tNumber of fields: ".to_owned();
        s.append(crate::arrays::u64_to_dec_string(self.number_of_fields as u64).as_str());
        s.append(",\n\tinteroperability: ");
        s.append(self.get_array_as_string().as_str());
        s.append("\n}");
        s
    }

    /// Renders the field records as a bracketed, comma-separated list.
    fn get_array_as_string(&self) -> (s: String)
        ensures
            s@ == spec_field_array_string(self.interoperability_arrays@),
    {
        let mut s = "[\n".to_owned();
        let n = self.interoperability_arrays.len();
        let mut i: usize = 0;
        while i < n
            invariant
                n == self.interoperability_arrays@.len(),
                0 <= i <= n,
                s@ == "[\n"@ + spec_fields_joined(self.interoperability_arrays@.take(i as int)),
            decreases n - i,
        {
            if i > 0 {
                s.append(",\n");
            }
            s.append(self.interoperability_arrays[i].get_as_string().as_str());
            proof {
                let t = self.interoperability_arrays@.take(i + 1 as int);
                assert(t.drop_last() =~= self.interoperability_arrays@.take(i as int));
                assert(t.last() == self.interoperability_arrays@[i as int]);
            }
            i = i + 1;
        }
        s.append("\n\t]");
        proof {
            assert(self.interoperability_arrays@.take(
                self.interoperability_arrays@.len() as int,
            ) =~= self.interoperability_arrays@);
        }
        s
    }
}

/// The renderings of the field records, joined by `",\n"`.
pub open spec fn spec_fields_joined(fields: Seq<InteroperabilityField>) -> Seq<char>
    decreases fields.len(),
{
    if fields.len() == 0 {
        Seq::empty()
    } else if fields.len() == 1 {
        spec_field_string(fields[0])
    } else {
        spec_fields_joined(fields.drop_last()) + ",\n"@ + spec_field_string(fields.last())
    }
}

/// The rendering of a directory's field-record list.
pub open spec fn spec_field_array_string(fields: Seq<InteroperabilityField>) -> Seq<char> {
    "[\n"@ + spec_fields_joined(fields) + "\n\t]"@
}

/// The rendering of a directory.
pub open spec fn spec_ifd_string(ifd: IFD) -> Seq<char> {
    "IFD {\n\tNumber of fields: "@ + spec_dec(ifd.number_of_fields as int)
        + ",\n\tinteroperability: "@ + spec_field_array_string(ifd.interoperability_arrays@)
        + "\n}"@
}

/// The index, at or past `k`, of the first field record of the directory at
/// `off` whose tag bytes decode to `tag`.
pub open spec fn spec_ifd_find_tag_from(b: Seq<u8>, off: int, le: bool, tag: u16, k: int) -> Option<
    int,
>
    decreases spec_u16_at(b, off, le) as int - k,
{
    let n = spec_u16_at(b, off, le) as int;
    if k < 0 || k >= n {
        None
    } else if spec_u16_at(b, off + 2 + 12 * k, le) == tag {
        Some(k)
    } else {
        spec_ifd_find_tag_from(b, off, le, tag, k + 1)
    }
}

/// The index of the first field record of the directory at `off` whose tag is
/// `tag`.
pub open spec fn spec_ifd_find_tag(b: Seq<u8>, off: int, le: bool, tag: u16) -> Option<int> {
    spec_ifd_find_tag_from(b, off, le, tag, 0)
}

/// The value slot of the first field carrying `tag` in the directory at
/// `off`, read as an offset.
pub open spec fn spec_sub_ifd_offset(b: Seq<u8>, off: int, le: bool, tag: u16) -> Option<u32> {
    match spec_ifd_find_tag(b, off, le, tag) {
        Some(k) => Some(spec_u32_at(b, off + 2 + 12 * k + 8, le)),
        None => None,
    }
}

/// Byte-level tag search agrees with the first match over the parsed records.
proof fn lemma_find_tag_matches(
    fields: Seq<InteroperabilityField>,
    b: Seq<u8>,
    off: int,
    le: bool,
    tag: u16,
    k: int,
)
    requires
        fields.len() == spec_u16_at(b, off, le),
        forall|i: int|
            0 <= i < fields.len() ==> spec_field_parsed(
                #[trigger] fields[i],
                b,
                off + 2 + 12 * i,
                le,
            ),
        0 <= k <= fields.len(),
    ensures
        match spec_ifd_find_tag_from(b, off, le, tag, k) {
            Some(j) => k <= j < fields.len() && fields[j].tag == tag && spec_first_match(
                fields.skip(k),
                tag as int,
            ) == Some(fields[j]),
            None => spec_first_match(fields.skip(k), tag as int) is None,
        },
    decreases fields.len() - k,
{
    let n = spec_u16_at(b, off, le) as int;
    if k >= n {
        assert(fields.skip(k) =~= Seq::<InteroperabilityField>::empty());
    } else {
        assert(spec_field_parsed(fields[k], b, off + 2 + 12 * k, le));
        assert(fields.skip(k)[0] == fields[k]);
        if spec_u16_at(b, off + 2 + 12 * k, le) == tag {
        } else {
            lemma_find_tag_matches(fields, b, off, le, tag, k + 1);
            assert(fields.skip(k).drop_first() =~= fields.skip(k + 1));
        }
    }
}

/// For a parsed directory, the first matching parsed field and the byte-level
/// sub-IFD offset agree.
pub(crate) proof fn lemma_sub_ifd_offset(ifd: IFD, b: Seq<u8>, off: int, le: bool, tag: u16)
    requires
        spec_ifd_parsed(ifd, b, off, le),
    ensures
        match spec_first_match(ifd.interoperability_arrays@, tag as int) {
            Some(f) => spec_sub_ifd_offset(b, off, le, tag) == Some(f.value_offset),
            None => spec_sub_ifd_offset(b, off, le, tag) is None,
        },
{
    lemma_find_tag_matches(ifd.interoperability_arrays@, b, off, le, tag, 0);
    assert(ifd.interoperability_arrays@.skip(0) =~= ifd.interoperability_arrays@);
}

/// The identifier code that precedes the TIFF blob: `"Exif"` inside a JPEG
/// APP1 segment, `"eXIf"` as a PNG chunk type.
pub open spec fn spec_exif_marker(f: crate::formats::ImageFormat) -> Seq<u8> {
    match f {
        crate::formats::ImageFormat::Jpeg => seq![0x45u8, 0x78u8, 0x69u8, 0x66u8],
        crate::formats::ImageFormat::Png => seq![0x65u8, 0x58u8, 0x49u8, 0x66u8],
    }
}

/// How many bytes past the identifier code's start the TIFF header begins:
/// for JPEG past `"Exif\0\0"`, for PNG just past the chunk type.
pub open spec fn spec_marker_skip(f: crate::formats::ImageFormat) -> int {
    match f {
        crate::formats::ImageFormat::Jpeg => 6,
        crate::formats::ImageFormat::Png => 4,
    }
}

/// The identifier code's first occurrence in `b` is at `i`.
pub open spec fn spec_marker_first_at(b: Seq<u8>, f: crate::formats::ImageFormat, i: int) -> bool {
    &&& crate::arrays::spec_match_at(b, spec_exif_marker(f), i)
    &&& forall|j: int| 0 <= j < i ==> !crate::arrays::spec_match_at(b, spec_exif_marker(f), j)
}

/// Every condition for assembling a document from the TIFF blob at `start`:
/// the 8-byte header fits, the 0th IFD fits, and each sub-IFD that the 0th
/// IFD points to fits.
pub open spec fn spec_assemble_ok(b: Seq<u8>, start: int) -> bool {
    &&& 0 <= start
    &&& start + 8 <= b.len()
    &&& {
        let blob = b.subrange(start, b.len() as int);
        let hdr = spec_parse_header_at(blob, 0);
        let le = hdr.is_little_endian;
        let i0 = 8 + hdr.zero_th_ifd_offset as int;
        &&& spec_ifd_ok(blob, i0, le)
        &&& (match spec_sub_ifd_offset(blob, i0, le, 34665) {
            Some(o) => spec_ifd_ok(blob, o as int, le),
            None => true,
        })
        &&& (match spec_sub_ifd_offset(blob, i0, le, 34853) {
            Some(o) => spec_ifd_ok(blob, o as int, le),
            None => true,
        })
    }
}

/// The decoded EXIF document: the TIFF header, the 0th IFD, the Exif and GPS
/// sub-IFDs where the 0th IFD points to them, and an owned copy of the bytes
/// from the TIFF header to the end of the buffer, which every stored offset
/// is relative to.
pub struct ExifImage {
    pub tiff: TIFFHeader,
    pub ifd_0: IFD,
    pub ifd_exif: Option<IFD>,
    pub ifd_gps: Option<IFD>,
    pub slice: Vec<u8>,
}

/// `img` holds exactly what the TIFF blob of `b` starting at `start` encodes.
pub open spec fn spec_assembled(img: ExifImage, b: Seq<u8>, start: int) -> bool {
    let blob = b.subrange(start, b.len() as int);
    let hdr = spec_parse_header_at(blob, 0);
    let le = hdr.is_little_endian;
    let i0 = 8 + hdr.zero_th_ifd_offset as int;
    &&& img.slice@ == blob
    &&& img.tiff == hdr
    &&& spec_ifd_parsed(img.ifd_0, blob, i0, le)
    &&& (match spec_sub_ifd_offset(blob, i0, le, 34665) {
        Some(o) => match img.ifd_exif {
            Some(sub) => spec_ifd_parsed(sub, blob, o as int, le),
            None => false,
        },
        None => img.ifd_exif is None,
    })
    &&& (match spec_sub_ifd_offset(blob, i0, le, 34853) {
        Some(o) => match img.ifd_gps {
            Some(sub) => spec_ifd_parsed(sub, blob, o as int, le),
            None => false,
        },
        None => img.ifd_gps is None,
    })
}

impl ExifImage {
    /// Assembles the document from the TIFF blob that starts at
    /// `tiff_blob_start` inside `buffer`: parses the header, the 0th IFD, and
    /// follows the `ExifOffset` and `GPSOffset` pointer fields of the 0th IFD
    /// into the sub-IFDs. A missing pointer is not an error; a structure that
    /// does not fit the buffer is `Truncated`.
    pub fn assemble(buffer: &[u8], tiff_blob_start: usize) -> (r: Result<ExifImage, DecodeError>)
        ensures
            match r {
                Ok(img) => spec_assemble_ok(buffer@, tiff_blob_start as int) && spec_assembled(
                    img,
                    buffer@,
                    tiff_blob_start as int,
                ),
                Err(e) => e == DecodeError::Truncated && !spec_assemble_ok(
                    buffer@,
                    tiff_blob_start as int,
                ),
            },
    {
        let len = buffer.len();
        if len < 8 || tiff_blob_start > len - 8 {
            return Err(DecodeError::Truncated);
        }
        let mut blob: Vec<u8> = Vec::new();
        blob.extend_from_slice(&buffer[tiff_blob_start..len]);
        proof {
            assert(blob@ =~= buffer@.subrange(tiff_blob_start as int, buffer@.len() as int));
        }
        let tiff = TIFFHeader::read_at(blob.as_slice(), 0);
        let le = tiff.is_little_endian;
        let i0_64: u64 = 8 + tiff.zero_th_ifd_offset as u64;
        if i0_64 > blob.len() as u64 {
            return Err(DecodeError::Truncated);
        }
        let i0 = i0_64 as usize;
        let ifd_0 = match IFD::read_at(blob.as_slice(), i0, le) {
            Ok(x) => x,
            Err(e) => {
                return Err(e);
            },
        };
        proof {
            lemma_sub_ifd_offset(ifd_0, blob@, i0 as int, le, 34665);
            lemma_sub_ifd_offset(ifd_0, blob@, i0 as int, le, 34853);
        }
        let ifd_exif = match ifd_0.get_offset_for_tag(Tag(TAG_EXIF_OFFSET)) {
            Some(o) => match IFD::read_at(blob.as_slice(), o, le) {
                Ok(x) => Some(x),
                Err(e) => {
                    return Err(e);
                },
            },
            None => None,
        };
        let ifd_gps = match ifd_0.get_offset_for_tag(Tag(TAG_GPS_OFFSET)) {
            Some(o) => match IFD::read_at(blob.as_slice(), o, le) {
                Ok(x) => Some(x),
                Err(e) => {
                    return Err(e);
                },
            },
            None => None,
        };
        Ok(ExifImage { tiff, ifd_0, ifd_exif, ifd_gps, slice: blob })
    }

    /// Locates the TIFF blob past the first EXIF identifier code for the
    /// given container format and assembles the document from it.
    pub fn from(img_contents: Vec<u8>, img_format: crate::formats::ImageFormat) -> (r: Result<
        ExifImage,
        DecodeError,
    >)
        ensures
            match r {
                Ok(img) => exists|i: int|
                    spec_marker_first_at(img_contents@, img_format, i) && spec_assemble_ok(
                        img_contents@,
                        i + spec_marker_skip(img_format),
                    ) && spec_assembled(img, img_contents@, i + spec_marker_skip(img_format)),
                Err(e) => (e == DecodeError::MissingExifMarker ==> forall|j: int|
                    !crate::arrays::spec_match_at(img_contents@, spec_exif_marker(img_format), j))
                    && (e == DecodeError::Truncated ==> exists|i: int|
                    spec_marker_first_at(img_contents@, img_format, i) && !spec_assemble_ok(
                        img_contents@,
                        i + spec_marker_skip(img_format),
                    )),
            },
    {
        let marker: [u8; 4] = match img_format {
            crate::formats::ImageFormat::Jpeg => [0x45, 0x78, 0x69, 0x66],
            crate::formats::ImageFormat::Png => [0x65, 0x58, 0x49, 0x66],
        };
        proof {
            assert(marker@ =~= spec_exif_marker(img_format));
        }
        let skip: usize = match img_format {
            crate::formats::ImageFormat::Jpeg => 6,
            crate::formats::ImageFormat::Png => 4,
        };
        let idx = match crate::arrays::index_of_sub_slice(
            img_contents.as_slice(),
            marker.as_slice(),
        ) {
            Some(i) => i,
            None => {
                return Err(DecodeError::MissingExifMarker);
            },
        };
        proof {
            assert(spec_marker_first_at(img_contents@, img_format, idx as int));
        }
        let len = img_contents.len();
        let need = skip + 8;
        if len < need || idx > len - need {
            proof {
                assert(!spec_assemble_ok(img_contents@, idx as int + spec_marker_skip(img_format)));
            }
            return Err(DecodeError::Truncated);
        }
        let start = idx + skip;
        match ExifImage::assemble(img_contents.as_slice(), start) {
            Ok(img) => {
                proof {
                    assert(spec_marker_first_at(img_contents@, img_format, idx as int)
                        && spec_assemble_ok(
                        img_contents@,
                        idx as int + spec_marker_skip(img_format),
                    ) && spec_assembled(
                        img,
                        img_contents@,
                        idx as int + spec_marker_skip(img_format),
                    ));
                }
                Ok(img)
            },
            Err(e) => {
                proof {
                    assert(spec_marker_first_at(img_contents@, img_format, idx as int)
                        && !spec_assemble_ok(
                        img_contents@,
                        idx as int + spec_marker_skip(img_format),
                    ));
                }
                Err(e)
            },
        }
    }

    /// The rendering of the document's structures, one per line; an absent
    /// sub-IFD renders as missing.
    pub open spec fn spec_infos_string(self) -> Seq<char> {
        self.tiff.spec_as_string() + "\n"@ + spec_ifd_string(self.ifd_0) + "\n"@ + (
        match self.ifd_exif {
            Some(ifd) => spec_ifd_string(ifd),
            None => "No Exif IFD"@,
        }) + "\n"@ + (match self.ifd_gps {
            Some(ifd) => spec_ifd_string(ifd),
            None => "No GPS IFD"@,
        }) + "\n"@
    }

    /// Renders the header and each directory, one per line.
    pub fn get_infos_as_string(&self) -> (s: String)
        ensures
            s@ == self.spec_infos_string(),
    {
        let mut s = self.tiff.get_as_string();
        s.append("\n");
        s.append(self.ifd_0.get_as_string().as_str());
        s.append("\n");
        match &self.ifd_exif {
            Some(ifd) => s.append(ifd.get_as_string().as_str()),
            None => s.append("No Exif IFD"),
        }
        s.append("\n");
        match &self.ifd_gps {
            Some(ifd) => s.append(ifd.get_as_string().as_str()),
            None => s.append("No GPS IFD"),
        }
        s.append("\n");
        s
    }

    /// Renders every field's value of every directory, 0th first, then Exif,
    /// then GPS, each directory in its own order.
    pub fn get_all_tags_as_strings(&self) -> (r: Vec<String>)
        ensures
            ({
                let n0 = self.ifd_0.interoperability_arrays@.len() as int;
                let n1 = match self.ifd_exif {
                    Some(ifd) => ifd.interoperability_arrays@.len() as int,
                    None => 0,
                };
                let n2 = match self.ifd_gps {
                    Some(ifd) => ifd.interoperability_arrays@.len() as int,
                    None => 0,
                };
                &&& r@.len() == n0 + n1 + n2
                &&& forall|i: int|
                    0 <= i < n0 ==> #[trigger] r@[i]@ == spec_value_string(
                        self.ifd_0.interoperability_arrays@[i],
                        self.slice@,
                    )
                &&& (match self.ifd_exif {
                    Some(ifd) => forall|i: int|
                        0 <= i < n1 ==> #[trigger] r@[n0 + i]@ == spec_value_string(
                            ifd.interoperability_arrays@[i],
                            self.slice@,
                        ),
                    None => true,
                })
                &&& (match self.ifd_gps {
                    Some(ifd) => forall|i: int|
                        0 <= i < n2 ==> #[trigger] r@[n0 + n1 + i]@ == spec_value_string(
                            ifd.interoperability_arrays@[i],
                            self.slice@,
                        ),
                    None => true,
                })
            }),
    {
        let mut r = self.ifd_0.get_values_as_strings(self.slice.as_slice());
        match &self.ifd_exif {
            Some(ifd) => {
                let mut v = ifd.get_values_as_strings(self.slice.as_slice());
                r.append(&mut v);
            },
            None => {},
        }
        match &self.ifd_gps {
            Some(ifd) => {
                let mut v = ifd.get_values_as_strings(self.slice.as_slice());
                r.append(&mut v);
            },
            None => {},
        }
        r
    }
}

/// The byte offset, within the whole file, at which the 8-byte TIFF header
/// begins: just past the first EXIF identifier code (and, for JPEG, its two
/// padding bytes). `None` when the code is absent or the position would lie
/// past the end of the buffer.
pub fn find_tiff_blob_offset(file_bytes: &[u8], format: crate::formats::ImageFormat) -> (r: Option<
    usize,
>)
    ensures
        match r {
            Some(s) => exists|i: int|
                spec_marker_first_at(file_bytes@, format, i) && s == i + spec_marker_skip(format)
                    && s <= file_bytes@.len(),
            None => (forall|j: int|
                !crate::arrays::spec_match_at(file_bytes@, spec_exif_marker(format), j)) || (
            exists|i: int|
                spec_marker_first_at(file_bytes@, format, i) && i + spec_marker_skip(format)
                    > file_bytes@.len()),
        },
{
    let marker: [u8; 4] = match format {
        crate::formats::ImageFormat::Jpeg => [0x45, 0x78, 0x69, 0x66],
        crate::formats::ImageFormat::Png => [0x65, 0x58, 0x49, 0x66],
    };
    proof {
        assert(marker@ =~= spec_exif_marker(format));
    }
    let skip: usize = match format {
        crate::formats::ImageFormat::Jpeg => 6,
        crate::formats::ImageFormat::Png => 4,
    };
    match crate::arrays::index_of_sub_slice(file_bytes, marker.as_slice()) {
        Some(i) => {
            let len = file_bytes.len();
            proof {
                assert(spec_marker_first_at(file_bytes@, format, i as int));
            }
            if skip <= len && i <= len - skip {
                Some(i + skip)
            } else {
                None
            }
        },
        None => None,
    }
}

} // verus!
