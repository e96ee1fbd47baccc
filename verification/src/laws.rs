//! Properties of the decoder that hold for every input, stated and proved
//! once: byte-order detection, truncation safety, and the round trip between
//! a synthetic encoding of an IFD and the parser.

use vstd::prelude::*;

use crate::conversions::{spec_u16_at, spec_u32_at};
use crate::exif::{
    lemma_first_match_skip, lemma_sub_ifd_offset, spec_assembled, spec_ifd_ok, spec_ifd_parsed,
    spec_parse_header, spec_parse_header_at, DecodeError, ExifImage, InteroperabilityField, IFD,
    TIFFHeader,
};

verus! {

/// For every valid 8-byte header, the marker `"II"` decodes as little-endian
/// and the marker `"MM"` as big-endian.
pub proof fn lemma_header_byte_order(b: Seq<u8>)
    requires
        b.len() == 8,
    ensures
        b[0] == 0x49 && b[1] == 0x49 ==> spec_parse_header(b) == Ok::<TIFFHeader, DecodeError>(
            spec_parse_header_at(b, 0),
        ) && spec_parse_header_at(b, 0).is_little_endian,
        b[0] == 0x4D && b[1] == 0x4D ==> spec_parse_header(b) == Ok::<TIFFHeader, DecodeError>(
            spec_parse_header_at(b, 0),
        ) && !spec_parse_header_at(b, 0).is_little_endian,
{
}

/// A header parse over any span other than exactly 8 bytes is `Truncated`.
/// Together with `TIFFHeader::from`'s contract this covers every truncation
/// length below the required size.
pub proof fn lemma_header_truncated(b: Seq<u8>)
    requires
        b.len() != 8,
    ensures
        spec_parse_header(b) == Err::<TIFFHeader, DecodeError>(DecodeError::Truncated),
{
}

/// A buffer that cannot hold an IFD's 2-byte count and all its declared
/// 12-byte records is not a valid IFD span, so `IFD::from` returns
/// `Truncated` on it rather than reading out of bounds.
pub proof fn lemma_ifd_truncated(b: Seq<u8>, le: bool)
    requires
        b.len() < 2 || b.len() < 2 + 12 * (spec_u16_at(b, 0, le) as int),
    ensures
        !spec_ifd_ok(b, 0, le),
{
}

/// Missing sub-IFD: an assembled document whose 0th IFD carries no
/// `ExifOffset` (34665) and no `GPSOffset` (34853) field has `None` for both
/// sub-IFDs — their absence is no error, the header and the 0th IFD still
/// parse in full.
pub proof fn lemma_missing_sub_ifds(img: ExifImage, b: Seq<u8>, start: int)
    requires
        spec_assembled(img, b, start),
        forall|i: int|
            0 <= i < img.ifd_0.interoperability_arrays@.len() ==> ((
            #[trigger] img.ifd_0.interoperability_arrays@[i]).tag != 34665
                && img.ifd_0.interoperability_arrays@[i].tag != 34853),
    ensures
        img.ifd_exif is None,
        img.ifd_gps is None,
{
    let blob = b.subrange(start, b.len() as int);
    let hdr = spec_parse_header_at(blob, 0);
    let le = hdr.is_little_endian;
    let i0 = 8 + hdr.zero_th_ifd_offset as int;
    let fields = img.ifd_0.interoperability_arrays@;
    lemma_first_match_skip(fields, 34665, fields.len() as int);
    lemma_first_match_skip(fields, 34853, fields.len() as int);
    assert(fields.skip(fields.len() as int) =~= Seq::<InteroperabilityField>::empty());
    lemma_sub_ifd_offset(img.ifd_0, blob, i0, le, 34665);
    lemma_sub_ifd_offset(img.ifd_0, blob, i0, le, 34853);
}

/// Inline/offset boundary: a field whose values fit the 4-byte slot decodes
/// entirely from the slot — the backing buffer plays no part. For a `Short`
/// field this is exactly `count <= 2`.
pub proof fn lemma_inline_short_ignores_buffer(
    f: crate::exif::InteroperabilityField,
    b1: Seq<u8>,
    b2: Seq<u8>,
)
    requires
        f.count * 2 <= 4,
    ensures
        crate::exif::spec_field_shorts(f, b1) == crate::exif::spec_field_shorts(f, b2),
{
}

/// Inline/offset boundary, the other side: a `Short` field with more than
/// two values reads `2 * count` bytes at the slot's offset, and decodes to
/// the empty value when that span exceeds the buffer.
pub proof fn lemma_offset_short_reads_buffer(f: crate::exif::InteroperabilityField, b: Seq<u8>)
    requires
        f.count * 2 > 4,
    ensures
        f.value_offset + f.count * 2 <= b.len() ==> crate::exif::spec_field_shorts(f, b)
            == Seq::new(
            f.count as nat,
            |i: int| spec_u16_at(b, f.value_offset + 2 * i, f.is_little_endian),
        ),
        f.value_offset + f.count * 2 > b.len() ==> crate::exif::spec_field_shorts(f, b)
            == Seq::<u16>::empty(),
{
}

/// The two bytes encoding `v` in byte order `le`, least significant first
/// when little-endian.
pub open spec fn spec_encode_u16(v: u16, le: bool) -> Seq<u8> {
    let low = (v % 0x100) as u8;
    let high = (v / 0x100) as u8;
    if le {
        seq![low, high]
    } else {
        seq![high, low]
    }
}

/// The four bytes encoding `v` in byte order `le`.
pub open spec fn spec_encode_u32(v: u32, le: bool) -> Seq<u8> {
    let b0 = (v % 0x100) as u8;
    let b1 = ((v / 0x100) % 0x100) as u8;
    let b2 = ((v / 0x1_0000) % 0x100) as u8;
    let b3 = (v / 0x100_0000) as u8;
    if le {
        seq![b0, b1, b2, b3]
    } else {
        seq![b3, b2, b1, b0]
    }
}

/// The 12 bytes encoding one field record.
pub open spec fn spec_encode_field(tag: u16, dtype: u16, count: u32, off: u32, le: bool) -> Seq<
    u8,
> {
    spec_encode_u16(tag, le) + spec_encode_u16(dtype, le) + spec_encode_u32(count, le)
        + spec_encode_u32(off, le)
}

/// The concatenated encodings of the records of `entries`, each a
/// `(tag, type, count, value_offset)` tuple, in order.
pub open spec fn spec_encode_records(entries: Seq<(u16, u16, u32, u32)>, le: bool) -> Seq<u8>
    decreases entries.len(),
{
    if entries.len() == 0 {
        Seq::empty()
    } else {
        spec_encode_records(entries.drop_last(), le) + spec_encode_field(
            entries.last().0,
            entries.last().1,
            entries.last().2,
            entries.last().3,
            le,
        )
    }
}

/// A synthetic IFD holding the records of `entries`: the 2-byte count, the
/// records, and a zero next-IFD pointer.
pub open spec fn spec_encode_ifd(entries: Seq<(u16, u16, u32, u32)>, le: bool) -> Seq<u8>
    recommends
        entries.len() <= 0xFFFF,
{
    spec_encode_u16(entries.len() as u16, le) + spec_encode_records(entries, le) + seq![
        0u8,
        0u8,
        0u8,
        0u8,
    ]
}

/// Decoding the two bytes that encode `v` gives `v` back.
proof fn lemma_u16_round_trip(v: u16, le: bool, b: Seq<u8>, p: int)
    requires
        0 <= p,
        p + 2 <= b.len(),
        b[p] == spec_encode_u16(v, le)[0],
        b[p + 1] == spec_encode_u16(v, le)[1],
    ensures
        spec_u16_at(b, p, le) == v,
{
    assert((v / 0x100) * 0x100 + (v % 0x100) == v) by (nonlinear_arith);
}

/// Decoding the four bytes that encode `v` gives `v` back.
proof fn lemma_u32_round_trip(v: u32, le: bool, b: Seq<u8>, p: int)
    requires
        0 <= p,
        p + 4 <= b.len(),
        forall|k: int| 0 <= k < 4 ==> b[p + k] == spec_encode_u32(v, le)[k],
    ensures
        spec_u32_at(b, p, le) == v,
{
    assert(b[p] == spec_encode_u32(v, le)[0]);
    assert(b[p + 1] == spec_encode_u32(v, le)[1]);
    assert(b[p + 2] == spec_encode_u32(v, le)[2]);
    assert(b[p + 3] == spec_encode_u32(v, le)[3]);
    assert((v / 0x100_0000) * 0x100_0000 + ((v / 0x1_0000) % 0x100) * 0x1_0000 + ((v / 0x100)
        % 0x100) * 0x100 + (v % 0x100) == v) by (bit_vector);
}

/// The record area of an encoding is 12 bytes per entry.
proof fn lemma_records_len(entries: Seq<(u16, u16, u32, u32)>, le: bool)
    ensures
        spec_encode_records(entries, le).len() == 12 * entries.len(),
    decreases entries.len(),
{
    if entries.len() > 0 {
        lemma_records_len(entries.drop_last(), le);
    }
}

/// Entry `i`'s record occupies bytes `12 * i` to `12 * i + 12` of the record
/// area.
proof fn lemma_records_index(entries: Seq<(u16, u16, u32, u32)>, le: bool, i: int)
    requires
        0 <= i < entries.len(),
    ensures
        forall|k: int|
            0 <= k < 12 ==> spec_encode_records(entries, le)[12 * i + k] == spec_encode_field(
                entries[i].0,
                entries[i].1,
                entries[i].2,
                entries[i].3,
                le,
            )[k],
    decreases entries.len(),
{
    lemma_records_len(entries, le);
    lemma_records_len(entries.drop_last(), le);
    if i < entries.len() - 1 {
        lemma_records_index(entries.drop_last(), le, i);
        assert(entries.drop_last()[i] == entries[i]);
    } else {
        assert(entries.last() == entries[i]);
    }
}

/// Round trip: the encoding of `entries` is a valid IFD span whose parse
/// yields the same `(tag, type, count, value_offset)` tuples in the same
/// order.
#[verifier::rlimit(60)]
pub proof fn lemma_ifd_round_trip(entries: Seq<(u16, u16, u32, u32)>, le: bool)
    requires
        entries.len() <= 0xFFFF,
    ensures
        ({
            let b = spec_encode_ifd(entries, le);
            &&& b.len() == 2 + 12 * entries.len() + 4
            &&& spec_ifd_ok(b, 0, le)
            &&& spec_u16_at(b, 0, le) == entries.len()
            &&& forall|i: int|
                0 <= i < entries.len() ==> (spec_u16_at(b, 2 + 12 * i, le) == (
                #[trigger] entries[i]).0 && spec_u16_at(b, 2 + 12 * i + 2, le) == entries[i].1
                    && spec_u32_at(b, 2 + 12 * i + 4, le) == entries[i].2 && spec_u32_at(
                    b,
                    2 + 12 * i + 8,
                    le,
                ) == entries[i].3)
        }),
{
    let b = spec_encode_ifd(entries, le);
    let cnt = spec_encode_u16(entries.len() as u16, le);
    let recs = spec_encode_records(entries, le);
    lemma_records_len(entries, le);
    assert(b.len() == 2 + 12 * entries.len() + 4);
    lemma_u16_round_trip(entries.len() as u16, le, b, 0);
    assert(spec_u16_at(b, 0, le) == entries.len());
    assert forall|i: int| 0 <= i < entries.len() implies (spec_u16_at(b, 2 + 12 * i, le) == (
    #[trigger] entries[i]).0 && spec_u16_at(b, 2 + 12 * i + 2, le) == entries[i].1 && spec_u32_at(
        b,
        2 + 12 * i + 4,
        le,
    ) == entries[i].2 && spec_u32_at(b, 2 + 12 * i + 8, le) == entries[i].3) by {
        lemma_records_index(entries, le, i);
        let f = spec_encode_field(entries[i].0, entries[i].1, entries[i].2, entries[i].3, le);
        assert forall|k: int| 0 <= k < 12 implies b[2 + 12 * i + k] == f[k] by {
            assert(b[2 + 12 * i + k] == recs[12 * i + k]);
        }
        let e_tag = spec_encode_u16(entries[i].0, le);
        let e_type = spec_encode_u16(entries[i].1, le);
        let e_count = spec_encode_u32(entries[i].2, le);
        let e_off = spec_encode_u32(entries[i].3, le);
        assert(e_tag.len() == 2 && e_type.len() == 2 && e_count.len() == 4 && e_off.len() == 4);
        assert(b[2 + 12 * i] == f[0] && f[0] == e_tag[0]);
        assert(b[2 + 12 * i + 1] == f[1] && f[1] == e_tag[1]);
        assert(b[2 + 12 * i + 2] == f[2] && f[2] == e_type[0]);
        assert(b[2 + 12 * i + 3] == f[3] && f[3] == e_type[1]);
        assert(b[2 + 12 * i + 4] == f[4] && f[4] == e_count[0]);
        assert(b[2 + 12 * i + 5] == f[5] && f[5] == e_count[1]);
        assert(b[2 + 12 * i + 6] == f[6] && f[6] == e_count[2]);
        assert(b[2 + 12 * i + 7] == f[7] && f[7] == e_count[3]);
        assert(b[2 + 12 * i + 8] == f[8] && f[8] == e_off[0]);
        assert(b[2 + 12 * i + 9] == f[9] && f[9] == e_off[1]);
        assert(b[2 + 12 * i + 10] == f[10] && f[10] == e_off[2]);
        assert(b[2 + 12 * i + 11] == f[11] && f[11] == e_off[3]);
        lemma_u16_round_trip(entries[i].0, le, b, 2 + 12 * i);
        lemma_u16_round_trip(entries[i].1, le, b, 2 + 12 * i + 2);
        lemma_u32_round_trip(entries[i].2, le, b, 2 + 12 * i + 4);
        lemma_u32_round_trip(entries[i].3, le, b, 2 + 12 * i + 8);
    }
}

/// Round trip at the level of the parsed structure: an `IFD` parsed from the
/// encoding of `entries` carries the same tuples in the same order.
pub proof fn lemma_ifd_round_trip_parsed(entries: Seq<(u16, u16, u32, u32)>, le: bool, ifd: IFD)
    requires
        entries.len() <= 0xFFFF,
        spec_ifd_parsed(ifd, spec_encode_ifd(entries, le), 0, le),
    ensures
        ifd.interoperability_arrays@.len() == entries.len(),
        forall|i: int|
            0 <= i < entries.len() ==> ((#[trigger] ifd.interoperability_arrays@[i]).tag
                == entries[i].0 && ifd.interoperability_arrays@[i].data_type == entries[i].1
                && ifd.interoperability_arrays@[i].count == entries[i].2
                && ifd.interoperability_arrays@[i].value_offset == entries[i].3),
{
    lemma_ifd_round_trip(entries, le);
}

} // verus!
