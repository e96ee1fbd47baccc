//! Byte-level decoding: header parsing, field records, endianness, the
//! inline-versus-offset rule, and truncation safety.

use exif_decoder::conversions::{
    u8_2_to_u16_be, u8_2_to_u16_le, u8_4_to_i32_le, u8_4_to_u32_be, u8_4_to_u32_le,
};
use exif_decoder::exif::{DecodeError, ExifTypes, InteroperabilityField, IFD, TIFFHeader};

fn short_field(tag: u16, count: u32, slot: [u8; 4]) -> Vec<u8> {
    let mut rec = Vec::new();
    rec.extend_from_slice(&tag.to_le_bytes());
    rec.extend_from_slice(&3u16.to_le_bytes());
    rec.extend_from_slice(&count.to_le_bytes());
    rec.extend_from_slice(&slot);
    rec
}

#[test]
fn header_ii_is_little_endian() {
    let h = TIFFHeader::from(&[0x49, 0x49, 0x2A, 0x00, 0x08, 0x00, 0x00, 0x00]).unwrap();
    assert!(h.is_little_endian);
    assert!(h.recognized_byte_order);
    assert_eq!(h.zero_th_ifd_offset, 0);
}

#[test]
fn header_mm_is_big_endian() {
    let h = TIFFHeader::from(&[0x4D, 0x4D, 0x00, 0x2A, 0x00, 0x00, 0x00, 0x08]).unwrap();
    assert!(!h.is_little_endian);
    assert!(h.recognized_byte_order);
    assert_eq!(h.zero_th_ifd_offset, 0);
}

#[test]
fn header_unknown_marker_defaults_to_big_endian() {
    let h = TIFFHeader::from(&[0x00, 0x00, 0x00, 0x2A, 0x00, 0x00, 0x00, 0x10]).unwrap();
    assert!(!h.is_little_endian);
    assert!(!h.recognized_byte_order);
    assert_eq!(h.zero_th_ifd_offset, 16);
}

#[test]
fn header_offset_is_normalized_past_the_header() {
    // A raw offset of 8 means the 0th IFD immediately follows the header.
    let h = TIFFHeader::from(&[0x49, 0x49, 0x2A, 0x00, 0x08, 0x00, 0x00, 0x00]).unwrap();
    assert_eq!(h.zero_th_ifd_offset, 0);
    let h = TIFFHeader::from(&[0x49, 0x49, 0x2A, 0x00, 0x14, 0x00, 0x00, 0x00]).unwrap();
    assert_eq!(h.zero_th_ifd_offset, 20);
}

#[test]
fn header_truncated_at_every_shorter_length() {
    let full = [0x49u8, 0x49, 0x2A, 0x00, 0x08, 0x00, 0x00, 0x00];
    for len in 0..8 {
        assert_eq!(TIFFHeader::from(&full[..len]), Err(DecodeError::Truncated));
    }
}

#[test]
fn field_truncated_at_every_shorter_length() {
    let rec = short_field(256, 1, [7, 0, 0, 0]);
    for len in 0..12 {
        assert!(InteroperabilityField::from(&rec[..len], true).is_err());
    }
    assert!(InteroperabilityField::from(&rec, true).is_ok());
}

#[test]
fn ifd_truncated_at_every_shorter_length() {
    let mut ifd = vec![0x01, 0x00];
    ifd.extend_from_slice(&short_field(256, 1, [7, 0, 0, 0]));
    assert_eq!(ifd.len(), 14);
    for len in 0..14 {
        match IFD::from(&ifd[..len], true) {
            Err(DecodeError::Truncated) => {}
            other => panic!("expected Truncated for length {}, got {:?}", len, other.is_ok()),
        }
    }
    assert!(IFD::from(&ifd, true).is_ok());
}

#[test]
fn endianness_symmetry() {
    assert_eq!(u8_2_to_u16_le((0x01, 0x00)), 1);
    assert_eq!(u8_2_to_u16_be((0x01, 0x00)), 256);
    assert_eq!(u8_4_to_u32_le((0x01, 0x00, 0x00, 0x00)), 1);
    assert_eq!(u8_4_to_u32_be((0x01, 0x00, 0x00, 0x00)), 0x0100_0000);
    assert_eq!(u8_4_to_i32_le((0xFF, 0xFF, 0xFF, 0xFF)), -1);
    assert_eq!(u8_4_to_i32_le((0xFE, 0xFF, 0xFF, 0x7F)), 0x7FFF_FFFE);
}

#[test]
fn short_count_two_decodes_inline() {
    // Two shorts are exactly 4 bytes: they must come from the slot, and no
    // backing buffer is consulted.
    let rec = short_field(256, 2, [0x01, 0x00, 0x02, 0x00]);
    let f = InteroperabilityField::from(&rec, true).unwrap();
    let vals = f.get_value_short(&[]).unwrap();
    assert_eq!(vals, vec![1, 2]);
}

#[test]
fn short_count_three_decodes_from_offset() {
    // Three shorts are 6 bytes: the slot holds an offset into the buffer.
    let rec = short_field(256, 3, [20, 0, 0, 0]);
    let f = InteroperabilityField::from(&rec, true).unwrap();
    let mut buf = vec![0u8; 26];
    buf[20..26].copy_from_slice(&[0x01, 0x00, 0x02, 0x00, 0x03, 0x00]);
    let vals = f.get_value_short(&buf).unwrap();
    assert_eq!(vals, vec![1, 2, 3]);
}

#[test]
fn short_big_endian_decodes_inline() {
    let mut rec = Vec::new();
    rec.extend_from_slice(&256u16.to_be_bytes());
    rec.extend_from_slice(&3u16.to_be_bytes());
    rec.extend_from_slice(&1u32.to_be_bytes());
    rec.extend_from_slice(&[0x01, 0x00, 0x00, 0x00]);
    let f = InteroperabilityField::from(&rec, false).unwrap();
    assert_eq!(f.get_value_short(&[]).unwrap(), vec![256]);
}

#[test]
fn multi_value_longs_keep_file_order() {
    // Four longs 1,2,3,4 laid out at an out-of-line offset decode in file
    // order, not reversed.
    let mut rec = Vec::new();
    rec.extend_from_slice(&0x0111u16.to_le_bytes());
    rec.extend_from_slice(&4u16.to_le_bytes());
    rec.extend_from_slice(&4u32.to_le_bytes());
    rec.extend_from_slice(&12u32.to_le_bytes());
    let f = InteroperabilityField::from(&rec, true).unwrap();
    let mut buf = vec![0u8; 28];
    for (i, v) in [1u32, 2, 3, 4].iter().enumerate() {
        buf[12 + 4 * i..16 + 4 * i].copy_from_slice(&v.to_le_bytes());
    }
    assert_eq!(f.get_value_long(&buf).unwrap(), vec![1, 2, 3, 4]);
}

#[test]
fn out_of_bounds_offset_decodes_empty() {
    // A value span past the end of the buffer fails softly with an empty
    // value instead of aborting.
    let rec = short_field(256, 3, [200, 0, 0, 0]);
    let f = InteroperabilityField::from(&rec, true).unwrap();
    assert_eq!(f.get_value_short(&[0u8; 40]).unwrap(), Vec::<u16>::new());
}

#[test]
fn ascii_decodes_bytes_as_characters() {
    let mut rec = Vec::new();
    rec.extend_from_slice(&271u16.to_le_bytes());
    rec.extend_from_slice(&2u16.to_le_bytes());
    rec.extend_from_slice(&6u32.to_le_bytes());
    rec.extend_from_slice(&12u32.to_le_bytes());
    let f = InteroperabilityField::from(&rec, true).unwrap();
    let mut buf = vec![0u8; 18];
    buf[12..18].copy_from_slice(b"Kodak\0");
    assert_eq!(f.get_value_ascii(&buf).unwrap(), "Kodak\0");
}

#[test]
fn short_ascii_decodes_inline() {
    let mut rec = Vec::new();
    rec.extend_from_slice(&271u16.to_le_bytes());
    rec.extend_from_slice(&2u16.to_le_bytes());
    rec.extend_from_slice(&3u32.to_le_bytes());
    rec.extend_from_slice(b"ab\0\0");
    let f = InteroperabilityField::from(&rec, true).unwrap();
    assert_eq!(f.get_value_ascii(&[]).unwrap(), "ab\0");
}

#[test]
fn bytes_decode_inline_prefix_of_slot() {
    let mut rec = Vec::new();
    rec.extend_from_slice(&258u16.to_le_bytes());
    rec.extend_from_slice(&1u16.to_le_bytes());
    rec.extend_from_slice(&3u32.to_le_bytes());
    rec.extend_from_slice(&[8, 8, 8, 0]);
    let f = InteroperabilityField::from(&rec, true).unwrap();
    assert_eq!(f.get_value_byte(&[]).unwrap(), vec![8, 8, 8]);
}

#[test]
fn rationals_decode_from_offset_in_order() {
    let mut rec = Vec::new();
    rec.extend_from_slice(&282u16.to_le_bytes());
    rec.extend_from_slice(&5u16.to_le_bytes());
    rec.extend_from_slice(&2u32.to_le_bytes());
    rec.extend_from_slice(&12u32.to_le_bytes());
    let f = InteroperabilityField::from(&rec, true).unwrap();
    let mut buf = vec![0u8; 28];
    for (i, v) in [72u32, 1, 300, 7].iter().enumerate() {
        buf[12 + 4 * i..16 + 4 * i].copy_from_slice(&v.to_le_bytes());
    }
    assert_eq!(f.get_value_rational(&buf).unwrap(), vec![(72, 1), (300, 7)]);
}

#[test]
fn srationals_decode_signed_values() {
    let mut rec = Vec::new();
    rec.extend_from_slice(&37380u16.to_le_bytes());
    rec.extend_from_slice(&10u16.to_le_bytes());
    rec.extend_from_slice(&1u32.to_le_bytes());
    rec.extend_from_slice(&12u32.to_le_bytes());
    let f = InteroperabilityField::from(&rec, true).unwrap();
    let mut buf = vec![0u8; 20];
    buf[12..16].copy_from_slice(&(-1i32).to_le_bytes());
    buf[16..20].copy_from_slice(&3i32.to_le_bytes());
    assert_eq!(f.get_value_srational(&buf).unwrap(), vec![(-1, 3)]);
}

#[test]
fn slongs_decode_inline_single_value() {
    let mut rec = Vec::new();
    rec.extend_from_slice(&37379u16.to_le_bytes());
    rec.extend_from_slice(&9u16.to_le_bytes());
    rec.extend_from_slice(&1u32.to_le_bytes());
    rec.extend_from_slice(&(-5i32).to_le_bytes());
    let f = InteroperabilityField::from(&rec, true).unwrap();
    assert_eq!(f.get_value_slong(&[]).unwrap(), vec![-5]);
}

#[test]
fn undefined_payload_is_all_declared_bytes() {
    // Inline: four payload bytes live in the slot itself.
    let mut rec = Vec::new();
    rec.extend_from_slice(&36864u16.to_le_bytes());
    rec.extend_from_slice(&7u16.to_le_bytes());
    rec.extend_from_slice(&4u32.to_le_bytes());
    rec.extend_from_slice(&[0x30, 0x32, 0x33, 0x31]);
    let f = InteroperabilityField::from(&rec, true).unwrap();
    assert_eq!(f.get_value_undefined(), Some(0x30));
    assert_eq!(
        f.get_value_undefined_bytes(&[]).unwrap(),
        vec![0x30, 0x32, 0x33, 0x31]
    );

    // Out of line: more than four bytes come from the slot's offset.
    let mut rec = Vec::new();
    rec.extend_from_slice(&37500u16.to_le_bytes());
    rec.extend_from_slice(&7u16.to_le_bytes());
    rec.extend_from_slice(&6u32.to_le_bytes());
    rec.extend_from_slice(&12u32.to_le_bytes());
    let f = InteroperabilityField::from(&rec, true).unwrap();
    let mut buf = vec![0u8; 18];
    buf[12..18].copy_from_slice(&[9, 8, 7, 6, 5, 4]);
    assert_eq!(f.get_value_undefined_bytes(&buf).unwrap(), vec![9, 8, 7, 6, 5, 4]);
}

#[test]
fn typed_accessors_reject_other_types() {
    let rec = short_field(256, 1, [7, 0, 0, 0]);
    let f = InteroperabilityField::from(&rec, true).unwrap();
    assert_eq!(f.get_data_type(), ExifTypes::Short);
    assert!(f.get_value_short(&[]).is_some());
    assert!(f.get_value_long(&[]).is_none());
    assert!(f.get_value_byte(&[]).is_none());
    assert!(f.get_value_ascii(&[]).is_none());
    assert!(f.get_value_rational(&[]).is_none());
    assert!(f.get_value_undefined().is_none());
    assert!(f.get_value_undefined_bytes(&[]).is_none());
    assert!(f.get_value_slong(&[]).is_none());
    assert!(f.get_value_srational(&[]).is_none());
}

#[test]
fn unknown_type_code_is_error_not_failure() {
    let mut rec = Vec::new();
    rec.extend_from_slice(&256u16.to_le_bytes());
    rec.extend_from_slice(&99u16.to_le_bytes());
    rec.extend_from_slice(&1u32.to_le_bytes());
    rec.extend_from_slice(&[0, 0, 0, 0]);
    let f = InteroperabilityField::from(&rec, true).unwrap();
    assert_eq!(f.get_data_type(), ExifTypes::Error);
    assert_eq!(f.get_value_as_string(&[]), "N/A");
}

#[test]
fn ifd_lookup_finds_first_match() {
    let mut ifd = vec![0x02, 0x00];
    ifd.extend_from_slice(&short_field(256, 1, [7, 0, 0, 0]));
    ifd.extend_from_slice(&short_field(256, 1, [9, 0, 0, 0]));
    let parsed = IFD::from(&ifd, true).unwrap();
    assert_eq!(parsed.number_of_fields, 2);
    assert_eq!(parsed.get_interops().len(), 2);
    let f = parsed.get_interop_for_tag(256).unwrap();
    assert_eq!(f.value_offset, 7);
    assert!(parsed.get_interop_for_tag(257).is_none());
}

#[test]
fn ifd_offset_to_next_ifd_counts_all_records() {
    let mut ifd = vec![0x02, 0x00];
    ifd.extend_from_slice(&short_field(256, 1, [7, 0, 0, 0]));
    ifd.extend_from_slice(&short_field(257, 1, [9, 0, 0, 0]));
    let parsed = IFD::from(&ifd, true).unwrap();
    assert_eq!(parsed.get_offset_to_next_ifd(), 2 + 2 * 12 + 4);
}

#[test]
fn field_records_keep_directory_order() {
    let mut ifd = vec![0x03, 0x00];
    for tag in [277u16, 256, 284] {
        ifd.extend_from_slice(&short_field(tag, 1, [1, 0, 0, 0]));
    }
    let parsed = IFD::from(&ifd, true).unwrap();
    let tags: Vec<u16> = parsed.get_interops().iter().map(|f| f.tag).collect();
    assert_eq!(tags, vec![277, 256, 284]);
}
