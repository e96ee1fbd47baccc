//! End-to-end assembly: locating the TIFF blob, walking the 0th IFD into the
//! sub-IFDs, the synthetic round trip, and container detection.

use exif_decoder::exif::{find_tiff_blob_offset, DecodeError, ExifImage, IFD};
use exif_decoder::formats::{get_image_format_for, ImageFormat};
use exif_decoder::image::{get_image_type_for, ImageType};

/// The minimal little-endian TIFF blob: header, one-field 0th IFD holding
/// `ImageWidth = 7`, and a zero next-IFD pointer.
fn minimal_blob() -> Vec<u8> {
    let mut blob = vec![0x49, 0x49, 0x2A, 0x00, 0x08, 0x00, 0x00, 0x00];
    blob.extend_from_slice(&[0x01, 0x00]);
    blob.extend_from_slice(&[0x00, 0x01, 0x03, 0x00, 0x01, 0x00, 0x00, 0x00, 0x07, 0x00, 0x00, 0x00]);
    blob.extend_from_slice(&[0x00, 0x00, 0x00, 0x00]);
    blob
}

fn le_field(tag: u16, dtype: u16, count: u32, slot: [u8; 4]) -> Vec<u8> {
    let mut rec = Vec::new();
    rec.extend_from_slice(&tag.to_le_bytes());
    rec.extend_from_slice(&dtype.to_le_bytes());
    rec.extend_from_slice(&count.to_le_bytes());
    rec.extend_from_slice(&slot);
    rec
}

#[test]
fn end_to_end_minimal_document() {
    let blob = minimal_blob();
    let img = ExifImage::assemble(&blob, 0).unwrap();
    assert!(img.tiff.is_little_endian);
    assert_eq!(img.tiff.zero_th_ifd_offset, 0);
    assert_eq!(img.ifd_0.number_of_fields, 1);
    let field = img.ifd_0.get_interop_for_tag(256).expect("ImageWidth field");
    assert_eq!(field.tag, 256);
    assert_eq!(field.count, 1);
    assert_eq!(field.get_value_short(&img.slice).unwrap(), vec![7]);
    assert_eq!(field.get_value_as_string(&img.slice), "ImageWidth: 7");
}

#[test]
fn missing_sub_ifds_are_none_not_errors() {
    let blob = minimal_blob();
    let img = ExifImage::assemble(&blob, 0).unwrap();
    assert!(img.ifd_exif.is_none());
    assert!(img.ifd_gps.is_none());
}

#[test]
fn exif_and_gps_pointers_are_followed() {
    // Header (8) + 0th IFD with ExifOffset and GPSOffset (2 + 24) + two
    // sub-IFDs of one field each at offsets 34 and 48.
    let mut blob = vec![0x49, 0x49, 0x2A, 0x00, 0x08, 0x00, 0x00, 0x00];
    blob.extend_from_slice(&[0x02, 0x00]);
    blob.extend_from_slice(&le_field(34665, 4, 1, [34, 0, 0, 0]));
    blob.extend_from_slice(&le_field(34853, 4, 1, [48, 0, 0, 0]));
    assert_eq!(blob.len(), 34);
    blob.extend_from_slice(&[0x01, 0x00]);
    blob.extend_from_slice(&le_field(37385, 3, 1, [0x19, 0, 0, 0]));
    assert_eq!(blob.len(), 48);
    blob.extend_from_slice(&[0x01, 0x00]);
    blob.extend_from_slice(&le_field(0, 1, 4, [2, 3, 0, 0]));

    let img = ExifImage::assemble(&blob, 0).unwrap();
    assert_eq!(img.ifd_0.number_of_fields, 2);
    let exif = img.ifd_exif.as_ref().expect("Exif IFD");
    assert_eq!(exif.number_of_fields, 1);
    assert_eq!(
        exif.get_value_as_string_for_tag(37385, &img.slice),
        "Flash: Flash fired / No strobe return detection function / Auto mode / \
         Flash function present / No red-eye reduction mode or unknown"
    );
    let gps = img.ifd_gps.as_ref().expect("GPS IFD");
    assert_eq!(gps.number_of_fields, 1);
    assert_eq!(gps.get_value_as_string_for_tag(0, &img.slice), "GPSVersionID: 2 3 0 0");
    let lines = img.get_all_tags_as_strings();
    assert_eq!(lines.len(), 4);
    assert_eq!(lines[0], "ExifOffset: 34");
}

#[test]
fn assemble_truncated_buffer_is_an_error() {
    let blob = minimal_blob();
    for len in 0..blob.len() - 4 {
        // Anything too short for the header or the one-field IFD fails.
        match ExifImage::assemble(&blob[..len], 0) {
            Err(DecodeError::Truncated) => {}
            other => panic!("expected Truncated at length {}, got ok={}", len, other.is_ok()),
        }
    }
    assert!(ExifImage::assemble(&blob, 0).is_ok());
}

#[test]
fn assemble_bad_sub_ifd_offset_is_an_error() {
    let mut blob = vec![0x49, 0x49, 0x2A, 0x00, 0x08, 0x00, 0x00, 0x00];
    blob.extend_from_slice(&[0x01, 0x00]);
    blob.extend_from_slice(&le_field(34665, 4, 1, [200, 0, 0, 0]));
    blob.extend_from_slice(&[0x00, 0x00, 0x00, 0x00]);
    match ExifImage::assemble(&blob, 0) {
        Err(DecodeError::Truncated) => {}
        _ => panic!("expected Truncated for an out-of-bounds ExifOffset"),
    }
}

#[test]
fn round_trip_synthetic_ifds() {
    // Encoding an IFD with n fields and parsing it back yields the same
    // (tag, type, count, offset) tuples in the same order, for n in 0..=50.
    for n in 0u16..=50 {
        let mut bytes = Vec::new();
        bytes.extend_from_slice(&n.to_le_bytes());
        for i in 0..n {
            bytes.extend_from_slice(&le_field(256 + i, 3, 1, [i as u8, 0, 0, 0]));
        }
        bytes.extend_from_slice(&[0, 0, 0, 0]);
        let parsed = IFD::from(&bytes, true).unwrap();
        assert_eq!(parsed.number_of_fields, n);
        let fields = parsed.get_interops();
        assert_eq!(fields.len(), n as usize);
        for i in 0..n as usize {
            assert_eq!(fields[i].tag, 256 + i as u16);
            assert_eq!(fields[i].data_type, 3);
            assert_eq!(fields[i].count, 1);
            assert_eq!(fields[i].value_offset, i as u32);
        }
    }
}

#[test]
fn round_trip_big_endian() {
    let mut bytes = vec![0x00, 0x01];
    bytes.extend_from_slice(&256u16.to_be_bytes());
    bytes.extend_from_slice(&3u16.to_be_bytes());
    bytes.extend_from_slice(&1u32.to_be_bytes());
    bytes.extend_from_slice(&[0x00, 0x07, 0x00, 0x00]);
    bytes.extend_from_slice(&[0, 0, 0, 0]);
    let parsed = IFD::from(&bytes, false).unwrap();
    assert_eq!(parsed.number_of_fields, 1);
    let f = parsed.get_interop_for_tag(256).unwrap();
    assert_eq!(f.get_value_short(&bytes).unwrap(), vec![7]);
}

#[test]
fn from_locates_the_blob_inside_a_jpeg() {
    let mut file = vec![0xFF, 0xD8, 0xFF, 0xE1, 0x00, 0x3F];
    file.extend_from_slice(b"Exif\0\0");
    let blob_start = file.len();
    file.extend_from_slice(&minimal_blob());
    assert_eq!(
        find_tiff_blob_offset(&file, ImageFormat::Jpeg),
        Some(blob_start)
    );
    let img = ExifImage::from(file, ImageFormat::Jpeg).unwrap();
    assert_eq!(img.ifd_0.number_of_fields, 1);
    assert_eq!(img.ifd_0.get_value_as_string_for_tag(256, &img.slice), "ImageWidth: 7");
    // No pointer fields in the 0th IFD: both sub-IFDs stay absent, no error.
    assert!(img.ifd_exif.is_none());
    assert!(img.ifd_gps.is_none());
}

#[test]
fn from_locates_the_blob_inside_a_png_chunk() {
    let mut file = vec![0x89, 0x50, 0x4E, 0x47, 0x0D, 0x0A, 0x1A, 0x0A];
    file.extend_from_slice(&[0x00, 0x00, 0x00, 0x1A]);
    file.extend_from_slice(b"eXIf");
    let blob_start = file.len();
    file.extend_from_slice(&minimal_blob());
    assert_eq!(
        find_tiff_blob_offset(&file, ImageFormat::Png),
        Some(blob_start)
    );
    let img = ExifImage::from(file, ImageFormat::Png).unwrap();
    assert_eq!(img.ifd_0.number_of_fields, 1);
}

#[test]
fn from_without_marker_reports_it() {
    let file = vec![0u8; 64];
    match ExifImage::from(file, ImageFormat::Jpeg) {
        Err(DecodeError::MissingExifMarker) => {}
        _ => panic!("expected MissingExifMarker"),
    }
}

#[test]
fn infos_string_reports_missing_sub_ifds() {
    let img = ExifImage::assemble(&minimal_blob(), 0).unwrap();
    let infos = img.get_infos_as_string();
    assert!(infos.starts_with("TIFF { Byte Order: Little endian (II), 0th IFD offset: 0 }\n"));
    assert!(infos.contains("No Exif IFD\n"));
    assert!(infos.contains("No GPS IFD\n"));
}

#[test]
fn container_formats_are_detected() {
    assert_eq!(
        get_image_format_for(&[0xFF, 0xD8, 0xFF, 0xDB, 0x00]),
        Some(ImageFormat::Jpeg)
    );
    assert_eq!(
        get_image_format_for(&[0x89, 0x50, 0x4E, 0x47, 0x0D, 0x0A, 0x1A, 0x0A, 0x00]),
        Some(ImageFormat::Png)
    );
    assert_eq!(get_image_format_for(&[0x00, 0x01]), None);
    let mut app1 = vec![0xFF, 0xD8, 0xFF, 0xE1, 0x12, 0x34];
    app1.extend_from_slice(b"Exif\0\0");
    assert_eq!(get_image_format_for(&app1), Some(ImageFormat::Jpeg));
}

#[test]
fn image_types_are_detected() {
    assert_eq!(
        get_image_type_for(&[0xFF, 0xD8, 0xFF, 0xEE]),
        Some(ImageType::Jpeg)
    );
    assert_eq!(get_image_type_for(b"IHDR"), Some(ImageType::Png));
    assert_eq!(get_image_type_for(&[0x00]), None);
}
