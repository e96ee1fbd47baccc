//! Value rendering: tag names, enumerated vocabularies, the Flash bitfield,
//! and the generic decimal formats.

use exif_decoder::arrays::{
    get_ratioanls_vec_as_string, get_vec_as_string, i64_to_dec_string, index_of_sub_array,
    u64_to_dec_string,
};
use exif_decoder::exif::{IFDTypes, InteroperabilityField, IFD, TIFFHeader};
use exif_decoder::tags::{
    get_rational_string_for_tag, get_short_string_for_tag, get_undefined_string_for_tag, Tag,
};

#[test]
fn decimal_strings() {
    assert_eq!(u64_to_dec_string(0), "0");
    assert_eq!(u64_to_dec_string(7), "7");
    assert_eq!(u64_to_dec_string(65535), "65535");
    assert_eq!(i64_to_dec_string(-42), "-42");
    assert_eq!(i64_to_dec_string(0), "0");
    assert_eq!(i64_to_dec_string(i64::MIN), "-9223372036854775808");
}

#[test]
fn joined_vectors() {
    assert_eq!(get_vec_as_string(&vec![]), "");
    assert_eq!(get_vec_as_string(&vec![5]), "5");
    assert_eq!(get_vec_as_string(&vec![1, 2, 3]), "1 2 3");
    assert_eq!(get_ratioanls_vec_as_string(&vec![(72, 1), (-3, 7)]), "72/1 -3/7");
}

#[test]
fn index_of_sub_array_finds_first_occurrence() {
    assert_eq!(index_of_sub_array(vec![1, 2, 3, 4, 2, 3], vec![2, 3]), Some(1));
    assert_eq!(index_of_sub_array(vec![1, 2, 3], vec![4]), None);
    assert_eq!(index_of_sub_array(vec![1, 2], vec![]), Some(0));
    // A near-match must not derail the search for a later real match.
    assert_eq!(index_of_sub_array(vec![0x61, 0x61, 0x62], vec![0x61, 0x62]), Some(1));
}

#[test]
fn tag_names() {
    assert_eq!(Tag(256).get_as_string(), "ImageWidth");
    assert_eq!(Tag(37385).get_as_string(), "Flash");
    assert_eq!(Tag(2).get_as_string(), "GPSLatitude");
    assert_eq!(Tag(12345).get_as_string(), "Tag(12345)");
}

#[test]
fn tag_owning_ifd_partition() {
    assert_eq!(Tag(2).owning_ifd(), IFDTypes::GPS);
    assert_eq!(Tag(37385).owning_ifd(), IFDTypes::Exif);
    assert_eq!(Tag(256).owning_ifd(), IFDTypes::TIFF);
    assert_eq!(Tag(34665).owning_ifd(), IFDTypes::TIFF);
}

#[test]
fn image_width_renders_plain_value() {
    assert_eq!(get_short_string_for_tag(Tag(256), 1, vec![7]), "ImageWidth: 7");
}

#[test]
fn enumerated_short_tags_render_their_vocabulary() {
    assert_eq!(get_short_string_for_tag(Tag(259), 1, vec![1]), "Compression: uncompressed");
    assert_eq!(
        get_short_string_for_tag(Tag(259), 1, vec![6]),
        "Compression: JPEG compression (thumbnails only)"
    );
    assert_eq!(get_short_string_for_tag(Tag(259), 1, vec![3]), "Compression: reserved");
    assert_eq!(
        get_short_string_for_tag(Tag(262), 1, vec![2]),
        "PhotometricInterpretation: RGB"
    );
    assert_eq!(get_short_string_for_tag(Tag(296), 1, vec![2]), "ResolutionUnit: inches");
    assert_eq!(get_short_string_for_tag(Tag(40961), 1, vec![1]), "ColorSpace: sRGB");
    assert_eq!(
        get_short_string_for_tag(Tag(34850), 1, vec![3]),
        "ExposureProgram: Aperture priority"
    );
    assert_eq!(get_short_string_for_tag(Tag(37383), 1, vec![5]), "MeteringMode: Pattern");
    assert_eq!(get_short_string_for_tag(Tag(41990), 1, vec![3]), "SceneCaptureType: Night scene");
}

#[test]
fn ycbcr_sub_sampling_expects_count_two() {
    assert_eq!(
        get_short_string_for_tag(Tag(530), 2, vec![2, 1]),
        "YCbCrSubSampling: YCbCr4:2:2"
    );
    assert_eq!(
        get_short_string_for_tag(Tag(530), 2, vec![2, 2]),
        "YCbCrSubSampling: YCbCr4:2:0"
    );
    // The wrong count bypasses the vocabulary and falls back to the vector
    // format.
    assert_eq!(get_short_string_for_tag(Tag(530), 1, vec![2]), "YCbCrSubSampling: 2");
}

#[test]
fn flash_bitfield_renders_five_sub_conditions() {
    // 0x19: fired, no strobe return detection, auto mode, flash function
    // present, no red-eye reduction.
    assert_eq!(
        get_short_string_for_tag(Tag(37385), 1, vec![0x19]),
        "Flash: Flash fired / No strobe return detection function / Auto mode / \
         Flash function present / No red-eye reduction mode or unknown"
    );
    // 0x09: fired, compulsory flash firing.
    assert_eq!(
        get_short_string_for_tag(Tag(37385), 1, vec![0x09]),
        "Flash: Flash fired / No strobe return detection function / Compulsory flash firing / \
         Flash function present / No red-eye reduction mode or unknown"
    );
    // 0x50: did not fire, compulsory suppression, red-eye supported.
    assert_eq!(
        get_short_string_for_tag(Tag(37385), 1, vec![0x50]),
        "Flash: Flash did not fire / No strobe return detection function / \
         Compulsory flash suppression / Flash function present / Red-eye reduction supported"
    );
    // 0x07: fired, strobe return light detected.
    assert_eq!(
        get_short_string_for_tag(Tag(37385), 1, vec![0x07]),
        "Flash: Flash fired / Strobe return light detected / unknown / \
         Flash function present / No red-eye reduction mode or unknown"
    );
    // 0x25: fired, no flash function.
    assert_eq!(
        get_short_string_for_tag(Tag(37385), 1, vec![0x25]),
        "Flash: Flash fired / Strobe return light not detected / unknown / \
         No flash function / No red-eye reduction mode or unknown"
    );
}

#[test]
fn unknown_short_tag_joins_values() {
    assert_eq!(get_short_string_for_tag(Tag(258), 3, vec![8, 8, 8]), "BitsPerSample: 8 8 8");
}

#[test]
fn rational_tags_render_pairs() {
    assert_eq!(
        get_rational_string_for_tag(Tag(282), 1, vec![(72, 1)]),
        "XResolution: 72/1"
    );
    assert_eq!(
        get_rational_string_for_tag(Tag(42034), 4, vec![(24, 1), (70, 1), (2, 1), (4, 1)]),
        "LensSpecification: 24/1 70/1 2/1 4/1"
    );
}

#[test]
fn undefined_tags_render_their_vocabulary() {
    // The four version characters are rendered quoted.
    assert_eq!(
        get_undefined_string_for_tag(Tag(36864), 4, [0x30, 0x32, 0x33, 0x31]),
        "ExifVersion: \"0231\""
    );
    assert_eq!(
        get_undefined_string_for_tag(Tag(36864), 4, [48, 50, 51, 50]),
        "ExifVersion: \"0232\""
    );
    assert_eq!(
        get_undefined_string_for_tag(Tag(40960), 4, [48, 49, 48, 48]),
        "FlashpixVersion: Flashpix Format Version 1.0"
    );
    assert_eq!(
        get_undefined_string_for_tag(Tag(37121), 4, [1, 2, 3, 0]),
        "ComponentsConfiguration: YCbCr"
    );
    assert_eq!(
        get_undefined_string_for_tag(Tag(41728), 1, [3, 0, 0, 0]),
        "FileSource: DSC"
    );
    assert_eq!(
        get_undefined_string_for_tag(Tag(41729), 1, [1, 0, 0, 0]),
        "SceneType: A directly photographed image"
    );
    assert_eq!(
        get_undefined_string_for_tag(Tag(37500), 8, [0, 0, 0, 16]),
        "MakerNote: Undefined"
    );
}

#[test]
fn header_renders_byte_order_and_offset() {
    let h = TIFFHeader::from(&[0x49, 0x49, 0x2A, 0x00, 0x08, 0x00, 0x00, 0x00]).unwrap();
    assert_eq!(
        h.get_as_string(),
        "TIFF { Byte Order: Little endian (II), 0th IFD offset: 0 }"
    );
    let h = TIFFHeader::from(&[0x4D, 0x4D, 0x00, 0x2A, 0x00, 0x00, 0x00, 0x10]).unwrap();
    assert_eq!(
        h.get_as_string(),
        "TIFF { Byte Order: Big endian (MM), 0th IFD offset: 16 }"
    );
}

#[test]
fn field_value_rendering_dispatches_on_type() {
    let mut rec = Vec::new();
    rec.extend_from_slice(&256u16.to_le_bytes());
    rec.extend_from_slice(&3u16.to_le_bytes());
    rec.extend_from_slice(&1u32.to_le_bytes());
    rec.extend_from_slice(&[7, 0, 0, 0]);
    let f = InteroperabilityField::from(&rec, true).unwrap();
    assert_eq!(f.get_type_as_string(), "Short");
    assert_eq!(f.get_value_as_string(&[]), "ImageWidth: 7");
}

#[test]
fn ifd_renders_value_for_tag_and_error_when_absent() {
    let mut ifd = vec![0x01, 0x00];
    ifd.extend_from_slice(&256u16.to_le_bytes());
    ifd.extend_from_slice(&3u16.to_le_bytes());
    ifd.extend_from_slice(&1u32.to_le_bytes());
    ifd.extend_from_slice(&[7, 0, 0, 0]);
    let parsed = IFD::from(&ifd, true).unwrap();
    assert_eq!(parsed.get_value_as_string_for_tag(256, &ifd), "ImageWidth: 7");
    assert_eq!(parsed.get_value_as_string_for_tag(257, &ifd), "Error");
    assert_eq!(
        parsed.get_as_string(),
        "IFD {\n\tNumber of fields: 1,\n\tinteroperability: [\n\
         { tag: 256 (ImageWidth), type: Short, count: 1, value_offset: 7 }\n\t]\n}"
    );
}
