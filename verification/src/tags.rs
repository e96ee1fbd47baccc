//! The tag registry: the mapping from numeric tag identifiers to semantic
//! names, and the per-tag enumerated-value tables used when rendering decoded
//! values as strings.

use vstd::prelude::*;

use crate::arrays::{
    get_ratioanls_vec_as_string, get_vec_as_string, push_char, spec_dec, spec_join_dec,
    spec_join_rationals,
};
use crate::conversions::{u16s_to_i64s, u32_pairs_to_i64s};

verus! {

// Pointer tags leading from the 0th IFD to the sub-IFDs.
pub const TAG_EXIF_OFFSET: usize = 34665;

pub const TAG_GPS_OFFSET: usize = 34853;

// Tags whose short values carry an enumerated vocabulary.
pub const TAG_COMPRESSION: usize = 259;

pub const TAG_PHOTOMETRIC_INTERPRETATION: usize = 262;

pub const TAG_PLANAR_CONFIGURATION: usize = 284;

pub const TAG_YCBCR_SUB_SAMPLING: usize = 530;

pub const TAG_YCBCR_POSITIONING: usize = 531;

pub const TAG_RESOLUTION_UNIT: usize = 296;

pub const TAG_COLOR_SPACE: usize = 40961;

pub const TAG_EXPOSURE_PROGRAM: usize = 34850;

pub const TAG_SENSITIVITY_TYPE: usize = 34864;

pub const TAG_METERING_MODE: usize = 37383;

pub const TAG_LIGHT_SOURCE: usize = 37384;

pub const TAG_FLASH: usize = 37385;

pub const TAG_SENSING_METHOD: usize = 41495;

pub const TAG_CUSTOM_RENDERED: usize = 41985;

pub const TAG_EXPOSURE_MODE: usize = 41986;

pub const TAG_WHITE_BALANCE: usize = 41987;

pub const TAG_SCENE_CAPTURE_TYPE: usize = 41990;

pub const TAG_GAIN_CONTROL: usize = 41991;

pub const TAG_CONTRAST: usize = 41992;

pub const TAG_SATURATION: usize = 41993;

pub const TAG_SHARPNESS: usize = 41994;

pub const TAG_SUBJECT_DISTANCE_RANGE: usize = 41996;

pub const TAG_COMPOSITE_IMAGE: usize = 42080;

// Tags whose undefined-typed values carry an enumerated vocabulary.
pub const TAG_EXIF_VERSION: usize = 36864;

pub const TAG_FLASHPIX_VERSION: usize = 40960;

pub const TAG_COMPONENTS_CONFIGURATION: usize = 37121;

pub const TAG_FILE_SOURCE: usize = 41728;

pub const TAG_SCENE_TYPE: usize = 41729;

/// A numeric tag identifier.
#[derive(Clone, Copy, Debug, PartialEq, Eq, Structural)]
pub struct Tag(pub usize);

/// The semantic name of the tag `id`; unknown identifiers fall back to the
/// generic `"Tag(<id>)"`.
pub open spec fn spec_tag_name(id: int) -> Seq<char> {
    if id == 34665 {
        "ExifOffset"@
    } else if id == 34853 {
        "GPSOffset"@
    } else if id == 40965 {
        "InteroperabilityIFD"@
    } else if id == 256 {
        "ImageWidth"@
    } else if id == 257 {
        "ImageLength"@
    } else if id == 258 {
        "BitsPerSample"@
    } else if id == 259 {
        "Compression"@
    } else if id == 262 {
        "PhotometricInterpretation"@
    } else if id == 274 {
        "Orientation"@
    } else if id == 277 {
        "SamplesPerPixel"@
    } else if id == 284 {
        "PlanarConfiguration"@
    } else if id == 530 {
        "YCbCrSubSampling"@
    } else if id == 531 {
        "YCbCrPositioning"@
    } else if id == 282 {
        "XResolution"@
    } else if id == 283 {
        "YResolution"@
    } else if id == 296 {
        "ResolutionUnit"@
    } else if id == 273 {
        "StripOffsets"@
    } else if id == 278 {
        "RowsPerStrip"@
    } else if id == 279 {
        "StripByteCounts"@
    } else if id == 513 {
        "JPEGInterchangeFormat"@
    } else if id == 514 {
        "JPEGInterchangeFormatLength"@
    } else if id == 301 {
        "TransferFunction"@
    } else if id == 318 {
        "WhitePoint"@
    } else if id == 319 {
        "PrimaryChromaticities"@
    } else if id == 529 {
        "YCbCrCoefficients"@
    } else if id == 532 {
        "ReferenceBlackWhite"@
    } else if id == 306 {
        "DateTime"@
    } else if id == 270 {
        "ImageDescription"@
    } else if id == 271 {
        "Make"@
    } else if id == 272 {
        "Model"@
    } else if id == 305 {
        "Software"@
    } else if id == 315 {
        "Artist"@
    } else if id == 33432 {
        "Copyright"@
    } else if id == 36864 {
        "ExifVersion"@
    } else if id == 40960 {
        "FlashpixVersion"@
    } else if id == 40961 {
        "ColorSpace"@
    } else if id == 42240 {
        "Gamma"@
    } else if id == 37121 {
        "ComponentsConfiguration"@
    } else if id == 37122 {
        "CompressedBitsPerPixel"@
    } else if id == 40962 {
        "PixelXDimension"@
    } else if id == 40963 {
        "PixelYDimension"@
    } else if id == 37500 {
        "MakerNote"@
    } else if id == 37510 {
        "UserComment"@
    } else if id == 40964 {
        "RelatedSoundFile"@
    } else if id == 36867 {
        "DateTimeOriginal"@
    } else if id == 36868 {
        "DateTimeDigitized"@
    } else if id == 36880 {
        "OffsetTime"@
    } else if id == 36881 {
        "OffsetTimeOriginal"@
    } else if id == 36882 {
        "OffsetTimeDigitized"@
    } else if id == 37520 {
        "SubSecTime"@
    } else if id == 37521 {
        "SubSecTimeOriginal"@
    } else if id == 37522 {
        "SubSecTimeDigitized"@
    } else if id == 33434 {
        "ExposureTime"@
    } else if id == 33437 {
        "FNumber"@
    } else if id == 34850 {
        "ExposureProgram"@
    } else if id == 34852 {
        "SpectralSensitivity"@
    } else if id == 34855 {
        "PhotographicSensitivity"@
    } else if id == 34856 {
        "OECF"@
    } else if id == 34864 {
        "SensitivityType"@
    } else if id == 34865 {
        "StandardOutputSensitivity"@
    } else if id == 34866 {
        "RecommendedExposureIndex"@
    } else if id == 34867 {
        "ISOSpeed"@
    } else if id == 34868 {
        "ISOSpeedLatitudeyyy"@
    } else if id == 34869 {
        "ISOSpeedLatitudezzz"@
    } else if id == 37377 {
        "ShutterSpeedValue"@
    } else if id == 37378 {
        "ApertureValue"@
    } else if id == 37379 {
        "BrightnessValue"@
    } else if id == 37380 {
        "ExposureBiasValue"@
    } else if id == 37381 {
        "MaxApertureValue"@
    } else if id == 37382 {
        "SubjectDistance"@
    } else if id == 37383 {
        "MeteringMode"@
    } else if id == 37384 {
        "LightSource"@
    } else if id == 37385 {
        "Flash"@
    } else if id == 37386 {
        "FocalLength"@
    } else if id == 37396 {
        "SubjectArea"@
    } else if id == 41483 {
        "FlashEnergy"@
    } else if id == 41484 {
        "SpatialFrequencyResponse"@
    } else if id == 41486 {
        "FocalPlaneXResolution"@
    } else if id == 41487 {
        "FocalPlaneYResolution"@
    } else if id == 41488 {
        "FocalPlaneResolutionUnit"@
    } else if id == 41492 {
        "SubjectLocation"@
    } else if id == 41493 {
        "ExposureIndex"@
    } else if id == 41495 {
        "SensingMethod"@
    } else if id == 41728 {
        "FileSource"@
    } else if id == 41729 {
        "SceneType"@
    } else if id == 41730 {
        "CFAPattern"@
    } else if id == 41985 {
        "CustomRendered"@
    } else if id == 41986 {
        "ExposureMode"@
    } else if id == 41987 {
        "WhiteBalance"@
    } else if id == 41988 {
        "DigitalZoomRatio"@
    } else if id == 41989 {
        "FocalLengthIn35mmFilm"@
    } else if id == 41990 {
        "SceneCaptureType"@
    } else if id == 41991 {
        "GainControl"@
    } else if id == 41992 {
        "Contrast"@
    } else if id == 41993 {
        "Saturation"@
    } else if id == 41994 {
        "Sharpness"@
    } else if id == 41995 {
        "DeviceSettingDescription"@
    } else if id == 41996 {
        "SubjectDistanceRange"@
    } else if id == 42080 {
        "CompositeImage"@
    } else if id == 42081 {
        "SourceImageNumberOfCompositeImage"@
    } else if id == 42082 {
        "SourceExposureTimesOfCompositeImage"@
    } else if id == 37888 {
        "Temperature"@
    } else if id == 37889 {
        "Humidity"@
    } else if id == 37890 {
        "Pressure"@
    } else if id == 37891 {
        "WaterDepth"@
    } else if id == 37892 {
        "Acceleration"@
    } else if id == 37893 {
        "CameraElevationAngle"@
    } else if id == 42016 {
        "ImageUniqueID"@
    } else if id == 42032 {
        "CameraOwnerName"@
    } else if id == 42033 {
        "BodySerialNumber"@
    } else if id == 42034 {
        "LensSpecification"@
    } else if id == 42035 {
        "LensMake"@
    } else if id == 42036 {
        "LensModel"@
    } else if id == 42037 {
        "LensSerialNumber"@
    } else if id == 0 {
        "GPSVersionID"@
    } else if id == 1 {
        "GPSLatitudeRef"@
    } else if id == 2 {
        "GPSLatitude"@
    } else if id == 3 {
        "GPSLongitudeRef"@
    } else if id == 4 {
        "GPSLongitude"@
    } else if id == 5 {
        "GPSAltitudeRef"@
    } else if id == 6 {
        "GPSAltitude"@
    } else if id == 7 {
        "GPSTimeStamp"@
    } else if id == 8 {
        "GPSSatellites"@
    } else if id == 9 {
        "GPSStatus"@
    } else if id == 10 {
        "GPSMeasureMode"@
    } else if id == 11 {
        "GPSDOP"@
    } else if id == 12 {
        "GPSSpeedRef"@
    } else if id == 13 {
        "GPSSpeed"@
    } else if id == 14 {
        "GPSTrackRef"@
    } else if id == 15 {
        "GPSTrack"@
    } else if id == 16 {
        "GPSImgDirectionRef"@
    } else if id == 17 {
        "GPSImgDirection"@
    } else if id == 18 {
        "GPSMapDatum"@
    } else if id == 19 {
        "GPSDestLatitudeRef"@
    } else if id == 20 {
        "GPSDestLatitude"@
    } else if id == 21 {
        "GPSDestLongitudeRef"@
    } else if id == 22 {
        "GPSDestLongitude"@
    } else if id == 23 {
        "GPSDestBearingRef"@
    } else if id == 24 {
        "GPSDestBearing"@
    } else if id == 25 {
        "GPSDestDistanceRef"@
    } else if id == 26 {
        "GPSDestDistance"@
    } else if id == 27 {
        "GPSProcessingMethod"@
    } else if id == 28 {
        "GPSAreaInformation"@
    } else if id == 29 {
        "GPSDateStamp"@
    } else if id == 30 {
        "GPSDifferential"@
    } else if id == 31 {
        "GPSHPositioningError"@
    } else {
        "Tag("@ + spec_dec(id) + ")"@
    }
}

impl Tag {
    /// Renders the tag's semantic name, `"Tag(<id>)"` for unknown identifiers.
    pub fn get_as_string(&self) -> (s: String)
        ensures
            s@ == spec_tag_name(self.0 as int),
    {
        let id = self.0;
        if id == 34665 {
            "ExifOffset".to_owned()
        } else if id == 34853 {
            "GPSOffset".to_owned()
        } else if id == 40965 {
            "InteroperabilityIFD".to_owned()
        } else if id == 256 {
            "ImageWidth".to_owned()
        } else if id == 257 {
            "ImageLength".to_owned()
        } else if id == 258 {
            "BitsPerSample".to_owned()
        } else if id == 259 {
            "Compression".to_owned()
        } else if id == 262 {
            "PhotometricInterpretation".to_owned()
        } else if id == 274 {
            "Orientation".to_owned()
        } else if id == 277 {
            "SamplesPerPixel".to_owned()
        } else if id == 284 {
            "PlanarConfiguration".to_owned()
        } else if id == 530 {
            "YCbCrSubSampling".to_owned()
        } else if id == 531 {
            "YCbCrPositioning".to_owned()
        } else if id == 282 {
            "XResolution".to_owned()
        } else if id == 283 {
            "YResolution".to_owned()
        } else if id == 296 {
            "ResolutionUnit".to_owned()
        } else if id == 273 {
            "StripOffsets".to_owned()
        } else if id == 278 {
            "RowsPerStrip".to_owned()
        } else if id == 279 {
            "StripByteCounts".to_owned()
        } else if id == 513 {
            "JPEGInterchangeFormat".to_owned()
        } else if id == 514 {
            "JPEGInterchangeFormatLength".to_owned()
        } else if id == 301 {
            "TransferFunction".to_owned()
        } else if id == 318 {
            "WhitePoint".to_owned()
        } else if id == 319 {
            "PrimaryChromaticities".to_owned()
        } else if id == 529 {
            "YCbCrCoefficients".to_owned()
        } else if id == 532 {
            "ReferenceBlackWhite".to_owned()
        } else if id == 306 {
            "DateTime".to_owned()
        } else if id == 270 {
            "ImageDescription".to_owned()
        } else if id == 271 {
            "Make".to_owned()
        } else if id == 272 {
            "Model".to_owned()
        } else if id == 305 {
            "Software".to_owned()
        } else if id == 315 {
            "Artist".to_owned()
        } else if id == 33432 {
            "Copyright".to_owned()
        } else if id == 36864 {
            "ExifVersion".to_owned()
        } else if id == 40960 {
            "FlashpixVersion".to_owned()
        } else if id == 40961 {
            "ColorSpace".to_owned()
        } else if id == 42240 {
            "Gamma".to_owned()
        } else if id == 37121 {
            "ComponentsConfiguration".to_owned()
        } else if id == 37122 {
            "CompressedBitsPerPixel".to_owned()
        } else if id == 40962 {
            "PixelXDimension".to_owned()
        } else if id == 40963 {
            "PixelYDimension".to_owned()
        } else if id == 37500 {
            "MakerNote".to_owned()
        } else if id == 37510 {
            "UserComment".to_owned()
        } else if id == 40964 {
            "RelatedSoundFile".to_owned()
        } else if id == 36867 {
            "DateTimeOriginal".to_owned()
        } else if id == 36868 {
            "DateTimeDigitized".to_owned()
        } else if id == 36880 {
            "OffsetTime".to_owned()
        } else if id == 36881 {
            "OffsetTimeOriginal".to_owned()
        } else if id == 36882 {
            "OffsetTimeDigitized".to_owned()
        } else if id == 37520 {
            "SubSecTime".to_owned()
        } else if id == 37521 {
            "SubSecTimeOriginal".to_owned()
        } else if id == 37522 {
            "SubSecTimeDigitized".to_owned()
        } else if id == 33434 {
            "ExposureTime".to_owned()
        } else if id == 33437 {
            "FNumber".to_owned()
        } else if id == 34850 {
            "ExposureProgram".to_owned()
        } else if id == 34852 {
            "SpectralSensitivity".to_owned()
        } else if id == 34855 {
            "PhotographicSensitivity".to_owned()
        } else if id == 34856 {
            "OECF".to_owned()
        } else if id == 34864 {
            "SensitivityType".to_owned()
        } else if id == 34865 {
            "StandardOutputSensitivity".to_owned()
        } else if id == 34866 {
            "RecommendedExposureIndex".to_owned()
        } else if id == 34867 {
            "ISOSpeed".to_owned()
        } else if id == 34868 {
            "ISOSpeedLatitudeyyy".to_owned()
        } else if id == 34869 {
            "ISOSpeedLatitudezzz".to_owned()
        } else if id == 37377 {
            "ShutterSpeedValue".to_owned()
        } else if id == 37378 {
            "ApertureValue".to_owned()
        } else if id == 37379 {
            "BrightnessValue".to_owned()
        } else if id == 37380 {
            "ExposureBiasValue".to_owned()
        } else if id == 37381 {
            "MaxApertureValue".to_owned()
        } else if id == 37382 {
            "SubjectDistance".to_owned()
        } else if id == 37383 {
            "MeteringMode".to_owned()
        } else if id == 37384 {
            "LightSource".to_owned()
        } else if id == 37385 {
            "Flash".to_owned()
        } else if id == 37386 {
            "FocalLength".to_owned()
        } else if id == 37396 {
            "SubjectArea".to_owned()
        } else if id == 41483 {
            "FlashEnergy".to_owned()
        } else if id == 41484 {
            "SpatialFrequencyResponse".to_owned()
        } else if id == 41486 {
            "FocalPlaneXResolution".to_owned()
        } else if id == 41487 {
            "FocalPlaneYResolution".to_owned()
        } else if id == 41488 {
            "FocalPlaneResolutionUnit".to_owned()
        } else if id == 41492 {
            "SubjectLocation".to_owned()
        } else if id == 41493 {
            "ExposureIndex".to_owned()
        } else if id == 41495 {
            "SensingMethod".to_owned()
        } else if id == 41728 {
            "FileSource".to_owned()
        } else if id == 41729 {
            "SceneType".to_owned()
        } else if id == 41730 {
            "CFAPattern".to_owned()
        } else if id == 41985 {
            "CustomRendered".to_owned()
        } else if id == 41986 {
            "ExposureMode".to_owned()
        } else if id == 41987 {
            "WhiteBalance".to_owned()
        } else if id == 41988 {
            "DigitalZoomRatio".to_owned()
        } else if id == 41989 {
            "FocalLengthIn35mmFilm".to_owned()
        } else if id == 41990 {
            "SceneCaptureType".to_owned()
        } else if id == 41991 {
            "GainControl".to_owned()
        } else if id == 41992 {
            "Contrast".to_owned()
        } else if id == 41993 {
            "Saturation".to_owned()
        } else if id == 41994 {
            "Sharpness".to_owned()
        } else if id == 41995 {
            "DeviceSettingDescription".to_owned()
        } else if id == 41996 {
            "SubjectDistanceRange".to_owned()
        } else if id == 42080 {
            "CompositeImage".to_owned()
        } else if id == 42081 {
            "SourceImageNumberOfCompositeImage".to_owned()
        } else if id == 42082 {
            "SourceExposureTimesOfCompositeImage".to_owned()
        } else if id == 37888 {
            "Temperature".to_owned()
        } else if id == 37889 {
            "Humidity".to_owned()
        } else if id == 37890 {
            "Pressure".to_owned()
        } else if id == 37891 {
            "WaterDepth".to_owned()
        } else if id == 37892 {
            "Acceleration".to_owned()
        } else if id == 37893 {
            "CameraElevationAngle".to_owned()
        } else if id == 42016 {
            "ImageUniqueID".to_owned()
        } else if id == 42032 {
            "CameraOwnerName".to_owned()
        } else if id == 42033 {
            "BodySerialNumber".to_owned()
        } else if id == 42034 {
            "LensSpecification".to_owned()
        } else if id == 42035 {
            "LensMake".to_owned()
        } else if id == 42036 {
            "LensModel".to_owned()
        } else if id == 42037 {
            "LensSerialNumber".to_owned()
        } else if id == 0 {
            "GPSVersionID".to_owned()
        } else if id == 1 {
            "GPSLatitudeRef".to_owned()
        } else if id == 2 {
            "GPSLatitude".to_owned()
        } else if id == 3 {
            "GPSLongitudeRef".to_owned()
        } else if id == 4 {
            "GPSLongitude".to_owned()
        } else if id == 5 {
            "GPSAltitudeRef".to_owned()
        } else if id == 6 {
            "GPSAltitude".to_owned()
        } else if id == 7 {
            "GPSTimeStamp".to_owned()
        } else if id == 8 {
            "GPSSatellites".to_owned()
        } else if id == 9 {
            "GPSStatus".to_owned()
        } else if id == 10 {
            "GPSMeasureMode".to_owned()
        } else if id == 11 {
            "GPSDOP".to_owned()
        } else if id == 12 {
            "GPSSpeedRef".to_owned()
        } else if id == 13 {
            "GPSSpeed".to_owned()
        } else if id == 14 {
            "GPSTrackRef".to_owned()
        } else if id == 15 {
            "GPSTrack".to_owned()
        } else if id == 16 {
            "GPSImgDirectionRef".to_owned()
        } else if id == 17 {
            "GPSImgDirection".to_owned()
        } else if id == 18 {
            "GPSMapDatum".to_owned()
        } else if id == 19 {
            "GPSDestLatitudeRef".to_owned()
        } else if id == 20 {
            "GPSDestLatitude".to_owned()
        } else if id == 21 {
            "GPSDestLongitudeRef".to_owned()
        } else if id == 22 {
            "GPSDestLongitude".to_owned()
        } else if id == 23 {
            "GPSDestBearingRef".to_owned()
        } else if id == 24 {
            "GPSDestBearing".to_owned()
        } else if id == 25 {
            "GPSDestDistanceRef".to_owned()
        } else if id == 26 {
            "GPSDestDistance".to_owned()
        } else if id == 27 {
            "GPSProcessingMethod".to_owned()
        } else if id == 28 {
            "GPSAreaInformation".to_owned()
        } else if id == 29 {
            "GPSDateStamp".to_owned()
        } else if id == 30 {
            "GPSDifferential".to_owned()
        } else if id == 31 {
            "GPSHPositioningError".to_owned()
        } else {
            let mut s = "Tag(".to_owned();
            s.append(crate::arrays::u64_to_dec_string(id as u64).as_str());
            s.append(")");
            s
        }
    }
}

/// The tag identifiers that belong to the Exif IFD (including the
/// interoperability pointer), as ranges over the identifier space.
pub open spec fn spec_is_exif_ifd_tag(id: int) -> bool {
    ||| id == 33434
    ||| id == 33437
    ||| id == 34850
    ||| id == 34852
    ||| id == 34855
    ||| id == 34856
    ||| 34864 <= id <= 34869
    ||| id == 36864
    ||| id == 36867
    ||| id == 36868
    ||| 36880 <= id <= 36882
    ||| id == 37121
    ||| id == 37122
    ||| 37377 <= id <= 37386
    ||| id == 37396
    ||| id == 37500
    ||| id == 37510
    ||| 37520 <= id <= 37522
    ||| 37888 <= id <= 37893
    ||| 40960 <= id <= 40965
    ||| id == 41483
    ||| id == 41484
    ||| 41486 <= id <= 41488
    ||| id == 41492
    ||| id == 41493
    ||| id == 41495
    ||| 41728 <= id <= 41730
    ||| 41985 <= id <= 41996
    ||| id == 42016
    ||| 42032 <= id <= 42037
    ||| 42080 <= id <= 42082
    ||| id == 42240
}

/// Which directory a tag identifier belongs to: the GPS IFD reuses the small
/// identifiers 0 to 31, the Exif IFD owns its own ranges, everything else is
/// a 0th/TIFF tag.
pub open spec fn spec_owning_ifd(id: int) -> crate::exif::IFDTypes {
    if 0 <= id <= 31 {
        crate::exif::IFDTypes::GPS
    } else if spec_is_exif_ifd_tag(id) {
        crate::exif::IFDTypes::Exif
    } else {
        crate::exif::IFDTypes::TIFF
    }
}

impl Tag {
    /// The directory this tag belongs to, used to decide which sub-IFD a
    /// lookup should be attempted in.
    pub fn owning_ifd(&self) -> (r: crate::exif::IFDTypes)
        ensures
            r == spec_owning_ifd(self.0 as int),
    {
        let id = self.0;
        if id <= 31 {
            crate::exif::IFDTypes::GPS
        } else if id == 33434 || id == 33437 || id == 34850 || id == 34852 || id == 34855 || id
            == 34856 || (34864 <= id && id <= 34869) || id == 36864 || id == 36867 || id == 36868
            || (36880 <= id && id <= 36882) || id == 37121 || id == 37122 || (37377 <= id && id
            <= 37386) || id == 37396 || id == 37500 || id == 37510 || (37520 <= id && id <= 37522)
            || (37888 <= id && id <= 37893) || (40960 <= id && id <= 40965) || id == 41483 || id
            == 41484 || (41486 <= id && id <= 41488) || id == 41492 || id == 41493 || id == 41495
            || (41728 <= id && id <= 41730) || (41985 <= id && id <= 41996) || id == 42016 || (
        42032 <= id && id <= 42037) || (42080 <= id && id <= 42082) || id == 42240 {
            crate::exif::IFDTypes::Exif
        } else {
            crate::exif::IFDTypes::TIFF
        }
    }
}

pub open spec fn spec_compression_label(v: u16) -> Seq<char> {
    if v == 1 {
        "uncompressed"@
    } else if v == 6 {
        "JPEG compression (thumbnails only)"@
    } else {
        "reserved"@
    }
}

fn compression_label(v: u16) -> (r: &'static str)
    ensures
        r@ == spec_compression_label(v),
{
    if v == 1 {
        "uncompressed"
    } else if v == 6 {
        "JPEG compression (thumbnails only)"
    } else {
        "reserved"
    }
}

pub open spec fn spec_photometric_interpretation_label(v: u16) -> Seq<char> {
    if v == 2 {
        "RGB"@
    } else if v == 6 {
        "YCbCr"@
    } else {
        "reserved"@
    }
}

fn photometric_interpretation_label(v: u16) -> (r: &'static str)
    ensures
        r@ == spec_photometric_interpretation_label(v),
{
    if v == 2 {
        "RGB"
    } else if v == 6 {
        "YCbCr"
    } else {
        "reserved"
    }
}

pub open spec fn spec_planar_configuration_label(v: u16) -> Seq<char> {
    if v == 1 {
        "chunky format"@
    } else if v == 2 {
        "planar format"@
    } else {
        "reserved"@
    }
}

fn planar_configuration_label(v: u16) -> (r: &'static str)
    ensures
        r@ == spec_planar_configuration_label(v),
{
    if v == 1 {
        "chunky format"
    } else if v == 2 {
        "planar format"
    } else {
        "reserved"
    }
}

pub open spec fn spec_ycbcr_sub_sampling_label(v0: u16, v1: u16) -> Seq<char> {
    if v0 == 2 && v1 == 1 {
        "YCbCr4:2:2"@
    } else if v0 == 2 && v1 == 2 {
        "YCbCr4:2:0"@
    } else {
        "reserved"@
    }
}

fn ycbcr_sub_sampling_label(v0: u16, v1: u16) -> (r: &'static str)
    ensures
        r@ == spec_ycbcr_sub_sampling_label(v0, v1),
{
    if v0 == 2 && v1 == 1 {
        "YCbCr4:2:2"
    } else if v0 == 2 && v1 == 2 {
        "YCbCr4:2:0"
    } else {
        "reserved"
    }
}

pub open spec fn spec_ycbcr_positioning_label(v: u16) -> Seq<char> {
    if v == 1 {
        "centered"@
    } else if v == 2 {
        "co-sited"@
    } else {
        "reserved"@
    }
}

fn ycbcr_positioning_label(v: u16) -> (r: &'static str)
    ensures
        r@ == spec_ycbcr_positioning_label(v),
{
    if v == 1 {
        "centered"
    } else if v == 2 {
        "co-sited"
    } else {
        "reserved"
    }
}

pub open spec fn spec_resolution_unit_label(v: u16) -> Seq<char> {
    if v == 2 {
        "inches"@
    } else if v == 3 {
        "centimeters"@
    } else {
        "reserved"@
    }
}

fn resolution_unit_label(v: u16) -> (r: &'static str)
    ensures
        r@ == spec_resolution_unit_label(v),
{
    if v == 2 {
        "inches"
    } else if v == 3 {
        "centimeters"
    } else {
        "reserved"
    }
}

pub open spec fn spec_color_space_label(v: u16) -> Seq<char> {
    if v == 1 {
        "sRGB"@
    } else if v == 0xFFFF {
        "Uncalibrated"@
    } else {
        "reserved"@
    }
}

fn color_space_label(v: u16) -> (r: &'static str)
    ensures
        r@ == spec_color_space_label(v),
{
    if v == 1 {
        "sRGB"
    } else if v == 0xFFFF {
        "Uncalibrated"
    } else {
        "reserved"
    }
}

pub open spec fn spec_exposure_program_label(v: u16) -> Seq<char> {
    if v == 0 {
        "Not defined"@
    } else if v == 1 {
        "Manual"@
    } else if v == 2 {
        "Normal program"@
    } else if v == 3 {
        "Aperture priority"@
    } else if v == 4 {
        "Shutter priority"@
    } else if v == 5 {
        "Creative program (biased toward depth of field)"@
    } else if v == 6 {
        "Action program (biased toward fast shutter speed)"@
    } else if v == 7 {
        "Portrait mode (for closeup photos with the background out of focus)"@
    } else if v == 8 {
        "Landscape mode (for landscape photos with the background in focus)"@
    } else {
        "reserved"@
    }
}

fn exposure_program_label(v: u16) -> (r: &'static str)
    ensures
        r@ == spec_exposure_program_label(v),
{
    if v == 0 {
        "Not defined"
    } else if v == 1 {
        "Manual"
    } else if v == 2 {
        "Normal program"
    } else if v == 3 {
        "Aperture priority"
    } else if v == 4 {
        "Shutter priority"
    } else if v == 5 {
        "Creative program (biased toward depth of field)"
    } else if v == 6 {
        "Action program (biased toward fast shutter speed)"
    } else if v == 7 {
        "Portrait mode (for closeup photos with the background out of focus)"
    } else if v == 8 {
        "Landscape mode (for landscape photos with the background in focus)"
    } else {
        "reserved"
    }
}

pub open spec fn spec_sensitivity_type_label(v: u16) -> Seq<char> {
    if v == 0 {
        "Unknown"@
    } else if v == 1 {
        "Standard output sensitivity (SOS)"@
    } else if v == 2 {
        "Recommended exposure index (REI)"@
    } else if v == 3 {
        "ISO speed"@
    } else if v == 4 {
        "Standard output sensitivity (SOS) and recommended exposure index (REI)"@
    } else if v == 5 {
        "Standard output sensitivity (SOS) and ISO speed"@
    } else if v == 6 {
        "Recommended exposure index (REI) and ISO speed"@
    } else if v == 7 {
        "Standard output sensitivity (SOS) and recommended exposure index (REI) and ISO speed"@
    } else {
        "reserved"@
    }
}

fn sensitivity_type_label(v: u16) -> (r: &'static str)
    ensures
        r@ == spec_sensitivity_type_label(v),
{
    if v == 0 {
        "Unknown"
    } else if v == 1 {
        "Standard output sensitivity (SOS)"
    } else if v == 2 {
        "Recommended exposure index (REI)"
    } else if v == 3 {
        "ISO speed"
    } else if v == 4 {
        "Standard output sensitivity (SOS) and recommended exposure index (REI)"
    } else if v == 5 {
        "Standard output sensitivity (SOS) and ISO speed"
    } else if v == 6 {
        "Recommended exposure index (REI) and ISO speed"
    } else if v == 7 {
        "Standard output sensitivity (SOS) and recommended exposure index (REI) and ISO speed"
    } else {
        "reserved"
    }
}

pub open spec fn spec_metering_mode_label(v: u16) -> Seq<char> {
    if v == 0 {
        "unknown"@
    } else if v == 1 {
        "Average"@
    } else if v == 2 {
        "CenterWeightedAverage"@
    } else if v == 3 {
        "Spot"@
    } else if v == 4 {
        "MultiSpot"@
    } else if v == 5 {
        "Pattern"@
    } else if v == 6 {
        "Partial"@
    } else if v == 255 {
        "other"@
    } else {
        "reserved"@
    }
}

fn metering_mode_label(v: u16) -> (r: &'static str)
    ensures
        r@ == spec_metering_mode_label(v),
{
    if v == 0 {
        "unknown"
    } else if v == 1 {
        "Average"
    } else if v == 2 {
        "CenterWeightedAverage"
    } else if v == 3 {
        "Spot"
    } else if v == 4 {
        "MultiSpot"
    } else if v == 5 {
        "Pattern"
    } else if v == 6 {
        "Partial"
    } else if v == 255 {
        "other"
    } else {
        "reserved"
    }
}

pub open spec fn spec_light_source_label(v: u16) -> Seq<char> {
    if v == 0 {
        "unknown"@
    } else if v == 1 {
        "Daylight"@
    } else if v == 2 {
        "Fluorescent"@
    } else if v == 3 {
        "Tungsten (incandescent light)"@
    } else if v == 4 {
        "Flash"@
    } else if v == 9 {
        "Fine weather"@
    } else if v == 10 {
        "Cloudy weather"@
    } else if v == 11 {
        "Shade"@
    } else if v == 12 {
        "Daylight fluorescent (D 5700 - 7100K)"@
    } else if v == 13 {
        "Day white fluorescent (N 4600 - 5500K)"@
    } else if v == 14 {
        "Cool white fluorescent (W 3800 - 4500K)"@
    } else if v == 15 {
        "White fluorescent (WW 3250 - 3800K)"@
    } else if v == 16 {
        "Warm white fluorescent (L 2600 - 3250K)"@
    } else if v == 17 {
        "Standard light A"@
    } else if v == 18 {
        "Standard light B"@
    } else if v == 19 {
        "Standard light C"@
    } else if v == 20 {
        "D55"@
    } else if v == 21 {
        "D65"@
    } else if v == 22 {
        "D75"@
    } else if v == 23 {
        "D50"@
    } else if v == 24 {
        "ISO studio tungsten"@
    } else if v == 255 {
        "other light source"@
    } else {
        "reserved"@
    }
}

fn light_source_label(v: u16) -> (r: &'static str)
    ensures
        r@ == spec_light_source_label(v),
{
    if v == 0 {
        "unknown"
    } else if v == 1 {
        "Daylight"
    } else if v == 2 {
        "Fluorescent"
    } else if v == 3 {
        "Tungsten (incandescent light)"
    } else if v == 4 {
        "Flash"
    } else if v == 9 {
        "Fine weather"
    } else if v == 10 {
        "Cloudy weather"
    } else if v == 11 {
        "Shade"
    } else if v == 12 {
        "Daylight fluorescent (D 5700 - 7100K)"
    } else if v == 13 {
        "Day white fluorescent (N 4600 - 5500K)"
    } else if v == 14 {
        "Cool white fluorescent (W 3800 - 4500K)"
    } else if v == 15 {
        "White fluorescent (WW 3250 - 3800K)"
    } else if v == 16 {
        "Warm white fluorescent (L 2600 - 3250K)"
    } else if v == 17 {
        "Standard light A"
    } else if v == 18 {
        "Standard light B"
    } else if v == 19 {
        "Standard light C"
    } else if v == 20 {
        "D55"
    } else if v == 21 {
        "D65"
    } else if v == 22 {
        "D75"
    } else if v == 23 {
        "D50"
    } else if v == 24 {
        "ISO studio tungsten"
    } else if v == 255 {
        "other light source"
    } else {
        "reserved"
    }
}

pub open spec fn spec_flash_fired_label(v: u16) -> Seq<char> {
    if v & 1 == 1 {
        "Flash fired"@
    } else {
        "Flash did not fire"@
    }
}

fn flash_fired_label(v: u16) -> (r: &'static str)
    ensures
        r@ == spec_flash_fired_label(v),
{
    if v & 1 == 1 {
        "Flash fired"
    } else {
        "Flash did not fire"
    }
}

pub open spec fn spec_flash_return_label(v: u16) -> Seq<char> {
    if (v >> 1) & 3 == 0 {
        "No strobe return detection function"@
    } else if (v >> 1) & 3 == 1 {
        "reserved"@
    } else if (v >> 1) & 3 == 2 {
        "Strobe return light not detected"@
    } else {
        "Strobe return light detected"@
    }
}

fn flash_return_label(v: u16) -> (r: &'static str)
    ensures
        r@ == spec_flash_return_label(v),
{
    if (v >> 1) & 3 == 0 {
        "No strobe return detection function"
    } else if (v >> 1) & 3 == 1 {
        "reserved"
    } else if (v >> 1) & 3 == 2 {
        "Strobe return light not detected"
    } else {
        "Strobe return light detected"
    }
}

pub open spec fn spec_flash_mode_label(v: u16) -> Seq<char> {
    if (v >> 3) & 3 == 0 {
        "unknown"@
    } else if (v >> 3) & 3 == 1 {
        "Compulsory flash firing"@
    } else if (v >> 3) & 3 == 2 {
        "Compulsory flash suppression"@
    } else {
        "Auto mode"@
    }
}

fn flash_mode_label(v: u16) -> (r: &'static str)
    ensures
        r@ == spec_flash_mode_label(v),
{
    if (v >> 3) & 3 == 0 {
        "unknown"
    } else if (v >> 3) & 3 == 1 {
        "Compulsory flash firing"
    } else if (v >> 3) & 3 == 2 {
        "Compulsory flash suppression"
    } else {
        "Auto mode"
    }
}

pub open spec fn spec_flash_function_label(v: u16) -> Seq<char> {
    if v & 32 == 32 {
        "No flash function"@
    } else {
        "Flash function present"@
    }
}

fn flash_function_label(v: u16) -> (r: &'static str)
    ensures
        r@ == spec_flash_function_label(v),
{
    if v & 32 == 32 {
        "No flash function"
    } else {
        "Flash function present"
    }
}

pub open spec fn spec_flash_red_eye_label(v: u16) -> Seq<char> {
    if v & 64 == 64 {
        "Red-eye reduction supported"@
    } else {
        "No red-eye reduction mode or unknown"@
    }
}

fn flash_red_eye_label(v: u16) -> (r: &'static str)
    ensures
        r@ == spec_flash_red_eye_label(v),
{
    if v & 64 == 64 {
        "Red-eye reduction supported"
    } else {
        "No red-eye reduction mode or unknown"
    }
}

/// The five independent sub-conditions of a `Flash` bitfield, joined by
/// `" / "`: fired, strobe-return detection, firing mode, flash function,
/// red-eye reduction.
pub open spec fn spec_flash_value(v: u16) -> Seq<char> {
    spec_flash_fired_label(v) + " / "@ + spec_flash_return_label(v) + " / "@ + spec_flash_mode_label(
        v,
    ) + " / "@ + spec_flash_function_label(v) + " / "@ + spec_flash_red_eye_label(v)
}

fn flash_value(v: u16) -> (s: String)
    ensures
        s@ == spec_flash_value(v),
{
    let mut s = flash_fired_label(v).to_owned();
    s.append(" / ");
    s.append(flash_return_label(v));
    s.append(" / ");
    s.append(flash_mode_label(v));
    s.append(" / ");
    s.append(flash_function_label(v));
    s.append(" / ");
    s.append(flash_red_eye_label(v));
    s
}

pub open spec fn spec_sensing_method_label(v: u16) -> Seq<char> {
    if v == 1 {
        "Not defined"@
    } else if v == 2 {
        "One-chip color area sensor"@
    } else if v == 3 {
        "Two-chip color area sensor"@
    } else if v == 4 {
        "Three-chip color area sensor"@
    } else if v == 5 {
        "Color sequential area sensor"@
    } else if v == 7 {
        "Trilinear sensor"@
    } else if v == 8 {
        "Color sequential linear sensor"@
    } else {
        "reserved"@
    }
}

fn sensing_method_label(v: u16) -> (r: &'static str)
    ensures
        r@ == spec_sensing_method_label(v),
{
    if v == 1 {
        "Not defined"
    } else if v == 2 {
        "One-chip color area sensor"
    } else if v == 3 {
        "Two-chip color area sensor"
    } else if v == 4 {
        "Three-chip color area sensor"
    } else if v == 5 {
        "Color sequential area sensor"
    } else if v == 7 {
        "Trilinear sensor"
    } else if v == 8 {
        "Color sequential linear sensor"
    } else {
        "reserved"
    }
}

pub open spec fn spec_custom_rendered_label(v: u16) -> Seq<char> {
    if v == 0 {
        "Normal process"@
    } else if v == 1 {
        "Custom process"@
    } else {
        "reserved"@
    }
}

fn custom_rendered_label(v: u16) -> (r: &'static str)
    ensures
        r@ == spec_custom_rendered_label(v),
{
    if v == 0 {
        "Normal process"
    } else if v == 1 {
        "Custom process"
    } else {
        "reserved"
    }
}

pub open spec fn spec_exposure_mode_label(v: u16) -> Seq<char> {
    if v == 0 {
        "Auto exposure"@
    } else if v == 1 {
        "Manual exposure"@
    } else if v == 2 {
        "Auto bracket"@
    } else {
        "reserved"@
    }
}

fn exposure_mode_label(v: u16) -> (r: &'static str)
    ensures
        r@ == spec_exposure_mode_label(v),
{
    if v == 0 {
        "Auto exposure"
    } else if v == 1 {
        "Manual exposure"
    } else if v == 2 {
        "Auto bracket"
    } else {
        "reserved"
    }
}

pub open spec fn spec_white_balance_label(v: u16) -> Seq<char> {
    if v == 0 {
        "Auto white balance"@
    } else if v == 1 {
        "Manual white balance"@
    } else {
        "reserved"@
    }
}

fn white_balance_label(v: u16) -> (r: &'static str)
    ensures
        r@ == spec_white_balance_label(v),
{
    if v == 0 {
        "Auto white balance"
    } else if v == 1 {
        "Manual white balance"
    } else {
        "reserved"
    }
}

pub open spec fn spec_scene_capture_type_label(v: u16) -> Seq<char> {
    if v == 0 {
        "Standard"@
    } else if v == 1 {
        "Landscape"@
    } else if v == 2 {
        "Portrait"@
    } else if v == 3 {
        "Night scene"@
    } else {
        "reserved"@
    }
}

fn scene_capture_type_label(v: u16) -> (r: &'static str)
    ensures
        r@ == spec_scene_capture_type_label(v),
{
    if v == 0 {
        "Standard"
    } else if v == 1 {
        "Landscape"
    } else if v == 2 {
        "Portrait"
    } else if v == 3 {
        "Night scene"
    } else {
        "reserved"
    }
}

pub open spec fn spec_gain_control_label(v: u16) -> Seq<char> {
    if v == 0 {
        "None"@
    } else if v == 1 {
        "Low gain up"@
    } else if v == 2 {
        "High gain up"@
    } else if v == 3 {
        "Low gain down"@
    } else if v == 4 {
        "High gain down"@
    } else {
        "reserved"@
    }
}

fn gain_control_label(v: u16) -> (r: &'static str)
    ensures
        r@ == spec_gain_control_label(v),
{
    if v == 0 {
        "None"
    } else if v == 1 {
        "Low gain up"
    } else if v == 2 {
        "High gain up"
    } else if v == 3 {
        "Low gain down"
    } else if v == 4 {
        "High gain down"
    } else {
        "reserved"
    }
}

pub open spec fn spec_contrast_label(v: u16) -> Seq<char> {
    if v == 0 {
        "Normal"@
    } else if v == 1 {
        "Soft"@
    } else if v == 2 {
        "Hard"@
    } else {
        "reserved"@
    }
}

fn contrast_label(v: u16) -> (r: &'static str)
    ensures
        r@ == spec_contrast_label(v),
{
    if v == 0 {
        "Normal"
    } else if v == 1 {
        "Soft"
    } else if v == 2 {
        "Hard"
    } else {
        "reserved"
    }
}

pub open spec fn spec_saturation_label(v: u16) -> Seq<char> {
    if v == 0 {
        "Normal"@
    } else if v == 1 {
        "Low saturation"@
    } else if v == 2 {
        "High saturation"@
    } else {
        "reserved"@
    }
}

fn saturation_label(v: u16) -> (r: &'static str)
    ensures
        r@ == spec_saturation_label(v),
{
    if v == 0 {
        "Normal"
    } else if v == 1 {
        "Low saturation"
    } else if v == 2 {
        "High saturation"
    } else {
        "reserved"
    }
}

pub open spec fn spec_subject_distance_range_label(v: u16) -> Seq<char> {
    if v == 0 {
        "unknown"@
    } else if v == 1 {
        "Macro"@
    } else if v == 2 {
        "Close view"@
    } else if v == 3 {
        "Distant view"@
    } else {
        "reserved"@
    }
}

fn subject_distance_range_label(v: u16) -> (r: &'static str)
    ensures
        r@ == spec_subject_distance_range_label(v),
{
    if v == 0 {
        "unknown"
    } else if v == 1 {
        "Macro"
    } else if v == 2 {
        "Close view"
    } else if v == 3 {
        "Distant view"
    } else {
        "reserved"
    }
}

pub open spec fn spec_composite_image_label(v: u16) -> Seq<char> {
    if v == 0 {
        "unknown"@
    } else if v == 1 {
        "non-composite image"@
    } else if v == 2 {
        "General composite image"@
    } else if v == 3 {
        "Composite image captured when shooting"@
    } else {
        "reserved"@
    }
}

fn composite_image_label(v: u16) -> (r: &'static str)
    ensures
        r@ == spec_composite_image_label(v),
{
    if v == 0 {
        "unknown"
    } else if v == 1 {
        "non-composite image"
    } else if v == 2 {
        "General composite image"
    } else if v == 3 {
        "Composite image captured when shooting"
    } else {
        "reserved"
    }
}

pub open spec fn spec_file_source_label(b: u8) -> Seq<char> {
    if b == 0 {
        "others"@
    } else if b == 1 {
        "scanner of transparent type"@
    } else if b == 2 {
        "scanner of reflex type"@
    } else if b == 3 {
        "DSC"@
    } else {
        "reserved"@
    }
}

fn file_source_label(b: u8) -> (r: &'static str)
    ensures
        r@ == spec_file_source_label(b),
{
    if b == 0 {
        "others"
    } else if b == 1 {
        "scanner of transparent type"
    } else if b == 2 {
        "scanner of reflex type"
    } else if b == 3 {
        "DSC"
    } else {
        "reserved"
    }
}

pub open spec fn spec_scene_type_label(b: u8) -> Seq<char> {
    if b == 1 {
        "A directly photographed image"@
    } else {
        "reserved"@
    }
}

fn scene_type_label(b: u8) -> (r: &'static str)
    ensures
        r@ == spec_scene_type_label(b),
{
    if b == 1 {
        "A directly photographed image"
    } else {
        "reserved"
    }
}

pub open spec fn spec_component_label(b: u8) -> Seq<char> {
    if b == 1 {
        "Y"@
    } else if b == 2 {
        "Cb"@
    } else if b == 3 {
        "Cr"@
    } else if b == 4 {
        "R"@
    } else if b == 5 {
        "G"@
    } else if b == 6 {
        "B"@
    } else {
        ""@
    }
}

fn component_label(b: u8) -> (r: &'static str)
    ensures
        r@ == spec_component_label(b),
{
    if b == 1 {
        "Y"
    } else if b == 2 {
        "Cb"
    } else if b == 3 {
        "Cr"
    } else if b == 4 {
        "R"
    } else if b == 5 {
        "G"
    } else if b == 6 {
        "B"
    } else {
        ""
    }
}

/// The rendering of a short-typed value for `tag`: `"<name>: <value>"`, where
/// tags with an enumerated vocabulary render the code's meaning and all others
/// render the values space-joined in decimal.
pub open spec fn spec_short_string_for_tag(tag: Tag, count: int, values: Seq<u16>) -> Seq<char> {
    let name = spec_tag_name(tag.0 as int);
    if tag.0 == TAG_COMPRESSION && count == 1 && values.len() == 1 {
        name + ": "@ + spec_compression_label(values[0])
    } else if tag.0 == TAG_PHOTOMETRIC_INTERPRETATION && count == 1 && values.len() == 1 {
        name + ": "@ + spec_photometric_interpretation_label(values[0])
    } else if tag.0 == TAG_PLANAR_CONFIGURATION && count == 1 && values.len() == 1 {
        name + ": "@ + spec_planar_configuration_label(values[0])
    } else if tag.0 == TAG_YCBCR_SUB_SAMPLING && count == 2 && values.len() == 2 {
        name + ": "@ + spec_ycbcr_sub_sampling_label(values[0], values[1])
    } else if tag.0 == TAG_YCBCR_POSITIONING && count == 1 && values.len() == 1 {
        name + ": "@ + spec_ycbcr_positioning_label(values[0])
    } else if tag.0 == TAG_RESOLUTION_UNIT && count == 1 && values.len() == 1 {
        name + ": "@ + spec_resolution_unit_label(values[0])
    } else if tag.0 == TAG_COLOR_SPACE && count == 1 && values.len() == 1 {
        name + ": "@ + spec_color_space_label(values[0])
    } else if tag.0 == TAG_EXPOSURE_PROGRAM && count == 1 && values.len() == 1 {
        name + ": "@ + spec_exposure_program_label(values[0])
    } else if tag.0 == TAG_SENSITIVITY_TYPE && count == 1 && values.len() == 1 {
        name + ": "@ + spec_sensitivity_type_label(values[0])
    } else if tag.0 == TAG_METERING_MODE && count == 1 && values.len() == 1 {
        name + ": "@ + spec_metering_mode_label(values[0])
    } else if tag.0 == TAG_LIGHT_SOURCE && count == 1 && values.len() == 1 {
        name + ": "@ + spec_light_source_label(values[0])
    } else if tag.0 == TAG_FLASH && count == 1 && values.len() == 1 {
        name + ": "@ + spec_flash_value(values[0])
    } else if tag.0 == TAG_SENSING_METHOD && count == 1 && values.len() == 1 {
        name + ": "@ + spec_sensing_method_label(values[0])
    } else if tag.0 == TAG_CUSTOM_RENDERED && count == 1 && values.len() == 1 {
        name + ": "@ + spec_custom_rendered_label(values[0])
    } else if tag.0 == TAG_EXPOSURE_MODE && count == 1 && values.len() == 1 {
        name + ": "@ + spec_exposure_mode_label(values[0])
    } else if tag.0 == TAG_WHITE_BALANCE && count == 1 && values.len() == 1 {
        name + ": "@ + spec_white_balance_label(values[0])
    } else if tag.0 == TAG_SCENE_CAPTURE_TYPE && count == 1 && values.len() == 1 {
        name + ": "@ + spec_scene_capture_type_label(values[0])
    } else if tag.0 == TAG_GAIN_CONTROL && count == 1 && values.len() == 1 {
        name + ": "@ + spec_gain_control_label(values[0])
    } else if tag.0 == TAG_CONTRAST && count == 1 && values.len() == 1 {
        name + ": "@ + spec_contrast_label(values[0])
    } else if tag.0 == TAG_SATURATION && count == 1 && values.len() == 1 {
        name + ": "@ + spec_saturation_label(values[0])
    } else if tag.0 == TAG_SHARPNESS && count == 1 && values.len() == 1 {
        name + ": "@ + spec_contrast_label(values[0])
    } else if tag.0 == TAG_SUBJECT_DISTANCE_RANGE && count == 1 && values.len() == 1 {
        name + ": "@ + spec_subject_distance_range_label(values[0])
    } else if tag.0 == TAG_COMPOSITE_IMAGE && count == 1 && values.len() == 1 {
        name + ": "@ + spec_composite_image_label(values[0])
    } else {
        name + ": "@ + spec_join_dec(crate::conversions::spec_widen_u16s(values))
    }
}

/// Renders a short-typed value for `tag`, consulting the per-tag enumerated
/// vocabularies where one applies.
pub fn get_short_string_for_tag(tag: Tag, count: usize, values: Vec<u16>) -> (s: String)
    ensures
        s@ == spec_short_string_for_tag(tag, count as int, values@),
{
    let mut s = tag.get_as_string();
    s.append(": ");
    if tag.0 == TAG_COMPRESSION && count == 1 && values.len() == 1 {
        s.append(compression_label(values[0]));
    } else if tag.0 == TAG_PHOTOMETRIC_INTERPRETATION && count == 1 && values.len() == 1 {
        s.append(photometric_interpretation_label(values[0]));
    } else if tag.0 == TAG_PLANAR_CONFIGURATION && count == 1 && values.len() == 1 {
        s.append(planar_configuration_label(values[0]));
    } else if tag.0 == TAG_YCBCR_SUB_SAMPLING && count == 2 && values.len() == 2 {
        s.append(ycbcr_sub_sampling_label(values[0], values[1]));
    } else if tag.0 == TAG_YCBCR_POSITIONING && count == 1 && values.len() == 1 {
        s.append(ycbcr_positioning_label(values[0]));
    } else if tag.0 == TAG_RESOLUTION_UNIT && count == 1 && values.len() == 1 {
        s.append(resolution_unit_label(values[0]));
    } else if tag.0 == TAG_COLOR_SPACE && count == 1 && values.len() == 1 {
        s.append(color_space_label(values[0]));
    } else if tag.0 == TAG_EXPOSURE_PROGRAM && count == 1 && values.len() == 1 {
        s.append(exposure_program_label(values[0]));
    } else if tag.0 == TAG_SENSITIVITY_TYPE && count == 1 && values.len() == 1 {
        s.append(sensitivity_type_label(values[0]));
    } else if tag.0 == TAG_METERING_MODE && count == 1 && values.len() == 1 {
        s.append(metering_mode_label(values[0]));
    } else if tag.0 == TAG_LIGHT_SOURCE && count == 1 && values.len() == 1 {
        s.append(light_source_label(values[0]));
    } else if tag.0 == TAG_FLASH && count == 1 && values.len() == 1 {
        s.append(flash_value(values[0]).as_str());
    } else if tag.0 == TAG_SENSING_METHOD && count == 1 && values.len() == 1 {
        s.append(sensing_method_label(values[0]));
    } else if tag.0 == TAG_CUSTOM_RENDERED && count == 1 && values.len() == 1 {
        s.append(custom_rendered_label(values[0]));
    } else if tag.0 == TAG_EXPOSURE_MODE && count == 1 && values.len() == 1 {
        s.append(exposure_mode_label(values[0]));
    } else if tag.0 == TAG_WHITE_BALANCE && count == 1 && values.len() == 1 {
        s.append(white_balance_label(values[0]));
    } else if tag.0 == TAG_SCENE_CAPTURE_TYPE && count == 1 && values.len() == 1 {
        s.append(scene_capture_type_label(values[0]));
    } else if tag.0 == TAG_GAIN_CONTROL && count == 1 && values.len() == 1 {
        s.append(gain_control_label(values[0]));
    } else if tag.0 == TAG_CONTRAST && count == 1 && values.len() == 1 {
        s.append(contrast_label(values[0]));
    } else if tag.0 == TAG_SATURATION && count == 1 && values.len() == 1 {
        s.append(saturation_label(values[0]));
    } else if tag.0 == TAG_SHARPNESS && count == 1 && values.len() == 1 {
        s.append(contrast_label(values[0]));
    } else if tag.0 == TAG_SUBJECT_DISTANCE_RANGE && count == 1 && values.len() == 1 {
        s.append(subject_distance_range_label(values[0]));
    } else if tag.0 == TAG_COMPOSITE_IMAGE && count == 1 && values.len() == 1 {
        s.append(composite_image_label(values[0]));
    } else {
        s.append(get_vec_as_string(&u16s_to_i64s(&values)).as_str());
    }
    s
}

/// The rendering of a rational-typed value for `tag`: `"<name>: "` followed by
/// the `"num/den"` pairs space-joined.
pub open spec fn spec_rational_string_for_tag(tag: Tag, values: Seq<(u32, u32)>) -> Seq<char> {
    spec_tag_name(tag.0 as int) + ": "@ + spec_join_rationals(
        crate::conversions::spec_widen_u32_pairs(values),
    )
}

/// Renders a rational-typed value for `tag` as space-joined `"num/den"` pairs.
pub fn get_rational_string_for_tag(tag: Tag, _count: usize, values: Vec<(u32, u32)>) -> (s: String)
    ensures
        s@ == spec_rational_string_for_tag(tag, values@),
{
    let mut s = tag.get_as_string();
    s.append(": ");
    s.append(get_ratioanls_vec_as_string(&u32_pairs_to_i64s(&values)).as_str());
    s
}

/// The rendering of an undefined-typed value for `tag` from the 4-byte value
/// slot: a closed set of tags gets its vocabulary decoded, all others render
/// as `"<name>: Undefined"`.
pub open spec fn spec_undefined_string_for_tag(tag: Tag, count: int, slot: Seq<u8>) -> Seq<char>
    recommends
        slot.len() == 4,
{
    let name = spec_tag_name(tag.0 as int);
    if tag.0 == TAG_EXIF_VERSION && count == 4 {
        name + ": "@ + seq![
            '"',
            slot[0] as char,
            slot[1] as char,
            slot[2] as char,
            slot[3] as char,
            '"',
        ]
    } else if tag.0 == TAG_FLASHPIX_VERSION && count == 4 && slot[0] == 48 && slot[1] == 49
        && slot[2] == 48 && slot[3] == 48 {
        name + ": "@ + "Flashpix Format Version 1.0"@
    } else if tag.0 == TAG_COMPONENTS_CONFIGURATION && count == 4 {
        name + ": "@ + spec_component_label(slot[0]) + spec_component_label(slot[1])
            + spec_component_label(slot[2])
    } else if tag.0 == TAG_FILE_SOURCE && count == 1 {
        name + ": "@ + spec_file_source_label(slot[0])
    } else if tag.0 == TAG_SCENE_TYPE && count == 1 {
        name + ": "@ + spec_scene_type_label(slot[0])
    } else {
        name + ": "@ + "Undefined"@
    }
}

/// Renders an undefined-typed value for `tag` from the 4-byte value slot.
pub fn get_undefined_string_for_tag(tag: Tag, count: usize, value_offset: [u8; 4]) -> (s: String)
    ensures
        s@ == spec_undefined_string_for_tag(tag, count as int, value_offset@),
{
    let mut s = tag.get_as_string();
    s.append(": ");
    if tag.0 == TAG_EXIF_VERSION && count == 4 {
        push_char(&mut s, '"');
        push_char(&mut s, value_offset[0] as char);
        push_char(&mut s, value_offset[1] as char);
        push_char(&mut s, value_offset[2] as char);
        push_char(&mut s, value_offset[3] as char);
        push_char(&mut s, '"');
        proof {
            assert(s@ =~= spec_undefined_string_for_tag(tag, count as int, value_offset@));
        }
    } else if tag.0 == TAG_FLASHPIX_VERSION && count == 4 && value_offset[0] == 48 && value_offset[1]
        == 49 && value_offset[2] == 48 && value_offset[3] == 48 {
        s.append("Flashpix Format Version 1.0");
    } else if tag.0 == TAG_COMPONENTS_CONFIGURATION && count == 4 {
        s.append(component_label(value_offset[0]));
        s.append(component_label(value_offset[1]));
        s.append(component_label(value_offset[2]));
    } else if tag.0 == TAG_FILE_SOURCE && count == 1 {
        s.append(file_source_label(value_offset[0]));
    } else if tag.0 == TAG_SCENE_TYPE && count == 1 {
        s.append(scene_type_label(value_offset[0]));
    } else {
        s.append("Undefined");
    }
    s
}

} // verus!
