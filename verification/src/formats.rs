//! Image container detection from file signatures.

use vstd::prelude::*;

use crate::arrays::spec_match_at;

verus! {

#[derive(Clone, Copy, Debug, PartialEq, Eq, Structural)]
pub enum ImageFormat {
    Jpeg,
    Png,
}

/// `b` starts with one of the JPEG file signatures.
pub open spec fn spec_is_jpeg(b: Seq<u8>) -> bool {
    ||| spec_match_at(b, seq![0xFFu8, 0xD8u8, 0xFFu8, 0xDBu8], 0)
    ||| spec_match_at(
        b,
        seq![
            0xFFu8,
            0xD8u8,
            0xFFu8,
            0xE0u8,
            0x00u8,
            0x10u8,
            0x4Au8,
            0x46u8,
            0x49u8,
            0x46u8,
            0x00u8,
            0x01u8,
        ],
        0,
    )
    ||| spec_match_at(b, seq![0xFFu8, 0xD8u8, 0xFFu8, 0xEEu8], 0)
    ||| spec_match_at(
        b,
        seq![
            0xFFu8,
            0xD8u8,
            0xFFu8,
            0xE1u8,
            0x00u8,
            0x3Fu8,
            0x45u8,
            0x78u8,
            0x69u8,
            0x66u8,
            0x00u8,
            0x00u8,
        ],
        0,
    )
    ||| (spec_match_at(b, seq![0xFFu8, 0xD8u8, 0xFFu8, 0xE1u8], 0) && spec_match_at(
        b,
        seq![0x45u8, 0x78u8, 0x69u8, 0x66u8, 0x00u8, 0x00u8],
        6,
    ))
    ||| spec_match_at(b, seq![0xFFu8, 0xD8u8, 0xFFu8, 0xE0u8], 0)
}

/// `b` starts with the PNG file signature.
pub open spec fn spec_is_png(b: Seq<u8>) -> bool {
    spec_match_at(b, seq![0x89u8, 0x50u8, 0x4Eu8, 0x47u8, 0x0Du8, 0x0Au8, 0x1Au8, 0x0Au8], 0)
}

/// Whether `p` occurs in `s` at position `i`.
pub fn matches_at(s: &[u8], p: &[u8], i: usize) -> (r: bool)
    ensures
        r == spec_match_at(s@, p@, i as int),
{
    if i > s.len() || p.len() > s.len() - i {
        return false;
    }
    let mut k: usize = 0;
    while k < p.len()
        invariant
            i + p@.len() <= s@.len(),
            s@.len() <= usize::MAX,
            0 <= k <= p@.len(),
            forall|m: int| 0 <= m < k ==> s@[i + m] == p@[m],
        decreases p@.len() - k,
    {
        if s[i + k] != p[k] {
            return false;
        }
        k = k + 1;
    }
    true
}

pub(crate) fn is_jpeg(slice: &[u8]) -> (r: bool)
    ensures
        r == spec_is_jpeg(slice@),
{
    let sig_raw: [u8; 4] = [0xFF, 0xD8, 0xFF, 0xDB];
    let sig_jfif: [u8; 12] = [0xFF, 0xD8, 0xFF, 0xE0, 0x00, 0x10, 0x4A, 0x46, 0x49, 0x46, 0x00, 0x01];
    let sig_adobe: [u8; 4] = [0xFF, 0xD8, 0xFF, 0xEE];
    let sig_exif_fixed: [u8; 12] = [0xFF, 0xD8, 0xFF, 0xE1, 0x00, 0x3F, 0x45, 0x78, 0x69, 0x66, 0x00, 0x00];
    let sig_app1: [u8; 4] = [0xFF, 0xD8, 0xFF, 0xE1];
    let sig_exif_word: [u8; 6] = [0x45, 0x78, 0x69, 0x66, 0x00, 0x00];
    let sig_jfif_any: [u8; 4] = [0xFF, 0xD8, 0xFF, 0xE0];
    proof {
        assert(sig_raw@ =~= seq![0xFFu8, 0xD8u8, 0xFFu8, 0xDBu8]);
        assert(sig_jfif@ =~= seq![
            0xFFu8,
            0xD8u8,
            0xFFu8,
            0xE0u8,
            0x00u8,
            0x10u8,
            0x4Au8,
            0x46u8,
            0x49u8,
            0x46u8,
            0x00u8,
            0x01u8,
        ]);
        assert(sig_adobe@ =~= seq![0xFFu8, 0xD8u8, 0xFFu8, 0xEEu8]);
        assert(sig_exif_fixed@ =~= seq![
            0xFFu8,
            0xD8u8,
            0xFFu8,
            0xE1u8,
            0x00u8,
            0x3Fu8,
            0x45u8,
            0x78u8,
            0x69u8,
            0x66u8,
            0x00u8,
            0x00u8,
        ]);
        assert(sig_app1@ =~= seq![0xFFu8, 0xD8u8, 0xFFu8, 0xE1u8]);
        assert(sig_exif_word@ =~= seq![0x45u8, 0x78u8, 0x69u8, 0x66u8, 0x00u8, 0x00u8]);
        assert(sig_jfif_any@ =~= seq![0xFFu8, 0xD8u8, 0xFFu8, 0xE0u8]);
    }
    matches_at(slice, sig_raw.as_slice(), 0) || matches_at(slice, sig_jfif.as_slice(), 0)
        || matches_at(slice, sig_adobe.as_slice(), 0) || matches_at(
        slice,
        sig_exif_fixed.as_slice(),
        0,
    ) || (matches_at(slice, sig_app1.as_slice(), 0) && matches_at(
        slice,
        sig_exif_word.as_slice(),
        6,
    )) || matches_at(slice, sig_jfif_any.as_slice(), 0)
}

pub(crate) fn is_png(slice: &[u8]) -> (r: bool)
    ensures
        r == spec_is_png(slice@),
{
    let sig: [u8; 8] = [0x89, 0x50, 0x4E, 0x47, 0x0D, 0x0A, 0x1A, 0x0A];
    proof {
        assert(sig@ =~= seq![0x89u8, 0x50u8, 0x4Eu8, 0x47u8, 0x0Du8, 0x0Au8, 0x1Au8, 0x0Au8]);
    }
    matches_at(slice, sig.as_slice(), 0)
}

/// Detects the image container format from the file signature.
pub fn get_image_format_for(slice: &[u8]) -> (r: Option<ImageFormat>)
    ensures
        r == (if spec_is_jpeg(slice@) {
            Some(ImageFormat::Jpeg)
        } else if spec_is_png(slice@) {
            Some(ImageFormat::Png)
        } else {
            None::<ImageFormat>
        }),
{
    if is_jpeg(slice) {
        Some(ImageFormat::Jpeg)
    } else if is_png(slice) {
        Some(ImageFormat::Png)
    } else {
        None
    }
}

} // verus!
