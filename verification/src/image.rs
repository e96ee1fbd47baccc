//! Image type detection over a byte span, keyed by the signatures the
//! metadata reader recognises.

use vstd::prelude::*;

use crate::arrays::spec_match_at;
use crate::formats::{is_jpeg, matches_at, spec_is_jpeg};

verus! {

#[derive(Clone, Copy, Debug, PartialEq, Eq, Structural)]
pub enum ImageType {
    Jpeg,
    Png,
}

/// `b` starts with the `IHDR` chunk type bytes.
pub open spec fn spec_starts_with_ihdr(b: Seq<u8>) -> bool {
    spec_match_at(b, seq![0x49u8, 0x48u8, 0x44u8, 0x52u8], 0)
}

/// Detects the image type from the starting bytes of `slice`: the JPEG file
/// signatures mark a JPEG; the `IHDR` chunk type at the start marks a PNG.
pub fn get_image_type_for(slice: &[u8]) -> (r: Option<ImageType>)
    ensures
        r == (if spec_is_jpeg(slice@) {
            Some(ImageType::Jpeg)
        } else if spec_starts_with_ihdr(slice@) {
            Some(ImageType::Png)
        } else {
            None::<ImageType>
        }),
{
    if is_jpeg(slice) {
        return Some(ImageType::Jpeg);
    }
    let sig: [u8; 4] = [0x49, 0x48, 0x44, 0x52];
    proof {
        assert(sig@ =~= seq![0x49u8, 0x48u8, 0x44u8, 0x52u8]);
    }
    if matches_at(slice, sig.as_slice(), 0) {
        return Some(ImageType::Png);
    }
    None
}

} // verus!
