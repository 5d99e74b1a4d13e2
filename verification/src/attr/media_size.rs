use vstd::prelude::*;

verus! {

/// A media size as the Windows Print Schema gives it, in microns.
#[derive(Clone, Copy, Debug, PartialEq, Eq, Structural)]
pub struct MediaSizeTuple {
    pub width_in_micron: u32,
    pub height_in_micron: u32,
}

/// An IPP `media-size` collection, in hundredths of a millimetre.
#[derive(Clone, Copy, Debug, PartialEq, Eq, Structural)]
pub struct MediaSize {
    pub x_dimension: i32,
    pub y_dimension: i32,
}

/// Microns rounded to the nearest hundredth of a millimetre, halves up.
pub open spec fn microns_to_ipp_units(microns: int) -> int {
    (microns + 5) / 10
}

/// The IPP media size of a print-schema media size.
pub open spec fn spec_media_size_sys_to_ipp(size: MediaSizeTuple) -> MediaSize {
    MediaSize {
        x_dimension: microns_to_ipp_units(size.width_in_micron as int) as i32,
        y_dimension: microns_to_ipp_units(size.height_in_micron as int) as i32,
    }
}

/// Converts a print-schema media size to an IPP media size, rounding each
/// dimension to the nearest hundredth of a millimetre.
pub fn media_size_sys_to_ipp(size: MediaSizeTuple) -> (r: MediaSize)
    requires
        size.width_in_micron + 5 <= u32::MAX,
        size.height_in_micron + 5 <= u32::MAX,
    ensures
        r.x_dimension == microns_to_ipp_units(size.width_in_micron as int),
        r.y_dimension == microns_to_ipp_units(size.height_in_micron as int),
        r == spec_media_size_sys_to_ipp(size),
{
    let x_in_unit = (size.width_in_micron + 5) / 10;
    let y_in_unit = (size.height_in_micron + 5) / 10;
    MediaSize { x_dimension: x_in_unit as i32, y_dimension: y_in_unit as i32 }
}

} // verus!
