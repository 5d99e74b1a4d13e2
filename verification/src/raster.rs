use vstd::prelude::*;

verus! {

/// The pixel layout of a page handed to the TIFF encoder.
#[derive(Clone, Copy, Debug, PartialEq, Eq, Structural)]
pub enum ContentFormat {
    /// One 8-bit gray sample per pixel.
    Gray8,
    /// Three 8-bit samples (red, green, blue) per pixel.
    RGB8,
}

/// Why a raster page cannot be converted.
#[derive(Clone, Copy, Debug, PartialEq, Eq, Structural)]
pub enum RasterError {
    /// The CUPS page is not in chunky (interleaved) color order.
    UnsupportedColorOrder,
    /// The color space and bit depth are neither 8-bit gray nor 24-bit RGB.
    UnsupportedPixelData,
}

impl RasterError {
    /// The text that reports the error, before the details of the page.
    pub fn message(&self) -> (r: String)
        ensures
            r@ == (match *self {
                RasterError::UnsupportedColorOrder => "Unsupported color order"@,
                RasterError::UnsupportedPixelData => "Unsupported pixel data"@,
            }),
    {
        match *self {
            RasterError::UnsupportedColorOrder => String::from_str("Unsupported color order"),
            RasterError::UnsupportedPixelData => String::from_str("Unsupported pixel data"),
        }
    }
}

/// The color spaces of Apple raster (URF), in the order of their codes.
#[allow(non_camel_case_types)]
#[derive(Clone, Copy, Debug, PartialEq, Eq, Structural)]
pub enum UrfColorSpace {
    sGray,
    sRGB,
    CIELab,
    AdobeRGB,
    Gray,
    RGB,
    CMYK,
}

/// The color orders of CUPS raster.
#[derive(Clone, Copy, Debug, PartialEq, Eq, Structural)]
pub enum CupsColorOrder {
    Chunky,
    Banded,
    Planar,
}

/// The CUPS raster code of DeviceGray.
pub const CUPS_GRAY: u32 = 0;

/// The CUPS raster code of DeviceRGB.
pub const CUPS_RGB: u32 = 1;

/// The CUPS raster code of sGray.
pub const CUPS_SGRAY: u32 = 18;

/// The CUPS raster code of sRGB.
pub const CUPS_SRGB: u32 = 19;

/// The geometry and pixel layout of a raster page.
#[derive(Clone, Copy, Debug, PartialEq, Eq, Structural)]
pub struct RasterPage {
    pub width: u32,
    pub height: u32,
    pub dpi_x: u32,
    pub dpi_y: u32,
    pub format: ContentFormat,
}

/// The pixel layout of a URF page: 8-bit gray for (s)Gray at 8 bits per
/// pixel, 24-bit RGB for (s)RGB at 24 bits per pixel, none otherwise.
pub open spec fn spec_urf_format(color_space: UrfColorSpace, bits_per_pixel: u8) -> Option<ContentFormat> {
    if (color_space == UrfColorSpace::sGray || color_space == UrfColorSpace::Gray) && bits_per_pixel == 8 {
        Some(ContentFormat::Gray8)
    } else if (color_space == UrfColorSpace::sRGB || color_space == UrfColorSpace::RGB) && bits_per_pixel == 24 {
        Some(ContentFormat::RGB8)
    } else {
        None
    }
}

/// The pixel layout of a CUPS page: 8-bit gray for (s)Gray at 8 bits per
/// pixel, 24-bit RGB for (s)RGB at 24 bits per pixel, none otherwise.
pub open spec fn spec_cups_format(color_space: u32, bits_per_pixel: u32) -> Option<ContentFormat> {
    if (color_space == CUPS_SGRAY || color_space == CUPS_GRAY) && bits_per_pixel == 8 {
        Some(ContentFormat::Gray8)
    } else if (color_space == CUPS_SRGB || color_space == CUPS_RGB) && bits_per_pixel == 24 {
        Some(ContentFormat::RGB8)
    } else {
        None
    }
}

/// A URF page, which has one resolution for both directions; fails when its
/// pixels are neither 8-bit gray nor 24-bit RGB.
pub fn urf_page(
    width: u32,
    height: u32,
    dot_per_inch: u32,
    color_space: UrfColorSpace,
    bits_per_pixel: u8,
) -> (r: Result<RasterPage, RasterError>)
    ensures
        match spec_urf_format(color_space, bits_per_pixel) {
            Some(f) => r == Ok::<RasterPage, RasterError>(
                RasterPage { width, height, dpi_x: dot_per_inch, dpi_y: dot_per_inch, format: f },
            ),
            None => r == Err::<RasterPage, RasterError>(RasterError::UnsupportedPixelData),
        },
{
    let format = match (color_space, bits_per_pixel) {
        (UrfColorSpace::sGray, 8) | (UrfColorSpace::Gray, 8) => ContentFormat::Gray8,
        (UrfColorSpace::sRGB, 24) | (UrfColorSpace::RGB, 24) => ContentFormat::RGB8,
        _ => return Err(RasterError::UnsupportedPixelData),
    };
    Ok(RasterPage { width, height, dpi_x: dot_per_inch, dpi_y: dot_per_inch, format })
}

/// A CUPS page; fails when it is not in chunky color order, or, failing
/// that, when its pixels are neither 8-bit gray nor 24-bit RGB.
pub fn cups_page(
    width: u32,
    height: u32,
    cross_feed: u32,
    feed: u32,
    color_order: CupsColorOrder,
    color_space: u32,
    bits_per_pixel: u32,
) -> (r: Result<RasterPage, RasterError>)
    ensures
        color_order != CupsColorOrder::Chunky ==> r == Err::<RasterPage, RasterError>(
            RasterError::UnsupportedColorOrder,
        ),
        color_order == CupsColorOrder::Chunky ==> match spec_cups_format(color_space, bits_per_pixel) {
            Some(f) => r == Ok::<RasterPage, RasterError>(
                RasterPage { width, height, dpi_x: cross_feed, dpi_y: feed, format: f },
            ),
            None => r == Err::<RasterPage, RasterError>(RasterError::UnsupportedPixelData),
        },
{
    if color_order != CupsColorOrder::Chunky {
        return Err(RasterError::UnsupportedColorOrder);
    }
    let format = if (color_space == CUPS_SGRAY || color_space == CUPS_GRAY) && bits_per_pixel == 8 {
        ContentFormat::Gray8
    } else if (color_space == CUPS_SRGB || color_space == CUPS_RGB) && bits_per_pixel == 24 {
        ContentFormat::RGB8
    } else {
        return Err(RasterError::UnsupportedPixelData);
    };
    Ok(RasterPage { width, height, dpi_x: cross_feed, dpi_y: feed, format })
}

} // verus!
