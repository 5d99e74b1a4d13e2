use ipp_sharing_core::attr::media_size::{media_size_sys_to_ipp, MediaSize, MediaSizeTuple};
use ipp_sharing_core::attr::printer_resolution::{
    all_supported_resolution_by_win, get_resolution_by_ipp, PageResolution, Resolution,
};
use ipp_sharing_core::raster::{
    cups_page, urf_page, ContentFormat, CupsColorOrder, RasterError, RasterPage, UrfColorSpace,
    CUPS_GRAY, CUPS_RGB, CUPS_SGRAY, CUPS_SRGB,
};

#[test]
fn a4_in_hundredths_of_a_millimetre() {
    let size = media_size_sys_to_ipp(MediaSizeTuple { width_in_micron: 210000, height_in_micron: 297000 });
    assert_eq!(size, MediaSize { x_dimension: 21000, y_dimension: 29700 });
}

#[test]
fn media_size_rounds_halves_up() {
    let size = media_size_sys_to_ipp(MediaSizeTuple { width_in_micron: 4, height_in_micron: 5 });
    assert_eq!(size, MediaSize { x_dimension: 0, y_dimension: 1 });
    let size = media_size_sys_to_ipp(MediaSizeTuple { width_in_micron: 215904, height_in_micron: 279405 });
    assert_eq!(size, MediaSize { x_dimension: 21590, y_dimension: 27941 });
    let size = media_size_sys_to_ipp(MediaSizeTuple { width_in_micron: u32::MAX - 5, height_in_micron: 0 });
    assert_eq!(size, MediaSize { x_dimension: 429496729, y_dimension: 0 });
}

#[test]
fn resolutions_that_fit_ipp() {
    let packs = vec![
        PageResolution { dpi_x: 600, dpi_y: 600 },
        PageResolution { dpi_x: 0x8000_0000, dpi_y: 300 },
        PageResolution { dpi_x: 300, dpi_y: 150 },
    ];
    assert_eq!(
        all_supported_resolution_by_win(&packs),
        vec![Resolution::new_dpi(600, 600), Resolution::new_dpi(300, 150)]
    );
    assert_eq!(Resolution::new_dpi(300, 150), Resolution { cross_feed: 300, feed: 150, units: 3 });
}

#[test]
fn resolution_lookup() {
    let packs = vec![
        PageResolution { dpi_x: 600, dpi_y: 600 },
        PageResolution { dpi_x: 300, dpi_y: 150 },
        PageResolution { dpi_x: 300, dpi_y: 150 },
    ];
    assert_eq!(get_resolution_by_ipp(&packs, &Resolution::new_dpi(300, 150)), Some(1));
    assert_eq!(get_resolution_by_ipp(&packs, &Resolution::new_dpi(150, 300)), None);
    let dpcm = Resolution { cross_feed: 600, feed: 600, units: 4 };
    assert_eq!(get_resolution_by_ipp(&packs, &dpcm), None);
    assert_eq!(get_resolution_by_ipp(&Vec::new(), &Resolution::new_dpi(600, 600)), None);
}

#[test]
fn supported_resolutions_are_found_again() {
    let packs = vec![
        PageResolution { dpi_x: 1200, dpi_y: 600 },
        PageResolution { dpi_x: u32::MAX, dpi_y: 1 },
        PageResolution { dpi_x: 72, dpi_y: 72 },
    ];
    for r in all_supported_resolution_by_win(&packs) {
        let i = get_resolution_by_ipp(&packs, &r).unwrap();
        assert_eq!((packs[i].dpi_x as i32, packs[i].dpi_y as i32), (r.cross_feed, r.feed));
    }
}

#[test]
fn urf_pages() {
    assert_eq!(
        urf_page(100, 200, 300, UrfColorSpace::sGray, 8),
        Ok(RasterPage { width: 100, height: 200, dpi_x: 300, dpi_y: 300, format: ContentFormat::Gray8 })
    );
    assert_eq!(urf_page(1, 1, 600, UrfColorSpace::Gray, 8).unwrap().format, ContentFormat::Gray8);
    assert_eq!(urf_page(1, 1, 600, UrfColorSpace::sRGB, 24).unwrap().format, ContentFormat::RGB8);
    assert_eq!(urf_page(1, 1, 600, UrfColorSpace::RGB, 24).unwrap().format, ContentFormat::RGB8);
    assert_eq!(urf_page(1, 1, 600, UrfColorSpace::sRGB, 8), Err(RasterError::UnsupportedPixelData));
    assert_eq!(urf_page(1, 1, 600, UrfColorSpace::CMYK, 32), Err(RasterError::UnsupportedPixelData));
}

#[test]
fn cups_pages() {
    assert_eq!(
        cups_page(10, 20, 300, 600, CupsColorOrder::Chunky, CUPS_SRGB, 24),
        Ok(RasterPage { width: 10, height: 20, dpi_x: 300, dpi_y: 600, format: ContentFormat::RGB8 })
    );
    assert_eq!(cups_page(1, 1, 1, 1, CupsColorOrder::Chunky, CUPS_RGB, 24).unwrap().format, ContentFormat::RGB8);
    assert_eq!(cups_page(1, 1, 1, 1, CupsColorOrder::Chunky, CUPS_GRAY, 8).unwrap().format, ContentFormat::Gray8);
    assert_eq!(cups_page(1, 1, 1, 1, CupsColorOrder::Chunky, CUPS_SGRAY, 8).unwrap().format, ContentFormat::Gray8);
    assert_eq!(
        cups_page(1, 1, 1, 1, CupsColorOrder::Chunky, CUPS_GRAY, 16),
        Err(RasterError::UnsupportedPixelData)
    );
    assert_eq!(
        cups_page(1, 1, 1, 1, CupsColorOrder::Banded, CUPS_SGRAY, 8),
        Err(RasterError::UnsupportedColorOrder)
    );
    assert_eq!(
        cups_page(1, 1, 1, 1, CupsColorOrder::Planar, 6, 32),
        Err(RasterError::UnsupportedColorOrder)
    );
}

#[test]
fn raster_error_messages() {
    assert_eq!(RasterError::UnsupportedColorOrder.message(), "Unsupported color order");
    assert_eq!(RasterError::UnsupportedPixelData.message(), "Unsupported pixel data");
}
