use ipp_sharing_core::attr::media_name::PredefinedMediaName;
use ipp_sharing_core::attr::media_size::{MediaSize, MediaSizeTuple};
use ipp_sharing_core::attr::orientation::{IppPageOrientation, PredefinedPageOrientation};
use ipp_sharing_core::attr::print_color_mode::PredefinedPageOutputColor;
use ipp_sharing_core::attr::printer_resolution::{PageResolution, Resolution};
use ipp_sharing_core::attr::sides::PredefinedDuplexType;
use ipp_sharing_core::config::{default_addr, ConfigRoot, DeviceConfig, ServerConfig, TlsConfig};
use ipp_sharing_core::dnssd::{announced_types, host_name, service_type, strip_leading_slash, txt_record};
use ipp_sharing_core::handler::{choose_options, JobAttributes};
use ipp_sharing_core::ipp_service::{
    find_printer, format_basepath, printer_attributes, AttributeError, MediaSizeOption, MyIppService,
    PrinterCapabilities,
};
use ipp_sharing_core::print_options::{PrintOptions, TicketOption};
use ipp_sharing_core::server::{check_devices, route, Route, ServerError};
use ipp_sharing_core::urf::{urf_resolution_entry, urf_supported};

fn device() -> DeviceConfig {
    DeviceConfig {
        name: "Print To PDF (IppSharing)".to_string(),
        info: "Office printer".to_string(),
        target: "Microsoft Print to PDF".to_string(),
        uuid: [
            0xb2, 0x75, 0x99, 0xfd, 0x80, 0x0c, 0x40, 0x9e, 0xaf, 0xe9, 0x6d, 0xbb, 0xe1, 0x16, 0x89, 0xac,
        ],
        basepath: "/ipp/to_pdf".to_string(),
        dnssd: true,
        make_and_model: "IppSharing via ippper".to_string(),
    }
}

fn server(tls: bool) -> ServerConfig {
    ServerConfig {
        addr: default_addr(),
        host: None,
        tls: if tls {
            Some(TlsConfig { cert: "cert.pem".to_string(), key: "key.pem".to_string() })
        } else {
            None
        },
    }
}

fn media(name: Option<PredefinedMediaName>, w: u32, h: u32) -> MediaSizeOption {
    MediaSizeOption { name, size: MediaSizeTuple { width_in_micron: w, height_in_micron: h } }
}

fn capabilities() -> PrinterCapabilities {
    PrinterCapabilities {
        page_media_sizes: vec![
            media(Some(PredefinedMediaName::NorthAmericaLetter), 215900, 279400),
            media(None, 100000, 100000),
            media(Some(PredefinedMediaName::ISOA4), 210000, 297000),
            media(Some(PredefinedMediaName::BusinessCard), 89000, 51000),
        ],
        page_orientations: vec![Some(PredefinedPageOrientation::Portrait), Some(PredefinedPageOrientation::Landscape)],
        page_output_colors: vec![Some(PredefinedPageOutputColor::Color), Some(PredefinedPageOutputColor::Grayscale)],
        duplexes: vec![Some(PredefinedDuplexType::OneSided), Some(PredefinedDuplexType::TwoSidedLongEdge)],
        page_resolutions: vec![
            PageResolution { dpi_x: 600, dpi_y: 600 },
            PageResolution { dpi_x: 300, dpi_y: 300 },
            PageResolution { dpi_x: 600, dpi_y: 1200 },
            PageResolution { dpi_x: 300, dpi_y: 300 },
        ],
    }
}

fn plain_capabilities() -> PrinterCapabilities {
    PrinterCapabilities {
        page_media_sizes: vec![media(Some(PredefinedMediaName::ISOA5), 148000, 210000)],
        page_orientations: vec![None],
        page_output_colors: vec![Some(PredefinedPageOutputColor::Monochrome)],
        duplexes: vec![],
        page_resolutions: vec![],
    }
}

#[test]
fn dnssd_names() {
    assert_eq!(service_type("ipp"), "_ipp._tcp.local.");
    assert_eq!(service_type("ipps"), "_ipps._tcp.local.");
    assert_eq!(host_name("Office"), "Office.local.");
    assert_eq!(strip_leading_slash("/ipp/x"), "ipp/x");
    assert_eq!(strip_leading_slash("//x"), "/x");
    assert_eq!(strip_leading_slash("ipp"), "ipp");
    assert_eq!(strip_leading_slash(""), "");
}

#[test]
fn dnssd_txt_record() {
    let txt = txt_record(&device(), false);
    let expected: Vec<(String, String)> = vec![
        ("txtvers", "1"),
        ("qtotal", "1"),
        ("rp", "ipp/to_pdf"),
        ("ty", "IppSharing via ippper"),
        ("priority", "0"),
        ("pdl", "application/vnd.ms-xpsdocument,image/pwg-raster,image/urf"),
        ("note", ""),
        ("UUID", "b27599fd-800c-409e-afe9-6dbbe11689ac"),
    ]
    .into_iter()
    .map(|(k, v)| (k.to_string(), v.to_string()))
    .collect();
    assert_eq!(txt, expected);
    let with_pdf = txt_record(&device(), true);
    assert_eq!(with_pdf[5].1, "application/pdf,application/vnd.ms-xpsdocument,image/pwg-raster,image/urf");
}

#[test]
fn dnssd_announcements() {
    assert_eq!(announced_types(&device(), &server(false)), vec!["ipp".to_string()]);
    assert_eq!(announced_types(&device(), &server(true)), vec!["ipp".to_string(), "ipps".to_string()]);
    let mut quiet = device();
    quiet.dnssd = false;
    assert_eq!(announced_types(&quiet, &server(true)), Vec::<String>::new());
}

#[test]
fn attributes_of_a_color_printer() {
    let a = printer_attributes(&device(), &capabilities(), false).unwrap();
    assert_eq!(a.name, "Print To PDF (IppSharing)");
    assert_eq!(a.info, "Office printer");
    assert_eq!(a.make_and_model, "IppSharing via ippper");
    assert_eq!(a.document_format_default, "application/octet-stream");
    assert_eq!(
        a.document_format_supported,
        vec!["application/octet-stream", "application/vnd.ms-xpsdocument", "image/pwg-raster", "image/urf"]
    );
    assert_eq!(a.document_format_preferred.as_deref(), Some("application/vnd.ms-xpsdocument"));
    assert_eq!(a.uuid, device().uuid);
    assert_eq!(a.dnssd_name.as_deref(), Some("Print To PDF (IppSharing)"));
    let names: Vec<&str> = a.media_supported.iter().map(|m| m.name.as_str()).collect();
    assert_eq!(names, vec!["na_letter_8.5x11in", "iso_a4_210x297mm"]);
    assert_eq!(a.media_supported[0].size, MediaSize { x_dimension: 21590, y_dimension: 27940 });
    assert_eq!(a.media_supported[1].margins, (0, 0, 0, 0));
    assert_eq!(a.media_supported[1].source, "auto");
    let default = a.media_default.as_ref().unwrap();
    assert_eq!(default.name, "iso_a4_210x297mm");
    assert_eq!(default.size, MediaSize { x_dimension: 21000, y_dimension: 29700 });
    assert_eq!(
        a.media_col_supported,
        vec![
            "media-size",
            "media-top-margin",
            "media-right-margin",
            "media-bottom-margin",
            "media-left-margin",
            "media-source"
        ]
    );
    assert_eq!(a.orientation_supported, Some(vec![IppPageOrientation::Portrait, IppPageOrientation::Landscape]));
    assert!(a.color_supported);
    assert_eq!(a.print_color_mode_default.as_deref(), Some("grayscale"));
    assert_eq!(a.print_color_mode_supported, Some(vec!["color".to_string(), "grayscale".to_string()]));
    assert_eq!(a.sides_supported, vec!["one-sided", "two-sided-long-edge"]);
    assert_eq!(a.printer_resolution_default, Some(Resolution::new_dpi(600, 600)));
    let res = vec![
        Resolution::new_dpi(600, 600),
        Resolution::new_dpi(300, 300),
        Resolution::new_dpi(600, 1200),
        Resolution::new_dpi(300, 300),
    ];
    assert_eq!(a.printer_resolution_supported, Some(res.clone()));
    assert_eq!(a.urf_supported, vec!["V1.4", "CP1", "W8", "SRGB24", "RS300-600-1200", "DM1"]);
    assert_eq!(a.pwg_raster_document_resolution_supported, res);
    assert_eq!(a.pwg_raster_document_sheet_back, "normal");
    assert_eq!(a.pwg_raster_document_type_supported, vec!["sgray_8", "srgb_8"]);
}

#[test]
fn attributes_of_a_plain_printer() {
    let mut d = device();
    d.dnssd = false;
    let a = printer_attributes(&d, &plain_capabilities(), true).unwrap();
    assert_eq!(
        a.document_format_supported,
        vec!["application/octet-stream", "application/pdf", "application/vnd.ms-xpsdocument", "image/pwg-raster", "image/urf"]
    );
    assert_eq!(a.document_format_preferred.as_deref(), Some("application/pdf"));
    assert_eq!(a.dnssd_name, None);
    assert_eq!(a.media_default.as_ref().unwrap().name, "iso_a5_148x210mm");
    assert_eq!(a.orientation_supported, None);
    assert!(!a.color_supported);
    assert_eq!(a.print_color_mode_default.as_deref(), Some("monochrome"));
    assert_eq!(a.print_color_mode_supported, Some(vec!["monochrome".to_string()]));
    assert_eq!(a.sides_supported, vec!["one-sided"]);
    assert_eq!(a.printer_resolution_default, None);
    assert_eq!(a.printer_resolution_supported, None);
    assert_eq!(a.urf_supported, vec!["V1.4", "CP1", "W8", "RS", "DM1"]);
    assert!(a.pwg_raster_document_resolution_supported.is_empty());
    assert_eq!(a.pwg_raster_document_type_supported, vec!["sgray_8"]);
}

#[test]
fn attributes_without_any_capability() {
    let caps = PrinterCapabilities {
        page_media_sizes: vec![],
        page_orientations: vec![],
        page_output_colors: vec![],
        duplexes: vec![],
        page_resolutions: vec![],
    };
    let a = printer_attributes(&device(), &caps, false).unwrap();
    assert!(a.media_supported.is_empty());
    assert!(a.media_default.is_none());
    assert_eq!(a.print_color_mode_default, None);
    assert_eq!(a.print_color_mode_supported, None);
    assert_eq!(a.sides_supported, vec!["one-sided"]);
}

#[test]
fn attribute_errors_in_build_order() {
    let mut d = device();
    d.name = "n".repeat(256);
    d.info = "i".repeat(2000);
    assert_eq!(printer_attributes(&d, &capabilities(), false).unwrap_err(), AttributeError::NameTooLong);
    d.name = "n".repeat(255);
    assert_eq!(printer_attributes(&d, &capabilities(), false).unwrap_err(), AttributeError::InfoTooLong);
    d.info = "i".repeat(1023);
    d.make_and_model = "é".repeat(512);
    assert_eq!(printer_attributes(&d, &capabilities(), false).unwrap_err(), AttributeError::MakeAndModelTooLong);
    d.make_and_model = "m".repeat(1023);
    assert!(printer_attributes(&d, &capabilities(), false).is_ok());
    let mut caps = capabilities();
    caps.page_resolutions = (1000..1060).map(|x| PageResolution { dpi_x: x, dpi_y: x }).collect();
    assert_eq!(printer_attributes(&d, &caps, false).unwrap_err(), AttributeError::UrfSupportedTooLong);
}

#[test]
fn urf_resolutions_sorted_without_repeats() {
    let res = vec![
        Resolution::new_dpi(600, 300),
        Resolution::new_dpi(300, 300),
        Resolution::new_dpi(300, 600),
        Resolution::new_dpi(150, 150),
    ];
    assert_eq!(urf_resolution_entry(&res), "RS150-300-600");
    assert_eq!(urf_resolution_entry(&vec![]), "RS");
    assert_eq!(
        urf_supported(false, &res),
        Some(vec!["V1.4".to_string(), "CP1".to_string(), "W8".to_string(), "RS150-300-600".to_string(), "DM1".to_string()])
    );
    let many: Vec<Resolution> = (1000..1060).map(|x| Resolution::new_dpi(x, x)).collect();
    assert_eq!(urf_supported(true, &many), None);
}

#[test]
fn basepaths() {
    assert_eq!(format_basepath("/ipp/to_pdf"), "/ipp/to_pdf");
    assert_eq!(format_basepath("ipp/to_pdf/"), "/ipp/to_pdf");
    assert_eq!(format_basepath("/"), "/");
    assert_eq!(format_basepath(""), "/");
    assert_eq!(format_basepath("//x//"), "/x");
    assert_eq!(format_basepath("/a//"), "/a");
    assert_eq!(format_basepath("///"), "/");
    assert_eq!(format_basepath("/a/b/"), "/a/b");
}

#[test]
fn service_path_matching() {
    let service = MyIppService::new(7u8, "/ipp/to_pdf/");
    assert_eq!(*service.inner(), 7);
    assert!(service.matches("/ipp/to_pdf"));
    assert!(service.matches("/ipp/to_pdf/"));
    assert!(service.matches("/ipp/to_pdf/jobs/1"));
    assert!(!service.matches("/ipp/to_pdfx"));
    assert!(!service.matches("/ipp/to"));
    assert!(!service.matches("/"));
}

#[test]
fn request_routing() {
    let services = vec![MyIppService::new((), "/ipp/a"), MyIppService::new((), "/ipp/b"), MyIppService::new((), "ipp/a/")];
    assert_eq!(route(true, "/", &services), Route::Hello);
    assert_eq!(route(false, "/", &services), Route::NotFound);
    assert_eq!(route(true, "/ipp/a", &services), Route::Service(0));
    assert_eq!(route(false, "/ipp/b/job", &services), Route::Service(1));
    assert_eq!(route(false, "/ipp/c", &services), Route::NotFound);
    let root = vec![MyIppService::new((), "/")];
    assert_eq!(route(true, "/", &root), Route::Hello);
    assert_eq!(route(false, "/", &root), Route::Service(0));
}

#[test]
fn devices_are_required() {
    let mut config = ConfigRoot { server: server(false), devices: vec![] };
    assert_eq!(check_devices(&config), Err(ServerError::NoDevice));
    config.devices.push(device());
    assert_eq!(check_devices(&config), Ok(()));
}

#[test]
fn ticket_options_in_merge_order() {
    let options: PrintOptions<&str, u8, char, bool, i32> = PrintOptions {
        media: Some("a4"),
        orientation: None,
        output_color: Some('c'),
        job_duplex: Some(true),
        resolution: Some(600),
    };
    let parts = options.into_ticket_options();
    assert_eq!(parts.len(), 4);
    assert!(matches!(parts[0], TicketOption::Media("a4")));
    assert!(matches!(parts[1], TicketOption::OutputColor('c')));
    assert!(matches!(parts[2], TicketOption::JobDuplex(true)));
    assert!(matches!(parts[3], TicketOption::Resolution(600)));
    let none: PrintOptions<(), (), (), (), ()> =
        PrintOptions { media: None, orientation: None, output_color: None, job_duplex: None, resolution: None };
    assert!(none.into_ticket_options().is_empty());
}

fn job(media: Option<&str>, orientation: Option<IppPageOrientation>, sides: &str, color: &str, resolution: Option<Resolution>) -> JobAttributes {
    JobAttributes {
        media: media.map(|m| m.to_string()),
        orientation,
        sides: sides.to_string(),
        print_color_mode: color.to_string(),
        printer_resolution: resolution,
    }
}

#[test]
fn job_options_chosen() {
    let caps = capabilities();
    let chosen = choose_options(
        &caps,
        &job(Some("iso_a4_210x297mm"), Some(IppPageOrientation::Landscape), "two-sided-long-edge", "grayscale", Some(Resolution::new_dpi(300, 300))),
    );
    assert_eq!(chosen.media, Some(2));
    assert_eq!(chosen.orientation, Some(1));
    assert_eq!(chosen.output_color, Some(1));
    assert_eq!(chosen.job_duplex, Some(1));
    assert_eq!(chosen.resolution, Some(1));
}

#[test]
fn job_options_not_offered() {
    let caps = capabilities();
    let chosen = choose_options(
        &caps,
        &job(Some("iso_a5_148x210mm"), Some(IppPageOrientation::ReversePortrait), "two-sided-short-edge", "monochrome", Some(Resolution { cross_feed: 300, feed: 300, units: 4 })),
    );
    assert_eq!(chosen.media, None);
    assert_eq!(chosen.orientation, None);
    assert_eq!(chosen.output_color, None);
    assert_eq!(chosen.job_duplex, None);
    assert_eq!(chosen.resolution, None);
    let unknown = choose_options(&caps, &job(None, None, "sideways", "sepia", None));
    assert_eq!(unknown.media, None);
    assert_eq!(unknown.orientation, None);
    assert_eq!(unknown.output_color, None);
    assert_eq!(unknown.job_duplex, None);
    assert_eq!(unknown.resolution, None);
}

#[test]
fn printer_found_by_name() {
    let names = vec!["Fax".to_string(), "Microsoft Print to PDF".to_string(), "Microsoft Print to PDF".to_string()];
    assert_eq!(find_printer(&names, "Microsoft Print to PDF"), Some(1));
    assert_eq!(find_printer(&names, "Fax"), Some(0));
    assert_eq!(find_printer(&names, "OneNote"), None);
    assert_eq!(find_printer(&vec![], "Fax"), None);
}

#[test]
fn error_messages() {
    assert_eq!(ServerError::NoDevice.message(), "no printer device found in config file");
    assert_eq!(AttributeError::NameTooLong.message(), "printer name is too long for IPP");
    assert_eq!(AttributeError::InfoTooLong.message(), "printer info is too long for IPP");
    assert_eq!(AttributeError::MakeAndModelTooLong.message(), "printer make and model are too long for IPP");
    assert_eq!(AttributeError::UrfSupportedTooLong.message(), "printer resolutions are too many for IPP");
}

#[test]
fn service_trims_every_slash() {
    let service = MyIppService::new(1u8, "/a//");
    assert!(service.matches("/a"));
    assert!(service.matches("/a/job"));
    assert!(!service.matches("/ab"));
    let root = MyIppService::new(2u8, "///");
    assert!(root.matches("/"));
}
