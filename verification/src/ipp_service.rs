use vstd::prelude::*;
use crate::attr::ipp_sys_predefined_map::{codes_of, PredefinedCode};
use crate::attr::media_name::{common_media_relation, CommonMediaNameMap, PredefinedMediaName};
use crate::attr::media_size::{
    media_size_sys_to_ipp, spec_media_size_sys_to_ipp, MediaSize, MediaSizeTuple,
};
use crate::attr::orientation::{
    orientation_relation, IppPageOrientation, OrientationMap, PredefinedPageOrientation,
};
use crate::attr::pair_relation::{is_first_position, left_of, lefts_of_rights};
use crate::attr::print_color_mode::{print_color_relation, PredefinedPageOutputColor, PrintColorMap};
use crate::attr::printer_resolution::{
    all_supported_resolution_by_win, dpi_resolutions, PageResolution, Resolution,
};
use crate::attr::sides::{sides_relation, JobSidesMap, PredefinedDuplexType};
use crate::config::DeviceConfig;
use crate::ipp_values::{
    fits_keyword, fits_text, fitting_keywords, keep_fitting_keywords, keyword_accepted, text_accepted,
};
use crate::urf::{rs_entry, spec_urf_supported, urf_supported};

verus! {

/// A media size a printer offers: its print-schema name, if it has one,
/// and its dimensions.
#[derive(Clone, Copy, Debug)]
pub struct MediaSizeOption {
    pub name: Option<PredefinedMediaName>,
    pub size: MediaSizeTuple,
}

/// What a Windows printer offers, as its print capabilities list it.
#[derive(Clone, Debug)]
pub struct PrinterCapabilities {
    pub page_media_sizes: Vec<MediaSizeOption>,
    pub page_orientations: Vec<Option<PredefinedPageOrientation>>,
    pub page_output_colors: Vec<Option<PredefinedPageOutputColor>>,
    pub duplexes: Vec<Option<PredefinedDuplexType>>,
    pub page_resolutions: Vec<PageResolution>,
}

/// An IPP `media-col` entry: media keyword, size, margins (top, right,
/// bottom, left) and source.
#[derive(Debug)]
pub struct MediaInfo {
    pub name: String,
    pub size: MediaSize,
    pub margins: (i32, i32, i32, i32),
    pub source: String,
}

/// The view of a `media-col` entry.
pub type MediaInfoView = (Seq<char>, MediaSize, (i32, i32, i32, i32), Seq<char>);

impl View for MediaInfo {
    type V = MediaInfoView;

    open spec fn view(&self) -> MediaInfoView {
        (self.name@, self.size, self.margins, self.source@)
    }
}

impl MediaInfo {
    /// A copy of the entry.
    pub fn copy(&self) -> (r: MediaInfo)
        ensures
            r@ == self@,
    {
        MediaInfo {
            name: self.name.clone(),
            size: self.size,
            margins: self.margins,
            source: self.source.clone(),
        }
    }
}

/// The attributes a shared printer advertises over IPP.
#[derive(Debug)]
pub struct PrinterAttributes {
    pub name: String,
    pub info: String,
    pub make_and_model: String,
    pub document_format_default: String,
    pub document_format_supported: Vec<String>,
    pub document_format_preferred: Option<String>,
    pub uuid: [u8; 16],
    /// `None` when the printer is not announced over DNS-SD.
    pub dnssd_name: Option<String>,
    pub media_supported: Vec<MediaInfo>,
    /// `None` leaves the IPP service's own default.
    pub media_default: Option<MediaInfo>,
    pub media_col_supported: Vec<String>,
    /// `None` leaves the IPP service's own default.
    pub orientation_supported: Option<Vec<IppPageOrientation>>,
    pub color_supported: bool,
    /// `None` leaves the IPP service's own default.
    pub print_color_mode_default: Option<String>,
    /// `None` leaves the IPP service's own default.
    pub print_color_mode_supported: Option<Vec<String>>,
    pub sides_supported: Vec<String>,
    /// `None` leaves the IPP service's own default.
    pub printer_resolution_default: Option<Resolution>,
    /// `None` leaves the IPP service's own default.
    pub printer_resolution_supported: Option<Vec<Resolution>>,
    pub urf_supported: Vec<String>,
    pub pwg_raster_document_resolution_supported: Vec<Resolution>,
    pub pwg_raster_document_sheet_back: String,
    pub pwg_raster_document_type_supported: Vec<String>,
}

/// Why a printer's attributes cannot be advertised.
#[derive(Clone, Copy, Debug, PartialEq, Eq, Structural)]
pub enum AttributeError {
    /// The printer's name does not fit an IPP name (255 bytes).
    NameTooLong,
    /// The printer's description does not fit an IPP text (1023 bytes).
    InfoTooLong,
    /// The printer's make and model do not fit an IPP text (1023 bytes).
    MakeAndModelTooLong,
    /// The printer's resolutions do not fit an IPP keyword (255 bytes).
    UrfSupportedTooLong,
}

impl AttributeError {
    /// The text that reports the error.
    pub fn message(&self) -> (r: String)
        ensures
            r@ == (match *self {
                AttributeError::NameTooLong => "printer name is too long for IPP"@,
                AttributeError::InfoTooLong => "printer info is too long for IPP"@,
                AttributeError::MakeAndModelTooLong => "printer make and model are too long for IPP"@,
                AttributeError::UrfSupportedTooLong => "printer resolutions are too many for IPP"@,
            }),
    {
        match *self {
            AttributeError::NameTooLong => String::from_str("printer name is too long for IPP"),
            AttributeError::InfoTooLong => String::from_str("printer info is too long for IPP"),
            AttributeError::MakeAndModelTooLong => String::from_str("printer make and model are too long for IPP"),
            AttributeError::UrfSupportedTooLong => String::from_str("printer resolutions are too many for IPP"),
        }
    }
}

/// The views of strings.
pub open spec fn string_views(v: Seq<String>) -> Seq<Seq<char>> {
    v.map_values(|s: String| s@)
}

/// The views of optional strings.
pub open spec fn opt_view(s: Option<String>) -> Option<Seq<char>> {
    match s {
        Some(v) => Some(v@),
        None => None,
    }
}

/// The document formats a printer accepts, in order: raw data first, then
/// PDF (when supported), XPS, PWG raster and URF.
pub open spec fn spec_document_formats(pdf_supported: bool) -> Seq<Seq<char>> {
    seq!["application/octet-stream"@] + (if pdf_supported {
        seq!["application/pdf"@]
    } else {
        Seq::empty()
    }) + seq!["application/vnd.ms-xpsdocument"@, "image/pwg-raster"@, "image/urf"@]
}

/// The `media-col` entry of a media size: its keyword, its size, no
/// margins and the automatic source; `None` when the size has no
/// print-schema name, the name no keyword, or the keyword does not fit IPP.
pub open spec fn spec_media_entry(option: MediaSizeOption) -> Option<MediaInfoView> {
    match option.name {
        Some(n) => match left_of(common_media_relation(), n.spec_code()) {
            Some(k) => if fits_keyword(k) {
                Some((k, spec_media_size_sys_to_ipp(option.size), (0i32, 0i32, 0i32, 0i32), "auto"@))
            } else {
                None
            },
            None => None,
        },
        None => None,
    }
}

/// The `media-col` entries of the media sizes that have one, in order.
pub open spec fn spec_media_supported(options: Seq<MediaSizeOption>) -> Seq<MediaInfoView>
    decreases options.len(),
{
    if options.len() == 0 {
        Seq::empty()
    } else {
        match spec_media_entry(options.last()) {
            Some(e) => spec_media_supported(options.drop_last()).push(e),
            None => spec_media_supported(options.drop_last()),
        }
    }
}

/// The first entry with the media keyword `name`.
pub open spec fn first_named(entries: Seq<MediaInfoView>, name: Seq<char>) -> Option<MediaInfoView>
    decreases entries.len(),
{
    if entries.len() == 0 {
        None
    } else if entries[0].0 == name {
        Some(entries[0])
    } else {
        first_named(entries.drop_first(), name)
    }
}

/// The default media: ISO A4 when offered, else the first entry.
pub open spec fn spec_media_default(entries: Seq<MediaInfoView>) -> Option<MediaInfoView> {
    match first_named(entries, "iso_a4_210x297mm"@) {
        Some(e) => Some(e),
        None => if entries.len() > 0 {
            Some(entries[0])
        } else {
            None
        },
    }
}

/// The `media-col` member attributes a printer supports.
pub open spec fn spec_media_col_supported() -> Seq<Seq<char>> {
    seq![
        "media-size"@,
        "media-top-margin"@,
        "media-right-margin"@,
        "media-bottom-margin"@,
        "media-left-margin"@,
        "media-source"@,
    ]
}

/// The IPP enum values of the orientations a printer offers.
pub open spec fn spec_orientation_values(caps: PrinterCapabilities) -> Seq<i32> {
    lefts_of_rights(orientation_relation(), codes_of(caps.page_orientations@))
}

/// The `print-color-mode` keywords of the output colors a printer offers.
pub open spec fn spec_color_modes(caps: PrinterCapabilities) -> Seq<Seq<char>> {
    fitting_keywords(lefts_of_rights(print_color_relation(), codes_of(caps.page_output_colors@)))
}

/// The default color mode: grayscale when offered, else the first mode.
pub open spec fn spec_color_mode_default(modes: Seq<Seq<char>>) -> Option<Seq<char>> {
    if modes.contains("grayscale"@) {
        Some("grayscale"@)
    } else if modes.len() > 0 {
        Some(modes[0])
    } else {
        None
    }
}

/// The `sides` keywords of the duplex types a printer offers; one-sided
/// when it offers none.
pub open spec fn spec_sides(caps: PrinterCapabilities) -> Seq<Seq<char>> {
    let s = fitting_keywords(lefts_of_rights(sides_relation(), codes_of(caps.duplexes@)));
    if s.len() == 0 {
        seq!["one-sided"@]
    } else {
        s
    }
}

/// The resolutions a printer advertises.
pub open spec fn spec_resolutions(caps: PrinterCapabilities) -> Seq<Resolution> {
    dpi_resolutions(caps.page_resolutions@)
}

/// The PWG raster types a printer accepts: 8-bit sGray, and 8-bit sRGB
/// when it prints in color.
pub open spec fn spec_pwg_raster_types(color: bool) -> Seq<Seq<char>> {
    seq!["sgray_8"@] + (if color {
        seq!["srgb_8"@]
    } else {
        Seq::empty()
    })
}

/// The first reason, in the order the attributes are built, why the
/// printer's attributes cannot be advertised.
pub open spec fn spec_attribute_error(device: DeviceConfig, caps: PrinterCapabilities) -> Option<AttributeError> {
    if !fits_keyword(device.name@) {
        Some(AttributeError::NameTooLong)
    } else if !fits_text(device.info@) {
        Some(AttributeError::InfoTooLong)
    } else if !fits_text(device.make_and_model@) {
        Some(AttributeError::MakeAndModelTooLong)
    } else if !fits_keyword(rs_entry(spec_resolutions(caps))) {
        Some(AttributeError::UrfSupportedTooLong)
    } else {
        None
    }
}

/// Each attribute is the one the printer's configuration and capabilities
/// call for.
pub open spec fn attributes_as_planned(
    a: PrinterAttributes,
    device: DeviceConfig,
    caps: PrinterCapabilities,
    pdf_supported: bool,
) -> bool {
    let formats = spec_document_formats(pdf_supported);
    let media = spec_media_supported(caps.page_media_sizes@);
    let orientations = spec_orientation_values(caps);
    let modes = spec_color_modes(caps);
    let color = modes.contains("color"@);
    let res = spec_resolutions(caps);
    &&& a.name@ == device.name@
    &&& a.info@ == device.info@
    &&& a.make_and_model@ == device.make_and_model@
    &&& a.document_format_default@ == formats[0]
    &&& string_views(a.document_format_supported@) == formats
    &&& opt_view(a.document_format_preferred) == Some(formats[1])
    &&& a.uuid == device.uuid
    &&& opt_view(a.dnssd_name) == (if device.dnssd {
        Some(device.name@)
    } else {
        None
    })
    &&& a.media_supported@.map_values(|m: MediaInfo| m@) == media
    &&& match a.media_default {
        Some(m) => spec_media_default(media) == Some(m@),
        None => spec_media_default(media) is None,
    }
    &&& string_views(a.media_col_supported@) == spec_media_col_supported()
    &&& match a.orientation_supported {
        Some(v) => orientations.len() > 0 && v@.map_values(|o: IppPageOrientation| o.spec_value())
            == orientations,
        None => orientations.len() == 0,
    }
    &&& a.color_supported == color
    &&& opt_view(a.print_color_mode_default) == spec_color_mode_default(modes)
    &&& match a.print_color_mode_supported {
        Some(v) => modes.len() > 0 && string_views(v@) == modes,
        None => modes.len() == 0,
    }
    &&& string_views(a.sides_supported@) == spec_sides(caps)
    &&& a.printer_resolution_default == (if res.len() > 0 {
        Some(res[0])
    } else {
        None
    })
    &&& match a.printer_resolution_supported {
        Some(v) => res.len() > 0 && v@ == res,
        None => res.len() == 0,
    }
    &&& string_views(a.urf_supported@) == spec_urf_supported(color, res)
    &&& a.pwg_raster_document_resolution_supported@ == res
    &&& a.pwg_raster_document_sheet_back@ == "normal"@
    &&& string_views(a.pwg_raster_document_type_supported@) == spec_pwg_raster_types(color)
}

/// Each default a printer advertises is among the values it advertises as
/// supported, a printer offers at least one side, and it advertises 24-bit
/// sRGB URF and 8-bit sRGB PWG raster exactly when it prints in color.
pub proof fn lemma_defaults_are_supported(
    a: PrinterAttributes,
    device: DeviceConfig,
    caps: PrinterCapabilities,
    pdf_supported: bool,
)
    requires
        attributes_as_planned(a, device, caps, pdf_supported),
    ensures
        string_views(a.document_format_supported@).contains(a.document_format_default@),
        a.document_format_preferred matches Some(p) ==> string_views(a.document_format_supported@).contains(p@),
        a.media_default matches Some(m) ==> a.media_supported@.map_values(|m: MediaInfo| m@).contains(m@),
        a.print_color_mode_default matches Some(d) ==> (a.print_color_mode_supported matches Some(v)
            && string_views(v@).contains(d@)),
        a.printer_resolution_default matches Some(d) ==> (a.printer_resolution_supported matches Some(v)
            && v@.contains(d)),
        a.sides_supported@.len() > 0,
        a.color_supported <==> string_views(a.urf_supported@).contains("SRGB24"@),
        a.color_supported <==> string_views(a.pwg_raster_document_type_supported@).contains("srgb_8"@),
{
    let formats = spec_document_formats(pdf_supported);
    assert(string_views(a.sides_supported@).len() == a.sides_supported@.len());
    assert(formats[0] == "application/octet-stream"@);
    assert(string_views(a.document_format_supported@)[0] == formats[0]);
    assert(string_views(a.document_format_supported@)[1] == formats[1]);
    let media = spec_media_supported(caps.page_media_sizes@);
    if let Some(m) = a.media_default {
        lemma_media_default_within(media);
    }
    let modes = spec_color_modes(caps);
    if let Some(d) = a.print_color_mode_default {
        if !modes.contains("grayscale"@) {
            assert(modes[0] == d@);
        }
    }
    let res = spec_resolutions(caps);
    if let Some(d) = a.printer_resolution_default {
        assert(res[0] == d);
    }
    let urf = spec_urf_supported(a.color_supported, res);
    reveal_strlit("SRGB24");
    reveal_strlit("V1.4");
    reveal_strlit("CP1");
    reveal_strlit("W8");
    reveal_strlit("DM1");
    reveal_strlit("RS");
    if a.color_supported {
        assert(urf[3] == "SRGB24"@);
    } else {
        assert forall|i: int| 0 <= i < urf.len() implies urf[i] != "SRGB24"@ by {
            if i == 3 {
                let rs = rs_entry(res);
                assert(urf[i] == rs);
                assert(rs[0] == "RS"@[0]);
                assert(rs[0] != "SRGB24"@[0]);
            } else if i == 0 {
                assert(urf[i].len() != "SRGB24"@.len());
            } else if i == 1 {
                assert(urf[i].len() != "SRGB24"@.len());
            } else if i == 2 {
                assert(urf[i].len() != "SRGB24"@.len());
            } else {
                assert(urf[i].len() != "SRGB24"@.len());
            }
        }
    }
    let pwg = spec_pwg_raster_types(a.color_supported);
    reveal_strlit("srgb_8");
    reveal_strlit("sgray_8");
    if a.color_supported {
        assert(pwg[1] == "srgb_8"@);
    } else {
        assert(pwg[0] != "srgb_8"@) by {
            assert(pwg[0][2] != "srgb_8"@[2]);
        }
    }
}

/// The default media, if any, is one of the entries.
proof fn lemma_media_default_within(entries: Seq<MediaInfoView>)
    ensures
        spec_media_default(entries) matches Some(e) ==> entries.contains(e),
{
    lemma_first_named_within(entries, "iso_a4_210x297mm"@);
    if entries.len() > 0 {
        assert(entries.contains(entries[0]));
    }
}

/// The default media is the first ISO A4 entry when there is one, else the
/// first entry, and none when there are no entries.
pub proof fn lemma_media_default_choice(entries: Seq<MediaInfoView>)
    ensures
        entries.len() == 0 ==> spec_media_default(entries) is None,
        entries.len() > 0 && (forall|i: int| 0 <= i < entries.len() ==> (#[trigger] entries[i]).0 != "iso_a4_210x297mm"@)
            ==> spec_media_default(entries) == Some(entries[0]),
        forall|i: int|
            0 <= i < entries.len() && (#[trigger] entries[i]).0 == "iso_a4_210x297mm"@
                && (forall|j: int| 0 <= j < i ==> (#[trigger] entries[j]).0 != "iso_a4_210x297mm"@)
                ==> spec_media_default(entries) == Some(entries[i]),
{
    lemma_first_named_first(entries, "iso_a4_210x297mm"@);
}

/// `first_named` gives the first entry with the name, and nothing when no
/// entry has it.
proof fn lemma_first_named_first(entries: Seq<MediaInfoView>, name: Seq<char>)
    ensures
        (forall|i: int| 0 <= i < entries.len() ==> (#[trigger] entries[i]).0 != name)
            ==> first_named(entries, name) is None,
        forall|i: int|
            0 <= i < entries.len() && (#[trigger] entries[i]).0 == name
                && (forall|j: int| 0 <= j < i ==> (#[trigger] entries[j]).0 != name)
                ==> first_named(entries, name) == Some(entries[i]),
    decreases entries.len(),
{
    if entries.len() > 0 {
        let rest = entries.drop_first();
        lemma_first_named_first(rest, name);
        if entries[0].0 != name {
            assert forall|i: int|
                0 <= i < entries.len() && (#[trigger] entries[i]).0 == name
                    && (forall|j: int| 0 <= j < i ==> (#[trigger] entries[j]).0 != name)
                    implies first_named(entries, name) == Some(entries[i]) by {
                assert(i > 0);
                assert(rest[i - 1] == entries[i]);
                assert forall|j: int| 0 <= j < i - 1 implies (#[trigger] rest[j]).0 != name by {
                    assert(rest[j] == entries[j + 1]);
                }
            }
            if forall|i: int| 0 <= i < entries.len() ==> (#[trigger] entries[i]).0 != name {
                assert forall|i: int| 0 <= i < rest.len() implies (#[trigger] rest[i]).0 != name by {
                    assert(rest[i] == entries[i + 1]);
                }
            }
        } else {
            assert forall|i: int|
                0 <= i < entries.len() && (#[trigger] entries[i]).0 == name
                    && (forall|j: int| 0 <= j < i ==> (#[trigger] entries[j]).0 != name)
                    implies first_named(entries, name) == Some(entries[i]) by {
                if i > 0 {
                    assert(entries[0].0 != name);
                }
            }
        }
    }
}

/// The first entry with a name, if any, is one of the entries.
proof fn lemma_first_named_within(entries: Seq<MediaInfoView>, name: Seq<char>)
    ensures
        first_named(entries, name) matches Some(e) ==> entries.contains(e),
    decreases entries.len(),
{
    if entries.len() > 0 {
        if entries[0].0 == name {
            assert(entries.contains(entries[0]));
        } else {
            lemma_first_named_within(entries.drop_first(), name);
            if let Some(e) = first_named(entries.drop_first(), name) {
                let k = choose|k: int| 0 <= k < entries.drop_first().len() && entries.drop_first()[k] == e;
                assert(entries[k + 1] == e);
            }
        }
    }
}

/// The position of the first printer whose name is `target`; `None` when
/// no printer has that name.
pub fn find_printer(names: &Vec<String>, target: &str) -> (r: Option<usize>)
    ensures
        is_first_position(string_views(names@), target@, r),
{
    let t = String::from_str(target);
    let mut i: usize = 0;
    while i < names.len()
        invariant
            i <= names.len(),
            t@ == target@,
            forall|j: int| 0 <= j < i ==> string_views(names@)[j] != target@,
        decreases names.len() - i,
    {
        if names[i] == t {
            return Some(i);
        }
        i += 1;
    }
    None
}

/// Every media size can be rounded to hundredths of a millimetre without
/// overflow.
pub open spec fn media_sizes_in_range(caps: PrinterCapabilities) -> bool {
    forall|i: int|
        0 <= i < caps.page_media_sizes@.len() ==> {
            &&& #[trigger] caps.page_media_sizes@[i].size.width_in_micron + 5 <= u32::MAX
            &&& caps.page_media_sizes@[i].size.height_in_micron + 5 <= u32::MAX
        }
}

/// The document formats a printer accepts, in order.
fn document_formats(pdf_supported: bool) -> (r: Vec<String>)
    ensures
        string_views(r@) == spec_document_formats(pdf_supported),
{
    let mut r: Vec<String> = Vec::new();
    r.push(String::from_str("application/octet-stream"));
    if pdf_supported {
        r.push(String::from_str("application/pdf"));
    }
    r.push(String::from_str("application/vnd.ms-xpsdocument"));
    r.push(String::from_str("image/pwg-raster"));
    r.push(String::from_str("image/urf"));
    assert(string_views(r@) =~= spec_document_formats(pdf_supported));
    r
}

/// The `media-col` entries of the media sizes that have one, in order.
fn media_supported(map: &CommonMediaNameMap, options: &Vec<MediaSizeOption>) -> (r: Vec<MediaInfo>)
    requires
        forall|i: int|
            0 <= i < options@.len() ==> {
                &&& #[trigger] options@[i].size.width_in_micron + 5 <= u32::MAX
                &&& options@[i].size.height_in_micron + 5 <= u32::MAX
            },
    ensures
        r@.map_values(|m: MediaInfo| m@) == spec_media_supported(options@),
{
    let mut r: Vec<MediaInfo> = Vec::new();
    let mut i: usize = 0;
    while i < options.len()
        invariant
            i <= options.len(),
            forall|i: int|
                0 <= i < options@.len() ==> {
                    &&& #[trigger] options@[i].size.width_in_micron + 5 <= u32::MAX
                    &&& options@[i].size.height_in_micron + 5 <= u32::MAX
                },
            r@.map_values(|m: MediaInfo| m@) == spec_media_supported(options@.take(i as int)),
        decreases options.len() - i,
    {
        assert(options@.take(i + 1).drop_last() =~= options@.take(i as int));
        let option = options[i];
        let size = media_size_sys_to_ipp(option.size);
        if let Some(name) = option.name {
            if let Some(key) = map.sys_to_ipp(name) {
                if keyword_accepted(key) {
                    let ghost before = r@;
                    let entry = MediaInfo {
                        name: String::from_str(key),
                        size,
                        margins: (0, 0, 0, 0),
                        source: String::from_str("auto"),
                    };
                    r.push(entry);
                    assert(r@.map_values(|m: MediaInfo| m@) =~= before.map_values(|m: MediaInfo| m@).push(entry@));
                }
            }
        }
        i += 1;
    }
    assert(options@.take(options.len() as int) =~= options@);
    r
}

/// The default media: ISO A4 when offered, else the first entry.
fn media_default(media: &Vec<MediaInfo>) -> (r: Option<MediaInfo>)
    ensures
        match r {
            Some(m) => spec_media_default(media@.map_values(|m: MediaInfo| m@)) == Some(m@),
            None => spec_media_default(media@.map_values(|m: MediaInfo| m@)) is None,
        },
{
    let ghost entries = media@.map_values(|m: MediaInfo| m@);
    let a4 = String::from_str("iso_a4_210x297mm");
    let mut i: usize = 0;
    assert(entries.skip(0) =~= entries);
    while i < media.len()
        invariant
            i <= media.len(),
            entries == media@.map_values(|m: MediaInfo| m@),
            a4@ == "iso_a4_210x297mm"@,
            first_named(entries, "iso_a4_210x297mm"@) == first_named(entries.skip(i as int), "iso_a4_210x297mm"@),
        decreases media.len() - i,
    {
        assert(entries.skip(i as int).drop_first() =~= entries.skip(i + 1));
        if media[i].name == a4 {
            return Some(media[i].copy());
        }
        i += 1;
    }
    if media.len() > 0 {
        Some(media[0].copy())
    } else {
        None
    }
}

/// The `media-col` member attributes a printer supports.
fn media_col_supported() -> (r: Vec<String>)
    ensures
        string_views(r@) == spec_media_col_supported(),
{
    let mut r: Vec<String> = Vec::new();
    r.push(String::from_str("media-size"));
    r.push(String::from_str("media-top-margin"));
    r.push(String::from_str("media-right-margin"));
    r.push(String::from_str("media-bottom-margin"));
    r.push(String::from_str("media-left-margin"));
    r.push(String::from_str("media-source"));
    assert(string_views(r@) =~= spec_media_col_supported());
    r
}

/// Whether the strings hold `target`.
fn holds(v: &Vec<String>, target: &str) -> (r: bool)
    ensures
        r == string_views(v@).contains(target@),
{
    let t = String::from_str(target);
    let mut i: usize = 0;
    while i < v.len()
        invariant
            i <= v.len(),
            t@ == target@,
            forall|j: int| 0 <= j < i ==> v@[j]@ != target@,
        decreases v.len() - i,
    {
        if v[i] == t {
            assert(string_views(v@)[i as int] == target@);
            return true;
        }
        i += 1;
    }
    assert(!string_views(v@).contains(target@)) by {
        if string_views(v@).contains(target@) {
            let k = choose|k: int| 0 <= k < string_views(v@).len() && string_views(v@)[k] == target@;
            assert(v@[k]@ == target@);
        }
    }
    false
}

/// A copy of the strings.
fn copy_strings(v: &Vec<String>) -> (r: Vec<String>)
    ensures
        string_views(r@) == string_views(v@),
{
    let mut r: Vec<String> = Vec::new();
    let mut i: usize = 0;
    while i < v.len()
        invariant
            i <= v.len(),
            string_views(r@) == string_views(v@).take(i as int),
        decreases v.len() - i,
    {
        let ghost before = r@;
        r.push(v[i].clone());
        assert(string_views(r@) =~= string_views(before).push(v@[i as int]@));
        assert(string_views(v@).take(i + 1) =~= string_views(v@).take(i as int).push(v@[i as int]@));
        i += 1;
    }
    assert(string_views(v@).take(v.len() as int) =~= string_views(v@));
    r
}

/// Plans the IPP attributes of a shared printer from its configuration and
/// its capabilities; `pdf_supported` says whether PDF documents are
/// accepted. Fails, with the first reason in build order, when a value does
/// not fit its IPP type.
pub fn printer_attributes(device: &DeviceConfig, caps: &PrinterCapabilities, pdf_supported: bool) -> (r: Result<PrinterAttributes, AttributeError>)
    requires
        media_sizes_in_range(*caps),
    ensures
        match spec_attribute_error(*device, *caps) {
            Some(e) => r == Err::<PrinterAttributes, AttributeError>(e),
            None => r matches Ok(a) && attributes_as_planned(a, *device, *caps, pdf_supported),
        },
{
    let formats = document_formats(pdf_supported);
    assert(string_views(formats@).len() == formats@.len());
    assert(spec_document_formats(pdf_supported).len() >= 4);
    let document_format_default = formats[0].clone();
    let document_format_preferred = if formats.len() > 1 {
        Some(formats[1].clone())
    } else {
        None
    };
    if !keyword_accepted(device.name.as_str()) {
        return Err(AttributeError::NameTooLong);
    }
    if !text_accepted(device.info.as_str()) {
        return Err(AttributeError::InfoTooLong);
    }
    if !text_accepted(device.make_and_model.as_str()) {
        return Err(AttributeError::MakeAndModelTooLong);
    }
    let dnssd_name = if device.dnssd {
        Some(device.name.clone())
    } else {
        None
    };

    let media_map = CommonMediaNameMap::new();
    let media = media_supported(&media_map, &caps.page_media_sizes);
    let media_default = media_default(&media);

    let orientation_values = OrientationMap::new().all_supported_by_win(&caps.page_orientations);
    let orientation_supported = if orientation_values.len() > 0 {
        Some(orientation_values)
    } else {
        None
    };

    let color_keys = PrintColorMap::new().all_supported_by_win(&caps.page_output_colors);
    let modes = keep_fitting_keywords(&color_keys);
    let color = holds(&modes, "color");
    let (print_color_mode_default, print_color_mode_supported) = if holds(&modes, "grayscale") {
        (Some(String::from_str("grayscale")), Some(copy_strings(&modes)))
    } else if modes.len() > 0 {
        (Some(modes[0].clone()), Some(copy_strings(&modes)))
    } else {
        (None, None)
    };

    let side_keys = JobSidesMap::new().all_supported_by_win(&caps.duplexes);
    let mut sides_supported = keep_fitting_keywords(&side_keys);
    if sides_supported.len() == 0 {
        sides_supported.push(String::from_str("one-sided"));
        assert(string_views(sides_supported@) =~= seq!["one-sided"@]);
    }

    let resolutions = all_supported_resolution_by_win(&caps.page_resolutions);
    let (printer_resolution_default, printer_resolution_supported) = if resolutions.len() > 0 {
        (Some(resolutions[0]), Some(resolutions.clone()))
    } else {
        (None, None)
    };

    let urf = match urf_supported(color, &resolutions) {
        Some(v) => v,
        None => return Err(AttributeError::UrfSupportedTooLong),
    };

    let mut pwg_types: Vec<String> = Vec::new();
    pwg_types.push(String::from_str("sgray_8"));
    if color {
        pwg_types.push(String::from_str("srgb_8"));
    }
    assert(string_views(pwg_types@) =~= spec_pwg_raster_types(color));

    Ok(PrinterAttributes {
        name: device.name.clone(),
        info: device.info.clone(),
        make_and_model: device.make_and_model.clone(),
        document_format_default,
        document_format_supported: formats,
        document_format_preferred,
        uuid: device.uuid,
        dnssd_name,
        media_supported: media,
        media_default,
        media_col_supported: media_col_supported(),
        orientation_supported,
        color_supported: color,
        print_color_mode_default,
        print_color_mode_supported,
        sides_supported,
        printer_resolution_default,
        printer_resolution_supported,
        urf_supported: urf,
        pwg_raster_document_resolution_supported: resolutions,
        pwg_raster_document_sheet_back: String::from_str("normal"),
        pwg_raster_document_type_supported: pwg_types,
    })
}

/// The text with every leading `/` removed.
pub open spec fn without_leading_slashes(s: Seq<char>) -> Seq<char>
    decreases s.len(),
{
    if s.len() > 0 && s[0] == '/' {
        without_leading_slashes(s.drop_first())
    } else {
        s
    }
}

/// The text with every trailing `/` removed.
pub open spec fn without_trailing_slashes(s: Seq<char>) -> Seq<char>
    decreases s.len(),
{
    if s.len() > 0 && s.last() == '/' {
        without_trailing_slashes(s.drop_last())
    } else {
        s
    }
}

/// The text with every leading and every trailing `/` removed.
pub open spec fn trimmed_slashes(s: Seq<char>) -> Seq<char> {
    without_trailing_slashes(without_leading_slashes(s))
}

/// A base path in the form requests are matched against: one leading `/`
/// followed by the configured path without its leading and trailing `/`s.
pub open spec fn spec_formatted_basepath(basepath: Seq<char>) -> Seq<char> {
    seq!['/'] + trimmed_slashes(basepath)
}

/// Removing leading `/`s leaves a suffix of the text that is empty or does
/// not start with `/`.
proof fn lemma_without_leading_slashes(s: Seq<char>)
    ensures
        without_leading_slashes(s).len() <= s.len(),
        without_leading_slashes(s) == s.subrange(s.len() - without_leading_slashes(s).len(), s.len() as int),
        without_leading_slashes(s).len() == 0 || without_leading_slashes(s)[0] != '/',
    decreases s.len(),
{
    if s.len() > 0 && s[0] == '/' {
        lemma_without_leading_slashes(s.drop_first());
        assert(s.drop_first().subrange(
            s.drop_first().len() - without_leading_slashes(s).len(),
            s.drop_first().len() as int,
        ) =~= s.subrange(s.len() - without_leading_slashes(s).len(), s.len() as int));
    } else {
        assert(s.subrange(0, s.len() as int) =~= s);
    }
}

/// Removing trailing `/`s leaves a prefix of the text that is empty or does
/// not end with `/`.
proof fn lemma_without_trailing_slashes(s: Seq<char>)
    ensures
        without_trailing_slashes(s).len() <= s.len(),
        without_trailing_slashes(s) == s.subrange(0, without_trailing_slashes(s).len() as int),
        without_trailing_slashes(s).len() == 0 || without_trailing_slashes(s).last() != '/',
    decreases s.len(),
{
    if s.len() > 0 && s.last() == '/' {
        lemma_without_trailing_slashes(s.drop_last());
        assert(s.drop_last().subrange(0, without_trailing_slashes(s).len() as int)
            =~= s.subrange(0, without_trailing_slashes(s).len() as int));
    } else {
        assert(s.subrange(0, s.len() as int) =~= s);
    }
}

/// A formatted base path starts with `/`, is `/` itself or does not end
/// with `/`, holds no other `/` at its start, and is the configured path
/// with its leading and trailing `/`s replaced by one leading `/`.
pub proof fn lemma_formatted_basepath_shape(basepath: Seq<char>)
    ensures
        spec_formatted_basepath(basepath)[0] == '/',
        spec_formatted_basepath(basepath) == seq!['/'] || spec_formatted_basepath(basepath).last() != '/',
        spec_formatted_basepath(basepath).len() == 1 || spec_formatted_basepath(basepath)[1] != '/',
        trimmed_slashes(spec_formatted_basepath(basepath)) == trimmed_slashes(basepath),
{
    let l = without_leading_slashes(basepath);
    let t = trimmed_slashes(basepath);
    lemma_without_leading_slashes(basepath);
    lemma_without_trailing_slashes(l);
    let f = spec_formatted_basepath(basepath);
    if t.len() > 0 {
        assert(t[0] == l[0]);
        assert(f[1] == t[0]);
        assert(f.last() == t.last());
    } else {
        assert(f =~= seq!['/']);
    }
    assert(f.drop_first() =~= t);
    lemma_without_leading_slashes(t);
    assert(without_leading_slashes(f) == without_leading_slashes(t));
    assert(without_leading_slashes(t) == t) by {
        if t.len() > 0 {
            assert(t[0] != '/');
        }
    }
    assert(without_trailing_slashes(t) == t) by {
        if t.len() > 0 {
            assert(t.last() != '/');
        }
    }
}

/// A request path belongs to the base path when it is the base path or
/// continues it with `/`.
pub open spec fn spec_path_matches(base: Seq<char>, path: Seq<char>) -> bool {
    &&& base.len() <= path.len()
    &&& path.subrange(0, base.len() as int) == base
    &&& (path.len() == base.len() || path[base.len() as int] == '/')
}

/// A service answers its own base path and every path below it.
pub proof fn lemma_basepath_matches(base: Seq<char>, rest: Seq<char>)
    ensures
        spec_path_matches(base, base),
        spec_path_matches(base, base + seq!['/'] + rest),
{
    assert(base.subrange(0, base.len() as int) =~= base);
    assert((base + seq!['/'] + rest).subrange(0, base.len() as int) =~= base);
}

/// The text with every leading and every trailing `/` removed.
fn trim_slashes(s: &str) -> (r: &str)
    ensures
        r@ == trimmed_slashes(s@),
{
    let n = s.unicode_len();
    let mut start: usize = 0;
    while start < n && s.get_char(start) == '/'
        invariant
            start <= n,
            n == s@.len(),
            forall|i: int| 0 <= i < start ==> s@[i] == '/',
        decreases n - start,
    {
        start += 1;
    }
    let ghost lead = s@.subrange(start as int, n as int);
    proof {
        lemma_skip_slashes(s@, start as int);
    }
    let mut end: usize = n;
    while end > start && s.get_char(end - 1) == '/'
        invariant
            start <= end <= n,
            n == s@.len(),
            lead == s@.subrange(start as int, n as int),
            without_trailing_slashes(lead) == without_trailing_slashes(s@.subrange(start as int, end as int)),
        decreases end - start,
    {
        assert(s@.subrange(start as int, end as int).drop_last() =~= s@.subrange(start as int, end - 1));
        end -= 1;
    }
    let r = s.substring_char(start, end);
    assert(without_trailing_slashes(r@) == r@) by {
        if r@.len() > 0 {
            assert(r@.last() == s@[end - 1]);
        }
    }
    r
}

/// Skipping a run of `/`s that ends at a character other than `/`, or at
/// the end, leaves what removing all leading `/`s leaves.
proof fn lemma_skip_slashes(s: Seq<char>, start: int)
    requires
        0 <= start <= s.len(),
        forall|i: int| 0 <= i < start ==> s[i] == '/',
        start == s.len() || s[start] != '/',
    ensures
        without_leading_slashes(s) == s.subrange(start, s.len() as int),
    decreases start,
{
    if start == 0 {
        assert(s.subrange(0, s.len() as int) =~= s);
    } else {
        let d = s.drop_first();
        assert forall|i: int| 0 <= i < start - 1 implies d[i] == '/' by {
            assert(d[i] == s[i + 1]);
        }
        lemma_skip_slashes(d, start - 1);
        assert(d.subrange(start - 1, d.len() as int) =~= s.subrange(start, s.len() as int));
    }
}

/// A base path in the form requests are matched against: one leading `/`
/// followed by the configured path without its leading and trailing `/`s.
pub fn format_basepath(basepath: &str) -> (r: String)
    ensures
        r@ == spec_formatted_basepath(basepath@),
{
    let trimmed = trim_slashes(basepath);
    let mut r = String::from_str("/");
    proof {
        reveal_strlit("/");
    }
    r.append(trimmed);
    r
}

/// An IPP service served under a base path.
pub struct MyIppService<S> {
    inner: S,
    /// The base path with one leading `/` and no trailing `/` (unless it
    /// is `/` alone).
    formatted_basepath: String,
}

impl<S> MyIppService<S> {
    /// The service that answers the requests.
    pub closed spec fn service(&self) -> S {
        self.inner
    }

    /// The service that answers the requests.
    pub fn inner(&self) -> (r: &S)
        ensures
            *r == self.service(),
    {
        &self.inner
    }

    /// The base path with one leading `/` and no trailing `/` (unless it
    /// is `/` alone).
    pub closed spec fn basepath(&self) -> Seq<char> {
        self.formatted_basepath@
    }

    /// Serves `inner` under `basepath`.
    pub fn new(inner: S, basepath: &str) -> (r: Self)
        ensures
            r.service() == inner,
            r.basepath() == spec_formatted_basepath(basepath@),
    {
        MyIppService { inner, formatted_basepath: format_basepath(basepath) }
    }

    /// Whether a request path belongs to this service: it is the base path
    /// or continues it with `/`.
    pub fn matches(&self, path: &str) -> (r: bool)
        ensures
            r == spec_path_matches(self.basepath(), path@),
    {
        let base_len = self.formatted_basepath.as_str().unicode_len();
        let path_len = path.unicode_len();
        if path_len < base_len {
            return false;
        }
        let head = String::from_str(path.substring_char(0, base_len));
        if head != self.formatted_basepath {
            return false;
        }
        base_len == path_len || path.get_char(base_len) == '/'
    }
}

} // verus!
