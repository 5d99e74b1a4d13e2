use vstd::prelude::*;
use crate::attr::ipp_sys_predefined_map::{name_of_code, PredefinedCode};
use crate::attr::media_name::{common_media_relation, CommonMediaNameMap, PredefinedMediaName};
use crate::attr::orientation::{orientation_relation, IppPageOrientation, OrientationMap, PredefinedPageOrientation};
use crate::attr::pair_relation::{is_first_position, right_of};
use crate::attr::print_color_mode::{print_color_relation, PredefinedPageOutputColor, PrintColorMap};
use crate::attr::printer_resolution::{
    get_resolution_by_ipp, pack_has_resolution, PageResolution, Resolution, UNITS_DPI,
};
use crate::attr::sides::{sides_relation, JobSidesMap, PredefinedDuplexType};
use crate::ipp_service::{MediaSizeOption, PrinterCapabilities};
use crate::print_options::PrintOptions;

verus! {

/// The attributes of an IPP job that choose its print-ticket options.
pub struct JobAttributes {
    /// The `media` keyword, if the job names one.
    pub media: Option<String>,
    pub orientation: Option<IppPageOrientation>,
    pub sides: String,
    pub print_color_mode: String,
    pub printer_resolution: Option<Resolution>,
}

/// For each kind of option, the position of the printer's option that the
/// job asks for.
pub type OptionChoice = PrintOptions<usize, usize, usize, usize, usize>;

/// The print-schema media names of a printer's media sizes, in order.
pub open spec fn media_names(sizes: Seq<MediaSizeOption>) -> Seq<Option<PredefinedMediaName>> {
    sizes.map_values(|m: MediaSizeOption| m.name)
}

/// `r` is the first position of the print-schema name that `code` stands
/// for, or `None` when it stands for none.
pub open spec fn named_position<P: PredefinedCode>(
    packs: Seq<Option<P>>,
    code: Option<u16>,
    r: Option<usize>,
) -> bool {
    match name_of_code::<P>(code) {
        Some(n) => is_first_position(packs, Some(n), r),
        None => r is None,
    }
}

/// `r` is the first position of a resolution option with the dots per
/// inch of `key`, or `None` when `key` is not in dots per inch or no option
/// has them.
pub open spec fn resolution_position(packs: Seq<PageResolution>, key: Resolution, r: Option<usize>) -> bool {
    if key.units != UNITS_DPI {
        r is None
    } else {
        match r {
            Some(i) => i < packs.len() && pack_has_resolution(packs[i as int], key)
                && forall|j: int| 0 <= j < i ==> !pack_has_resolution(#[trigger] packs[j], key),
            None => forall|j: int| 0 <= j < packs.len() ==> !pack_has_resolution(#[trigger] packs[j], key),
        }
    }
}

/// Each option chosen for a job is the printer's first option that stands
/// for what the job asks: its media keyword, orientation, color mode, sides
/// and resolution; none where the job asks for nothing, or for something
/// the printer does not offer.
pub open spec fn options_as_asked(caps: PrinterCapabilities, job: JobAttributes, r: OptionChoice) -> bool {
    &&& match job.media {
        Some(k) => named_position(
            media_names(caps.page_media_sizes@),
            right_of(common_media_relation(), k@),
            r.media,
        ),
        None => r.media is None,
    }
    &&& match job.orientation {
        Some(o) => named_position::<PredefinedPageOrientation>(
            caps.page_orientations@,
            right_of(orientation_relation(), o.spec_value()),
            r.orientation,
        ),
        None => r.orientation is None,
    }
    &&& named_position::<PredefinedPageOutputColor>(
        caps.page_output_colors@,
        right_of(print_color_relation(), job.print_color_mode@),
        r.output_color,
    )
    &&& named_position::<PredefinedDuplexType>(
        caps.duplexes@,
        right_of(sides_relation(), job.sides@),
        r.job_duplex,
    )
    &&& match job.printer_resolution {
        Some(k) => resolution_position(caps.page_resolutions@, k, r.resolution),
        None => r.resolution is None,
    }
}

/// The print-schema media names of a printer's media sizes, in order.
fn names_of_sizes(sizes: &Vec<MediaSizeOption>) -> (r: Vec<Option<PredefinedMediaName>>)
    ensures
        r@ == media_names(sizes@),
{
    let mut r: Vec<Option<PredefinedMediaName>> = Vec::new();
    let mut i: usize = 0;
    while i < sizes.len()
        invariant
            i <= sizes.len(),
            r@ == media_names(sizes@.take(i as int)),
        decreases sizes.len() - i,
    {
        r.push(sizes[i].name);
        assert(media_names(sizes@.take(i + 1)) =~= media_names(sizes@.take(i as int)).push(sizes@[i as int].name));
        i += 1;
    }
    assert(sizes@.take(sizes.len() as int) =~= sizes@);
    r
}

/// Chooses, for each kind of print-ticket option, the position of the
/// printer's option that the job asks for.
pub fn choose_options(caps: &PrinterCapabilities, job: &JobAttributes) -> (r: OptionChoice)
    ensures
        options_as_asked(*caps, *job, r),
{
    let media = match &job.media {
        Some(k) => {
            let names = names_of_sizes(&caps.page_media_sizes);
            CommonMediaNameMap::new().find_by_ipp(&names, k.as_str())
        },
        None => None,
    };
    let orientation = match job.orientation {
        Some(o) => OrientationMap::new().find_by_ipp(&caps.page_orientations, o),
        None => None,
    };
    let output_color = PrintColorMap::new().find_by_ipp(&caps.page_output_colors, job.print_color_mode.as_str());
    let job_duplex = JobSidesMap::new().find_by_ipp(&caps.duplexes, job.sides.as_str());
    let resolution = match &job.printer_resolution {
        Some(k) => get_resolution_by_ipp(&caps.page_resolutions, k),
        None => None,
    };
    PrintOptions { media, orientation, output_color, job_duplex, resolution }
}

} // verus!
