use vstd::prelude::*;

verus! {

/// A print-schema resolution option, by its dots per inch across and along
/// the feed direction.
#[derive(Clone, Copy, Debug, PartialEq, Eq, Structural)]
pub struct PageResolution {
    pub dpi_x: u32,
    pub dpi_y: u32,
}

/// An IPP `resolution` value (RFC 8011, 5.1.16); `units` is 3 for dots per
/// inch and 4 for dots per centimetre.
#[derive(Clone, Copy, Debug, PartialEq, Eq, Structural)]
pub struct Resolution {
    pub cross_feed: i32,
    pub feed: i32,
    pub units: i8,
}

/// The `units` value of a resolution in dots per inch.
pub const UNITS_DPI: i8 = 3;

impl Resolution {
    /// A resolution in dots per inch.
    pub fn new_dpi(cross_feed: i32, feed: i32) -> (r: Self)
        ensures
            r == (Resolution { cross_feed, feed, units: UNITS_DPI }),
    {
        Resolution { cross_feed, feed, units: UNITS_DPI }
    }
}

/// The IPP resolutions of the packs whose dots per inch both fit an IPP
/// integer, in order.
pub open spec fn dpi_resolutions(packs: Seq<PageResolution>) -> Seq<Resolution>
    decreases packs.len(),
{
    if packs.len() == 0 {
        Seq::empty()
    } else {
        let earlier = dpi_resolutions(packs.drop_last());
        let p = packs.last();
        if p.dpi_x <= i32::MAX && p.dpi_y <= i32::MAX {
            earlier.push(Resolution { cross_feed: p.dpi_x as i32, feed: p.dpi_y as i32, units: UNITS_DPI })
        } else {
            earlier
        }
    }
}

/// The pack has the dots per inch of the IPP resolution `key`.
pub open spec fn pack_has_resolution(p: PageResolution, key: Resolution) -> bool {
    &&& p.dpi_x <= i32::MAX
    &&& p.dpi_y <= i32::MAX
    &&& key.cross_feed == p.dpi_x
    &&& key.feed == p.dpi_y
}

/// The IPP resolutions, in dots per inch, of the print-schema resolution
/// options whose dots per inch fit an IPP integer.
pub fn all_supported_resolution_by_win(packs: &Vec<PageResolution>) -> (r: Vec<Resolution>)
    ensures
        r@ == dpi_resolutions(packs@),
{
    let mut r: Vec<Resolution> = Vec::new();
    let mut i: usize = 0;
    while i < packs.len()
        invariant
            i <= packs.len(),
            r@ == dpi_resolutions(packs@.take(i as int)),
        decreases packs.len() - i,
    {
        assert(packs@.take(i + 1).drop_last() =~= packs@.take(i as int));
        let p = packs[i];
        if p.dpi_x <= 0x7fff_ffff && p.dpi_y <= 0x7fff_ffff {
            r.push(Resolution::new_dpi(p.dpi_x as i32, p.dpi_y as i32));
        }
        i += 1;
    }
    assert(packs@.take(packs.len() as int) =~= packs@);
    r
}

/// The position of the first print-schema resolution option with the dots
/// per inch of `ipp_key`; `None` when `ipp_key` is not in dots per inch or
/// no option has them.
pub fn get_resolution_by_ipp(packs: &Vec<PageResolution>, ipp_key: &Resolution) -> (r: Option<usize>)
    ensures
        ipp_key.units != UNITS_DPI ==> r is None,
        ipp_key.units == UNITS_DPI ==> match r {
            Some(i) => i < packs.len() && pack_has_resolution(packs@[i as int], *ipp_key)
                && forall|j: int| 0 <= j < i ==> !pack_has_resolution(#[trigger] packs@[j], *ipp_key),
            None => forall|j: int| 0 <= j < packs.len() ==> !pack_has_resolution(#[trigger] packs@[j], *ipp_key),
        },
{
    if ipp_key.units != UNITS_DPI {
        return None;
    }
    let mut i: usize = 0;
    while i < packs.len()
        invariant
            i <= packs.len(),
            ipp_key.units == UNITS_DPI,
            forall|j: int| 0 <= j < i ==> !pack_has_resolution(#[trigger] packs@[j], *ipp_key),
        decreases packs.len() - i,
    {
        let p = packs[i];
        if p.dpi_x <= 0x7fff_ffff && p.dpi_y <= 0x7fff_ffff {
            if ipp_key.cross_feed == p.dpi_x as i32 && ipp_key.feed == p.dpi_y as i32 {
                return Some(i);
            }
        }
        i += 1;
    }
    None
}

/// Every resolution reported as supported for some packs is in dots per
/// inch and is the resolution of one of those packs, so
/// `get_resolution_by_ipp` finds a pack for it.
pub proof fn lemma_supported_resolution_found(packs: Seq<PageResolution>, r: Resolution)
    requires
        dpi_resolutions(packs).contains(r),
    ensures
        r.units == UNITS_DPI,
        exists|i: int| 0 <= i < packs.len() && pack_has_resolution(#[trigger] packs[i], r),
    decreases packs.len(),
{
    let earlier = dpi_resolutions(packs.drop_last());
    let k = choose|k: int| 0 <= k < dpi_resolutions(packs).len() && dpi_resolutions(packs)[k] == r;
    if k < earlier.len() {
        assert(earlier[k] == r);
        lemma_supported_resolution_found(packs.drop_last(), r);
        let i = choose|i: int| 0 <= i < packs.drop_last().len() && pack_has_resolution(#[trigger] packs.drop_last()[i], r);
        assert(packs[i] == packs.drop_last()[i]);
    } else {
        assert(pack_has_resolution(packs[packs.len() - 1], r));
    }
}

} // verus!
