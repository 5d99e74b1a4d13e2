use vstd::prelude::*;
use super::ipp_sys_predefined_map::{
    codes_all_named, codes_of, coded_table, lemma_coded_table_named, lemma_name_keyword_round_trip,
    lemma_supported_key_found, name_of_code, EnumValueMap, PredefinedCode,
};
use super::pair_relation::{
    is_first_position, left_of, lefts_of_rights, lemma_left_of_unique, lemma_pairs_from_one_to_one,
    lemma_pairs_from_distinct, lemma_pairs_from_within, lemma_right_of_unique, pairs_from, right_of,
};

verus! {

/// The IPP `orientation-requested` values (RFC 8011, 5.2.10).
#[derive(Clone, Copy, Debug, PartialEq, Eq, Hash, Structural)]
pub enum IppPageOrientation {
    Portrait,
    Landscape,
    ReversePortrait,
    ReverseLandscape,
}

impl IppPageOrientation {
    /// The enum value IPP sends for the orientation.
    pub open spec fn spec_value(self) -> i32 {
        match self {
            IppPageOrientation::Portrait => 3,
            IppPageOrientation::Landscape => 4,
            IppPageOrientation::ReversePortrait => 5,
            IppPageOrientation::ReverseLandscape => 6,
        }
    }

    /// The orientation an enum value stands for, if any.
    pub open spec fn spec_from_value(value: i32) -> Option<Self> {
        match value {
            3 => Some(IppPageOrientation::Portrait),
            4 => Some(IppPageOrientation::Landscape),
            5 => Some(IppPageOrientation::ReversePortrait),
            6 => Some(IppPageOrientation::ReverseLandscape),
            _ => None,
        }
    }

    /// The enum value IPP sends for the orientation.
    pub fn value(&self) -> (v: i32)
        ensures
            v == self.spec_value(),
    {
        match *self {
            IppPageOrientation::Portrait => 3,
            IppPageOrientation::Landscape => 4,
            IppPageOrientation::ReversePortrait => 5,
            IppPageOrientation::ReverseLandscape => 6,
        }
    }

    /// The orientation an enum value stands for, if any.
    pub fn from_value(value: i32) -> (r: Option<Self>)
        ensures
            r == Self::spec_from_value(value),
    {
        match value {
            3 => Some(IppPageOrientation::Portrait),
            4 => Some(IppPageOrientation::Landscape),
            5 => Some(IppPageOrientation::ReversePortrait),
            6 => Some(IppPageOrientation::ReverseLandscape),
            _ => None,
        }
    }
}

/// An orientation of the Windows Print Schema (`psk:` namespace); the
/// variants follow the order in which the print-schema keywords list them.
#[derive(Clone, Copy, Debug, PartialEq, Eq, Hash, Structural)]
pub enum PredefinedPageOrientation {
    Portrait,
    Landscape,
    ReversePortrait,
    ReverseLandscape,
}

impl PredefinedCode for PredefinedPageOrientation {
    open spec fn spec_code(self) -> u16 {
        match self {
            PredefinedPageOrientation::Portrait => 0,
            PredefinedPageOrientation::Landscape => 1,
            PredefinedPageOrientation::ReversePortrait => 2,
            PredefinedPageOrientation::ReverseLandscape => 3,
        }
    }

    open spec fn spec_from_code(code: u16) -> Option<Self> {
        match code {
            0 => Some(PredefinedPageOrientation::Portrait),
            1 => Some(PredefinedPageOrientation::Landscape),
            2 => Some(PredefinedPageOrientation::ReversePortrait),
            3 => Some(PredefinedPageOrientation::ReverseLandscape),
            _ => None,
        }
    }

    fn code(&self) -> (c: u16) {
        match *self {
            PredefinedPageOrientation::Portrait => 0,
            PredefinedPageOrientation::Landscape => 1,
            PredefinedPageOrientation::ReversePortrait => 2,
            PredefinedPageOrientation::ReverseLandscape => 3,
        }
    }

    fn from_code(code: u16) -> (r: Option<Self>) {
        match code {
            0 => Some(PredefinedPageOrientation::Portrait),
            1 => Some(PredefinedPageOrientation::Landscape),
            2 => Some(PredefinedPageOrientation::ReversePortrait),
            3 => Some(PredefinedPageOrientation::ReverseLandscape),
            _ => None,
        }
    }

    proof fn lemma_code_round_trip(self) {
    }

    proof fn lemma_from_code_inverse(code: u16) {
    }
}

/// The IPP orientations that stand for print-schema orientations, in the
/// order in which the map inserts them.
pub open spec fn orientation_pairs() -> Seq<(IppPageOrientation, PredefinedPageOrientation)> {
    seq![
        (IppPageOrientation::Portrait, PredefinedPageOrientation::Portrait),
        (IppPageOrientation::Landscape, PredefinedPageOrientation::Landscape),
        (IppPageOrientation::ReversePortrait, PredefinedPageOrientation::ReversePortrait),
        (IppPageOrientation::ReverseLandscape, PredefinedPageOrientation::ReverseLandscape),
    ]
}

/// The orientation table with each orientation replaced by its IPP enum value.
pub open spec fn orientation_value_pairs() -> Seq<(i32, PredefinedPageOrientation)> {
    orientation_pairs().map_values(
        |p: (IppPageOrientation, PredefinedPageOrientation)| (p.0.spec_value(), p.1),
    )
}

/// The value–code pairs the orientation map holds.
pub open spec fn orientation_relation() -> Set<(i32, u16)> {
    pairs_from(coded_table(orientation_value_pairs()))
}

/// The orientation an optional enum value stands for.
pub open spec fn orientation_of_value(value: Option<i32>) -> Option<IppPageOrientation> {
    match value {
        Some(v) => IppPageOrientation::spec_from_value(v),
        None => None,
    }
}

/// The value–code table of `orientation_relation`, as values.
fn orientation_table() -> (t: Vec<(i32, u16)>)
    ensures
        t@ == coded_table(orientation_value_pairs()),
{
    let t = vec![
        (IppPageOrientation::Portrait.value(), PredefinedPageOrientation::Portrait.code()),
        (IppPageOrientation::Landscape.value(), PredefinedPageOrientation::Landscape.code()),
        (IppPageOrientation::ReversePortrait.value(), PredefinedPageOrientation::ReversePortrait.code()),
        (IppPageOrientation::ReverseLandscape.value(), PredefinedPageOrientation::ReverseLandscape.code()),
    ];
    assert(t@ =~= coded_table(orientation_value_pairs()));
    t
}

/// Every enum value the orientation map holds stands for an orientation.
proof fn lemma_orientation_values_named()
    ensures
        forall|p: (i32, u16)| #[trigger] orientation_relation().contains(p)
            ==> IppPageOrientation::spec_from_value(p.0) is Some,
{
    assert forall|p: (i32, u16)| #[trigger] orientation_relation().contains(p)
        implies IppPageOrientation::spec_from_value(p.0) is Some by {
        lemma_pairs_from_within(coded_table(orientation_value_pairs()), p);
    }
}

/// The map between IPP orientations and print-schema orientations.
pub struct OrientationMap {
    map: EnumValueMap,
}

impl View for OrientationMap {
    type V = Set<(i32, u16)>;

    /// The pairs the map holds: each IPP orientation enum value and the code of the print-schema orientation.
    closed spec fn view(&self) -> Set<(i32, u16)> {
        self.map@
    }
}

impl OrientationMap {
    /// The map holds the pairs of `orientation_pairs`.
    #[verifier::type_invariant]
    spec fn holds_table(self) -> bool {
        &&& self.map@ == orientation_relation()
        &&& self.map.wf()
        &&& codes_all_named::<i32, PredefinedPageOrientation>(self.map@)
    }

    /// Builds the map from `orientation_pairs`.
    pub fn new() -> (m: Self)
        ensures
            m@ == orientation_relation(),
    {
        let table = orientation_table();
        let map = EnumValueMap::from_pairs(&table);
        proof {
            lemma_coded_table_named(orientation_value_pairs());
        }
        OrientationMap { map }
    }

    /// The print-schema orientation that the IPP orientation stands for.
    pub fn ipp_to_sys(&self, orientation: IppPageOrientation) -> (r: Option<PredefinedPageOrientation>)
        ensures
            r == name_of_code::<PredefinedPageOrientation>(
                right_of(orientation_relation(), orientation.spec_value()),
            ),
    {
        proof {
            use_type_invariant(self);
        }
        self.map.name_for_value(orientation.value())
    }

    /// The IPP orientation that stands for the print-schema orientation.
    pub fn sys_to_ipp(&self, name: PredefinedPageOrientation) -> (r: Option<IppPageOrientation>)
        ensures
            r == orientation_of_value(left_of(orientation_relation(), name.spec_code())),
    {
        proof {
            use_type_invariant(self);
        }
        match self.map.value_for_name(name) {
            Some(v) => IppPageOrientation::from_value(v),
            None => None,
        }
    }

    /// The IPP orientations of the print-schema orientations of `packs`, in
    /// order, skipping the packs that have none or whose orientation has
    /// no IPP orientation.
    pub fn all_supported_by_win(&self, packs: &Vec<Option<PredefinedPageOrientation>>) -> (r: Vec<IppPageOrientation>)
        ensures
            r@.map_values(|o: IppPageOrientation| o.spec_value()) == lefts_of_rights(
                orientation_relation(),
                codes_of(packs@),
            ),
    {
        proof {
            use_type_invariant(self);
        }
        let values = self.map.values_for_names(packs);
        let ghost expected = lefts_of_rights(orientation_relation(), codes_of(packs@));
        proof {
            lemma_orientation_values_named();
            lemma_lefts_named(codes_of(packs@));
        }
        let mut r: Vec<IppPageOrientation> = Vec::new();
        let mut i: usize = 0;
        while i < values.len()
            invariant
                i <= values.len(),
                values@ == expected,
                forall|j: int| 0 <= j < values@.len() ==> IppPageOrientation::spec_from_value(#[trigger] values@[j]) is Some,
                r@.map_values(|o: IppPageOrientation| o.spec_value()) == values@.take(i as int),
            decreases values.len() - i,
        {
            let o = IppPageOrientation::from_value(values[i]).unwrap();
            assert(o.spec_value() == values@[i as int]);
            let ghost before = r@;
            r.push(o);
            assert(r@.map_values(|o: IppPageOrientation| o.spec_value()) =~= before.map_values(
                |o: IppPageOrientation| o.spec_value(),
            ).push(o.spec_value()));
            assert(values@.take(i + 1) =~= values@.take(i as int).push(values@[i as int]));
            i += 1;
        }
        assert(values@.take(values.len() as int) =~= values@);
        r
    }

    /// The position of the first pack whose print-schema orientation is the
    /// one `orientation` stands for; `None` when it stands for none or no
    /// pack has it.
    pub fn find_by_ipp(&self, packs: &Vec<Option<PredefinedPageOrientation>>, orientation: IppPageOrientation) -> (r: Option<usize>)
        ensures
            match name_of_code::<PredefinedPageOrientation>(
                right_of(orientation_relation(), orientation.spec_value()),
            ) {
                Some(n) => is_first_position(packs@, Some(n), r),
                None => r is None,
            },
    {
        proof {
            use_type_invariant(self);
        }
        self.map.find_name_by_value(packs, orientation.value())
    }
}

/// Every enum value found for the codes of `packs` stands for an orientation.
proof fn lemma_lefts_named(packs: Seq<Option<u16>>)
    requires
        forall|p: (i32, u16)| #[trigger] orientation_relation().contains(p)
            ==> IppPageOrientation::spec_from_value(p.0) is Some,
    ensures
        forall|j: int| 0 <= j < lefts_of_rights(orientation_relation(), packs).len()
            ==> IppPageOrientation::spec_from_value(
                #[trigger] lefts_of_rights(orientation_relation(), packs)[j],
            ) is Some,
    decreases packs.len(),
{
    if packs.len() > 0 {
        lemma_lefts_named(packs.drop_last());
        if let Some(c) = packs.last() {
            if let Some(v) = left_of(orientation_relation(), c) {
                lemma_pairs_from_one_to_one(coded_table(orientation_value_pairs()));
                lemma_left_of_unique(orientation_relation(), v, c);
            }
        }
    }
}

/// An IPP orientation stands for a print-schema orientation exactly when
/// that orientation's IPP orientation is the first.
pub proof fn lemma_orientation_round_trip(orientation: IppPageOrientation, name: PredefinedPageOrientation)
    ensures
        name_of_code::<PredefinedPageOrientation>(
            right_of(orientation_relation(), orientation.spec_value()),
        ) == Some(name) <==> orientation_of_value(left_of(orientation_relation(), name.spec_code()))
            == Some(orientation),
{
    lemma_pairs_from_one_to_one(coded_table(orientation_value_pairs()));
    lemma_coded_table_named(orientation_value_pairs());
    lemma_name_keyword_round_trip(orientation_relation(), orientation.spec_value(), name);
}

/// Every IPP orientation reported as supported for some packs is found
/// among those packs again: it stands for a print-schema orientation that
/// one of the packs has, so `find_by_ipp` finds a pack for it.
pub proof fn lemma_orientation_supported_found(packs: Seq<Option<PredefinedPageOrientation>>, value: i32)
    requires
        lefts_of_rights(orientation_relation(), codes_of(packs)).contains(value),
    ensures
        name_of_code::<PredefinedPageOrientation>(right_of(orientation_relation(), value)) is Some,
        exists|i: int| 0 <= i < packs.len()
            && packs[i] == name_of_code::<PredefinedPageOrientation>(right_of(orientation_relation(), value)),
{
    lemma_pairs_from_one_to_one(coded_table(orientation_value_pairs()));
    lemma_supported_key_found(orientation_relation(), packs, value);
}


/// Each IPP orientation stands for the print-schema orientation of the same
/// name, and each print-schema orientation for the IPP orientation of the
/// same name.
pub proof fn lemma_orientation_same_names()
    ensures
        right_of(orientation_relation(), IppPageOrientation::Portrait.spec_value())
            == Some(PredefinedPageOrientation::Portrait.spec_code()),
        right_of(orientation_relation(), IppPageOrientation::Landscape.spec_value())
            == Some(PredefinedPageOrientation::Landscape.spec_code()),
        right_of(orientation_relation(), IppPageOrientation::ReversePortrait.spec_value())
            == Some(PredefinedPageOrientation::ReversePortrait.spec_code()),
        right_of(orientation_relation(), IppPageOrientation::ReverseLandscape.spec_value())
            == Some(PredefinedPageOrientation::ReverseLandscape.spec_code()),
        left_of(orientation_relation(), PredefinedPageOrientation::Portrait.spec_code())
            == Some(IppPageOrientation::Portrait.spec_value()),
        left_of(orientation_relation(), PredefinedPageOrientation::Landscape.spec_code())
            == Some(IppPageOrientation::Landscape.spec_value()),
        left_of(orientation_relation(), PredefinedPageOrientation::ReversePortrait.spec_code())
            == Some(IppPageOrientation::ReversePortrait.spec_value()),
        left_of(orientation_relation(), PredefinedPageOrientation::ReverseLandscape.spec_code())
            == Some(IppPageOrientation::ReverseLandscape.spec_value()),
{
    let t = coded_table(orientation_value_pairs());
    assert(t =~= seq![(3i32, 0u16), (4i32, 1u16), (5i32, 2u16), (6i32, 3u16)]);
    lemma_pairs_from_distinct(t);
    lemma_pairs_from_one_to_one(t);
    let rel = orientation_relation();
    assert(t[0] == (3i32, 0u16) && t[1] == (4i32, 1u16) && t[2] == (5i32, 2u16) && t[3] == (6i32, 3u16));
    assert(rel.contains((3i32, 0u16)));
    assert(rel.contains((4i32, 1u16)));
    assert(rel.contains((5i32, 2u16)));
    assert(rel.contains((6i32, 3u16)));
    lemma_right_of_unique(rel, 3i32, 0u16);
    lemma_right_of_unique(rel, 4i32, 1u16);
    lemma_right_of_unique(rel, 5i32, 2u16);
    lemma_right_of_unique(rel, 6i32, 3u16);
    lemma_left_of_unique(rel, 3i32, 0u16);
    lemma_left_of_unique(rel, 4i32, 1u16);
    lemma_left_of_unique(rel, 5i32, 2u16);
    lemma_left_of_unique(rel, 6i32, 3u16);
}

} // verus!
