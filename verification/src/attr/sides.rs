use vstd::prelude::*;
use super::ipp_sys_predefined_map::{
    codes_all_named, codes_of, coded_pairs, coded_table, lemma_coded_table_named,
    lemma_name_keyword_round_trip, lemma_supported_key_found, name_of_code, opt_keyword_view,
    named_table_view, KeywordMap, PredefinedCode,
};
use super::pair_relation::{
    is_first_position, left_of, lefts_of_rights, lemma_left_of_unique, lemma_pairs_from_distinct,
    lemma_pairs_from_one_to_one, lemma_right_of_unique, pairs_from, right_of,
};

verus! {

/// A duplex type of the Windows Print Schema (`psk:` namespace); the
/// variants follow the order in which the print-schema keywords list them.
#[derive(Clone, Copy, Debug, PartialEq, Eq, Hash, Structural)]
pub enum PredefinedDuplexType {
    OneSided,
    TwoSidedShortEdge,
    TwoSidedLongEdge,
}

impl PredefinedCode for PredefinedDuplexType {
    open spec fn spec_code(self) -> u16 {
        match self {
            PredefinedDuplexType::OneSided => 0,
            PredefinedDuplexType::TwoSidedShortEdge => 1,
            PredefinedDuplexType::TwoSidedLongEdge => 2,
        }
    }

    open spec fn spec_from_code(code: u16) -> Option<Self> {
        match code {
            0 => Some(PredefinedDuplexType::OneSided),
            1 => Some(PredefinedDuplexType::TwoSidedShortEdge),
            2 => Some(PredefinedDuplexType::TwoSidedLongEdge),
            _ => None,
        }
    }

    fn code(&self) -> (c: u16) {
        match *self {
            PredefinedDuplexType::OneSided => 0,
            PredefinedDuplexType::TwoSidedShortEdge => 1,
            PredefinedDuplexType::TwoSidedLongEdge => 2,
        }
    }

    fn from_code(code: u16) -> (r: Option<Self>) {
        match code {
            0 => Some(PredefinedDuplexType::OneSided),
            1 => Some(PredefinedDuplexType::TwoSidedShortEdge),
            2 => Some(PredefinedDuplexType::TwoSidedLongEdge),
            _ => None,
        }
    }

    proof fn lemma_code_round_trip(self) {
    }

    proof fn lemma_from_code_inverse(code: u16) {
    }
}

/// The IPP `sides` keywords that stand for print-schema duplex types, in the
/// order in which the map inserts them.
pub open spec fn sides_pairs() -> Seq<(Seq<char>, PredefinedDuplexType)> {
    seq![
        ("one-sided"@, PredefinedDuplexType::OneSided),
        ("two-sided-long-edge"@, PredefinedDuplexType::TwoSidedLongEdge),
        ("two-sided-short-edge"@, PredefinedDuplexType::TwoSidedShortEdge),
    ]
}

/// The keyword–code pairs the sides map holds.
pub open spec fn sides_relation() -> Set<(Seq<char>, u16)> {
    pairs_from(coded_table(sides_pairs()))
}

/// The table of `sides_pairs`, as values.
fn sides_table() -> (t: Vec<(&'static str, PredefinedDuplexType)>)
    ensures
        named_table_view(t@) == sides_pairs(),
{
    let t = vec![
        ("one-sided", PredefinedDuplexType::OneSided),
        ("two-sided-long-edge", PredefinedDuplexType::TwoSidedLongEdge),
        ("two-sided-short-edge", PredefinedDuplexType::TwoSidedShortEdge),
    ];
    assert(named_table_view(t@) =~= sides_pairs());
    t
}

/// The map between IPP `sides` keywords and print-schema duplex types.
pub struct JobSidesMap {
    map: KeywordMap,
}

impl View for JobSidesMap {
    type V = Set<(Seq<char>, u16)>;

    /// The pairs the map holds: each `sides` keyword and the code of the print-schema duplex type.
    closed spec fn view(&self) -> Set<(Seq<char>, u16)> {
        self.map@
    }
}

impl JobSidesMap {
    /// The map holds the pairs of `sides_pairs`.
    #[verifier::type_invariant]
    spec fn holds_table(self) -> bool {
        &&& self.map@ == sides_relation()
        &&& self.map.wf()
        &&& codes_all_named::<Seq<char>, PredefinedDuplexType>(self.map@)
    }

    /// Builds the map from `sides_pairs`.
    pub fn new() -> (m: Self)
        ensures
            m@ == sides_relation(),
    {
        let table = coded_pairs(&sides_table());
        let map = KeywordMap::from_pairs(&table);
        proof {
            lemma_coded_table_named(sides_pairs());
        }
        JobSidesMap { map }
    }

    /// The sides name that the keyword `key` stands for.
    pub fn ipp_to_sys(&self, key: &str) -> (r: Option<PredefinedDuplexType>)
        ensures
            r == name_of_code::<PredefinedDuplexType>(right_of(sides_relation(), key@)),
    {
        proof {
            use_type_invariant(self);
        }
        self.map.name_for_keyword(key)
    }

    /// The keyword that stands for the sides name `name`.
    pub fn sys_to_ipp(&self, name: PredefinedDuplexType) -> (r: Option<&'static str>)
        ensures
            opt_keyword_view(r) == left_of(sides_relation(), name.spec_code()),
    {
        proof {
            use_type_invariant(self);
        }
        self.map.keyword_for_name(name)
    }

    /// The keywords of the sides names of `packs`, in order, skipping the
    /// packs that have no sides name or whose name has no keyword.
    pub fn all_supported_by_win(&self, packs: &Vec<Option<PredefinedDuplexType>>) -> (r: Vec<&'static str>)
        ensures
            r@.map_values(|k: &'static str| k@) == lefts_of_rights(sides_relation(), codes_of(packs@)),
    {
        proof {
            use_type_invariant(self);
        }
        self.map.keywords_for_names(packs)
    }

    /// The position of the first pack whose sides name is the one `key`
    /// stands for; `None` when `key` stands for none or no pack has it.
    pub fn find_by_ipp(&self, packs: &Vec<Option<PredefinedDuplexType>>, key: &str) -> (r: Option<usize>)
        ensures
            match name_of_code::<PredefinedDuplexType>(right_of(sides_relation(), key@)) {
                Some(n) => is_first_position(packs@, Some(n), r),
                None => r is None,
            },
    {
        proof {
            use_type_invariant(self);
        }
        self.map.find_name_by_keyword(packs, key)
    }
}

/// A sides keyword stands for a sides name exactly when that name's
/// keyword is the sides keyword.
pub proof fn lemma_sides_round_trip(key: Seq<char>, name: PredefinedDuplexType)
    ensures
        name_of_code::<PredefinedDuplexType>(right_of(sides_relation(), key)) == Some(name)
            <==> left_of(sides_relation(), name.spec_code()) == Some(key),
{
    lemma_pairs_from_one_to_one(coded_table(sides_pairs()));
    lemma_coded_table_named(sides_pairs());
    lemma_name_keyword_round_trip(sides_relation(), key, name);
}

/// Every keyword reported as supported for some packs is found among those
/// packs again: it stands for a sides name that one of the packs has, so
/// `find_by_ipp` finds a pack for it.
pub proof fn lemma_sides_supported_found(packs: Seq<Option<PredefinedDuplexType>>, key: Seq<char>)
    requires
        lefts_of_rights(sides_relation(), codes_of(packs)).contains(key),
    ensures
        name_of_code::<PredefinedDuplexType>(right_of(sides_relation(), key)) is Some,
        exists|i: int| 0 <= i < packs.len() && packs[i] == name_of_code::<PredefinedDuplexType>(right_of(sides_relation(), key)),
{
    lemma_pairs_from_one_to_one(coded_table(sides_pairs()));
    lemma_supported_key_found(sides_relation(), packs, key);
}


/// Each `sides` keyword stands for the print-schema duplex type of the same
/// meaning, and back.
pub proof fn lemma_sides_same_names()
    ensures
        right_of(sides_relation(), "one-sided"@) == Some(PredefinedDuplexType::OneSided.spec_code()),
        right_of(sides_relation(), "two-sided-long-edge"@) == Some(PredefinedDuplexType::TwoSidedLongEdge.spec_code()),
        right_of(sides_relation(), "two-sided-short-edge"@) == Some(PredefinedDuplexType::TwoSidedShortEdge.spec_code()),
        left_of(sides_relation(), PredefinedDuplexType::OneSided.spec_code()) == Some("one-sided"@),
        left_of(sides_relation(), PredefinedDuplexType::TwoSidedLongEdge.spec_code()) == Some("two-sided-long-edge"@),
        left_of(sides_relation(), PredefinedDuplexType::TwoSidedShortEdge.spec_code()) == Some("two-sided-short-edge"@),
{
    let t = coded_table(sides_pairs());
    reveal_strlit("one-sided");
    reveal_strlit("two-sided-long-edge");
    reveal_strlit("two-sided-short-edge");
    assert(t =~= seq![("one-sided"@, PredefinedDuplexType::OneSided.spec_code()), ("two-sided-long-edge"@, PredefinedDuplexType::TwoSidedLongEdge.spec_code()), ("two-sided-short-edge"@, PredefinedDuplexType::TwoSidedShortEdge.spec_code())]);
    assert forall|i: int, j: int| 0 <= i < j < t.len() implies (#[trigger] t[i]).0 != (#[trigger] t[j]).0
        && t[i].1 != t[j].1 by {
        assert(t[i].0.len() != t[j].0.len());
    }
    lemma_pairs_from_distinct(t);
    lemma_pairs_from_one_to_one(t);
    let rel = sides_relation();
    assert(t[0] == ("one-sided"@, PredefinedDuplexType::OneSided.spec_code()));
    lemma_right_of_unique(rel, "one-sided"@, PredefinedDuplexType::OneSided.spec_code());
    lemma_left_of_unique(rel, "one-sided"@, PredefinedDuplexType::OneSided.spec_code());
    assert(t[1] == ("two-sided-long-edge"@, PredefinedDuplexType::TwoSidedLongEdge.spec_code()));
    lemma_right_of_unique(rel, "two-sided-long-edge"@, PredefinedDuplexType::TwoSidedLongEdge.spec_code());
    lemma_left_of_unique(rel, "two-sided-long-edge"@, PredefinedDuplexType::TwoSidedLongEdge.spec_code());
    assert(t[2] == ("two-sided-short-edge"@, PredefinedDuplexType::TwoSidedShortEdge.spec_code()));
    lemma_right_of_unique(rel, "two-sided-short-edge"@, PredefinedDuplexType::TwoSidedShortEdge.spec_code());
    lemma_left_of_unique(rel, "two-sided-short-edge"@, PredefinedDuplexType::TwoSidedShortEdge.spec_code());
}

} // verus!
