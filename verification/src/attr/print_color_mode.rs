use vstd::prelude::*;
use super::ipp_sys_predefined_map::{
    codes_all_named, codes_of, coded_pairs, coded_table, lemma_coded_table_named,
    lemma_name_keyword_round_trip, lemma_supported_key_found, name_of_code, opt_keyword_view,
    named_table_view, KeywordMap, PredefinedCode,
};
use super::pair_relation::{
    is_first_position, left_of, lefts_of_rights, lemma_left_of_unique, lemma_pairs_from_distinct,
    lemma_pairs_from_one_to_one, lemma_right_of_unique, pairs_from, right_of,
};

verus! {

/// An output color of the Windows Print Schema (`psk:` namespace); the
/// variants follow the order in which the print-schema keywords list them.
#[derive(Clone, Copy, Debug, PartialEq, Eq, Hash, Structural)]
pub enum PredefinedPageOutputColor {
    Color,
    Grayscale,
    Monochrome,
}

impl PredefinedCode for PredefinedPageOutputColor {
    open spec fn spec_code(self) -> u16 {
        match self {
            PredefinedPageOutputColor::Color => 0,
            PredefinedPageOutputColor::Grayscale => 1,
            PredefinedPageOutputColor::Monochrome => 2,
        }
    }

    open spec fn spec_from_code(code: u16) -> Option<Self> {
        match code {
            0 => Some(PredefinedPageOutputColor::Color),
            1 => Some(PredefinedPageOutputColor::Grayscale),
            2 => Some(PredefinedPageOutputColor::Monochrome),
            _ => None,
        }
    }

    fn code(&self) -> (c: u16) {
        match *self {
            PredefinedPageOutputColor::Color => 0,
            PredefinedPageOutputColor::Grayscale => 1,
            PredefinedPageOutputColor::Monochrome => 2,
        }
    }

    fn from_code(code: u16) -> (r: Option<Self>) {
        match code {
            0 => Some(PredefinedPageOutputColor::Color),
            1 => Some(PredefinedPageOutputColor::Grayscale),
            2 => Some(PredefinedPageOutputColor::Monochrome),
            _ => None,
        }
    }

    proof fn lemma_code_round_trip(self) {
    }

    proof fn lemma_from_code_inverse(code: u16) {
    }
}

/// The IPP `print-color-mode` keywords that stand for print-schema output
/// colors, in the order in which the map inserts them.
pub open spec fn print_color_pairs() -> Seq<(Seq<char>, PredefinedPageOutputColor)> {
    seq![
        ("monochrome"@, PredefinedPageOutputColor::Monochrome),
        ("grayscale"@, PredefinedPageOutputColor::Grayscale),
        ("color"@, PredefinedPageOutputColor::Color),
    ]
}

/// The keyword–code pairs the color map holds.
pub open spec fn print_color_relation() -> Set<(Seq<char>, u16)> {
    pairs_from(coded_table(print_color_pairs()))
}

/// The table of `print_color_pairs`, as values.
fn print_color_table() -> (t: Vec<(&'static str, PredefinedPageOutputColor)>)
    ensures
        named_table_view(t@) == print_color_pairs(),
{
    let t = vec![
        ("monochrome", PredefinedPageOutputColor::Monochrome),
        ("grayscale", PredefinedPageOutputColor::Grayscale),
        ("color", PredefinedPageOutputColor::Color),
    ];
    assert(named_table_view(t@) =~= print_color_pairs());
    t
}

/// The map between IPP `print-color-mode` keywords and print-schema output colors.
pub struct PrintColorMap {
    map: KeywordMap,
}

impl View for PrintColorMap {
    type V = Set<(Seq<char>, u16)>;

    /// The pairs the map holds: each `print-color-mode` keyword and the code of the print-schema output color.
    closed spec fn view(&self) -> Set<(Seq<char>, u16)> {
        self.map@
    }
}

impl PrintColorMap {
    /// The map holds the pairs of `print_color_pairs`.
    #[verifier::type_invariant]
    spec fn holds_table(self) -> bool {
        &&& self.map@ == print_color_relation()
        &&& self.map.wf()
        &&& codes_all_named::<Seq<char>, PredefinedPageOutputColor>(self.map@)
    }

    /// Builds the map from `print_color_pairs`.
    pub fn new() -> (m: Self)
        ensures
            m@ == print_color_relation(),
    {
        let table = coded_pairs(&print_color_table());
        let map = KeywordMap::from_pairs(&table);
        proof {
            lemma_coded_table_named(print_color_pairs());
        }
        PrintColorMap { map }
    }

    /// The color name that the keyword `key` stands for.
    pub fn ipp_to_sys(&self, key: &str) -> (r: Option<PredefinedPageOutputColor>)
        ensures
            r == name_of_code::<PredefinedPageOutputColor>(right_of(print_color_relation(), key@)),
    {
        proof {
            use_type_invariant(self);
        }
        self.map.name_for_keyword(key)
    }

    /// The keyword that stands for the color name `name`.
    pub fn sys_to_ipp(&self, name: PredefinedPageOutputColor) -> (r: Option<&'static str>)
        ensures
            opt_keyword_view(r) == left_of(print_color_relation(), name.spec_code()),
    {
        proof {
            use_type_invariant(self);
        }
        self.map.keyword_for_name(name)
    }

    /// The keywords of the color names of `packs`, in order, skipping the
    /// packs that have no color name or whose name has no keyword.
    pub fn all_supported_by_win(&self, packs: &Vec<Option<PredefinedPageOutputColor>>) -> (r: Vec<&'static str>)
        ensures
            r@.map_values(|k: &'static str| k@) == lefts_of_rights(print_color_relation(), codes_of(packs@)),
    {
        proof {
            use_type_invariant(self);
        }
        self.map.keywords_for_names(packs)
    }

    /// The position of the first pack whose color name is the one `key`
    /// stands for; `None` when `key` stands for none or no pack has it.
    pub fn find_by_ipp(&self, packs: &Vec<Option<PredefinedPageOutputColor>>, key: &str) -> (r: Option<usize>)
        ensures
            match name_of_code::<PredefinedPageOutputColor>(right_of(print_color_relation(), key@)) {
                Some(n) => is_first_position(packs@, Some(n), r),
                None => r is None,
            },
    {
        proof {
            use_type_invariant(self);
        }
        self.map.find_name_by_keyword(packs, key)
    }
}

/// A color keyword stands for a color name exactly when that name's
/// keyword is the color keyword.
pub proof fn lemma_print_color_round_trip(key: Seq<char>, name: PredefinedPageOutputColor)
    ensures
        name_of_code::<PredefinedPageOutputColor>(right_of(print_color_relation(), key)) == Some(name)
            <==> left_of(print_color_relation(), name.spec_code()) == Some(key),
{
    lemma_pairs_from_one_to_one(coded_table(print_color_pairs()));
    lemma_coded_table_named(print_color_pairs());
    lemma_name_keyword_round_trip(print_color_relation(), key, name);
}

/// Every keyword reported as supported for some packs is found among those
/// packs again: it stands for a color name that one of the packs has, so
/// `find_by_ipp` finds a pack for it.
pub proof fn lemma_print_color_supported_found(packs: Seq<Option<PredefinedPageOutputColor>>, key: Seq<char>)
    requires
        lefts_of_rights(print_color_relation(), codes_of(packs)).contains(key),
    ensures
        name_of_code::<PredefinedPageOutputColor>(right_of(print_color_relation(), key)) is Some,
        exists|i: int| 0 <= i < packs.len() && packs[i] == name_of_code::<PredefinedPageOutputColor>(right_of(print_color_relation(), key)),
{
    lemma_pairs_from_one_to_one(coded_table(print_color_pairs()));
    lemma_supported_key_found(print_color_relation(), packs, key);
}


/// Each `print-color-mode` keyword stands for the print-schema output color of the same
/// meaning, and back.
pub proof fn lemma_print_color_same_names()
    ensures
        right_of(print_color_relation(), "monochrome"@) == Some(PredefinedPageOutputColor::Monochrome.spec_code()),
        right_of(print_color_relation(), "grayscale"@) == Some(PredefinedPageOutputColor::Grayscale.spec_code()),
        right_of(print_color_relation(), "color"@) == Some(PredefinedPageOutputColor::Color.spec_code()),
        left_of(print_color_relation(), PredefinedPageOutputColor::Monochrome.spec_code()) == Some("monochrome"@),
        left_of(print_color_relation(), PredefinedPageOutputColor::Grayscale.spec_code()) == Some("grayscale"@),
        left_of(print_color_relation(), PredefinedPageOutputColor::Color.spec_code()) == Some("color"@),
{
    let t = coded_table(print_color_pairs());
    reveal_strlit("monochrome");
    reveal_strlit("grayscale");
    reveal_strlit("color");
    assert(t =~= seq![("monochrome"@, PredefinedPageOutputColor::Monochrome.spec_code()), ("grayscale"@, PredefinedPageOutputColor::Grayscale.spec_code()), ("color"@, PredefinedPageOutputColor::Color.spec_code())]);
    assert forall|i: int, j: int| 0 <= i < j < t.len() implies (#[trigger] t[i]).0 != (#[trigger] t[j]).0
        && t[i].1 != t[j].1 by {
        assert(t[i].0.len() != t[j].0.len());
    }
    lemma_pairs_from_distinct(t);
    lemma_pairs_from_one_to_one(t);
    let rel = print_color_relation();
    assert(t[0] == ("monochrome"@, PredefinedPageOutputColor::Monochrome.spec_code()));
    lemma_right_of_unique(rel, "monochrome"@, PredefinedPageOutputColor::Monochrome.spec_code());
    lemma_left_of_unique(rel, "monochrome"@, PredefinedPageOutputColor::Monochrome.spec_code());
    assert(t[1] == ("grayscale"@, PredefinedPageOutputColor::Grayscale.spec_code()));
    lemma_right_of_unique(rel, "grayscale"@, PredefinedPageOutputColor::Grayscale.spec_code());
    lemma_left_of_unique(rel, "grayscale"@, PredefinedPageOutputColor::Grayscale.spec_code());
    assert(t[2] == ("color"@, PredefinedPageOutputColor::Color.spec_code()));
    lemma_right_of_unique(rel, "color"@, PredefinedPageOutputColor::Color.spec_code());
    lemma_left_of_unique(rel, "color"@, PredefinedPageOutputColor::Color.spec_code());
}

} // verus!
