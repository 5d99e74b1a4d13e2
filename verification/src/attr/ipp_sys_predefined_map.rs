use vstd::prelude::*;
use bimap::BiHashMap;
use super::pair_relation::{
    insert_pair, is_first_position, is_one_to_one, left_of, lefts_of_rights, pairs_from, right_of,
    lemma_left_of_unique, lemma_lefts_of_rights_known, lemma_pairs_from_one_to_one,
    lemma_pairs_from_within, lemma_right_of_unique,
};

verus! {

/// `bimap::BiHashMap`, a bidirectional hash map; its contents are named by
/// `keyword_pairs` and `enum_value_pairs` below.
#[verifier::external_type_specification]
#[verifier::external_body]
#[verifier::reject_recursive_types(L)]
#[verifier::reject_recursive_types(R)]
#[verifier::reject_recursive_types(LS)]
#[verifier::reject_recursive_types(RS)]
pub struct ExBiHashMap<L, R, LS, RS>(BiHashMap<L, R, LS, RS>);

/// The left–right pairs a bimap from IPP keywords to print-schema codes holds.
pub uninterp spec fn keyword_pairs(m: BiHashMap<&'static str, u16>) -> Set<(Seq<char>, u16)>;

/// The left–right pairs a bimap from IPP enum values to print-schema codes holds.
pub uninterp spec fn enum_value_pairs(m: BiHashMap<i32, u16>) -> Set<(i32, u16)>;

/// `BiHashMap::new`: the new bimap holds no pair.
#[verifier::external_body]
fn keyword_bimap_new() -> (m: BiHashMap<&'static str, u16>)
    ensures
        keyword_pairs(m) == Set::<(Seq<char>, u16)>::empty(),
{
    BiHashMap::new()
}

/// `BiHashMap::insert`: the pairs that share the left or the right value
/// with `(left, right)` are removed, then `(left, right)` is added.
#[verifier::external_body]
fn keyword_bimap_insert(m: &mut BiHashMap<&'static str, u16>, left: &'static str, right: u16)
    ensures
        keyword_pairs(*final(m)) == insert_pair(keyword_pairs(*old(m)), left@, right),
{
    m.insert(left, right);
}

/// `BiHashMap::get_by_left`: a right value paired with `left`, or `None`
/// when no pair has that left value.
#[verifier::external_body]
fn keyword_bimap_get_by_left(m: &BiHashMap<&'static str, u16>, left: &str) -> (r: Option<u16>)
    ensures
        r matches Some(c) ==> keyword_pairs(*m).contains((left@, c)),
        r is None ==> forall|c: u16| !keyword_pairs(*m).contains((left@, c)),
{
    m.get_by_left(left).copied()
}

/// `BiHashMap::get_by_right`: a left value paired with `right`, or `None`
/// when no pair has that right value.
#[verifier::external_body]
fn keyword_bimap_get_by_right(m: &BiHashMap<&'static str, u16>, right: u16) -> (r: Option<&'static str>)
    ensures
        r matches Some(k) ==> keyword_pairs(*m).contains((k@, right)),
        r is None ==> forall|k: Seq<char>| !keyword_pairs(*m).contains((k, right)),
{
    m.get_by_right(&right).copied()
}

/// `BiHashMap::new`: the new bimap holds no pair.
#[verifier::external_body]
fn enum_value_bimap_new() -> (m: BiHashMap<i32, u16>)
    ensures
        enum_value_pairs(m) == Set::<(i32, u16)>::empty(),
{
    BiHashMap::new()
}

/// `BiHashMap::insert`: the pairs that share the left or the right value
/// with `(left, right)` are removed, then `(left, right)` is added.
#[verifier::external_body]
fn enum_value_bimap_insert(m: &mut BiHashMap<i32, u16>, left: i32, right: u16)
    ensures
        enum_value_pairs(*final(m)) == insert_pair(enum_value_pairs(*old(m)), left, right),
{
    m.insert(left, right);
}

/// `BiHashMap::get_by_left`: a right value paired with `left`, or `None`
/// when no pair has that left value.
#[verifier::external_body]
fn enum_value_bimap_get_by_left(m: &BiHashMap<i32, u16>, left: i32) -> (r: Option<u16>)
    ensures
        r matches Some(c) ==> enum_value_pairs(*m).contains((left, c)),
        r is None ==> forall|c: u16| !enum_value_pairs(*m).contains((left, c)),
{
    m.get_by_left(&left).copied()
}

/// `BiHashMap::get_by_right`: a left value paired with `right`, or `None`
/// when no pair has that right value.
#[verifier::external_body]
fn enum_value_bimap_get_by_right(m: &BiHashMap<i32, u16>, right: u16) -> (r: Option<i32>)
    ensures
        r matches Some(k) ==> enum_value_pairs(*m).contains((k, right)),
        r is None ==> forall|k: i32| !enum_value_pairs(*m).contains((k, right)),
{
    m.get_by_right(&right).copied()
}

/// The views of the keywords of a table of keyword–code pairs.
pub open spec fn keyword_table_view(table: Seq<(&'static str, u16)>) -> Seq<(Seq<char>, u16)> {
    table.map_values(|p: (&'static str, u16)| (p.0@, p.1))
}

/// The view of an optional keyword.
pub open spec fn opt_keyword_view(k: Option<&'static str>) -> Option<Seq<char>> {
    match k {
        Some(s) => Some(s@),
        None => None,
    }
}

/// A one-to-one map between IPP keywords and print-schema codes, held in a
/// `BiHashMap`.
pub struct KeywordMap {
    pairs: BiHashMap<&'static str, u16>,
}

impl View for KeywordMap {
    type V = Set<(Seq<char>, u16)>;

    closed spec fn view(&self) -> Set<(Seq<char>, u16)> {
        keyword_pairs(self.pairs)
    }
}

impl KeywordMap {
    /// Every keyword has at most one code and every code at most one keyword.
    pub open spec fn wf(&self) -> bool {
        is_one_to_one(self@)
    }

    /// Builds the map by inserting the pairs of `table` in order, as
    /// `BiHashMap::from_iter` does.
    pub fn from_pairs(table: &Vec<(&'static str, u16)>) -> (m: Self)
        ensures
            m@ == pairs_from(keyword_table_view(table@)),
            m.wf(),
    {
        let ghost entries = keyword_table_view(table@);
        let mut pairs = keyword_bimap_new();
        let mut i: usize = 0;
        assert(entries.take(0) =~= Seq::<(Seq<char>, u16)>::empty());
        while i < table.len()
            invariant
                i <= table.len(),
                entries == keyword_table_view(table@),
                keyword_pairs(pairs) == pairs_from(entries.take(i as int)),
            decreases table.len() - i,
        {
            let (left, right) = table[i];
            keyword_bimap_insert(&mut pairs, left, right);
            assert(entries.take(i + 1).drop_last() =~= entries.take(i as int));
            i += 1;
        }
        assert(entries.take(table.len() as int) =~= entries);
        proof {
            lemma_pairs_from_one_to_one(entries);
        }
        KeywordMap { pairs }
    }

    /// The code paired with `key`.
    pub fn ipp_to_sys(&self, key: &str) -> (r: Option<u16>)
        requires
            self.wf(),
        ensures
            r == right_of(self@, key@),
    {
        let r = keyword_bimap_get_by_left(&self.pairs, key);
        proof {
            if let Some(c) = r {
                lemma_right_of_unique(self@, key@, c);
            }
        }
        r
    }

    /// The keyword paired with `code`.
    pub fn sys_to_ipp(&self, code: u16) -> (r: Option<&'static str>)
        requires
            self.wf(),
        ensures
            opt_keyword_view(r) == left_of(self@, code),
    {
        let r = keyword_bimap_get_by_right(&self.pairs, code);
        proof {
            if let Some(k) = r {
                lemma_left_of_unique(self@, k@, code);
            }
        }
        r
    }

    /// The keywords of the codes in `packs`, in order, skipping the entries
    /// that have no code or whose code has no keyword.
    pub fn all_supported_by_win(&self, packs: &Vec<Option<u16>>) -> (r: Vec<&'static str>)
        requires
            self.wf(),
        ensures
            r@.map_values(|k: &'static str| k@) == lefts_of_rights(self@, packs@),
    {
        let mut r: Vec<&'static str> = Vec::new();
        let mut i: usize = 0;
        while i < packs.len()
            invariant
                i <= packs.len(),
                self.wf(),
                r@.map_values(|k: &'static str| k@) == lefts_of_rights(self@, packs@.take(i as int)),
            decreases packs.len() - i,
        {
            assert(packs@.take(i + 1).drop_last() =~= packs@.take(i as int));
            if let Some(code) = packs[i] {
                if let Some(k) = self.sys_to_ipp(code) {
                    r.push(k);
                }
            }
            assert(r@.map_values(|k: &'static str| k@) =~= lefts_of_rights(self@, packs@.take(i + 1)));
            i += 1;
        }
        assert(packs@.take(packs.len() as int) =~= packs@);
        r
    }

    /// The position of the first pack whose code is the one paired with
    /// `key`; `None` when `key` has no code or no pack has it.
    pub fn find_by_ipp(&self, packs: &Vec<Option<u16>>, key: &str) -> (r: Option<usize>)
        requires
            self.wf(),
        ensures
            match right_of(self@, key@) {
                Some(c) => is_first_position(packs@, Some(c), r),
                None => r is None,
            },
    {
        let code = self.ipp_to_sys(key);
        match code {
            None => None,
            Some(c) => {
                let mut i: usize = 0;
                while i < packs.len()
                    invariant
                        i <= packs.len(),
                        forall|j: int| 0 <= j < i ==> packs@[j] != Some(c),
                        right_of(self@, key@) == Some(c),
                    decreases packs.len() - i,
                {
                    if let Some(found) = packs[i] {
                        if found == c {
                            return Some(i);
                        }
                    }
                    i += 1;
                }
                None
            },
        }
    }
}

/// A one-to-one map between IPP enum values and print-schema codes, held in
/// a `BiHashMap`.
pub struct EnumValueMap {
    pairs: BiHashMap<i32, u16>,
}

impl View for EnumValueMap {
    type V = Set<(i32, u16)>;

    closed spec fn view(&self) -> Set<(i32, u16)> {
        enum_value_pairs(self.pairs)
    }
}

impl EnumValueMap {
    /// Every enum value has at most one code and every code at most one enum value.
    pub open spec fn wf(&self) -> bool {
        is_one_to_one(self@)
    }

    /// Builds the map by inserting the pairs of `table` in order, as
    /// `BiHashMap::from_iter` does.
    pub fn from_pairs(table: &Vec<(i32, u16)>) -> (m: Self)
        ensures
            m@ == pairs_from(table@),
            m.wf(),
    {
        let mut pairs = enum_value_bimap_new();
        let mut i: usize = 0;
        assert(table@.take(0) =~= Seq::<(i32, u16)>::empty());
        while i < table.len()
            invariant
                i <= table.len(),
                enum_value_pairs(pairs) == pairs_from(table@.take(i as int)),
            decreases table.len() - i,
        {
            let (left, right) = table[i];
            enum_value_bimap_insert(&mut pairs, left, right);
            assert(table@.take(i + 1).drop_last() =~= table@.take(i as int));
            i += 1;
        }
        assert(table@.take(table.len() as int) =~= table@);
        proof {
            lemma_pairs_from_one_to_one(table@);
        }
        EnumValueMap { pairs }
    }

    /// The code paired with `value`.
    pub fn ipp_to_sys(&self, value: i32) -> (r: Option<u16>)
        requires
            self.wf(),
        ensures
            r == right_of(self@, value),
    {
        let r = enum_value_bimap_get_by_left(&self.pairs, value);
        proof {
            if let Some(c) = r {
                lemma_right_of_unique(self@, value, c);
            }
        }
        r
    }

    /// The enum value paired with `code`.
    pub fn sys_to_ipp(&self, code: u16) -> (r: Option<i32>)
        requires
            self.wf(),
        ensures
            r == left_of(self@, code),
    {
        let r = enum_value_bimap_get_by_right(&self.pairs, code);
        proof {
            if let Some(k) = r {
                lemma_left_of_unique(self@, k, code);
            }
        }
        r
    }

    /// The enum values of the codes in `packs`, in order, skipping the
    /// entries that have no code or whose code has no enum value.
    pub fn all_supported_by_win(&self, packs: &Vec<Option<u16>>) -> (r: Vec<i32>)
        requires
            self.wf(),
        ensures
            r@ == lefts_of_rights(self@, packs@),
    {
        let mut r: Vec<i32> = Vec::new();
        let mut i: usize = 0;
        while i < packs.len()
            invariant
                i <= packs.len(),
                self.wf(),
                r@ == lefts_of_rights(self@, packs@.take(i as int)),
            decreases packs.len() - i,
        {
            assert(packs@.take(i + 1).drop_last() =~= packs@.take(i as int));
            if let Some(code) = packs[i] {
                if let Some(k) = self.sys_to_ipp(code) {
                    r.push(k);
                }
            }
            i += 1;
        }
        assert(packs@.take(packs.len() as int) =~= packs@);
        r
    }

    /// The position of the first pack whose code is the one paired with
    /// `value`; `None` when `value` has no code or no pack has it.
    pub fn find_by_ipp(&self, packs: &Vec<Option<u16>>, value: i32) -> (r: Option<usize>)
        requires
            self.wf(),
        ensures
            match right_of(self@, value) {
                Some(c) => is_first_position(packs@, Some(c), r),
                None => r is None,
            },
    {
        let code = self.ipp_to_sys(value);
        match code {
            None => None,
            Some(c) => {
                let mut i: usize = 0;
                while i < packs.len()
                    invariant
                        i <= packs.len(),
                        forall|j: int| 0 <= j < i ==> packs@[j] != Some(c),
                        right_of(self@, value) == Some(c),
                    decreases packs.len() - i,
                {
                    if let Some(found) = packs[i] {
                        if found == c {
                            return Some(i);
                        }
                    }
                    i += 1;
                }
                None
            },
        }
    }
}

/// A print-schema name that is stored in a bimap by its code.
pub trait PredefinedCode: Sized + Copy {
    /// The code that stands for the name.
    spec fn spec_code(self) -> u16;

    /// The name a code stands for, if any.
    spec fn spec_from_code(code: u16) -> Option<Self>;

    /// The code that stands for the name.
    fn code(&self) -> (c: u16)
        ensures
            c == self.spec_code(),
    ;

    /// The name a code stands for, if any.
    fn from_code(code: u16) -> (r: Option<Self>)
        ensures
            r == Self::spec_from_code(code),
    ;

    /// A name's code leads back to the name.
    proof fn lemma_code_round_trip(self)
        ensures
            Self::spec_from_code(self.spec_code()) == Some(self),
    ;

    /// A code that leads to a name is that name's code.
    proof fn lemma_from_code_inverse(code: u16)
        ensures
            Self::spec_from_code(code) matches Some(n) ==> n.spec_code() == code,
    ;
}

/// The codes of the names of a table.
pub open spec fn coded_table<L, P: PredefinedCode>(table: Seq<(L, P)>) -> Seq<(L, u16)> {
    table.map_values(|p: (L, P)| (p.0, p.1.spec_code()))
}

/// The codes of optional names.
pub open spec fn codes_of<P: PredefinedCode>(packs: Seq<Option<P>>) -> Seq<Option<u16>> {
    packs.map_values(|p: Option<P>| match p {
        Some(n) => Some(n.spec_code()),
        None => None,
    })
}

/// The name an optional code stands for.
pub open spec fn name_of_code<P: PredefinedCode>(code: Option<u16>) -> Option<P> {
    match code {
        Some(c) => P::spec_from_code(c),
        None => None,
    }
}

/// Every code of the relation stands for a name.
pub open spec fn codes_all_named<L, P: PredefinedCode>(rel: Set<(L, u16)>) -> bool {
    forall|p: (L, u16)| #[trigger] rel.contains(p) ==> P::spec_from_code(p.1) is Some
}

/// A bimap built from a table of names holds only codes that stand for names.
pub proof fn lemma_coded_table_named<L, P: PredefinedCode>(table: Seq<(L, P)>)
    ensures
        codes_all_named::<L, P>(pairs_from(coded_table(table))),
{
    let coded = coded_table(table);
    assert forall|p: (L, u16)| #[trigger] pairs_from(coded).contains(p) implies P::spec_from_code(
        p.1,
    ) is Some by {
        lemma_pairs_from_within(coded, p);
        let i = choose|i: int| 0 <= i < coded.len() && coded[i] == p;
        table[i].1.lemma_code_round_trip();
    }
}

/// The converted codes of optional names.
fn pack_codes<P: PredefinedCode>(packs: &Vec<Option<P>>) -> (r: Vec<Option<u16>>)
    ensures
        r@ == codes_of(packs@),
{
    let mut r: Vec<Option<u16>> = Vec::new();
    let mut i: usize = 0;
    while i < packs.len()
        invariant
            i <= packs.len(),
            r@ == codes_of(packs@.take(i as int)),
        decreases packs.len() - i,
    {
        let c = match packs[i] {
            Some(n) => Some(n.code()),
            None => None,
        };
        r.push(c);
        assert(codes_of(packs@.take(i + 1)) =~= codes_of(packs@.take(i as int)).push(c));
        i += 1;
    }
    assert(packs@.take(packs.len() as int) =~= packs@);
    r
}

/// The views of the keywords of a table of keyword–name pairs.
pub open spec fn named_table_view<P>(table: Seq<(&'static str, P)>) -> Seq<(Seq<char>, P)> {
    table.map_values(|p: (&'static str, P)| (p.0@, p.1))
}

/// The table with each name replaced by its code.
pub fn coded_pairs<P: PredefinedCode>(table: &Vec<(&'static str, P)>) -> (r: Vec<(&'static str, u16)>)
    ensures
        keyword_table_view(r@) == coded_table(named_table_view(table@)),
{
    let mut r: Vec<(&'static str, u16)> = Vec::new();
    let mut i: usize = 0;
    while i < table.len()
        invariant
            i <= table.len(),
            keyword_table_view(r@) == coded_table(named_table_view(table@.take(i as int))),
        decreases table.len() - i,
    {
        let (k, n) = table[i];
        r.push((k, n.code()));
        assert(coded_table(named_table_view(table@.take(i + 1))) =~= coded_table(
            named_table_view(table@.take(i as int)),
        ).push((k@, n.spec_code())));
        assert(keyword_table_view(r@) =~= keyword_table_view(r@.drop_last()).push((k@, n.spec_code())));
        i += 1;
    }
    assert(table@.take(table.len() as int) =~= table@);
    r
}

/// A key maps to a name exactly when that name maps back to the key, for
/// every one-to-one relation whose codes all stand for names.
pub proof fn lemma_name_keyword_round_trip<L, P: PredefinedCode>(
    rel: Set<(L, u16)>,
    key: L,
    name: P,
)
    requires
        is_one_to_one(rel),
        codes_all_named::<L, P>(rel),
    ensures
        name_of_code::<P>(right_of(rel, key)) == Some(name) <==> left_of(rel, name.spec_code())
            == Some(key),
{
    name.lemma_code_round_trip();
    lemma_left_of_unique(rel, key, name.spec_code());
    if let Some(c) = right_of(rel, key) {
        lemma_right_of_unique(rel, key, c);
        P::lemma_from_code_inverse(c);
    } else {
        if rel.contains((key, name.spec_code())) {
            assert(exists|r: u16| rel.contains((key, r)));
        }
    }
}

/// Every key reported as supported for some packs is found among those
/// packs again: it stands for a name, and one of the packs has that name.
pub proof fn lemma_supported_key_found<L, P: PredefinedCode>(
    rel: Set<(L, u16)>,
    packs: Seq<Option<P>>,
    key: L,
)
    requires
        is_one_to_one(rel),
        lefts_of_rights(rel, codes_of(packs)).contains(key),
    ensures
        name_of_code::<P>(right_of(rel, key)) is Some,
        exists|i: int| 0 <= i < packs.len() && packs[i] == name_of_code::<P>(right_of(rel, key)),
{
    let codes = codes_of(packs);
    lemma_lefts_of_rights_known(rel, codes, key);
    let i = choose|i: int| 0 <= i < codes.len() && codes[i] is Some && right_of(rel, key) == Some(codes[i]->0);
    let n = packs[i]->0;
    n.lemma_code_round_trip();
    assert(packs[i] == name_of_code::<P>(right_of(rel, key)));
}

impl KeywordMap {
    /// The name whose code is paired with `key`.
    pub fn name_for_keyword<P: PredefinedCode>(&self, key: &str) -> (r: Option<P>)
        requires
            self.wf(),
        ensures
            r == name_of_code::<P>(right_of(self@, key@)),
    {
        match self.ipp_to_sys(key) {
            Some(c) => P::from_code(c),
            None => None,
        }
    }

    /// The keyword paired with the code of `name`.
    pub fn keyword_for_name<P: PredefinedCode>(&self, name: P) -> (r: Option<&'static str>)
        requires
            self.wf(),
        ensures
            opt_keyword_view(r) == left_of(self@, name.spec_code()),
    {
        self.sys_to_ipp(name.code())
    }

    /// The keywords of the names in `packs`, in order, skipping the entries
    /// that have no name or whose name has no keyword.
    pub fn keywords_for_names<P: PredefinedCode>(&self, packs: &Vec<Option<P>>) -> (r: Vec<&'static str>)
        requires
            self.wf(),
        ensures
            r@.map_values(|k: &'static str| k@) == lefts_of_rights(self@, codes_of(packs@)),
    {
        let codes = pack_codes(packs);
        self.all_supported_by_win(&codes)
    }

    /// The position of the first pack whose name is the one paired with
    /// `key`; `None` when `key` has no name or no pack has it.
    pub fn find_name_by_keyword<P: PredefinedCode>(&self, packs: &Vec<Option<P>>, key: &str) -> (r: Option<usize>)
        requires
            self.wf(),
            codes_all_named::<Seq<char>, P>(self@),
        ensures
            match name_of_code::<P>(right_of(self@, key@)) {
                Some(n) => is_first_position(packs@, Some(n), r),
                None => r is None,
            },
    {
        let codes = pack_codes(packs);
        let r = self.find_by_ipp(&codes, key);
        proof {
            if let Some(c) = right_of(self@, key@) {
                lemma_right_of_unique(self@, key@, c);
                assert(self@.contains((key@, c)));
                assert(P::spec_from_code(c) is Some);
                P::lemma_from_code_inverse(c);
                let n = P::spec_from_code(c).unwrap();
                assert forall|j: int| 0 <= j < packs@.len() implies (codes@[j] == Some(c) <==> packs@[j] == Some(n)) by {
                    if let Some(m) = packs@[j] {
                        m.lemma_code_round_trip();
                    }
                }
                match r {
                    Some(i) => {
                        assert(codes@[i as int] == Some(c));
                        assert forall|j: int| 0 <= j < i implies packs@[j] != Some(n) by {
                            assert(codes@[j] != Some(c));
                        }
                    },
                    None => {
                        assert forall|j: int| 0 <= j < packs@.len() implies packs@[j] != Some(n) by {
                            assert(codes@[j] != Some(c));
                        }
                    },
                }
            }
        }
        r
    }
}

impl EnumValueMap {
    /// The name whose code is paired with `value`.
    pub fn name_for_value<P: PredefinedCode>(&self, value: i32) -> (r: Option<P>)
        requires
            self.wf(),
        ensures
            r == name_of_code::<P>(right_of(self@, value)),
    {
        match self.ipp_to_sys(value) {
            Some(c) => P::from_code(c),
            None => None,
        }
    }

    /// The enum value paired with the code of `name`.
    pub fn value_for_name<P: PredefinedCode>(&self, name: P) -> (r: Option<i32>)
        requires
            self.wf(),
        ensures
            r == left_of(self@, name.spec_code()),
    {
        self.sys_to_ipp(name.code())
    }

    /// The enum values of the names in `packs`, in order, skipping the
    /// entries that have no name or whose name has no enum value.
    pub fn values_for_names<P: PredefinedCode>(&self, packs: &Vec<Option<P>>) -> (r: Vec<i32>)
        requires
            self.wf(),
        ensures
            r@ == lefts_of_rights(self@, codes_of(packs@)),
    {
        let codes = pack_codes(packs);
        self.all_supported_by_win(&codes)
    }

    /// The position of the first pack whose name is the one paired with
    /// `value`; `None` when `value` has no name or no pack has it.
    pub fn find_name_by_value<P: PredefinedCode>(&self, packs: &Vec<Option<P>>, value: i32) -> (r: Option<usize>)
        requires
            self.wf(),
            codes_all_named::<i32, P>(self@),
        ensures
            match name_of_code::<P>(right_of(self@, value)) {
                Some(n) => is_first_position(packs@, Some(n), r),
                None => r is None,
            },
    {
        let codes = pack_codes(packs);
        let r = self.find_by_ipp(&codes, value);
        proof {
            if let Some(c) = right_of(self@, value) {
                lemma_right_of_unique(self@, value, c);
                assert(self@.contains((value, c)));
                assert(P::spec_from_code(c) is Some);
                P::lemma_from_code_inverse(c);
                let n = P::spec_from_code(c).unwrap();
                assert forall|j: int| 0 <= j < packs@.len() implies (codes@[j] == Some(c) <==> packs@[j] == Some(n)) by {
                    if let Some(m) = packs@[j] {
                        m.lemma_code_round_trip();
                    }
                }
                match r {
                    Some(i) => {
                        assert(codes@[i as int] == Some(c));
                        assert forall|j: int| 0 <= j < i implies packs@[j] != Some(n) by {
                            assert(codes@[j] != Some(c));
                        }
                    },
                    None => {
                        assert forall|j: int| 0 <= j < packs@.len() implies packs@[j] != Some(n) by {
                            assert(codes@[j] != Some(c));
                        }
                    },
                }
            }
        }
        r
    }
}

} // verus!
