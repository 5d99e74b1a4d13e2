use vstd::prelude::*;
use crate::attr::printer_resolution::Resolution;
use crate::ipp_values::{fits_keyword, keyword_accepted};
use crate::text::{int_decimal, int_to_decimal, join, joined};

verus! {

/// Every element is smaller than every later one.
pub open spec fn strictly_increasing(s: Seq<i32>) -> bool {
    forall|i: int, j: int| 0 <= i < j < s.len() ==> s[i] < s[j]
}

/// `x` put into its place in the increasing sequence `s`, unless `s`
/// already holds it.
pub open spec fn insert_sorted(s: Seq<i32>, x: i32) -> Seq<i32>
    decreases s.len(),
{
    if s.len() == 0 {
        seq![x]
    } else if s[0] == x {
        s
    } else if x < s[0] {
        seq![x] + s
    } else {
        seq![s[0]] + insert_sorted(s.drop_first(), x)
    }
}

/// The distinct values of `s`, in increasing order.
pub open spec fn sorted_distinct(s: Seq<i32>) -> Seq<i32>
    decreases s.len(),
{
    if s.len() == 0 {
        Seq::empty()
    } else {
        insert_sorted(sorted_distinct(s.drop_last()), s.last())
    }
}

/// Inserting at the first place that does not hold a smaller value.
proof fn lemma_insert_sorted_at(s: Seq<i32>, x: i32, i: int)
    requires
        strictly_increasing(s),
        0 <= i <= s.len(),
        forall|j: int| 0 <= j < i ==> s[j] < x,
        i < s.len() ==> s[i] >= x,
    ensures
        insert_sorted(s, x) == (if i < s.len() && s[i] == x {
            s
        } else {
            s.insert(i, x)
        }),
    decreases s.len(),
{
    if s.len() == 0 {
        assert(s.insert(0, x) =~= seq![x]);
    } else if i == 0 {
        if s[0] != x {
            assert(s.insert(0, x) =~= seq![x] + s);
        }
    } else {
        let tail = s.drop_first();
        lemma_insert_sorted_at(tail, x, i - 1);
        if i < s.len() && s[i] == x {
            assert(seq![s[0]] + tail =~= s);
        } else {
            assert(seq![s[0]] + tail.insert(i - 1, x) =~= s.insert(i, x));
        }
    }
}

/// Inserting keeps the sequence increasing and adds exactly `x` to its values.
proof fn lemma_insert_sorted_properties(s: Seq<i32>, x: i32)
    requires
        strictly_increasing(s),
    ensures
        strictly_increasing(insert_sorted(s, x)),
        insert_sorted(s, x).to_set() == s.to_set().insert(x),
    decreases s.len(),
{
    if s.len() == 0 {
        assert(seq![x].to_set() =~= Set::<i32>::empty().insert(x)) by {
            assert(seq![x][0] == x);
        }
        assert(s.to_set() =~= Set::<i32>::empty());
    } else if s[0] == x {
        assert(s.to_set() =~= s.to_set().insert(x)) by {
            assert(s.contains(x));
        }
    } else if x < s[0] {
        let r = seq![x] + s;
        assert forall|a: i32| r.to_set().contains(a) <==> s.to_set().insert(x).contains(a) by {
            if r.contains(a) {
                let k = choose|k: int| 0 <= k < r.len() && r[k] == a;
                if k > 0 {
                    assert(s[k - 1] == a);
                }
            }
            if s.contains(a) {
                let k = choose|k: int| 0 <= k < s.len() && s[k] == a;
                assert(r[k + 1] == a);
            }
            if a == x {
                assert(r[0] == a);
            }
        }
        assert(r.to_set() =~= s.to_set().insert(x));
    } else {
        let tail = s.drop_first();
        lemma_insert_sorted_properties(tail, x);
        let rest = insert_sorted(tail, x);
        let r = seq![s[0]] + rest;
        assert forall|k: int| 0 <= k < rest.len() implies s[0] < #[trigger] rest[k] by {
            assert(rest.to_set().contains(rest[k]));
            assert(tail.to_set().insert(x).contains(rest[k]));
            if rest[k] != x {
                assert(tail.contains(rest[k]));
                let m = choose|m: int| 0 <= m < tail.len() && tail[m] == rest[k];
                assert(s[m + 1] == rest[k]);
            }
        }
        assert(strictly_increasing(r)) by {
            assert forall|i: int, j: int| 0 <= i < j < r.len() implies r[i] < r[j] by {
                if i == 0 {
                    assert(r[j] == rest[j - 1]);
                } else {
                    assert(r[i] == rest[i - 1] && r[j] == rest[j - 1]);
                }
            }
        }
        assert forall|a: i32| r.to_set().contains(a) <==> s.to_set().insert(x).contains(a) by {
            if r.contains(a) {
                let k = choose|k: int| 0 <= k < r.len() && r[k] == a;
                if k > 0 {
                    assert(rest[k - 1] == a);
                    assert(rest.to_set().contains(a));
                    if a != x {
                        assert(tail.contains(a));
                        let m = choose|m: int| 0 <= m < tail.len() && tail[m] == a;
                        assert(s[m + 1] == a);
                    }
                } else {
                    assert(s[0] == a);
                }
            }
            if s.contains(a) {
                let k = choose|k: int| 0 <= k < s.len() && s[k] == a;
                if k == 0 {
                    assert(r[0] == a);
                } else {
                    assert(tail[k - 1] == a);
                    assert(tail.to_set().contains(a));
                    assert(rest.to_set().contains(a));
                    let m = choose|m: int| 0 <= m < rest.len() && rest[m] == a;
                    assert(r[m + 1] == a);
                }
            }
            if a == x {
                assert(rest.to_set().contains(a));
                let m = choose|m: int| 0 <= m < rest.len() && rest[m] == a;
                assert(r[m + 1] == a);
            }
        }
        assert(r.to_set() =~= s.to_set().insert(x));
    }
}

/// The result of sorting and removing repeats: an increasing sequence that
/// holds exactly the values of `s`.
pub proof fn lemma_sorted_distinct(s: Seq<i32>)
    ensures
        strictly_increasing(sorted_distinct(s)),
        sorted_distinct(s).to_set() == s.to_set(),
    decreases s.len(),
{
    if s.len() == 0 {
        assert(s.to_set() =~= Set::<i32>::empty());
        assert(Seq::<i32>::empty().to_set() =~= Set::<i32>::empty());
    } else {
        lemma_sorted_distinct(s.drop_last());
        lemma_insert_sorted_properties(sorted_distinct(s.drop_last()), s.last());
        assert(s.to_set() =~= s.drop_last().to_set().insert(s.last())) by {
            assert forall|a: i32| s.to_set().contains(a) <==> s.drop_last().to_set().insert(s.last()).contains(a) by {
                if s.contains(a) {
                    let k = choose|k: int| 0 <= k < s.len() && s[k] == a;
                    if k < s.len() - 1 {
                        assert(s.drop_last()[k] == a);
                    }
                }
                if s.drop_last().contains(a) {
                    let k = choose|k: int| 0 <= k < s.drop_last().len() && s.drop_last()[k] == a;
                    assert(s[k] == a);
                }
                if a == s.last() {
                    assert(s[s.len() - 1] == a);
                }
            }
        }
    }
}

/// Puts `x` into its place in the increasing vector, unless it is there.
fn insert_in_order(v: &mut Vec<i32>, x: i32)
    requires
        strictly_increasing(old(v)@),
    ensures
        final(v)@ == insert_sorted(old(v)@, x),
        strictly_increasing(final(v)@),
{
    let mut i: usize = 0;
    while i < v.len() && v[i] < x
        invariant
            i <= v.len(),
            forall|j: int| 0 <= j < i ==> v@[j] < x,
        decreases v.len() - i,
    {
        i += 1;
    }
    proof {
        lemma_insert_sorted_at(v@, x, i as int);
        lemma_insert_sorted_properties(v@, x);
    }
    if i < v.len() && v[i] == x {
        return;
    }
    v.insert(i, x);
}

/// The resolution a printer advertises for URF: the larger of the two.
pub open spec fn urf_dpi(r: Resolution) -> i32 {
    if r.cross_feed >= r.feed {
        r.cross_feed
    } else {
        r.feed
    }
}

/// The URF resolutions of the IPP resolutions, in order.
pub open spec fn urf_dpis(res: Seq<Resolution>) -> Seq<i32> {
    res.map_values(|r: Resolution| urf_dpi(r))
}

/// The `RS` entry of `urf-supported`: `RS` and the distinct URF
/// resolutions in increasing order, joined by `-`.
pub open spec fn rs_entry(res: Seq<Resolution>) -> Seq<char> {
    "RS"@ + joined(sorted_distinct(urf_dpis(res)).map_values(|d: i32| int_decimal(d as int)), "-"@)
}

/// The `urf-supported` keywords of a printer (AirPrint): version 1.4, one
/// copy, 8-bit grayscale, 24-bit sRGB when the printer prints in color, its
/// resolutions, and one-sided printing.
pub open spec fn spec_urf_supported(color: bool, res: Seq<Resolution>) -> Seq<Seq<char>> {
    seq!["V1.4"@, "CP1"@, "W8"@] + (if color {
        seq!["SRGB24"@]
    } else {
        Seq::empty()
    }) + seq![rs_entry(res), "DM1"@]
}

/// The `RS` entry of `urf-supported`: `RS` and the distinct URF
/// resolutions in increasing order, joined by `-`.
pub fn urf_resolution_entry(res: &Vec<Resolution>) -> (r: String)
    ensures
        r@ == rs_entry(res@),
{
    let mut dpis: Vec<i32> = Vec::new();
    let mut i: usize = 0;
    assert(urf_dpis(res@).take(0) =~= Seq::<i32>::empty());
    while i < res.len()
        invariant
            i <= res.len(),
            dpis@ == sorted_distinct(urf_dpis(res@).take(i as int)),
            strictly_increasing(dpis@),
        decreases res.len() - i,
    {
        let r = res[i];
        let d = if r.cross_feed >= r.feed { r.cross_feed } else { r.feed };
        insert_in_order(&mut dpis, d);
        assert(urf_dpis(res@).take(i + 1).drop_last() =~= urf_dpis(res@).take(i as int));
        i += 1;
    }
    assert(urf_dpis(res@).take(res.len() as int) =~= urf_dpis(res@));
    let ghost digits = dpis@.map_values(|d: i32| int_decimal(d as int));
    let mut parts: Vec<String> = Vec::new();
    let mut k: usize = 0;
    while k < dpis.len()
        invariant
            k <= dpis.len(),
            digits == dpis@.map_values(|d: i32| int_decimal(d as int)),
            parts@.map_values(|p: String| p@) == digits.take(k as int),
        decreases dpis.len() - k,
    {
        let ghost before = parts@;
        parts.push(int_to_decimal(dpis[k]));
        assert(parts@.map_values(|p: String| p@) =~= before.map_values(|p: String| p@).push(digits[k as int]));
        assert(digits.take(k + 1) =~= digits.take(k as int).push(digits[k as int]));
        k += 1;
    }
    assert(digits.take(dpis.len() as int) =~= digits);
    let mut r = String::from_str("RS");
    r.append(join(&parts, "-").as_str());
    r
}

/// The `urf-supported` keywords; `None` when the `RS` entry is too long
/// for an IPP keyword.
pub fn urf_supported(color: bool, res: &Vec<Resolution>) -> (r: Option<Vec<String>>)
    ensures
        fits_keyword(rs_entry(res@)) ==> (r matches Some(v) && v@.map_values(|s: String| s@)
            == spec_urf_supported(color, res@)),
        !fits_keyword(rs_entry(res@)) ==> r is None,
{
    let rs = urf_resolution_entry(res);
    if !keyword_accepted(rs.as_str()) {
        return None;
    }
    let mut v: Vec<String> = Vec::new();
    v.push(String::from_str("V1.4"));
    v.push(String::from_str("CP1"));
    v.push(String::from_str("W8"));
    if color {
        v.push(String::from_str("SRGB24"));
    }
    v.push(rs);
    v.push(String::from_str("DM1"));
    assert(v@.map_values(|s: String| s@) =~= spec_urf_supported(color, res@));
    Some(v)
}


/// The `RS` entry lists, each once and in increasing order, exactly the
/// larger of the cross-feed and feed resolutions of each IPP resolution.
pub proof fn lemma_rs_entry_lists_larger_resolutions(res: Seq<Resolution>)
    ensures
        exists|nums: Seq<i32>|
            #![trigger nums.len()]
            {
                &&& rs_entry(res) == "RS"@ + joined(nums.map_values(|d: i32| int_decimal(d as int)), "-"@)
                &&& forall|i: int, j: int| 0 <= i < j < nums.len() ==> nums[i] < nums[j]
                &&& forall|k: int|
                    0 <= k < res.len() ==> nums.contains(
                        if res[k].cross_feed >= res[k].feed {
                            res[k].cross_feed
                        } else {
                            res[k].feed
                        },
                    )
                &&& forall|j: int|
                    0 <= j < nums.len() ==> exists|k: int|
                        0 <= k < res.len() && #[trigger] nums[j] == (if #[trigger] res[k].cross_feed >= res[k].feed {
                            res[k].cross_feed
                        } else {
                            res[k].feed
                        })
            },
{
    let dpis = urf_dpis(res);
    let nums = sorted_distinct(dpis);
    lemma_sorted_distinct(dpis);
    assert forall|k: int| 0 <= k < res.len() implies nums.contains(
        if res[k].cross_feed >= res[k].feed { res[k].cross_feed } else { res[k].feed },
    ) by {
        assert(dpis[k] == urf_dpi(res[k]));
        assert(dpis.to_set().contains(dpis[k]));
        assert(nums.to_set().contains(dpis[k]));
    }
    assert forall|j: int| 0 <= j < nums.len() implies exists|k: int|
        0 <= k < res.len() && #[trigger] nums[j] == (if #[trigger] res[k].cross_feed >= res[k].feed {
            res[k].cross_feed
        } else {
            res[k].feed
        }) by {
        assert(nums.to_set().contains(nums[j]));
        assert(dpis.to_set().contains(nums[j]));
        let k = choose|k: int| 0 <= k < dpis.len() && dpis[k] == nums[j];
        assert(dpis[k] == urf_dpi(res[k]));
    }
    assert(nums.len() == nums.len());
}

} // verus!
