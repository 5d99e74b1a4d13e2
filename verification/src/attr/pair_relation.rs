use vstd::prelude::*;

verus! {

/// What a bimap holds after `(l, r)` is inserted into a bimap holding `rel`:
/// every pair that shares its left or its right value is dropped first.
pub open spec fn insert_pair<L, R>(rel: Set<(L, R)>, l: L, r: R) -> Set<(L, R)> {
    rel.filter(|p: (L, R)| p.0 != l && p.1 != r).insert((l, r))
}

/// What a bimap holds after the pairs of `pairs` are inserted, in order,
/// into an empty one.
pub open spec fn pairs_from<L, R>(pairs: Seq<(L, R)>) -> Set<(L, R)>
    decreases pairs.len(),
{
    if pairs.len() == 0 {
        Set::empty()
    } else {
        insert_pair(pairs_from(pairs.drop_last()), pairs.last().0, pairs.last().1)
    }
}

/// Every pair a bimap holds was one of the pairs inserted into it.
pub proof fn lemma_pairs_from_within<L, R>(pairs: Seq<(L, R)>, p: (L, R))
    requires
        pairs_from(pairs).contains(p),
    ensures
        exists|i: int| 0 <= i < pairs.len() && pairs[i] == p,
    decreases pairs.len(),
{
    if pairs.len() > 0 {
        let last = pairs.last();
        if p != last {
            lemma_pairs_from_within(pairs.drop_last(), p);
            let i = choose|i: int| 0 <= i < pairs.drop_last().len() && pairs.drop_last()[i] == p;
            assert(pairs[i] == p);
        } else {
            assert(pairs[pairs.len() - 1] == p);
        }
    }
}

/// Each left value has at most one partner, and so has each right value.
pub open spec fn is_one_to_one<L, R>(rel: Set<(L, R)>) -> bool {
    forall|p: (L, R), q: (L, R)|
        #![trigger rel.contains(p), rel.contains(q)]
        rel.contains(p) && rel.contains(q) ==> ((p.0 == q.0) <==> (p.1 == q.1))
}

/// The right value paired with `l`, if any.
pub open spec fn right_of<L, R>(rel: Set<(L, R)>, l: L) -> Option<R> {
    if exists|r: R| rel.contains((l, r)) {
        Some(choose|r: R| rel.contains((l, r)))
    } else {
        None
    }
}

/// The left value paired with `r`, if any.
pub open spec fn left_of<L, R>(rel: Set<(L, R)>, r: R) -> Option<L> {
    if exists|l: L| rel.contains((l, r)) {
        Some(choose|l: L| rel.contains((l, r)))
    } else {
        None
    }
}

/// In a one-to-one relation, `right_of` names the one partner of `l`.
pub proof fn lemma_right_of_unique<L, R>(rel: Set<(L, R)>, l: L, r: R)
    requires
        is_one_to_one(rel),
    ensures
        right_of(rel, l) == Some(r) <==> rel.contains((l, r)),
{
    if rel.contains((l, r)) {
        let c = choose|c: R| rel.contains((l, c));
        assert(rel.contains((l, c)));
    }
}

/// In a one-to-one relation, `left_of` names the one partner of `r`.
pub proof fn lemma_left_of_unique<L, R>(rel: Set<(L, R)>, l: L, r: R)
    requires
        is_one_to_one(rel),
    ensures
        left_of(rel, r) == Some(l) <==> rel.contains((l, r)),
{
    if rel.contains((l, r)) {
        let c = choose|c: L| rel.contains((c, r));
        assert(rel.contains((c, r)));
    }
}

/// Inserting into a one-to-one relation keeps it one-to-one.
pub proof fn lemma_insert_keeps_one_to_one<L, R>(rel: Set<(L, R)>, l: L, r: R)
    requires
        is_one_to_one(rel),
    ensures
        is_one_to_one(insert_pair(rel, l, r)),
{
}

/// Whatever pairs are inserted, a bimap stays one-to-one.
pub proof fn lemma_pairs_from_one_to_one<L, R>(pairs: Seq<(L, R)>)
    ensures
        is_one_to_one(pairs_from(pairs)),
    decreases pairs.len(),
{
    if pairs.len() > 0 {
        lemma_pairs_from_one_to_one(pairs.drop_last());
        lemma_insert_keeps_one_to_one(pairs_from(pairs.drop_last()), pairs.last().0, pairs.last().1);
    }
}

/// A lookup in either direction is undone by a lookup in the other: in a
/// one-to-one relation, `l` maps to `r` exactly when `r` maps back to `l`.
pub proof fn lemma_lookup_round_trip<L, R>(rel: Set<(L, R)>, l: L, r: R)
    requires
        is_one_to_one(rel),
    ensures
        right_of(rel, l) == Some(r) <==> left_of(rel, r) == Some(l),
{
    lemma_right_of_unique(rel, l, r);
    lemma_left_of_unique(rel, l, r);
}

/// The pair inserted last is found from either side, and no other pair
/// is found from `l` or from `r`.
pub proof fn lemma_last_insert_wins<L, R>(rel: Set<(L, R)>, l: L, r: R)
    requires
        is_one_to_one(rel),
    ensures
        right_of(insert_pair(rel, l, r), l) == Some(r),
        left_of(insert_pair(rel, l, r), r) == Some(l),
{
    lemma_insert_keeps_one_to_one(rel, l, r);
    lemma_right_of_unique(insert_pair(rel, l, r), l, r);
    lemma_left_of_unique(insert_pair(rel, l, r), l, r);
}

/// Inserting `(l, r)` leaves every lookup of another left value that is
/// not paired with `r` as it was.
pub proof fn lemma_insert_keeps_other_lookups<L, R>(rel: Set<(L, R)>, l: L, r: R, k: L)
    requires
        is_one_to_one(rel),
        k != l,
        right_of(rel, k) != Some(r),
    ensures
        right_of(insert_pair(rel, l, r), k) == right_of(rel, k),
{
    let new_rel = insert_pair(rel, l, r);
    lemma_insert_keeps_one_to_one(rel, l, r);
    match right_of(rel, k) {
        Some(c) => {
            lemma_right_of_unique(rel, k, c);
            lemma_right_of_unique(new_rel, k, c);
        },
        None => {
            if exists|c: R| new_rel.contains((k, c)) {
                let c = choose|c: R| new_rel.contains((k, c));
                assert(rel.contains((k, c)));
            }
        },
    }
}

/// The left partners of the right values in `packs`, in order, skipping
/// the entries that are `None` or have no partner.
pub open spec fn lefts_of_rights<L, R>(rel: Set<(L, R)>, packs: Seq<Option<R>>) -> Seq<L>
    decreases packs.len(),
{
    if packs.len() == 0 {
        Seq::empty()
    } else {
        let earlier = lefts_of_rights(rel, packs.drop_last());
        match packs.last() {
            Some(r) => match left_of(rel, r) {
                Some(l) => earlier.push(l),
                None => earlier,
            },
            None => earlier,
        }
    }
}

/// Every left value found for a sequence of right values is paired with
/// one of them, and looking it up again gives that right value.
pub proof fn lemma_lefts_of_rights_known<L, R>(rel: Set<(L, R)>, packs: Seq<Option<R>>, l: L)
    requires
        is_one_to_one(rel),
        lefts_of_rights(rel, packs).contains(l),
    ensures
        exists|i: int| 0 <= i < packs.len() && packs[i] is Some && right_of(rel, l) == Some(packs[i]->0),
    decreases packs.len(),
{
    let earlier = lefts_of_rights(rel, packs.drop_last());
    if earlier.contains(l) {
        lemma_lefts_of_rights_known(rel, packs.drop_last(), l);
        let i = choose|i: int| 0 <= i < packs.drop_last().len() && packs.drop_last()[i] is Some && right_of(rel, l) == Some(packs.drop_last()[i]->0);
        assert(packs[i] == packs.drop_last()[i]);
    } else {
        let k = choose|k: int| 0 <= k < lefts_of_rights(rel, packs).len() && lefts_of_rights(rel, packs)[k] == l;
        if let Some(r) = packs.last() {
            if let Some(m) = left_of(rel, r) {
                if k < earlier.len() {
                    assert(earlier[k] == l);
                } else {
                    assert(m == l);
                    lemma_left_of_unique(rel, l, r);
                    lemma_right_of_unique(rel, l, r);
                    assert(packs[packs.len() - 1] == Some(r));
                }
            } else {
                assert(earlier[k] == l);
            }
        } else {
            assert(earlier[k] == l);
        }
    }
}

/// `found` is the position of the first entry of `s` equal to `x`, or `None`
/// when no entry is.
pub open spec fn is_first_position<T>(s: Seq<T>, x: T, found: Option<usize>) -> bool {
    match found {
        Some(i) => i < s.len() && s[i as int] == x && forall|j: int| 0 <= j < i ==> s[j] != x,
        None => forall|j: int| 0 <= j < s.len() ==> s[j] != x,
    }
}


/// Inserting pairs of which no two share a left value or a right value
/// keeps every one of them, and nothing else.
pub proof fn lemma_pairs_from_distinct<L, R>(pairs: Seq<(L, R)>)
    requires
        forall|i: int, j: int|
            0 <= i < j < pairs.len() ==> (#[trigger] pairs[i]).0 != (#[trigger] pairs[j]).0
                && pairs[i].1 != pairs[j].1,
    ensures
        forall|p: (L, R)| #[trigger] pairs_from(pairs).contains(p) <==> pairs.contains(p),
    decreases pairs.len(),
{
    if pairs.len() > 0 {
        let prev = pairs.drop_last();
        let last = pairs.last();
        assert forall|i: int, j: int| 0 <= i < j < prev.len() implies (#[trigger] prev[i]).0 != (#[trigger] prev[j]).0
            && prev[i].1 != prev[j].1 by {
            assert(prev[i] == pairs[i] && prev[j] == pairs[j]);
        }
        lemma_pairs_from_distinct(prev);
        assert forall|p: (L, R)| #[trigger] pairs_from(pairs).contains(p) <==> pairs.contains(p) by {
            if pairs.contains(p) && p != last {
                let k = choose|k: int| 0 <= k < pairs.len() && pairs[k] == p;
                assert(k < pairs.len() - 1);
                assert(prev[k] == p);
                assert(pairs_from(prev).contains(p));
                assert(p.0 != last.0 && p.1 != last.1) by {
                    assert(pairs[k] == p && pairs[pairs.len() - 1] == last);
                }
            }
            if pairs_from(pairs).contains(p) && p != last {
                assert(pairs_from(prev).contains(p));
                let k = choose|k: int| 0 <= k < prev.len() && prev[k] == p;
                assert(pairs[k] == p);
            }
            if p == last {
                assert(pairs[pairs.len() - 1] == p);
            }
        }
    }
}

} // verus!
