use vstd::prelude::*;
use vstd::utf8::encode_utf8;

verus! {

/// An IPP `keyword` or `name` value holds at most 255 bytes of UTF-8.
pub open spec fn fits_keyword(text: Seq<char>) -> bool {
    encode_utf8(text).len() <= 255
}

/// An IPP `text` value holds at most 1023 bytes of UTF-8.
pub open spec fn fits_text(text: Seq<char>) -> bool {
    encode_utf8(text).len() <= 1023
}

/// `ipp::value::IppKeyword::new` (a `BoundedString<255>`, the type of
/// `IppName` too): it accepts the text exactly when its UTF-8 encoding is
/// at most 255 bytes long.
#[verifier::external_body]
pub(crate) fn keyword_accepted(text: &str) -> (ok: bool)
    ensures
        ok == fits_keyword(text@),
{
    ipp::value::IppKeyword::new(text).is_ok()
}

/// `ipp::value::IppTextValue::new`: it accepts the text exactly when its
/// UTF-8 encoding is at most 1023 bytes long.
#[verifier::external_body]
pub(crate) fn text_accepted(text: &str) -> (ok: bool)
    ensures
        ok == fits_text(text@),
{
    ipp::value::IppTextValue::new(text).is_ok()
}

/// The texts that fit an IPP keyword, in order.
pub open spec fn fitting_keywords(texts: Seq<Seq<char>>) -> Seq<Seq<char>>
    decreases texts.len(),
{
    if texts.len() == 0 {
        Seq::empty()
    } else if fits_keyword(texts.last()) {
        fitting_keywords(texts.drop_last()).push(texts.last())
    } else {
        fitting_keywords(texts.drop_last())
    }
}

/// The keywords that IPP accepts, in order, as strings.
pub fn keep_fitting_keywords(texts: &Vec<&'static str>) -> (r: Vec<String>)
    ensures
        r@.map_values(|s: String| s@) == fitting_keywords(texts@.map_values(|k: &'static str| k@)),
{
    let ghost views = texts@.map_values(|k: &'static str| k@);
    let mut r: Vec<String> = Vec::new();
    let mut i: usize = 0;
    while i < texts.len()
        invariant
            i <= texts.len(),
            views == texts@.map_values(|k: &'static str| k@),
            r@.map_values(|s: String| s@) == fitting_keywords(views.take(i as int)),
        decreases texts.len() - i,
    {
        assert(views.take(i + 1).drop_last() =~= views.take(i as int));
        let ghost before = r@;
        if keyword_accepted(texts[i]) {
            r.push(String::from_str(texts[i]));
            assert(r@.map_values(|s: String| s@) =~= before.map_values(|s: String| s@).push(texts@[i as int]@));
        }
        i += 1;
    }
    assert(views.take(texts.len() as int) =~= views);
    r
}

} // verus!
