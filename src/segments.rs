use vstd::prelude::*;

use crate::device::views_of;

verus! {

/// What `str::trim` makes of a text.
pub uninterp spec fn trimmed(s: Seq<char>) -> Seq<char>;

/// Relies on `str::trim`: leading and trailing whitespace removed, the
/// result depending on the text alone.
#[verifier::external_body]
fn trim_text(s: &String) -> (r: String)
    ensures
        r@ == trimmed(s@),
{
    s.trim().to_owned()
}

/// The non-empty texts of `s`, in order.
pub open spec fn nonempty_texts(s: Seq<Seq<char>>) -> Seq<Seq<char>>
    decreases s.len(),
{
    if s.len() == 0 {
        Seq::empty()
    } else {
        let rest = nonempty_texts(s.drop_last());
        if s.last().len() > 0 {
            rest.push(s.last())
        } else {
            rest
        }
    }
}

/// Keeps the non-empty texts, in order.
pub fn keep_nonempty(texts: &Vec<String>) -> (r: Vec<String>)
    ensures
        views_of(r@) == nonempty_texts(views_of(texts@)),
{
    let mut kept: Vec<String> = Vec::new();
    let mut i: usize = 0;
    while i < texts.len()
        invariant
            i <= texts.len(),
            views_of(kept@) == nonempty_texts(views_of(texts@.subrange(0, i as int))),
        decreases texts.len() - i,
    {
        let ghost before = kept@;
        proof {
            assert(views_of(texts@.subrange(0, i + 1)).drop_last() =~= views_of(
                texts@.subrange(0, i as int),
            ));
        }
        let t = &texts[i];
        if t.as_str().unicode_len() > 0 {
            kept.push(t.clone());
            assert(views_of(kept@) =~= views_of(before).push(t@));
        }
        i += 1;
    }
    assert(texts@.subrange(0, texts@.len() as int) == texts@);
    kept
}

/// The segments that a pass publishes: each recognized text trimmed, the
/// empty ones dropped, the order kept.
pub fn publishable_segments(raw: &Vec<String>) -> (r: Vec<String>)
    ensures
        views_of(r@) == nonempty_texts(views_of(raw@).map_values(|t: Seq<char>| trimmed(t))),
{
    let mut texts: Vec<String> = Vec::new();
    let mut i: usize = 0;
    while i < raw.len()
        invariant
            i <= raw.len(),
            views_of(texts@) == views_of(raw@.subrange(0, i as int)).map_values(
                |t: Seq<char>| trimmed(t),
            ),
        decreases raw.len() - i,
    {
        let t = trim_text(&raw[i]);
        let ghost prev = texts@;
        texts.push(t);
        assert(views_of(texts@) =~= views_of(prev).push(trimmed(raw@[i as int]@)));
        assert(views_of(raw@.subrange(0, i + 1)).map_values(|t: Seq<char>| trimmed(t))
            =~= views_of(raw@.subrange(0, i as int)).map_values(|t: Seq<char>| trimmed(t)).push(
            trimmed(raw@[i as int]@),
        ));
        i += 1;
    }
    assert(raw@.subrange(0, raw@.len() as int) == raw@);
    keep_nonempty(&texts)
}

} // verus!
