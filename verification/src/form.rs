//! Form pairs: owned by the caller, borrowed for the blocking call.
//!
//! A form travels to the worker pool as owned `(name, value)` pairs. The
//! blocking entry point wants string slices, so the pairs are borrowed once
//! they have arrived, and the borrowed view lives no longer than the owned
//! pairs it points into.

use vstd::prelude::*;

verus! {

/// The text of each pair of an owned form, in order.
pub open spec fn owned_pairs(form: Seq<(String, String)>) -> Seq<(Seq<char>, Seq<char>)> {
    Seq::new(form.len(), |i: int| (form[i].0@, form[i].1@))
}

/// The text of each pair of a borrowed form, in order.
pub open spec fn borrowed_pairs(refs: Seq<(&str, &str)>) -> Seq<(Seq<char>, Seq<char>)> {
    Seq::new(refs.len(), |i: int| (refs[i].0@, refs[i].1@))
}

/// The text of each pair of a form whose strings are read through `text`.
pub open spec fn pairs_by<S>(form: Seq<(S, S)>, text: spec_fn(S) -> Seq<char>) -> Seq<
    (Seq<char>, Seq<char>),
> {
    Seq::new(form.len(), |i: int| (text(form[i].0), text(form[i].1)))
}

/// `refs` holds, pair by pair and side by side, a result of `borrow` on the
/// string that `form` holds at the same place.
pub open spec fn borrowed_by<'a, S: 'a, F: Fn(&'a S) -> &'a str>(
    form: Seq<(S, S)>,
    borrow: F,
    refs: Seq<(&'a str, &'a str)>,
) -> bool {
    &&& refs.len() == form.len()
    &&& forall|i: int|
        #![trigger refs[i]]
        0 <= i < form.len() ==> {
            &&& call_ensures(borrow, (&form[i].0,), refs[i].0)
            &&& call_ensures(borrow, (&form[i].1,), refs[i].1)
        }
}

/// Borrows every name and value of `form` through `borrow`, keeping count
/// and order. The strings may be of any type that `borrow` can read.
pub fn form_refs_with<'a, S, F>(form: &'a Vec<(S, S)>, borrow: F) -> (refs: Vec<(&'a str, &'a str)>)
    where F: Fn(&'a S) -> &'a str
    requires
        forall|i: int|
            #![trigger form@[i]]
            0 <= i < form@.len() ==> {
                &&& call_requires(borrow, (&form@[i].0,))
                &&& call_requires(borrow, (&form@[i].1,))
            },
    ensures
        borrowed_by(form@, borrow, refs@),
{
    let mut refs: Vec<(&'a str, &'a str)> = Vec::new();
    let mut i: usize = 0;
    while i < form.len()
        invariant
            i <= form.len(),
            refs.len() == i,
            forall|j: int|
                #![trigger form@[j]]
                0 <= j < form@.len() ==> {
                    &&& call_requires(borrow, (&form@[j].0,))
                    &&& call_requires(borrow, (&form@[j].1,))
                },
            forall|j: int|
                #![trigger refs@[j]]
                0 <= j < i ==> {
                    &&& call_ensures(borrow, (&form@[j].0,), refs@[j].0)
                    &&& call_ensures(borrow, (&form@[j].1,), refs@[j].1)
                },
        decreases form.len() - i,
    {
        let pair = &form[i];
        let name = borrow(&pair.0);
        let value = borrow(&pair.1);
        refs.push((name, value));
        i += 1;
    }
    refs
}

/// Borrows every name and value of `form`: the borrowed form holds the same
/// pairs, in the same order.
pub fn form_refs<'a>(form: &'a Vec<(String, String)>) -> (refs: Vec<(&'a str, &'a str)>)
    ensures
        borrowed_pairs(refs@) == owned_pairs(form@),
{
    let borrow = |s: &'a String| -> (t: &'a str)
        ensures
            t@ == s@,
        { s.as_str() };
    let refs = form_refs_with(form, borrow);
    proof {
        lemma_borrowed_pairs(form@, borrow, refs@, |s: String| s@);
        assert(pairs_by(form@, |s: String| s@) =~= owned_pairs(form@));
    }
    refs
}

/// Where `borrow` hands back nothing but the text of the string it is given,
/// the borrowed form holds the pairs of the owned form, none dropped, none
/// added, none moved.
pub proof fn lemma_borrowed_pairs<'a, S: 'a, F: Fn(&'a S) -> &'a str>(
    form: Seq<(S, S)>,
    borrow: F,
    refs: Seq<(&'a str, &'a str)>,
    text: spec_fn(S) -> Seq<char>,
)
    requires
        borrowed_by(form, borrow, refs),
        forall|s: &'a S, t: &'a str| call_ensures(borrow, (s,), t) ==> t@ == text(*s),
    ensures
        borrowed_pairs(refs) == pairs_by(form, text),
{
    assert forall|i: int| 0 <= i < form.len() implies borrowed_pairs(refs)[i] == pairs_by(
        form,
        text,
    )[i] by {
        let pair = refs[i];
        assert(call_ensures(borrow, (&form[i].0,), pair.0));
        assert(call_ensures(borrow, (&form[i].1,), pair.1));
    }
    assert(borrowed_pairs(refs) =~= pairs_by(form, text));
}

} // verus!
