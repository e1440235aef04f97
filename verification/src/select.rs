use crate::error::TailError;
use crate::pattern::{found_in, regex_is_match};
use regex::Regex;
use vstd::prelude::*;

verus! {

/// The texts of a sequence of names, in order.
pub open spec fn names_of(names: Seq<String>) -> Seq<Seq<char>> {
    names.map_values(|n: String| n@)
}

/// The names in which the expression finds a match, in listing order. The
/// match may stand anywhere in a name.
pub open spec fn matching(names: Seq<Seq<char>>, re: Regex) -> Seq<Seq<char>> {
    names.filter(|n: Seq<char>| found_in(re, n))
}

/// The names, in order, of the pairs whose mark is set.
pub open spec fn marked(pairs: Seq<(String, bool)>) -> Seq<Seq<char>> {
    pairs.filter(|p: (String, bool)| p.1).map_values(|p: (String, bool)| p.0@)
}

/// Keeps the names whose mark is set, in their order.
pub fn keep_marked(pairs: Vec<(String, bool)>) -> (kept: Vec<String>)
    ensures
        names_of(kept@) == marked(pairs@),
{
    let ghost all = pairs@;
    let ghost set = |p: (String, bool)| p.1;
    let mut kept: Vec<String> = Vec::new();
    assert(names_of(kept@) =~= marked(all.take(0)));
    for pair in it: pairs
        invariant
            it.seq() == all,
            set == |p: (String, bool)| p.1,
            names_of(kept@) == marked(all.take(it.index())),
    {
        proof {
            let k = it.index();
            assert(all.take(k + 1) =~= all.take(k).push(pair));
            all.take(k).lemma_filter_push(pair, set);
        }
        let ghost before = kept@;
        if pair.1 {
            kept.push(pair.0);
            assert(names_of(kept@) =~= names_of(before).push(pair.0@));
            assert(marked(all.take(it.index() + 1)) =~= marked(all.take(it.index())).push(
                pair.0@,
            ));
        }
    }
    assert(all.take(all.len() as int) =~= all);
    kept
}

/// Where each name is paired with the answer of the expression, the marked
/// names are the matching ones.
pub proof fn lemma_marked_are_matching(pairs: Seq<(String, bool)>, names: Seq<String>, re: Regex)
    requires
        pairs.len() == names.len(),
        forall|i: int|
            0 <= i < pairs.len() ==> (#[trigger] pairs[i]).0 == names[i] && pairs[i].1 == found_in(
                re,
                names[i]@,
            ),
    ensures
        marked(pairs) == matching(names_of(names), re),
    decreases pairs.len(),
{
    let set = |p: (String, bool)| p.1;
    let wanted = |n: Seq<char>| found_in(re, n);
    if pairs.len() == 0 {
        assert(marked(pairs) =~= matching(names_of(names), re));
    } else {
        let last = pairs.last();
        lemma_marked_are_matching(pairs.drop_last(), names.drop_last(), re);
        assert(pairs =~= pairs.drop_last().push(last));
        pairs.drop_last().lemma_filter_push(last, set);
        assert(names_of(names) =~= names_of(names.drop_last()).push(names.last()@));
        names_of(names.drop_last()).lemma_filter_push(names.last()@, wanted);
        assert(last.0 == names.last() && last.1 == found_in(re, names.last()@));
        if last.1 {
            assert(marked(pairs) =~= marked(pairs.drop_last()).push(last.0@));
        }
    }
}

/// Keeps the names that the expression matches.
pub fn matching_pods(names: Vec<String>, re: &Regex) -> (kept: Vec<String>)
    ensures
        names_of(kept@) == matching(names_of(names@), *re),
{
    let ghost all = names@;
    let mut pairs: Vec<(String, bool)> = Vec::new();
    for name in it: names
        invariant
            it.seq() == all,
            pairs@.len() == it.index(),
            forall|i: int|
                0 <= i < pairs@.len() ==> (#[trigger] pairs@[i]).0 == all[i] && pairs@[i].1
                    == found_in(*re, all[i]@),
    {
        let hit = regex_is_match(re, name.as_str());
        pairs.push((name, hit));
    }
    proof {
        lemma_marked_are_matching(pairs@, all, *re);
    }
    keep_marked(pairs)
}

/// Resolves the outcome of listing a namespace into the pods to follow. A
/// failed listing is a selection error; a listing without a match selects
/// nothing, which is no error.
pub fn select<E>(listing: Result<Vec<String>, E>, re: &Regex) -> (r: Result<Vec<String>, TailError>)
    ensures
        listing is Err ==> r == Err::<Vec<String>, TailError>(TailError::Selection),
        listing matches Ok(names) ==> r is Ok && names_of(r->Ok_0@) == matching(
            names_of(names@),
            *re,
        ),
{
    match listing {
        Ok(names) => Ok(matching_pods(names, re)),
        Err(_) => Err(TailError::Selection),
    }
}

/// A selection holds a name exactly when the listing holds it and the
/// expression matches it.
pub proof fn lemma_selection_is_exact(names: Seq<Seq<char>>, re: Regex, name: Seq<char>)
    ensures
        matching(names, re).contains(name) <==> names.contains(name) && found_in(re, name),
{
    let wanted = |n: Seq<char>| found_in(re, n);
    if matching(names, re).contains(name) {
        names.lemma_filter_contains_rev(wanted, name);
        let i = choose|i: int| 0 <= i < names.filter(wanted).len() && names.filter(wanted)[i] == name;
        names.lemma_filter_pred(wanted, i);
    }
    if names.contains(name) && found_in(re, name) {
        let i = choose|i: int| 0 <= i < names.len() && names[i] == name;
        names.lemma_filter_contains(wanted, i);
    }
}

/// Where the expression matches no name of the listing, nothing is
/// selected.
pub proof fn lemma_no_match_selects_nothing(names: Seq<Seq<char>>, re: Regex)
    requires
        forall|i: int| 0 <= i < names.len() ==> !found_in(re, #[trigger] names[i]),
    ensures
        matching(names, re) == Seq::<Seq<char>>::empty(),
{
    let wanted = |n: Seq<char>| found_in(re, n);
    names.lemma_all_neg_filter_empty(wanted);
    assert(names.filter(wanted) =~= Seq::<Seq<char>>::empty());
}

} // verus!
