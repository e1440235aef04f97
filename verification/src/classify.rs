use crate::pattern::HighlightRule;
use vstd::prelude::*;

verus! {

/// How a rendered line is to be presented.
#[derive(Clone, Copy, Debug, PartialEq, Eq, Structural)]
pub enum Category {
    Error,
    Highlighted,
    Plain,
}

/// `needle` stands in `text` at offset `at`.
pub open spec fn occurs_at(text: Seq<char>, needle: Seq<char>, at: int) -> bool {
    &&& 0 <= at
    &&& at + needle.len() <= text.len()
    &&& text.subrange(at, at + needle.len()) == needle
}

/// `needle` stands somewhere in `text`.
pub open spec fn contains(text: Seq<char>, needle: Seq<char>) -> bool {
    exists|at: int| occurs_at(text, needle, at)
}

/// The error marker in capitals.
pub open spec fn marker_upper() -> Seq<char> {
    seq!['E', 'R', 'R', 'O', 'R']
}

/// The error marker in small letters.
pub open spec fn marker_lower() -> Seq<char> {
    seq!['e', 'r', 'r', 'o', 'r']
}

/// The error marker with a capital first letter.
pub open spec fn marker_capitalised() -> Seq<char> {
    seq!['E', 'r', 'r', 'o', 'r']
}

/// The text holds one of the three case-sensitive error markers.
pub open spec fn mentions_error(text: Seq<char>) -> bool {
    ||| contains(text, marker_upper())
    ||| contains(text, marker_lower())
    ||| contains(text, marker_capitalised())
}

/// The decision rule, over what is known of a line: whether it holds an
/// error marker, whether the highlight rule hits it, and the mode.
/// `None` stands for a suppressed line.
pub open spec fn verdict(error_marker: bool, highlighted: bool, filter_only: bool) -> Option<
    Category,
> {
    if filter_only {
        if highlighted {
            Some(Category::Highlighted)
        } else {
            None
        }
    } else if error_marker {
        Some(Category::Error)
    } else if highlighted {
        Some(Category::Highlighted)
    } else {
        Some(Category::Plain)
    }
}

/// The category of a line of text under a highlight rule and a mode.
pub open spec fn classification(text: Seq<char>, highlight: HighlightRule, filter_only: bool)
    -> Option<Category> {
    verdict(mentions_error(text), highlight.hits(text), filter_only)
}

/// The characters of a string, in order.
pub fn chars_of(s: &str) -> (v: Vec<char>)
    ensures
        v@ == s@,
{
    let mut v: Vec<char> = Vec::new();
    for c in it: s.chars()
        invariant
            it.seq() == s@,
            v@ == it.seq().take(it.index()),
    {
        v.push(c);
    }
    v
}

fn occurs(text: &Vec<char>, needle: &Vec<char>, at: usize) -> (b: bool)
    requires
        at + needle.len() <= text.len(),
    ensures
        b == occurs_at(text@, needle@, at as int),
{
    let mut k: usize = 0;
    while k < needle.len()
        invariant
            k <= needle.len(),
            at + needle.len() <= text.len(),
            forall|i: int| 0 <= i < k ==> text@[at + i] == needle@[i],
        decreases needle.len() - k,
    {
        if text[at + k] != needle[k] {
            assert(text@.subrange(at as int, at + needle.len())[k as int] != needle@[k as int]);
            return false;
        }
        k += 1;
    }
    assert(text@.subrange(at as int, at + needle.len()) =~= needle@);
    true
}

/// Whether `needle` stands somewhere in `text`.
pub fn find(text: &Vec<char>, needle: &Vec<char>) -> (b: bool)
    ensures
        b == contains(text@, needle@),
{
    if needle.len() > text.len() {
        return false;
    }
    let last: usize = text.len() - needle.len();
    let mut at: usize = 0;
    while at < last
        invariant
            last == text.len() - needle.len(),
            at <= last,
            forall|j: int| 0 <= j < at ==> !occurs_at(text@, needle@, j),
        decreases last - at,
    {
        if occurs(text, needle, at) {
            return true;
        }
        at += 1;
    }
    occurs(text, needle, last)
}

/// Whether a line holds `ERROR`, `error` or `Error`.
pub fn has_error_marker(line: &str) -> (b: bool)
    ensures
        b == mentions_error(line@),
{
    let text = chars_of(line);
    let upper: Vec<char> = vec!['E', 'R', 'R', 'O', 'R'];
    let lower: Vec<char> = vec!['e', 'r', 'r', 'o', 'r'];
    let capitalised: Vec<char> = vec!['E', 'r', 'r', 'o', 'r'];
    assert(upper@ =~= marker_upper());
    assert(lower@ =~= marker_lower());
    assert(capitalised@ =~= marker_capitalised());
    find(&text, &upper) || find(&text, &lower) || find(&text, &capitalised)
}

/// Applies the decision rule to what is known of a line. The first case that
/// applies wins: in filter-only mode a line is shown, highlighted, exactly
/// when the highlight rule hits it; otherwise an error marker makes it an
/// error, a hit highlights it, and anything else is plain.
pub fn categorize(error_marker: bool, highlighted: bool, filter_only: bool) -> (c: Option<
    Category,
>)
    ensures
        c == verdict(error_marker, highlighted, filter_only),
{
    if filter_only {
        if highlighted {
            Some(Category::Highlighted)
        } else {
            None
        }
    } else if error_marker {
        Some(Category::Error)
    } else if highlighted {
        Some(Category::Highlighted)
    } else {
        Some(Category::Plain)
    }
}

/// Classifies a line. `None` means that the line is suppressed.
pub fn classify(line: &str, highlight: &HighlightRule, filter_only: bool) -> (c: Option<Category>)
    ensures
        c == classification(line@, *highlight, filter_only),
{
    if filter_only {
        // Error markers play no part in filter-only mode.
        categorize(false, highlight.matches(line), true)
    } else if has_error_marker(line) {
        // An error marker settles the matter before the rule is asked.
        categorize(true, false, false)
    } else {
        categorize(false, highlight.matches(line), false)
    }
}

/// An error marker outranks the highlight rule. Outside filter-only mode a
/// line that holds an error marker is an error, whether or not the rule
/// hits it.
pub proof fn lemma_error_outranks_highlight(text: Seq<char>, highlight: HighlightRule)
    requires
        mentions_error(text),
    ensures
        classification(text, highlight, false) == Some(Category::Error),
{
}

/// In filter-only mode a line is shown exactly when the highlight rule hits
/// it, and then as highlighted; every other line is suppressed, an error
/// line too.
pub proof fn lemma_filter_only_shows_hits_alone(text: Seq<char>, highlight: HighlightRule)
    ensures
        highlight.hits(text) ==> classification(text, highlight, true) == Some(
            Category::Highlighted,
        ),
        !highlight.hits(text) ==> classification(text, highlight, true) is None,
{
}

/// Without a pattern nothing is highlighted: outside filter-only mode a
/// line is an error or plain, and in filter-only mode nothing is shown.
pub proof fn lemma_inactive_rule_highlights_nothing(text: Seq<char>, filter_only: bool)
    ensures
        classification(text, HighlightRule::Inactive, filter_only) != Some(Category::Highlighted),
        filter_only ==> classification(text, HighlightRule::Inactive, filter_only) is None,
{
}

/// Classification has no memory: whatever two calls on the same line, rule
/// and mode return, they return the same.
pub proof fn lemma_classification_is_repeatable(
    text: Seq<char>,
    highlight: HighlightRule,
    filter_only: bool,
    first: Option<Category>,
    second: Option<Category>,
)
    requires
        first == classification(text, highlight, filter_only),
        second == classification(text, highlight, filter_only),
    ensures
        first == second,
{
}

} // verus!
