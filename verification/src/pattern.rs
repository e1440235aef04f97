use crate::error::TailError;
use regex::Regex;
use vstd::prelude::*;

verus! {

/// A compiled regular expression of the `regex` crate, `regex::Regex`.
/// Nothing inside it is visible here.
#[verifier::external_type_specification]
#[verifier::external_body]
pub struct ExRegex(regex::Regex);

/// The error with which the `regex` crate rejects a pattern, `regex::Error`.
#[verifier::external_type_specification]
#[verifier::external_body]
pub struct ExRegexError(regex::Error);

/// What `Regex::new` returns for a pattern.
pub uninterp spec fn compiled(pattern: Seq<char>) -> Result<Regex, regex::Error>;

/// Whether `Regex::is_match` finds the expression anywhere in a text.
pub uninterp spec fn found_in(re: Regex, text: Seq<char>) -> bool;

/// Calls `Regex::new`. Its outcome depends on the pattern alone and is
/// spoken of as `compiled(pattern)`; nothing more is claimed of it.
#[verifier::external_body]
fn regex_new(pattern: &str) -> (r: Result<Regex, regex::Error>)
    ensures
        r == compiled(pattern@),
{
    Regex::new(pattern)
}

/// Calls `Regex::is_match`, which searches the whole text for a match and
/// does not anchor it. Its answer depends on the expression and the text
/// alone and is spoken of as `found_in(re, text)`.
#[verifier::external_body]
pub(crate) fn regex_is_match(re: &Regex, text: &str) -> (b: bool)
    ensures
        b == found_in(*re, text@),
{
    re.is_match(text)
}

/// Calls `Regex::clone`. The copy is the same expression.
#[verifier::external_body]
fn regex_clone(re: &Regex) -> (r: Regex)
    ensures
        r == *re,
{
    re.clone()
}

/// What becomes of the outcome of compiling a pattern: the expression, or
/// the configuration error in place of the reason why it does not compile.
pub open spec fn accepted(outcome: Result<Regex, regex::Error>) -> Result<Regex, TailError> {
    match outcome {
        Ok(re) => Ok(re),
        Err(_) => Err(TailError::Config),
    }
}

/// The expression that a pattern stands for, or the configuration error
/// that rejects it.
pub open spec fn parsed(pattern: Seq<char>) -> Result<Regex, TailError> {
    accepted(compiled(pattern))
}

/// Takes the outcome of compiling a pattern: a pattern that does not
/// compile is a configuration error.
pub fn accept(outcome: Result<Regex, regex::Error>) -> (r: Result<Regex, TailError>)
    ensures
        r == accepted(outcome),
{
    match outcome {
        Ok(re) => Ok(re),
        Err(_) => Err(TailError::Config),
    }
}

/// Compiles a pattern given by the operator.
pub fn compile(pattern: &str) -> (r: Result<Regex, TailError>)
    ensures
        r == parsed(pattern@),
{
    accept(regex_new(pattern))
}

/// The pattern by which matching lines are marked. An absent or empty
/// pattern marks nothing.
#[derive(Debug)]
pub enum HighlightRule {
    Inactive,
    Active(Regex),
}

impl HighlightRule {
    /// The rule marks the text.
    pub open spec fn hits(self, text: Seq<char>) -> bool {
        match self {
            HighlightRule::Inactive => false,
            HighlightRule::Active(re) => found_in(re, text),
        }
    }

    /// The rule that a pattern text configures.
    pub open spec fn configured(pattern: Seq<char>) -> Result<HighlightRule, TailError> {
        if pattern.len() == 0 {
            Ok(HighlightRule::Inactive)
        } else {
            match parsed(pattern) {
                Ok(re) => Ok(HighlightRule::Active(re)),
                Err(e) => Err(e),
            }
        }
    }

    /// Builds the rule from the operator's pattern. The empty pattern means
    /// no highlighting; a pattern that does not compile is a configuration
    /// error.
    pub fn new(pattern: &str) -> (r: Result<HighlightRule, TailError>)
        ensures
            r == Self::configured(pattern@),
    {
        if pattern.is_empty() {
            Ok(HighlightRule::Inactive)
        } else {
            match compile(pattern) {
                Ok(re) => Ok(HighlightRule::Active(re)),
                Err(e) => Err(e),
            }
        }
    }

    /// Whether a pattern is configured.
    pub fn is_active(&self) -> (b: bool)
        ensures
            b == (*self is Active),
    {
        match self {
            HighlightRule::Inactive => false,
            HighlightRule::Active(_) => true,
        }
    }

    /// Whether the rule marks the line.
    pub fn matches(&self, line: &str) -> (b: bool)
        ensures
            b == self.hits(line@),
    {
        match self {
            HighlightRule::Inactive => false,
            HighlightRule::Active(re) => regex_is_match(re, line),
        }
    }
}

impl Clone for HighlightRule {
    fn clone(&self) -> (r: Self)
        ensures
            r == *self,
    {
        match self {
            HighlightRule::Inactive => HighlightRule::Inactive,
            HighlightRule::Active(re) => HighlightRule::Active(regex_clone(re)),
        }
    }
}

} // verus!
