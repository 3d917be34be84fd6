//! Regular expressions, through the regex crate.
use regex::Regex;
use vstd::prelude::*;

verus! {

/// `pattern` is a regular expression that the regex crate accepts.
pub uninterp spec fn regex_valid(pattern: Seq<char>) -> bool;

/// The regular expression `pattern` matches somewhere in `text`, as the regex crate decides it.
pub uninterp spec fn regex_matches(pattern: Seq<char>, text: Seq<char>) -> bool;

/// Every pattern of `patterns` is a valid regular expression.
pub open spec fn all_valid(patterns: Seq<String>) -> bool {
    forall|i: int| 0 <= i < patterns.len() ==> regex_valid(#[trigger] patterns[i]@)
}

/// Some pattern of `patterns` matches somewhere in `text`.
pub open spec fn any_matches(patterns: Seq<String>, text: Seq<char>) -> bool {
    exists|i: int| 0 <= i < patterns.len() && regex_matches(#[trigger] patterns[i]@, text)
}

/// `Regex::new` of the regex crate: whether it compiles `pattern` without error.
/// Claims only that the answer is the one named by `regex_valid`.
#[verifier::external_body]
pub(crate) fn regex_compiles(pattern: &str) -> (res: bool)
    ensures
        res == regex_valid(pattern@),
{
    match Regex::new(pattern) {
        Ok(_) => true,
        Err(_) => false,
    }
}

/// `Regex::is_match` of the regex crate, on the regular expression that `Regex::new`
/// compiles from `pattern`.  Claims only that the answer is the one named by `regex_matches`.
#[verifier::external_body]
fn regex_is_match(pattern: &str, text: &str) -> (res: bool)
    requires
        regex_valid(pattern@),
    ensures
        res == regex_matches(pattern@, text@),
{
    match Regex::new(pattern) {
        Ok(re) => re.is_match(text),
        Err(_) => false,
    }
}

/// Whether some pattern of `patterns` matches somewhere in `text`.
pub fn any_pattern_matches(patterns: &Vec<String>, text: &str) -> (res: bool)
    requires
        all_valid(patterns@),
    ensures
        res == any_matches(patterns@, text@),
        res <==> exists|i: int| 0 <= i < patterns@.len() && regex_matches(#[trigger] patterns@[i]@, text@),
{
    let n = patterns.len();
    let mut i: usize = 0;
    while i < n
        invariant
            n == patterns@.len(),
            all_valid(patterns@),
            i <= n,
            forall|k: int| 0 <= k < i ==> !regex_matches(#[trigger] patterns@[k]@, text@),
        decreases n - i,
    {
        let p = &patterns[i];
        assert(regex_valid(patterns@[i as int]@));
        if regex_is_match(p.as_str(), text) {
            return true;
        }
        i = i + 1;
    }
    false
}

/// The position of the first pattern of `patterns` that is not a valid regular
/// expression, or `None` when all are valid.
pub fn first_invalid(patterns: &Vec<String>) -> (res: Option<usize>)
    ensures
        res is None <==> all_valid(patterns@),
        res matches Some(i) ==> i < patterns@.len() && !regex_valid(patterns@[i as int]@) && all_valid(
            patterns@.take(i as int),
        ),
{
    let n = patterns.len();
    let mut i: usize = 0;
    while i < n
        invariant
            n == patterns@.len(),
            i <= n,
            forall|k: int| 0 <= k < i ==> regex_valid(#[trigger] patterns@[k]@),
        decreases n - i,
    {
        if !regex_compiles(patterns[i].as_str()) {
            assert forall|k: int| 0 <= k < i implies regex_valid(#[trigger] patterns@.take(i as int)[k]@) by {
                assert(patterns@.take(i as int)[k] == patterns@[k]);
            }
            return Some(i);
        }
        i = i + 1;
    }
    None
}

/// Some pattern of a list matches exactly when one of its entries, at whatever
/// position, matches: no entry is skipped.
pub proof fn lemma_any_matches_iff_some_entry(patterns: Seq<String>, text: Seq<char>)
    ensures
        any_matches(patterns, text) ==> exists|i: int|
            0 <= i < patterns.len() && regex_matches(#[trigger] patterns[i]@, text),
        forall|i: int|
            0 <= i < patterns.len() && regex_matches(#[trigger] patterns[i]@, text) ==> any_matches(
                patterns,
                text,
            ),
{
}

} // verus!
