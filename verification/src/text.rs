//! Text helpers: token extraction by regular expression and string building.

use regex::Regex;
use vstd::prelude::*;

verus! {

/// The character sequences of a list of strings.
pub open spec fn texts(v: Seq<String>) -> Seq<Seq<char>> {
    v.map_values(|s: String| s@)
}

/// What the `regex` crate finds: the successive non-overlapping matches of
/// `pattern` in `haystack`, left to right, or `None` where `pattern` is not a
/// regular expression that the crate accepts.
pub uninterp spec fn regex_matches(pattern: Seq<char>, haystack: Seq<char>) -> Option<Seq<Seq<char>>>;

/// Calls `regex::Regex::new` on `pattern` and `Regex::find_iter` on
/// `haystack`. Nothing is proved of it: the contract only gives the result
/// its name, `regex_matches`, as a function of the two texts.
#[verifier::external_body]
pub(crate) fn find_all(pattern: &str, haystack: &str) -> (result: Option<Vec<String>>)
    ensures
        match result {
            Some(v) => regex_matches(pattern@, haystack@) == Some(texts(v@)),
            None => regex_matches(pattern@, haystack@) is None,
        },
{
    match Regex::new(pattern) {
        Ok(re) => Some(re.find_iter(haystack).map(|m| m.as_str().to_string()).collect()),
        Err(_) => None,
    }
}

/// `String::push_str` appends the given text to the end of the string.
pub assume_specification[ String::push_str ](s: &mut String, tail: &str)
    ensures
        final(s)@ == old(s)@ + tail@,
;

/// The text `head` followed by `tail`.
pub fn joined(head: &str, tail: &str) -> (result: String)
    ensures
        result@ == head@ + tail@,
{
    let mut out = String::new();
    out.push_str(head);
    out.push_str(tail);
    proof {
        assert(Seq::<char>::empty() + head@ =~= head@);
    }
    out
}

} // verus!
