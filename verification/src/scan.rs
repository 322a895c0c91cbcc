//! Scanning a text with a regular expression of the `regex` crate.

use regex::Regex;
use vstd::prelude::*;

verus! {

/// The capture groups of one match, the whole match first.  A group that took
/// no part in the match is `None`.
pub type Groups = Seq<Option<Seq<char>>>;

/// What the `regex` crate finds when it compiles `pattern` and walks
/// `haystack` from its start: `None` where `Regex::new` refuses the pattern,
/// else the successive non-overlapping matches in the order in which
/// `Regex::captures_iter` yields them, each with all its capture groups.
pub uninterp spec fn regex_captures(pattern: Seq<char>, haystack: Seq<char>) -> Option<Seq<Seq<Option<Seq<char>>>>>;

/// Compiles `pattern` with `Regex::new` and collects what
/// `Regex::captures_iter` yields on `haystack`: for each match the text of
/// every capture group as `Captures::iter` and `Match::as_str` give it.  The
/// contract only names that result; nothing is claimed about which patterns
/// compile or what they match.
#[verifier::external_body]
fn captures_all(pattern: &str, haystack: &str) -> (found: Option<Vec<Vec<Option<String>>>>)
    ensures
        found.deep_view() == regex_captures(pattern@, haystack@),
{
    match Regex::new(pattern) {
        Ok(compiled) => Some(
            compiled
                .captures_iter(haystack)
                .map(|groups| {
                    groups.iter().map(|group| group.map(|m| m.as_str().to_string())).collect()
                })
                .collect(),
        ),
        Err(_) => None,
    }
}

/// The matches of `pattern` in `haystack`; none where the pattern does not
/// compile.
pub open spec fn matches_of(pattern: Seq<char>, haystack: Seq<char>) -> Seq<Groups> {
    match regex_captures(pattern, haystack) {
        Some(found) => found,
        None => Seq::empty(),
    }
}

/// The text of capture group `i` of a match; empty where the match has no
/// such group or the group took no part in it.
pub open spec fn group_text(groups: Groups, i: int) -> Seq<char> {
    if 0 <= i < groups.len() && groups[i] is Some {
        groups[i]->0
    } else {
        Seq::empty()
    }
}

/// All matches of `pattern` in `haystack`, in order; none where the pattern
/// does not compile.
pub fn find_all(pattern: &str, haystack: &str) -> (found: Vec<Vec<Option<String>>>)
    ensures
        found.deep_view() == matches_of(pattern@, haystack@),
{
    match captures_all(pattern, haystack) {
        Some(found) => found,
        None => Vec::new(),
    }
}

/// The text of capture group `i` of a match.
pub fn group_str(groups: &Vec<Option<String>>, i: usize) -> (text: &str)
    ensures
        text@ == group_text(groups.deep_view(), i as int),
{
    proof {
        reveal_strlit("");
    }
    if i < groups.len() {
        match &groups[i] {
            Some(text) => text.as_str(),
            None => "",
        }
    } else {
        ""
    }
}

} // verus!
