//! Searching text with regular expressions of the `regex` crate.

use vstd::prelude::*;
use crate::text::opt_text;

verus! {

/// The first match of a pattern in a text.
#[derive(Debug, PartialEq, Eq)]
pub struct Found {
    /// The text before the match.
    pub before: String,
    /// What each group of the pattern captured, the whole match first;
    /// `None` for a group that took no part in the match.
    pub groups: Vec<Option<String>>,
    /// The text after the match.
    pub after: String,
}

/// The mathematical content of a [`Found`].
pub struct FoundView {
    pub before: Seq<char>,
    pub groups: Seq<Option<Seq<char>>>,
    pub after: Seq<char>,
}

impl FoundView {
    /// What group `i` captured, if the pattern has such a group and it
    /// took part in the match.
    pub open spec fn group(self, i: int) -> Option<Seq<char>> {
        if 0 <= i < self.groups.len() {
            self.groups[i]
        } else {
            None
        }
    }
}

impl View for Found {
    type V = FoundView;

    open spec fn view(&self) -> FoundView {
        FoundView {
            before: self.before@,
            groups: self.groups@.map_values(|g: Option<String>| opt_text(g)),
            after: self.after@,
        }
    }
}

/// The views of an optional match.
pub open spec fn opt_found(o: Option<Found>) -> Option<FoundView> {
    match o {
        Some(f) => Some(f@),
        None => None,
    }
}

/// What the `regex` crate finds when it searches `haystack` for the
/// leftmost match of `pattern`; `None` where nothing matches or where
/// `pattern` is no regular expression.
pub uninterp spec fn regex_search(pattern: Seq<char>, haystack: Seq<char>) -> Option<FoundView>;

/// Compiles `pattern` with `regex::Regex::new` and searches `haystack`
/// with `Regex::captures`. The result holds the text of each group as
/// `Captures::get` gives it, and the parts of the haystack before and
/// after the whole match. The contract only says that this outcome is the
/// one named [`regex_search`].
#[verifier::external_body]
pub(crate) fn search_first(pattern: &str, haystack: &str) -> (found: Option<Found>)
    ensures
        opt_found(found) == regex_search(pattern@, haystack@),
{
    let caps = regex::Regex::new(pattern).ok()?.captures(haystack)?;
    let whole = caps.get(0)?;
    Some(Found {
        before: haystack[..whole.start()].to_owned(),
        groups: caps.iter().map(|g| g.map(|m| m.as_str().to_owned())).collect(),
        after: haystack[whole.end()..].to_owned(),
    })
}

/// What group `i` of `pattern` captures in its leftmost match in `text`.
pub open spec fn capture(pattern: Seq<char>, text: Seq<char>, i: int) -> Option<Seq<char>> {
    match regex_search(pattern, text) {
        Some(found) => found.group(i),
        None => None,
    }
}

impl Found {
    /// What group `i` captured.
    pub fn group(&self, i: usize) -> (out: Option<&str>)
        ensures
            match out {
                Some(text) => self@.group(i as int) == Some(text@),
                None => self@.group(i as int) is None,
            },
    {
        if i < self.groups.len() {
            match &self.groups[i] {
                Some(text) => Some(text.as_str()),
                None => None,
            }
        } else {
            None
        }
    }
}

/// What group `i` of `pattern` captures in its leftmost match in
/// `haystack`.
pub fn capture_of(pattern: &str, haystack: &str, i: usize) -> (out: Option<String>)
    ensures
        opt_text(out) == capture(pattern@, haystack@, i as int),
{
    match search_first(pattern, haystack) {
        Some(found) => match found.group(i) {
            Some(text) => Some(text.to_owned()),
            None => None,
        },
        None => None,
    }
}

} // verus!
