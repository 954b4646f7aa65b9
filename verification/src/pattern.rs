use vstd::prelude::*;

verus! {

/// The text of the leftmost match of the regular expression `pattern` in
/// `haystack`, as the `regex` crate finds it; `None` where there is no match
/// or `pattern` does not compile.
pub uninterp spec fn regex_find(pattern: Seq<char>, haystack: Seq<char>) -> Option<Seq<char>>;

/// The capture groups of the leftmost match of `pattern` in `haystack`, group
/// 0 being the whole match and a group that took no part being `None`; `None`
/// where there is no match or `pattern` does not compile.
pub uninterp spec fn regex_captures(pattern: Seq<char>, haystack: Seq<char>) -> Option<
    Seq<Option<Seq<char>>>,
>;

/// The characters of an optional string.
pub open spec fn text_view(text: Option<String>) -> Option<Seq<char>> {
    match text {
        Some(t) => Some(t@),
        None => None,
    }
}

/// The characters of each group of an optional list of optional strings.
pub open spec fn groups_view(groups: Option<Vec<Option<String>>>) -> Option<
    Seq<Option<Seq<char>>>,
> {
    match groups {
        Some(g) => Some(Seq::new(g@.len(), |i: int| text_view(g@[i]))),
        None => None,
    }
}

/// Compiles `pattern` with `regex::Regex::new` and searches `haystack` with
/// `Regex::find`, handing back the matched substring.
///
/// Trusted: the result is taken to be a function of the two texts alone,
/// named [`regex_find`]. A pattern that does not compile gives `None`.
#[verifier::external_body]
pub(crate) fn first_match(pattern: &str, haystack: &str) -> (found: Option<String>)
    ensures
        text_view(found) == regex_find(pattern@, haystack@),
{
    match regex::Regex::new(pattern) {
        Ok(re) => re.find(haystack).map(|m| m.as_str().to_owned()),
        Err(_) => None,
    }
}

/// Compiles `pattern` with `regex::Regex::new` and searches `haystack` with
/// `Regex::captures`, handing back the text of every group in order.
///
/// Trusted: the result is taken to be a function of the two texts alone,
/// named [`regex_captures`]. A pattern that does not compile gives `None`.
#[verifier::external_body]
pub(crate) fn first_captures(pattern: &str, haystack: &str) -> (groups: Option<Vec<Option<String>>>)
    ensures
        groups_view(groups) == regex_captures(pattern@, haystack@),
{
    match regex::Regex::new(pattern) {
        Ok(re) => re.captures(haystack).map(
            |c| c.iter().map(|g| g.map(|m| m.as_str().to_owned())).collect(),
        ),
        Err(_) => None,
    }
}

} // verus!
