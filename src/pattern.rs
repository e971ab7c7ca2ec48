use vstd::prelude::*;

verus! {

/// Whether `pattern` is a well-formed glob pattern.
pub uninterp spec fn glob_valid(pattern: Seq<char>) -> bool;

/// Whether `path` matches the glob `pattern` (never, where the pattern is not
/// well formed).
pub uninterp spec fn glob_match(pattern: Seq<char>, path: Seq<char>) -> bool;

/// Relies on `glob::Pattern::new`: it accepts or refuses a pattern by its
/// text alone.
#[verifier::external_body]
pub(crate) fn is_valid_pattern(pattern: &str) -> (r: bool)
    ensures
        r == glob_valid(pattern@),
{
    glob::Pattern::new(pattern).is_ok()
}

/// Relies on `glob::Pattern::new` and `glob::Pattern::matches` (default match
/// options): the answer depends on the two strings alone.
#[verifier::external_body]
pub(crate) fn pattern_matches(pattern: &str, path: &str) -> (r: bool)
    ensures
        r == glob_match(pattern@, path@),
{
    match glob::Pattern::new(pattern) {
        Ok(p) => p.matches(path),
        Err(_) => false,
    }
}

/// Whether `path` matches one of `patterns`.
pub open spec fn matches_any(patterns: Seq<String>, path: Seq<char>) -> bool {
    exists|j: int| 0 <= j < patterns.len() && glob_match(#[trigger] patterns[j]@, path)
}

/// Whether every one of `patterns` is well formed.
pub open spec fn all_valid(patterns: Seq<String>) -> bool {
    forall|j: int| 0 <= j < patterns.len() ==> glob_valid(#[trigger] patterns[j]@)
}

/// Whether `path` matches one of `patterns`.
pub fn any_matches(patterns: &Vec<String>, path: &str) -> (r: bool)
    ensures
        r == matches_any(patterns@, path@),
{
    let mut i: usize = 0;
    while i < patterns.len()
        invariant
            i <= patterns@.len(),
            forall|j: int| 0 <= j < i ==> !glob_match(#[trigger] patterns@[j]@, path@),
        decreases patterns@.len() - i,
    {
        if pattern_matches(patterns[i].as_str(), path) {
            return true;
        }
        i = i + 1;
    }
    false
}

/// The position of the first pattern that is not well formed, if any.
pub fn first_invalid(patterns: &Vec<String>) -> (r: Option<usize>)
    ensures
        r is None <==> all_valid(patterns@),
        r matches Some(k) ==> k < patterns@.len() && !glob_valid(patterns@[k as int]@) && all_valid(
            patterns@.take(k as int),
        ),
{
    let mut i: usize = 0;
    while i < patterns.len()
        invariant
            i <= patterns@.len(),
            forall|j: int| 0 <= j < i ==> glob_valid(#[trigger] patterns@[j]@),
        decreases patterns@.len() - i,
    {
        if !is_valid_pattern(patterns[i].as_str()) {
            assert(all_valid(patterns@.take(i as int)));
            return Some(i);
        }
        i = i + 1;
    }
    None
}

} // verus!
