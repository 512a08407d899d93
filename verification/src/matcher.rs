//! Ignore rules: which structural paths and property names are excluded.

use crate::text::{chars_of, opens_with, same_chars};
use vstd::prelude::*;

verus! {

/// Whether one ignore pattern covers `path`: the pattern is the path itself,
/// or ends in `*` and the rest of it opens the path, or ends in `/` and opens
/// the path or the path followed by `/`.
pub open spec fn path_matches_spec(path: Seq<char>, pattern: Seq<char>) -> bool {
    ||| pattern == path
    ||| pattern.len() > 0 && pattern.last() == '*' && pattern.drop_last().is_prefix_of(path)
    ||| pattern.len() > 0 && pattern.last() == '/' && (pattern.is_prefix_of(path)
        || pattern.is_prefix_of(path.push('/')))
}

/// Whether some pattern of the list covers `path`.
pub open spec fn path_is_ignored_spec(path: Seq<char>, patterns: Seq<Seq<char>>) -> bool {
    exists|i: int| 0 <= i < patterns.len() && path_matches_spec(path, #[trigger] patterns[i])
}

/// Whether `name` is one of the ignored property names.
pub open spec fn property_is_ignored_spec(name: Seq<char>, names: Seq<Seq<char>>) -> bool {
    names.contains(name)
}

/// The rules of an optional list: an absent list holds none.
pub open spec fn rules_of(list: Option<Vec<String>>) -> Seq<Seq<char>> {
    match list {
        Some(v) => v.deep_view(),
        None => Seq::empty(),
    }
}

/// Tests one ignore pattern against a structural path.
pub fn path_matches(actual_path: &str, ignore_pattern: &str) -> (b: bool)
    ensures
        b == path_matches_spec(actual_path@, ignore_pattern@),
{
    let path = chars_of(actual_path);
    let pattern = chars_of(ignore_pattern);
    if same_chars(&pattern, &path) {
        return true;
    }
    let n: usize = pattern.len();
    if n == 0 {
        return false;
    }
    let last: char = pattern[n - 1];
    proof {
        assert(pattern@.take(n - 1) =~= pattern@.drop_last());
        assert(pattern@.take(n as int) =~= pattern@);
    }
    if last == '*' {
        return opens_with(&path, &pattern, n - 1);
    }
    if last == '/' {
        if opens_with(&path, &pattern, n) {
            return true;
        }
        let mut extended = path;
        extended.push('/');
        return opens_with(&extended, &pattern, n);
    }
    false
}

/// Whether any pattern of `patterns` covers `path`.
pub fn path_is_ignored(path: &str, patterns: &Vec<String>) -> (b: bool)
    ensures
        b == path_is_ignored_spec(path@, patterns.deep_view()),
{
    let mut i: usize = 0;
    while i < patterns.len()
        invariant
            i <= patterns@.len(),
            patterns.deep_view().len() == patterns@.len(),
            forall|j: int| 0 <= j < i ==> !path_matches_spec(path@, #[trigger] patterns.deep_view()[j]),
        decreases patterns@.len() - i,
    {
        assert(patterns.deep_view()[i as int] == patterns@[i as int]@);
        if path_matches(path, patterns[i].as_str()) {
            return true;
        }
        i = i + 1;
    }
    false
}

/// Whether `name` is listed in `names`.
pub fn property_is_ignored(name: &str, names: &Vec<String>) -> (b: bool)
    ensures
        b == property_is_ignored_spec(name@, names.deep_view()),
{
    let wanted = String::from_str(name);
    let mut i: usize = 0;
    while i < names.len()
        invariant
            i <= names@.len(),
            wanted@ == name@,
            names.deep_view().len() == names@.len(),
            forall|j: int| 0 <= j < i ==> names.deep_view()[j] != name@,
        decreases names@.len() - i,
    {
        assert(names.deep_view()[i as int] == names@[i as int]@);
        if names[i] == wanted {
            return true;
        }
        i = i + 1;
    }
    false
}

/// Whether an optional list of patterns covers `path`; an absent list
/// covers nothing.
pub fn list_ignores_path(path: &str, patterns: &Option<Vec<String>>) -> (b: bool)
    ensures
        b == path_is_ignored_spec(path@, rules_of(*patterns)),
{
    match patterns {
        Some(list) => path_is_ignored(path, list),
        None => false,
    }
}

/// Whether an optional list of names holds `name`; an absent list holds
/// nothing.
pub fn list_ignores_property(name: &str, names: &Option<Vec<String>>) -> (b: bool)
    ensures
        b == property_is_ignored_spec(name@, rules_of(*names)),
{
    match names {
        Some(list) => property_is_ignored(name, list),
        None => false,
    }
}

} // verus!
