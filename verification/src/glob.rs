//! Shell-style pattern matching through the `glob` crate.

use vstd::prelude::*;

verus! {

/// Whether `glob::Pattern::new` accepts `pattern`.
pub uninterp spec fn glob_compiles(pattern: Seq<char>) -> bool;

/// Whether the pattern compiled from `pattern` matches `text`
/// (`glob::Pattern::matches`, default match options).
pub uninterp spec fn glob_matches(pattern: Seq<char>, text: Seq<char>) -> bool;

/// `pattern` holds one of the characters that `glob` treats specially.
pub open spec fn has_glob_meta(pattern: Seq<char>) -> bool {
    exists|i: int| 0 <= i < pattern.len() && (pattern[i] == '*' || pattern[i] == '?' || pattern[i] == '[')
}

/// The pattern compiles and matches the text.
pub open spec fn glob_accepts(pattern: Seq<char>, text: Seq<char>) -> bool {
    glob_compiles(pattern) && glob_matches(pattern, text)
}

/// Compiles `pattern` with `glob::Pattern::new` and, when that succeeds,
/// tests `text` against it with `glob::Pattern::matches`.
///
/// The contract names both results. Of them it states one fact that the
/// crate's source shows: a pattern without `*`, `?` and `[` compiles into
/// literal tokens and matches exactly the text equal to it.
#[verifier::external_body]
pub(crate) fn glob_match(pattern: &[char], text: &[char]) -> (r: Option<bool>)
    ensures
        r is Some == glob_compiles(pattern@),
        r matches Some(b) ==> b == glob_matches(pattern@, text@),
        !has_glob_meta(pattern@) ==> r == Some(pattern@ == text@),
{
    let p: String = pattern.iter().collect();
    let t: String = text.iter().collect();
    match glob::Pattern::new(&p) {
        Ok(compiled) => Some(compiled.matches(&t)),
        Err(_) => None,
    }
}

/// Whether `pattern` compiles and matches `text`.
pub fn glob_accepts_exec(pattern: &[char], text: &[char]) -> (r: bool)
    ensures
        r == glob_accepts(pattern@, text@),
{
    match glob_match(pattern, text) {
        Some(b) => b,
        None => false,
    }
}

} // verus!
