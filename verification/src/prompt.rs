use vstd::prelude::*;

use crate::text::{str_eq, trim_str, trimmed};

verus! {

/// What `str::to_lowercase` returns.
pub uninterp spec fn lowercased(s: Seq<char>) -> Seq<char>;

/// What `str::to_uppercase` returns.
pub uninterp spec fn uppercased(s: Seq<char>) -> Seq<char>;

/// Every character is ASCII.
pub open spec fn all_ascii(s: Seq<char>) -> bool {
    forall|i: int| 0 <= i < s.len() ==> (s[i] as u32) < 128
}

/// ASCII `A`..`Z` mapped to `a`..`z`, other characters kept.
pub open spec fn ascii_lower(s: Seq<char>) -> Seq<char> {
    s.map_values(|c: char| if 'A' <= c <= 'Z' { ((c as u32) + 32) as char } else { c })
}

/// ASCII `a`..`z` mapped to `A`..`Z`, other characters kept.
pub open spec fn ascii_upper(s: Seq<char>) -> Seq<char> {
    s.map_values(|c: char| if 'a' <= c <= 'z' { ((c as u32) - 32) as char } else { c })
}

/// Calls `str::to_lowercase`. Its result is a function of the text (named
/// `lowercased`); on ASCII text it maps `A`..`Z` to `a`..`z` and keeps the
/// rest. The Unicode case mapping of other characters is left unsaid.
#[verifier::external_body]
fn to_lowercase_str(s: &str) -> (r: String)
    ensures
        r@ == lowercased(s@),
        all_ascii(s@) ==> r@ == ascii_lower(s@),
{
    s.to_lowercase()
}

/// Calls `str::to_uppercase`. Its result is a function of the text (named
/// `uppercased`); on ASCII text it maps `a`..`z` to `A`..`Z` and keeps the
/// rest. The Unicode case mapping of other characters is left unsaid.
#[verifier::external_body]
fn to_uppercase_str(s: &str) -> (r: String)
    ensures
        r@ == uppercased(s@),
        all_ascii(s@) ==> r@ == ascii_upper(s@),
{
    s.to_uppercase()
}

/// A yes/no answer consents when, trimmed, it is empty or lowercases to `y`.
pub open spec fn spec_consent(trimmed_answer: Seq<char>, lowered_answer: Seq<char>) -> bool {
    lowered_answer == "y"@ || trimmed_answer.len() == 0
}

/// Whether an answer, given trimmed and the trimmed text lowercased, consents.
pub fn consent_given(trimmed_answer: &str, lowered_answer: &str) -> (r: bool)
    ensures
        r == spec_consent(trimmed_answer@, lowered_answer@),
{
    str_eq(lowered_answer, "y") || trimmed_answer.unicode_len() == 0
}

/// Whether a line typed at a `(Y/n)` prompt consents: `y` or `Y`, or nothing,
/// around any white space.
pub fn is_consent(answer: &str) -> (r: bool)
    ensures
        r == spec_consent(trimmed(answer@), lowercased(trimmed(answer@))),
        all_ascii(trimmed(answer@)) ==> r == spec_consent(trimmed(answer@), ascii_lower(trimmed(answer@))),
{
    let t = trim_str(answer);
    let l = to_lowercase_str(t);
    consent_given(t, l.as_str())
}

/// How the user asks missing lockfiles to be handled when many projects are hibernated.
#[derive(Debug, Clone, Copy, PartialEq, Eq, Structural)]
pub enum BulkChoice {
    /// Generate every missing lockfile and include those projects.
    GenerateAll,
    /// Ask about each project in turn.
    AskEach,
    /// Leave the projects without lockfiles out.
    Skip,
}

pub open spec fn spec_bulk_choice(upper: Seq<char>) -> BulkChoice {
    if upper == "A"@ {
        BulkChoice::GenerateAll
    } else if upper == "L"@ {
        BulkChoice::AskEach
    } else {
        BulkChoice::Skip
    }
}

/// The choice that a trimmed, uppercased answer names: `A` all, `L` list, anything else skip.
pub fn bulk_choice_of(upper: &str) -> (c: BulkChoice)
    ensures
        c == spec_bulk_choice(upper@),
{
    if str_eq(upper, "A") {
        BulkChoice::GenerateAll
    } else if str_eq(upper, "L") {
        BulkChoice::AskEach
    } else {
        BulkChoice::Skip
    }
}

/// The choice that a line typed at the bulk lockfile menu names.
pub fn bulk_choice(answer: &str) -> (c: BulkChoice)
    ensures
        c == spec_bulk_choice(uppercased(trimmed(answer@))),
        all_ascii(trimmed(answer@)) ==> c == spec_bulk_choice(ascii_upper(trimmed(answer@))),
{
    let t = trim_str(answer);
    let u = to_uppercase_str(t);
    bulk_choice_of(u.as_str())
}

} // verus!
