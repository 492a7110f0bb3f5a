//! Regular expressions, as the `regex` crate evaluates them.
//!
//! Nothing in this module is proved. Each function hands its arguments to
//! one function of the `regex` crate, and each uninterpreted function names
//! what that function answers, so that callers can state their results over
//! those names.
use vstd::prelude::*;

verus! {

#[verifier::external_type_specification]
#[verifier::external_body]
pub struct ExRegex(regex::Regex);

#[verifier::external_type_specification]
#[verifier::external_body]
pub struct ExRegexError(regex::Error);

/// The pattern text that a compiled expression was built from, which is what
/// `regex::Regex::as_str` returns. Every expression in this crate is made by
/// [`compile`], that is by `regex::Regex::new` with the options that the
/// `regex` crate has by default, so its pattern text alone decides what it
/// matches; the names below speak of expressions made so and of no others.
pub uninterp spec fn source(re: regex::Regex) -> Seq<char>;

/// The text that the `Display` impl of `regex::Error` writes for an error.
pub uninterp spec fn error_text(e: regex::Error) -> Seq<char>;

/// What `regex::Regex::new` makes of a pattern: `None` where it compiles the
/// pattern, else the text of the error it returns.
pub uninterp spec fn compile_failure(pattern: Seq<char>) -> Option<Seq<char>>;

/// Whether `regex::Regex::is_match`, on an expression that
/// `regex::Regex::new` made of the pattern, finds a match anywhere in the
/// haystack.
pub uninterp spec fn is_match(pattern: Seq<char>, haystack: Seq<char>) -> bool;

/// What `regex::Regex::replace` returns on an expression that
/// `regex::Regex::new` made of the pattern: the haystack with its leftmost
/// match of the pattern replaced by the expansion of the replacement.
pub uninterp spec fn replaced(
    pattern: Seq<char>,
    haystack: Seq<char>,
    replacement: Seq<char>,
) -> Seq<char>;

/// Calls `regex::Regex::new`. The outcome depends on the pattern alone; a
/// compiled expression remembers the pattern it was built from. Nothing is
/// claimed about which patterns compile.
#[verifier::external_body]
pub(crate) fn compile(pattern: &str) -> (r: Result<regex::Regex, regex::Error>)
    ensures
        match r {
            Ok(re) => compile_failure(pattern@) is None && source(re) == pattern@,
            Err(e) => compile_failure(pattern@) == Some(error_text(e)),
        },
{
    regex::Regex::new(pattern)
}

/// Calls `regex::Regex::is_match`. The answer depends on the pattern of the
/// expression and on the haystack alone.
#[verifier::external_body]
pub(crate) fn has_match(re: &regex::Regex, haystack: &str) -> (b: bool)
    ensures
        b == is_match(source(*re), haystack@),
{
    re.is_match(haystack)
}

/// Calls `regex::Regex::replace` with a text as the replacement. The result
/// depends on the pattern, the haystack and the replacement alone, and it is
/// the haystack itself where the pattern has no match in it.
#[verifier::external_body]
pub(crate) fn replace_first(re: &regex::Regex, haystack: &str, replacement: &str) -> (s: String)
    ensures
        s@ == replaced(source(*re), haystack@, replacement@),
        !is_match(source(*re), haystack@) ==> s@ == haystack@,
{
    re.replace(haystack, replacement).into_owned()
}

/// Formats a `regex::Error` with its `Display` impl.
#[verifier::external_body]
pub(crate) fn describe(e: &regex::Error) -> (s: String)
    ensures
        s@ == error_text(*e),
{
    format!("{}", e)
}

} // verus!
