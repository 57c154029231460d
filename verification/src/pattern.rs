//! Regular expressions over text, as the `regex` crate decides them.
//!
//! Compiling and searching are left to the crate; this module fixes which
//! expression is handed to it and what its answers mean for a string
//! constraint.
use vstd::prelude::*;
use vstd::string::*;

verus! {

/// `regex::Regex`, a compiled expression.  Nothing is known of what it
/// holds.
#[verifier::external_type_specification]
#[verifier::external_body]
pub struct ExRegex(regex::Regex);

/// `regex::Error`, why an expression does not compile.  Nothing is known of
/// what it holds.
#[verifier::external_type_specification]
#[verifier::external_body]
pub struct ExRegexError(regex::Error);

/// What `regex::Regex::new` returns for an expression: the compiled
/// expression, or the error.
pub uninterp spec fn regex_new(re: Seq<char>) -> Result<regex::Regex, regex::Error>;

/// What `regex::Regex::is_match` returns for a compiled expression and a
/// haystack: whether the expression matches anywhere in the haystack.
pub uninterp spec fn regex_is_match(re: regex::Regex, haystack: Seq<char>) -> bool;

/// `regex::Regex::new` compiles an expression or reports why it cannot.  The
/// outcome is determined by the expression alone; nothing more is claimed of
/// it here.
pub assume_specification[ regex::Regex::new ](re: &str) -> (compiled: Result<
    regex::Regex,
    regex::Error,
>)
    ensures
        compiled == regex_new(re@),
;

/// `regex::Regex::is_match` searches the haystack for a match of a compiled
/// expression.  The answer is determined by the expression and the haystack
/// alone; nothing more is claimed of it here.
pub assume_specification[ regex::Regex::is_match ](
    re: &regex::Regex,
    haystack: &str,
) -> (found: bool)
    ensures
        found == regex_is_match(*re, haystack@),
;

/// The pattern in a group of its own, between an anchor at the start of
/// the text and one at its end, so that alternatives and flags of the
/// pattern stay inside the anchors.
pub open spec fn anchored(pattern: Seq<char>) -> Seq<char> {
    "^(?:"@ + pattern + ")$"@
}

/// Whether a pattern is usable in a schema: it compiles both on its own and
/// anchored.
pub open spec fn pattern_compiles(pattern: Seq<char>) -> bool {
    regex_new(pattern) is Ok && regex_new(anchored(pattern)) is Ok
}

/// Whether the whole of `text` matches `pattern`: the anchored pattern
/// compiles and matches in `text`.
pub open spec fn pattern_accepts(pattern: Seq<char>, text: Seq<char>) -> bool {
    regex_new(anchored(pattern)) matches Ok(re) && regex_is_match(re, text)
}

/// Builds the anchored form of `pattern`.
pub fn anchor(pattern: &str) -> (expr: String)
    ensures
        expr@ == anchored(pattern@),
{
    let mut expr = String::from_str("^(?:");
    expr.append(pattern);
    expr.append(")$");
    expr
}

/// Decides whether `pattern` is usable in a schema.
pub fn compiles(pattern: &str) -> (ok: bool)
    ensures
        ok == pattern_compiles(pattern@),
{
    let anchored = anchor(pattern);
    regex::Regex::new(pattern).is_ok() && regex::Regex::new(anchored.as_str()).is_ok()
}

/// Decides whether the whole of `text` matches `pattern`.
pub fn full_match(pattern: &str, text: &str) -> (found: bool)
    requires
        pattern_compiles(pattern@),
    ensures
        found == pattern_accepts(pattern@, text@),
{
    let anchored = anchor(pattern);
    match regex::Regex::new(anchored.as_str()) {
        Ok(re) => re.is_match(text),
        Err(_) => false,
    }
}

} // verus!
