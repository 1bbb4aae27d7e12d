//! The boundary to the `regex` crate: the compiled filter type, the names
//! under which the contracts speak of compilation and matching, and the
//! wrappers through which the rest of the library calls into `regex`.

use vstd::prelude::*;
use vstd::string::*;

verus! {

#[verifier::external_type_specification]
#[verifier::external_body]
pub struct ExRegex(regex::Regex);

/// The pattern string that a compiled `regex::Regex` holds, as
/// `regex::Regex::as_str` returns it; `compile_pattern` establishes it.
pub uninterp spec fn regex_pattern(re: regex::Regex) -> Seq<char>;

/// Whether `regex::Regex::new` accepts the pattern (syntactically valid and
/// within the crate's default size limit); a function of the pattern alone.
pub uninterp spec fn pattern_ok(pattern: Seq<char>) -> bool;

/// The result of `regex::Regex::is_match` for a regex compiled from
/// `pattern`, run on `line`; a function of the two strings alone.
pub uninterp spec fn regex_matches(pattern: Seq<char>, line: Seq<char>) -> bool;

/// The successive non-overlapping match spans that `regex::Regex::find_iter`
/// yields on `line`, as byte offsets into `line`'s UTF-8 encoding; a function
/// of the two strings alone.
pub uninterp spec fn match_spans(pattern: Seq<char>, line: Seq<char>) -> Seq<(usize, usize)>;

/// Whether a line is retained by a filter: an empty pattern keeps every line,
/// a nonempty one keeps the lines the regular expression matches.
pub open spec fn line_matches(pattern: Seq<char>, line: Seq<char>) -> bool {
    pattern.len() == 0 || regex_matches(pattern, line)
}

/// A span list is well formed over a line of `len` bytes when every span lies
/// within the line, starts no later than it ends, and the spans do not
/// overlap and come in left-to-right order.
pub open spec fn spans_wf(spans: Seq<(usize, usize)>, len: int) -> bool {
    &&& forall|i: int|
        0 <= i < spans.len() ==> (#[trigger] spans[i]).0 <= spans[i].1 <= len
    &&& forall|i: int|
        0 < i < spans.len() ==> (#[trigger] spans[i]).0 >= spans[i - 1].1
}

/// Relies on `regex::Regex::new`: it succeeds exactly on the patterns it
/// accepts (an empty pattern always among them), and the compiled value keeps
/// the pattern string, which `regex::Regex::as_str` returns unchanged.
#[verifier::external_body]
pub(crate) fn compile_pattern(pattern: &str) -> (r: Option<regex::Regex>)
    ensures
        r is Some <==> pattern_ok(pattern@),
        r matches Some(re) ==> regex_pattern(re) == pattern@,
        pattern@.len() == 0 ==> r is Some,
{
    regex::Regex::new(pattern).ok()
}

/// Relies on `regex::Regex::is_match`: true if and only if the regex matches
/// somewhere in the line; an empty pattern matches every line.
#[verifier::external_body]
pub(crate) fn regex_is_match(re: &regex::Regex, line: &str) -> (b: bool)
    ensures
        b == line_matches(regex_pattern(*re), line@),
        regex_pattern(*re).len() > 0 ==> b == regex_matches(regex_pattern(*re), line@),
{
    re.is_match(line)
}

/// Relies on `regex::Regex::find_iter` and `regex::Match::start` / `end`:
/// the byte offsets of the successive non-overlapping matches, in
/// left-to-right order, each within the line.
#[verifier::external_body]
pub(crate) fn find_match_spans(re: &regex::Regex, line: &str) -> (spans: Vec<(usize, usize)>)
    ensures
        spans@ == match_spans(regex_pattern(*re), line@),
        spans_wf(spans@, line.spec_bytes().len() as int),
{
    re.find_iter(line).map(|m| (m.start(), m.end())).collect()
}

} // verus!
