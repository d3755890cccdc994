//! Regular-expression matching through the `regex` crate.
use vstd::prelude::*;

verus! {

#[verifier::external_type_specification]
#[verifier::external_body]
pub struct ExRegex(regex::Regex);

/// Name for whether `regex::Regex::new` accepts the pattern (valid syntax
/// and within the default size limit).
pub uninterp spec fn regex_compiles(pattern: Seq<char>) -> bool;

/// Name for `regex::Regex::is_match`: whether the regex compiled from
/// `pattern` matches somewhere in `text`.
pub uninterp spec fn regex_matches(pattern: Seq<char>, text: Seq<char>) -> bool;

/// A compiled regular expression together with the pattern it came from.
pub struct CompiledPattern {
    source: String,
    re: regex::Regex,
}

impl CompiledPattern {
    /// The pattern this regex was compiled from.
    pub closed spec fn source(&self) -> Seq<char> {
        self.source@
    }
}

/// Wrapper for `regex::Regex::new`: `Some` exactly when the pattern
/// compiles; the error value is dropped.
#[verifier::external_body]
fn regex_new(pattern: &str) -> (r: Option<regex::Regex>)
    ensures
        r is Some <==> regex_compiles(pattern@),
{
    regex::Regex::new(pattern).ok()
}

/// Wrapper for `regex::Regex::is_match` on a regex built by `compile`.
#[verifier::external_body]
fn regex_is_match(p: &CompiledPattern, text: &str) -> (r: bool)
    ensures
        r == regex_matches(p.source(), text@),
{
    p.re.is_match(text)
}

/// Compiles `pattern`, or `None` where the `regex` crate refuses it.
pub fn compile(pattern: &str) -> (r: Option<CompiledPattern>)
    ensures
        r is Some <==> regex_compiles(pattern@),
        r matches Some(p) ==> p.source() == pattern@,
{
    match regex_new(pattern) {
        Some(re) => Some(CompiledPattern { source: crate::text::to_owned_string(pattern), re }),
        None => None,
    }
}

/// Whether the compiled pattern matches somewhere in `text`.
pub fn is_match(p: &CompiledPattern, text: &str) -> (r: bool)
    ensures
        r == regex_matches(p.source(), text@),
{
    regex_is_match(p, text)
}

/// Name for what `regex::Regex::captures_iter` yields on `text`: for each
/// successive non-overlapping match, the text of each capture group in
/// order (group 0 the whole match), `None` for a group that took no part.
pub uninterp spec fn regex_all_captures(pattern: Seq<char>, text: Seq<char>) -> Seq<
    Seq<Option<Seq<char>>>,
>;

/// The plain contents of captured groups.
pub open spec fn groups_view(c: Seq<Option<String>>) -> Seq<Option<Seq<char>>> {
    c.map_values(|o: Option<String>| crate::types::opt_view(o))
}

/// Wrapper for `regex::Regex::captures_iter` on a regex built by
/// `compile`, each match's groups turned into owned strings.
#[verifier::external_body]
fn regex_captures_iter(p: &CompiledPattern, text: &str) -> (r: Vec<Vec<Option<String>>>)
    ensures
        r@.map_values(|c: Vec<Option<String>>| groups_view(c@)) == regex_all_captures(
            p.source(),
            text@,
        ),
{
    let mut out: Vec<Vec<Option<String>>> = Vec::new();
    for caps in p.re.captures_iter(text) {
        let mut groups: Vec<Option<String>> = Vec::new();
        for m in caps.iter() {
            groups.push(match m {
                Some(x) => Some(x.as_str().to_string()),
                None => None,
            });
        }
        out.push(groups);
    }
    out
}

/// The capture groups of every successive match of the pattern in `text`.
pub fn all_captures(p: &CompiledPattern, text: &str) -> (r: Vec<Vec<Option<String>>>)
    ensures
        r@.map_values(|c: Vec<Option<String>>| groups_view(c@)) == regex_all_captures(
            p.source(),
            text@,
        ),
{
    regex_captures_iter(p, text)
}

/// Name for what `regex::Regex::captures` gives on `text`: the groups of
/// the leftmost match (as for `regex_all_captures`).
pub uninterp spec fn regex_first_captures(pattern: Seq<char>, text: Seq<char>) -> Option<
    Seq<Option<Seq<char>>>,
>;

/// Wrapper for `regex::Regex::captures` on a regex built by `compile`:
/// `None` exactly where the regex does not match.
#[verifier::external_body]
fn regex_captures(p: &CompiledPattern, text: &str) -> (r: Option<Vec<Option<String>>>)
    ensures
        r is Some <==> regex_matches(p.source(), text@),
        match r {
            Some(c) => regex_first_captures(p.source(), text@) == Some(groups_view(c@)),
            None => regex_first_captures(p.source(), text@) is None,
        },
{
    match p.re.captures(text) {
        Some(caps) => {
            let mut groups: Vec<Option<String>> = Vec::new();
            for m in caps.iter() {
                groups.push(match m {
                    Some(x) => Some(x.as_str().to_string()),
                    None => None,
                });
            }
            Some(groups)
        },
        None => None,
    }
}

/// The capture groups of the leftmost match of the pattern in `text`.
pub fn first_captures(p: &CompiledPattern, text: &str) -> (r: Option<Vec<Option<String>>>)
    ensures
        r is Some <==> regex_matches(p.source(), text@),
        match r {
            Some(c) => regex_first_captures(p.source(), text@) == Some(groups_view(c@)),
            None => regex_first_captures(p.source(), text@) is None,
        },
{
    regex_captures(p, text)
}

} // verus!
