//! Compiled patterns: how a pattern of the rule database becomes a regular expression of the
//! `regex` crate, and what a match hands back.
//!
//! Verus does not look inside `regex`. What it is told of it stands in the three functions
//! marked `external_body` below, each of which makes one call into the crate, and in the
//! four spec functions without a body, which give the crate's answers a name.
//!
//! What an expression finds is not fixed by its pattern text: the options that it was built
//! with count too, and the text does not show them. So what `Regex::captures` returns is
//! named by the expression itself (`found_by`). Only of an expression that this module has
//! built, with no option that bears on matching, is it known to be what the pattern text
//! alone gives (`captures_of`); `finds_by_text` says so of an expression, and every rule
//! keeps it as an invariant of the expression that it holds.

use vstd::prelude::*;
use regex::Regex;
use crate::text::{chars_of, push_char};

verus! {

/// A compiled regular expression.
#[verifier::external_type_specification]
#[verifier::external_body]
pub struct ExRegex(regex::Regex);

/// The error of a pattern that does not compile.
#[verifier::external_type_specification]
#[verifier::external_body]
pub struct ExRegexError(regex::Error);

/// The depth of nesting up to which a pattern is accepted. The crawler patterns of the rule
/// database are alternations of hundreds of branches.
pub const NEST_LIMIT: u32 = 1024;

/// The pattern text of a compiled expression: what `Regex::as_str` returns for it.
pub uninterp spec fn regex_source(re: Regex) -> Seq<char>;

/// Whether `RegexBuilder::build` accepts `pattern` when no option but the nest limit
/// `nest_limit` is set: the pattern is well formed, nested no deeper than the limit, and
/// within the size that the crate allows a compiled expression by default.
pub uninterp spec fn compiles(pattern: Seq<char>, nest_limit: u32) -> bool;

/// What `Regex::captures` returns for the expression `re` in `text`, whatever options `re`
/// was built with: `None` where there is no match, else the groups of the leftmost match,
/// the whole match first, `None` for a group that took no part in it.
pub uninterp spec fn found_by(re: Regex, text: Seq<char>) -> Option<Seq<Option<Seq<char>>>>;

/// What `Regex::captures` returns in `text` for the expression that `RegexBuilder` builds
/// from `pattern` when every option that bears on matching is left at its default.
pub uninterp spec fn captures_of(pattern: Seq<char>, text: Seq<char>) -> Option<
    Seq<Option<Seq<char>>>,
>;

/// Whether `re` finds in every text what its pattern text alone gives: it was built with
/// no option that bears on matching.
pub open spec fn finds_by_text(re: Regex) -> bool {
    forall|text: Seq<char>| #[trigger] found_by(re, text) == captures_of(regex_source(re), text)
}

/// `RegexBuilder::new(pattern).nest_limit(nest_limit).build()`. It succeeds on the patterns
/// that `compiles` names. The expression built keeps `pattern` as its text and, no option
/// but the nest limit being set, finds what `captures_of` names for `pattern`.
#[verifier::external_body]
fn compile(pattern: &str, nest_limit: u32) -> (r: Result<Regex, regex::Error>)
    ensures
        r is Ok <==> compiles(pattern@, nest_limit),
        r matches Ok(re) ==> regex_source(re) == pattern@ && forall|text: Seq<char>|
            #[trigger] found_by(re, text) == captures_of(pattern@, text),
{
    regex::RegexBuilder::new(pattern).nest_limit(nest_limit).build()
}

/// `Regex::captures`, with the groups of the match copied out as strings (`Captures::iter`,
/// `Match::as_str`). Nothing is claimed of how `re` was built: the result is what this
/// expression finds.
#[verifier::external_body]
pub(crate) fn captures(re: &Regex, text: &str) -> (r: Option<Vec<Option<String>>>)
    ensures
        r.deep_view() == found_by(*re, text@),
{
    re.captures(text).map(|c| c.iter().map(|g| g.map(|m| m.as_str().to_string())).collect())
}

/// `Regex::as_str`: the pattern text that `re` was built from.
#[verifier::external_body]
pub(crate) fn source_text(re: &Regex) -> (r: &str)
    ensures
        r@ == regex_source(*re),
{
    re.as_str()
}

/// A pattern that the `regex` crate did not accept.
#[derive(Debug, Clone, PartialEq, Eq)]
pub struct RuleCompileError {
    /// The pattern as it was handed to the compiler, flags included.
    pub pattern: String,
}

/// Whether a backslash in front of `c` can go: `c` stands for itself in every mode of the
/// `regex` crate. (A space does not: under the `x` flag it counts only when escaped.)
pub open spec fn needless_escape(c: char) -> bool {
    c == '/' || c == '!'
}

/// `p` without the backslash of each needless escape. Escapes are read in pairs from the
/// left, so the second backslash of `\\` never counts as the start of one.
pub open spec fn normalized(p: Seq<char>) -> Seq<char>
    decreases p.len(),
{
    if p.len() == 0 {
        Seq::empty()
    } else if p[0] == '\\' && p.len() > 1 {
        if needless_escape(p[1]) {
            seq![p[1]] + normalized(p.skip(2))
        } else {
            seq![p[0], p[1]] + normalized(p.skip(2))
        }
    } else {
        seq![p[0]] + normalized(p.skip(1))
    }
}

/// `p` with the flags `flag` set in front of it as an inline group, `(?flag)`. No flag and
/// the empty flag leave `p` as it is.
pub open spec fn with_flag(p: Seq<char>, flag: Option<Seq<char>>) -> Seq<char> {
    match flag {
        Some(f) => if f.len() > 0 {
            seq!['(', '?'] + f + seq![')'] + p
        } else {
            p
        },
        None => p,
    }
}

/// The text that is compiled for a pattern of the rule database and its flag.
pub open spec fn pattern_source(pattern: Seq<char>, flag: Option<Seq<char>>) -> Seq<char> {
    with_flag(normalized(pattern), flag)
}

/// Strips the needless escapes of `pattern`.
pub fn normalize_pattern(pattern: &str) -> (out: String)
    ensures
        out@ == normalized(pattern@),
{
    let p = chars_of(pattern);
    let mut out = String::new();
    let mut i: usize = 0;
    assert(p@.skip(0) =~= p@);
    assert(Seq::<char>::empty() + normalized(p@) =~= normalized(p@));
    while i < p.len()
        invariant
            i <= p.len(),
            normalized(p@) == out@ + normalized(p@.skip(i as int)),
        decreases p.len() - i,
    {
        let ghost rest = p@.skip(i as int);
        let ghost before = out@;
        if p[i] == '\\' && i + 1 < p.len() {
            let c = p[i + 1];
            assert(rest[1] == c);
            if c == '/' || c == '!' {
                push_char(&mut out, c);
                assert(out@ =~= before + seq![rest[1]]);
            } else {
                push_char(&mut out, '\\');
                push_char(&mut out, c);
                assert(out@ =~= before + seq![rest[0], rest[1]]);
            }
            assert(rest.skip(2) =~= p@.skip(i + 2));
            assert(out@ + normalized(p@.skip(i + 2)) =~= before + normalized(rest));
            i = i + 2;
        } else {
            push_char(&mut out, p[i]);
            assert(rest.skip(1) =~= p@.skip(i + 1));
            assert(out@ + normalized(p@.skip(i + 1)) =~= before + normalized(rest));
            i = i + 1;
        }
    }
    assert(out@ + Seq::<char>::empty() =~= out@);
    out
}

/// The text to compile for `pattern` under `flag`.
pub fn full_pattern(pattern: &str, flag: Option<&String>) -> (out: String)
    ensures
        out@ == pattern_source(pattern@, flag.deep_view()),
{
    let body = normalize_pattern(pattern);
    match flag {
        Some(f) => {
            if !f.as_str().is_empty() {
                let mut out = String::new();
                push_char(&mut out, '(');
                push_char(&mut out, '?');
                out.append(f.as_str());
                push_char(&mut out, ')');
                out.append(body.as_str());
                assert(out@ =~= seq!['(', '?'] + f@ + seq![')'] + body@);
                out
            } else {
                body
            }
        },
        None => body,
    }
}

/// Compiles a pattern of the rule database: needless escapes stripped, the flag set in
/// front as an inline group, nesting allowed up to `NEST_LIMIT`. The expression finds what
/// its text alone gives. The error names the text that was refused.
pub fn build_uap_regexp(pattern: &str, flag: Option<&String>) -> (r: Result<
    Regex,
    RuleCompileError,
>)
    ensures
        r is Ok <==> compiles(pattern_source(pattern@, flag.deep_view()), NEST_LIMIT),
        r matches Ok(re) ==> regex_source(re) == pattern_source(pattern@, flag.deep_view())
            && finds_by_text(re),
        r matches Err(e) ==> e.pattern@ == pattern_source(pattern@, flag.deep_view()),
{
    let source = full_pattern(pattern, flag);
    match compile(source.as_str(), NEST_LIMIT) {
        Ok(re) => Ok(re),
        Err(_) => Err(RuleCompileError { pattern: source }),
    }
}

} // verus!
