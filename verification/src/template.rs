//! Replacement templates: `$N` placeholders resolved against the capture groups of a match.
//!
//! A list of capture groups is a `Vec<Option<String>>`: entry `0` is the whole match, entry
//! `N` the text of group `N`, `None` where the group took no part in the match. Contracts
//! speak of its `deep_view()`, a `Seq<Option<Seq<char>>>`.

use vstd::prelude::*;
use crate::text::{
    all_whitespace, chars_of, is_whitespace, lemma_trim_bounds, push_char, trim, trimmed,
};

verus! {

/// Whether `c` is one of the ten ASCII digits.
pub open spec fn is_digit(c: char) -> bool {
    '0' <= c <= '9'
}

/// The number that the digit `c` stands for.
pub open spec fn digit_value(c: char) -> nat {
    (c as u32 - '0' as u32) as nat
}

/// How many decimal digits `s` starts with.
pub open spec fn digit_run(s: Seq<char>) -> nat
    decreases s.len(),
{
    if s.len() > 0 && is_digit(s[0]) {
        1 + digit_run(s.skip(1))
    } else {
        0
    }
}

/// The number that the decimal digits `s` denote.
pub open spec fn decimal(s: Seq<char>) -> nat
    decreases s.len(),
{
    if s.len() == 0 {
        0
    } else {
        decimal(s.drop_last()) * 10 + digit_value(s.last())
    }
}

/// The text of group `n`: empty where there is no such group or it took no part in the match.
pub open spec fn group_text(groups: Seq<Option<Seq<char>>>, n: nat) -> Seq<char> {
    if n < groups.len() {
        match groups[n as int] {
            Some(t) => t,
            None => Seq::empty(),
        }
    } else {
        Seq::empty()
    }
}

/// Whether a placeholder, `$` followed by at least one digit, starts at the front of `t`.
pub open spec fn starts_placeholder(t: Seq<char>) -> bool {
    t.len() > 0 && t[0] == '$' && digit_run(t.skip(1)) > 0
}

/// Whether `t` holds a placeholder anywhere.
pub open spec fn has_placeholder(t: Seq<char>) -> bool {
    exists|i: int| 0 <= i < t.len() && starts_placeholder(#[trigger] t.skip(i))
}

/// `t` with every placeholder `$N` replaced by the text of group `N`; all other characters,
/// a `$` that no digit follows among them, stay as they are.
pub open spec fn expand(t: Seq<char>, groups: Seq<Option<Seq<char>>>) -> Seq<char>
    decreases t.len(),
{
    if t.len() == 0 {
        Seq::empty()
    } else if starts_placeholder(t) {
        let n = digit_run(t.skip(1));
        proof {
            lemma_digit_run_bound(t.skip(1));
        }
        group_text(groups, decimal(t.subrange(1, 1 + n as int))) + expand(
            t.skip(1 + n as int),
            groups,
        )
    } else {
        seq![t[0]] + expand(t.skip(1), groups)
    }
}

/// `None` in place of the empty sequence.
pub open spec fn non_empty(s: Seq<char>) -> Option<Seq<char>> {
    if s.len() == 0 {
        None
    } else {
        Some(s)
    }
}

/// What a template yields: its expansion, trimmed, and `None` when nothing is left.
pub open spec fn replaced(t: Seq<char>, groups: Seq<Option<Seq<char>>>) -> Option<Seq<char>> {
    non_empty(trim(expand(t, groups)))
}

/// What a field without a template yields: the text of its group as it stands, `None` when
/// the group is absent or empty.
pub open spec fn group_or_none(groups: Seq<Option<Seq<char>>>, n: nat) -> Option<Seq<char>> {
    non_empty(group_text(groups, n))
}

/// The value of one output field.
pub open spec fn resolved(
    template: Option<Seq<char>>,
    groups: Seq<Option<Seq<char>>>,
    fallback_group: nat,
) -> Option<Seq<char>> {
    match template {
        Some(t) => replaced(t, groups),
        None => group_or_none(groups, fallback_group),
    }
}

/// A run of digits is no longer than the sequence, holds digits only, and ends at the
/// first character that is none.
pub proof fn lemma_digit_run_bound(s: Seq<char>)
    ensures
        digit_run(s) <= s.len(),
        forall|k: int| 0 <= k < digit_run(s) ==> is_digit(#[trigger] s[k]),
        digit_run(s) < s.len() ==> !is_digit(s[digit_run(s) as int]),
    decreases s.len(),
{
    if s.len() > 0 && is_digit(s[0]) {
        let t = s.skip(1);
        lemma_digit_run_bound(t);
        assert forall|k: int| 0 <= k < digit_run(s) implies is_digit(#[trigger] s[k]) by {
            if k > 0 {
                assert(s[k] == t[k - 1]);
            }
        }
        if digit_run(s) < s.len() {
            assert(s[digit_run(s) as int] == t[digit_run(t) as int]);
        }
    }
}

/// A template that holds no placeholder expands to itself, whatever the groups hold.
pub proof fn lemma_expand_literal(t: Seq<char>, groups: Seq<Option<Seq<char>>>)
    requires
        !has_placeholder(t),
    ensures
        expand(t, groups) == t,
    decreases t.len(),
{
    if t.len() > 0 {
        assert(t.skip(0) =~= t);
        let rest = t.skip(1);
        assert(!has_placeholder(rest)) by {
            if has_placeholder(rest) {
                let k = choose|k: int| 0 <= k < rest.len() && starts_placeholder(
                    #[trigger] rest.skip(k),
                );
                assert(rest.skip(k) =~= t.skip(k + 1));
            }
        }
        lemma_expand_literal(rest, groups);
        assert(seq![t[0]] + rest =~= t);
    } else {
        assert(expand(t, groups) =~= t);
    }
}

/// A template without `$` holds no placeholder.
pub proof fn lemma_no_dollar_no_placeholder(t: Seq<char>)
    requires
        !t.contains('$'),
    ensures
        !has_placeholder(t),
{
    if has_placeholder(t) {
        let k = choose|k: int| 0 <= k < t.len() && starts_placeholder(#[trigger] t.skip(k));
        assert(t.skip(k)[0] == t[k]);
        assert(t.contains('$'));
    }
}

/// A template without `$` yields its own trimmed text on every match: the groups play no
/// part, and two matches give the same value.
pub proof fn lemma_literal_template(
    t: Seq<char>,
    groups: Seq<Option<Seq<char>>>,
    other: Seq<Option<Seq<char>>>,
    fallback_group: nat,
)
    requires
        !t.contains('$'),
    ensures
        replaced(t, groups) == non_empty(trim(t)),
        resolved(Some(t), groups, fallback_group) == non_empty(trim(t)),
        resolved(Some(t), groups, fallback_group) == resolved(Some(t), other, fallback_group),
{
    lemma_no_dollar_no_placeholder(t);
    lemma_expand_literal(t, groups);
    lemma_expand_literal(t, other);
}

/// No field is ever `Some` of an empty text. A template whose expansion is empty or all
/// whitespace yields `None`; what a template does yield neither starts nor ends with
/// whitespace.
pub proof fn lemma_no_empty_field(
    template: Option<Seq<char>>,
    groups: Seq<Option<Seq<char>>>,
    fallback_group: nat,
)
    ensures
        resolved(template, groups, fallback_group) matches Some(v) ==> v.len() > 0,
        template matches Some(t) ==> (replaced(t, groups) is None <==> all_whitespace(
            expand(t, groups),
        )),
        template matches Some(t) ==> (replaced(t, groups) matches Some(v) ==> !is_whitespace(v[0])
            && !is_whitespace(v.last())),
{
    if let Some(t) = template {
        lemma_trim_bounds(expand(t, groups));
    }
}

/// Whether `c` is a decimal digit, and which.
pub fn digit_of(c: char) -> (d: Option<usize>)
    ensures
        d is Some <==> is_digit(c),
        d matches Some(v) ==> v == digit_value(c) && v <= 9,
{
    if '0' <= c && c <= '9' {
        Some((c as u32 - '0' as u32) as usize)
    } else {
        None
    }
}

/// The text of group `n` appended to `out`.
fn append_group(out: &mut String, groups: &Vec<Option<String>>, n: usize)
    ensures
        final(out)@ == old(out)@ + group_text(groups.deep_view(), n as nat),
{
    if n < groups.len() {
        match &groups[n] {
            Some(text) => {
                out.append(text.as_str());
            },
            None => {
                assert(old(out)@ + Seq::<char>::empty() =~= old(out)@);
            },
        }
    } else {
        assert(old(out)@ + Seq::<char>::empty() =~= old(out)@);
    }
}

/// Reads the digits of `t` from `from` on: where they end, and the number that they
/// denote. A number too large for `usize` is not returned.
fn read_number(t: &Vec<char>, from: usize) -> (r: (usize, Option<usize>))
    requires
        from <= t.len(),
    ensures
        r.0 == from + digit_run(t@.skip(from as int)),
        r.0 <= t.len(),
        match r.1 {
            Some(n) => n == decimal(t@.subrange(from as int, r.0 as int)),
            None => decimal(t@.subrange(from as int, r.0 as int)) > usize::MAX,
        },
{
    let mut n: usize = 0;
    let mut fits = true;
    let mut j: usize = from;
    assert(t@.subrange(from as int, from as int) =~= Seq::<char>::empty());
    while j < t.len() && digit_of(t[j]).is_some()
        invariant
            from <= j <= t.len(),
            digit_run(t@.skip(from as int)) == (j - from) + digit_run(t@.skip(j as int)),
            fits ==> n == decimal(t@.subrange(from as int, j as int)),
            !fits ==> decimal(t@.subrange(from as int, j as int)) > usize::MAX,
        decreases t.len() - j,
    {
        let d = digit_of(t[j]).unwrap();
        proof {
            let longer = t@.subrange(from as int, j + 1);
            assert(longer.drop_last() =~= t@.subrange(from as int, j as int));
            assert(longer.last() == t@[j as int]);
            assert(t@.skip(j as int).skip(1) =~= t@.skip(j + 1));
        }
        if fits && n <= (usize::MAX - d) / 10 {
            n = n * 10 + d;
        } else {
            fits = false;
        }
        j = j + 1;
    }
    (j, if fits { Some(n) } else { None })
}

/// Expands the placeholders of `template` against `groups`.
pub fn expand_template(template: &str, groups: &Vec<Option<String>>) -> (out: String)
    ensures
        out@ == expand(template@, groups.deep_view()),
{
    let t = chars_of(template);
    let ghost gs = groups.deep_view();
    let mut out = String::new();
    let mut i: usize = 0;
    assert(t@.skip(0) =~= t@);
    assert(Seq::<char>::empty() + expand(t@, gs) =~= expand(t@, gs));
    while i < t.len()
        invariant
            i <= t.len(),
            gs == groups.deep_view(),
            expand(t@, gs) == out@ + expand(t@.skip(i as int), gs),
        decreases t.len() - i,
    {
        let ghost rest = t@.skip(i as int);
        let ghost before = out@;
        let (end, number) = if t[i] == '$' {
            read_number(&t, i + 1)
        } else {
            (i + 1, None)
        };
        proof {
            assert(rest.skip(1) =~= t@.skip(i + 1));
        }
        if end > i + 1 {
            // a placeholder: `$` and the digits up to `end`
            proof {
                assert(starts_placeholder(rest));
                assert(rest.subrange(1, 1 + (end - (i + 1))) =~= t@.subrange(i + 1, end as int));
                assert(rest.skip(1 + (end - (i + 1))) =~= t@.skip(end as int));
                assert(gs.len() == groups.len());
            }
            match number {
                Some(n) => append_group(&mut out, groups, n),
                None => {},
            }
            assert(out@ + expand(t@.skip(end as int), gs) =~= before + expand(rest, gs));
            i = end;
        } else {
            push_char(&mut out, t[i]);
            assert(!starts_placeholder(rest));
            assert(out@ + expand(t@.skip(i + 1), gs) =~= before + expand(rest, gs));
            i = i + 1;
        }
    }
    assert(out@ + Seq::<char>::empty() =~= out@);
    out
}

/// `None` in place of the empty string.
pub fn none_if_empty(s: String) -> (r: Option<String>)
    ensures
        r.deep_view() == non_empty(s@),
{
    if s.as_str().is_empty() {
        None
    } else {
        Some(s)
    }
}

/// Resolves `template` against `groups`: placeholders expanded, the result trimmed, and
/// `None` when nothing but whitespace is left.
pub fn replace_matches(template: &str, groups: &Vec<Option<String>>) -> (r: Option<String>)
    ensures
        r.deep_view() == replaced(template@, groups.deep_view()),
        r matches Some(v) ==> v@.len() > 0,
{
    let expanded = expand_template(template, groups);
    none_if_empty(trimmed(expanded.as_str()))
}

/// The text of group `group` as it stands, `None` when the group is absent, took no part
/// in the match or matched the empty string.
pub fn get_or_none(groups: &Vec<Option<String>>, group: usize) -> (r: Option<String>)
    ensures
        r.deep_view() == group_or_none(groups.deep_view(), group as nat),
        r matches Some(v) ==> v@.len() > 0,
{
    let mut text = String::new();
    append_group(&mut text, groups, group);
    assert(Seq::<char>::empty() + group_text(groups.deep_view(), group as nat) =~= group_text(
        groups.deep_view(),
        group as nat,
    ));
    none_if_empty(text)
}

/// A template as borrowed text.
pub fn as_text(template: &Option<String>) -> (r: Option<&str>)
    ensures
        r.deep_view() == template.deep_view(),
{
    match template {
        Some(t) => Some(t.as_str()),
        None => None,
    }
}

/// The value of one output field: the template resolved where there is one, else the text
/// of group `fallback_group`.
pub fn resolve(template: Option<&str>, groups: &Vec<Option<String>>, fallback_group: usize) -> (r:
    Option<String>)
    ensures
        r.deep_view() == resolved(
            template.deep_view(),
            groups.deep_view(),
            fallback_group as nat,
        ),
        r matches Some(v) ==> v@.len() > 0,
{
    match template {
        Some(t) => replace_matches(t, groups),
        None => get_or_none(groups, fallback_group),
    }
}

} // verus!
