//! Rules and rule lists: which rule of a list accounts for a user agent.
//!
//! A rule is a compiled pattern with the templates of its output fields; the three kinds
//! stand in the modules below. A list of rules is a `Vec` in the order of the rule
//! database, and the first rule whose pattern matches decides.

use vstd::prelude::*;
use regex::Regex;
use yaml_rust::Yaml;
use crate::pattern::{captures, captures_of, finds_by_text, regex_source};

pub mod browser;
pub mod device;
pub mod os;

verus! {

/// What the three kinds of rule share: a compiled pattern, and a way from the capture
/// groups of a match to a record.
pub trait Rule: DeepView + Sized {
    /// The record that the rule gives.
    type Record: View;

    /// The rule that a node of the rule database describes: `None` where the node has no
    /// pattern, or has one that does not compile.
    spec fn of_yaml(y: Yaml) -> Option<<Self as DeepView>::V>;

    /// The pattern text that the rule was compiled from.
    spec fn source(&self) -> Seq<char>;

    /// The record that the rule makes of the capture groups of a match.
    spec fn extracted(&self, groups: Seq<Option<Seq<char>>>) -> <Self::Record as View>::V;

    /// The record of an agent that no rule matches.
    spec fn other() -> <Self::Record as View>::V;

    /// The compiled pattern. It finds what its pattern text alone gives: an expression
    /// built with an option that changes what it matches is no pattern of a rule.
    fn regex(&self) -> (re: &Regex)
        ensures
            regex_source(*re) == self.source(),
            finds_by_text(*re),
    ;

    /// The record that the rule makes of the capture groups of a match.
    fn record_of(&self, groups: &Vec<Option<String>>) -> (r: Self::Record)
        ensures
            r@ == self.extracted(groups.deep_view()),
    ;

    /// The record of an agent that no rule matches.
    fn no_match() -> (r: Self::Record)
        ensures
            r@ == Self::other(),
    ;

    /// A copy of a record.
    fn copy_of(record: &Self::Record) -> (r: Self::Record)
        ensures
            r@ == record@,
    ;

    /// Reads a rule from a node of the rule database.
    fn from_node(y: &Yaml) -> (r: Option<Self>)
        ensures
            r.deep_view() == Self::of_yaml(*y),
    ;

    /// A rule is no more than its plain text: two rules with the same text have the same
    /// pattern and make the same record of the same groups.
    proof fn lemma_text_decides(a: &Self, b: &Self)
        requires
            a.deep_view() == b.deep_view(),
        ensures
            a.source() == b.source(),
            forall|groups: Seq<Option<Seq<char>>>| #[trigger]
                a.extracted(groups) == b.extracted(groups),
    ;
}

// What a list of rules makes of an agent.

/// Whether the pattern `source` matches anywhere in `text`.
pub open spec fn is_match(source: Seq<char>, text: Seq<char>) -> bool {
    captures_of(source, text) is Some
}

/// The pattern texts of a list of rules.
pub open spec fn sources<R: Rule>(rules: Seq<R>) -> Seq<Seq<char>> {
    Seq::new(rules.len(), |i: int| rules[i].source())
}

/// The first position from `from` on whose pattern matches `text`.
pub open spec fn first_match_from(patterns: Seq<Seq<char>>, text: Seq<char>, from: int) -> Option<
    int,
>
    decreases patterns.len() - from,
{
    if from < 0 || from >= patterns.len() {
        None
    } else if is_match(patterns[from], text) {
        Some(from)
    } else {
        first_match_from(patterns, text, from + 1)
    }
}

/// The position of the rule that decides: the first whose pattern matches `text`.
pub open spec fn first_match(patterns: Seq<Seq<char>>, text: Seq<char>) -> Option<int> {
    first_match_from(patterns, text, 0)
}

/// The record that `rule` makes of `agent`: `None` where its pattern does not match.
pub open spec fn parsed<R: Rule>(rule: R, agent: Seq<char>) -> Option<<R::Record as View>::V> {
    match captures_of(rule.source(), agent) {
        Some(groups) => Some(rule.extracted(groups)),
        None => None,
    }
}

/// The record of `agent` under `rules`: what the first rule whose pattern matches makes
/// of it, and the default record where none matches.
pub open spec fn classified<R: Rule>(rules: Seq<R>, agent: Seq<char>) -> <R::Record as View>::V {
    match first_match(sources(rules), agent) {
        Some(i) => rules[i].extracted(captures_of(rules[i].source(), agent).unwrap()),
        None => R::other(),
    }
}

// What a list of nodes gives as rules.

/// The entries of `s` that are `Some`, in their order.
pub open spec fn somes<T>(s: Seq<Option<T>>) -> Seq<T>
    decreases s.len(),
{
    if s.len() == 0 {
        Seq::empty()
    } else {
        match s.last() {
            Some(v) => somes(s.drop_last()).push(v),
            None => somes(s.drop_last()),
        }
    }
}

/// The rules that a list of nodes describes: those that compile, in the order of the list.
pub open spec fn described<R: Rule>(items: Seq<Yaml>) -> Seq<<R as DeepView>::V> {
    somes(items.map_values(|y: Yaml| R::of_yaml(y)))
}

// The executable side.

/// Finds the rule that decides for `agent`: its position in `rules` and the capture
/// groups of its match. `None` where no rule matches.
pub fn find_match<R: Rule>(rules: &Vec<R>, agent: &str) -> (r: Option<(usize, Vec<Option<String>>)>)
    ensures
        match r {
            Some((i, groups)) => first_match(sources(rules@), agent@) == Some(i as int) && i
                < rules.len() && captures_of(rules[i as int].source(), agent@) == Some(
                groups.deep_view(),
            ),
            None => first_match(sources(rules@), agent@) is None,
        },
        r is None <==> forall|k: int|
            0 <= k < rules.len() ==> !is_match((#[trigger] rules[k]).source(), agent@),
{
    let ghost patterns = sources(rules@);
    let mut i: usize = 0;
    while i < rules.len()
        invariant
            i <= rules.len(),
            patterns == sources(rules@),
            first_match(patterns, agent@) == first_match_from(patterns, agent@, i as int),
            forall|k: int| 0 <= k < i ==> !is_match((#[trigger] rules[k]).source(), agent@),
        decreases rules.len() - i,
    {
        match captures(rules[i].regex(), agent) {
            Some(groups) => {
                assert(patterns[i as int] == rules[i as int].source());
                return Some((i, groups));
            },
            None => {
                assert(patterns[i as int] == rules[i as int].source());
            },
        }
        i = i + 1;
    }
    None
}

/// The record that `rule` makes of `agent`: `None` where its pattern does not match.
pub fn parse_with<R: Rule>(rule: &R, agent: &str) -> (r: Option<R::Record>)
    ensures
        r is Some <==> is_match(rule.source(), agent@),
        match r {
            Some(record) => parsed(*rule, agent@) == Some(record@),
            None => parsed(*rule, agent@) is None,
        },
{
    match captures(rule.regex(), agent) {
        Some(groups) => Some(rule.record_of(&groups)),
        None => None,
    }
}

/// Classifies `agent` by the first rule of `rules` whose pattern matches it. Where none
/// matches the record is the default one.
pub fn classify<R: Rule>(rules: &Vec<R>, agent: &str) -> (r: R::Record)
    ensures
        r@ == classified(rules@, agent@),
        (forall|k: int| 0 <= k < rules.len() ==> !is_match((#[trigger] rules[k]).source(), agent@))
            ==> r@ == R::other(),
{
    match find_match(rules, agent) {
        Some((i, groups)) => rules[i].record_of(&groups),
        None => R::no_match(),
    }
}

/// Reads the rules of a list of nodes, in their order. A node that gives no rule is
/// passed over: it never keeps the others out.
pub fn rules_from_yaml<R: Rule>(items: &Vec<Yaml>) -> (rules: Vec<R>)
    ensures
        rules.deep_view() == described::<R>(items@),
{
    let ghost all = items@.map_values(|y: Yaml| R::of_yaml(y));
    let mut rules: Vec<R> = Vec::new();
    let mut i: usize = 0;
    assert(all.take(0) =~= Seq::<Option<<R as DeepView>::V>>::empty());
    assert(rules.deep_view() =~= Seq::<<R as DeepView>::V>::empty());
    while i < items.len()
        invariant
            i <= items.len(),
            all == items@.map_values(|y: Yaml| R::of_yaml(y)),
            rules.deep_view() == somes(all.take(i as int)),
        decreases items.len() - i,
    {
        let ghost before = rules.deep_view();
        assert(all.take(i + 1).drop_last() =~= all.take(i as int));
        assert(all.take(i + 1).last() == R::of_yaml(items@[i as int]));
        match R::from_node(&items[i]) {
            Some(rule) => {
                rules.push(rule);
                assert(rules.deep_view() =~= before.push(rule.deep_view()));
            },
            None => {},
        }
        i = i + 1;
    }
    assert(all.take(items.len() as int) =~= all);
    rules
}

// First match wins.

proof fn lemma_first_match_from(patterns: Seq<Seq<char>>, text: Seq<char>, from: int)
    requires
        0 <= from,
    ensures
        match first_match_from(patterns, text, from) {
            Some(i) => from <= i < patterns.len() && is_match(patterns[i], text) && forall|k: int|
                from <= k < i ==> !is_match(#[trigger] patterns[k], text),
            None => forall|k: int|
                from <= k < patterns.len() ==> !is_match(#[trigger] patterns[k], text),
        },
    decreases patterns.len() - from,
{
    if from < patterns.len() && !is_match(patterns[from], text) {
        lemma_first_match_from(patterns, text, from + 1);
    }
}

/// First match wins: the rule that decides matches, and no rule before it does. Where
/// no rule decides, none matches.
pub proof fn lemma_first_match(patterns: Seq<Seq<char>>, text: Seq<char>)
    ensures
        match first_match(patterns, text) {
            Some(i) => 0 <= i < patterns.len() && is_match(patterns[i], text) && forall|k: int|
                0 <= k < i ==> !is_match(#[trigger] patterns[k], text),
            None => forall|k: int|
                0 <= k < patterns.len() ==> !is_match(#[trigger] patterns[k], text),
        },
{
    lemma_first_match_from(patterns, text, 0);
}

/// The record is always that of the first rule that matches.
pub proof fn lemma_first_rule_decides<R: Rule>(rules: Seq<R>, agent: Seq<char>, i: int)
    requires
        0 <= i < rules.len(),
        is_match(rules[i].source(), agent),
        forall|k: int| 0 <= k < i ==> !is_match((#[trigger] rules[k]).source(), agent),
    ensures
        first_match(sources(rules), agent) == Some(i),
        Some(classified(rules, agent)) == parsed(rules[i], agent),
{
    let patterns = sources(rules);
    lemma_first_match(patterns, agent);
    assert(is_match(patterns[i], agent));
    let w = first_match(patterns, agent)->0;
    if w < i {
        assert(patterns[w] == rules[w].source());
    }
}

/// Precedence goes by the order of the list. Of two rules that both match, the later one
/// never decides: the rule that decides is the earlier one or one before it. Where no
/// rule before the earlier one matches, the record is the one that the earlier rule
/// makes.
pub proof fn lemma_earlier_rule_wins<R: Rule>(rules: Seq<R>, agent: Seq<char>, i: int, j: int)
    requires
        0 <= i < j < rules.len(),
        is_match(rules[i].source(), agent),
        is_match(rules[j].source(), agent),
    ensures
        first_match(sources(rules), agent) matches Some(w) && w <= i && w != j,
        (forall|k: int| 0 <= k < i ==> !is_match((#[trigger] rules[k]).source(), agent))
            ==> Some(classified(rules, agent)) == parsed(rules[i], agent),
{
    let patterns = sources(rules);
    lemma_first_match(patterns, agent);
    assert(is_match(patterns[i], agent));
    if forall|k: int| 0 <= k < i ==> !is_match((#[trigger] rules[k]).source(), agent) {
        lemma_first_rule_decides(rules, agent, i);
    }
}

/// An agent that no rule matches gets the default record.
pub proof fn lemma_no_match_is_other<R: Rule>(rules: Seq<R>, agent: Seq<char>)
    requires
        forall|k: int| 0 <= k < rules.len() ==> !is_match((#[trigger] rules[k]).source(), agent),
    ensures
        first_match(sources(rules), agent) is None,
        classified(rules, agent) == R::other(),
{
    let patterns = sources(rules);
    lemma_first_match(patterns, agent);
    if let Some(w) = first_match(patterns, agent) {
        assert(patterns[w] == rules[w].source());
    }
}

/// The record of an agent is fixed by the texts of the rules and by the agent: two lists
/// of rules with the same patterns and templates, in the same order, give the same record.
pub proof fn lemma_same_rules_same_record<R: Rule>(a: Seq<R>, b: Seq<R>, agent: Seq<char>)
    requires
        a.len() == b.len(),
        forall|i: int| 0 <= i < a.len() ==> (#[trigger] a[i]).deep_view() == b[i].deep_view(),
    ensures
        first_match(sources(a), agent) == first_match(sources(b), agent),
        classified(a, agent) == classified(b, agent),
{
    assert forall|i: int| 0 <= i < a.len() implies (#[trigger] a[i]).source() == b[i].source() by {
        R::lemma_text_decides(&a[i], &b[i]);
    }
    assert(sources(a) =~= sources(b));
    if let Some(i) = first_match(sources(a), agent) {
        lemma_first_match(sources(a), agent);
        R::lemma_text_decides(&a[i], &b[i]);
    }
}

// A bad entry is passed over, and the others are kept.

/// What `somes` keeps of two lists one after the other is what it keeps of each, one
/// after the other.
pub proof fn lemma_somes_concat<T>(a: Seq<Option<T>>, b: Seq<Option<T>>)
    ensures
        somes(a + b) == somes(a) + somes(b),
    decreases b.len(),
{
    if b.len() == 0 {
        assert(a + b =~= a);
        assert(somes(a) + somes(b) =~= somes(a));
    } else {
        lemma_somes_concat(a, b.drop_last());
        assert((a + b).drop_last() =~= a + b.drop_last());
        assert((a + b).last() == b.last());
        match b.last() {
            Some(v) => {
                assert(somes(a) + somes(b.drop_last()).push(v) =~= (somes(a) + somes(
                    b.drop_last(),
                )).push(v));
            },
            None => {},
        }
    }
}

/// `somes` keeps no more than it is given, and all of it where no entry is `None`.
pub proof fn lemma_somes_len<T>(s: Seq<Option<T>>)
    ensures
        somes(s).len() <= s.len(),
        (forall|k: int| 0 <= k < s.len() ==> (#[trigger] s[k]) is Some) ==> somes(s).len()
            == s.len(),
    decreases s.len(),
{
    if s.len() > 0 {
        lemma_somes_len(s.drop_last());
        if forall|k: int| 0 <= k < s.len() ==> (#[trigger] s[k]) is Some {
            assert forall|k: int| 0 <= k < s.drop_last().len() implies (#[trigger] s.drop_last()[
                k
            ]) is Some by {
                assert(s.drop_last()[k] == s[k]);
            }
        }
    }
}

/// An entry that is `None` is passed over and nothing else is lost: the list without
/// that entry keeps the same.
pub proof fn lemma_somes_skips_none<T>(s: Seq<Option<T>>, i: int)
    requires
        0 <= i < s.len(),
        s[i] is None,
    ensures
        somes(s) == somes(s.remove(i)),
{
    let a = s.take(i);
    let b = s.skip(i + 1);
    let hole = seq![s[i]];
    assert(s =~= a + hole + b);
    assert(s.remove(i) =~= a + b);
    lemma_somes_concat(a + hole, b);
    lemma_somes_concat(a, hole);
    lemma_somes_concat(a, b);
    assert(hole.drop_last() =~= Seq::<Option<T>>::empty());
    assert(somes(hole.drop_last()) =~= Seq::<T>::empty());
    assert(somes(hole) =~= Seq::<T>::empty());
    assert(somes(a) + Seq::<T>::empty() =~= somes(a));
}

/// Every entry that is `Some` is kept, and the kept ones stay in their order: each has
/// its place among them, and a later entry has a later place.
pub proof fn lemma_somes_keeps<T>(s: Seq<Option<T>>, i: int) -> (at: int)
    requires
        0 <= i < s.len(),
        s[i] is Some,
    ensures
        at == somes(s.take(i)).len(),
        0 <= at < somes(s).len(),
        somes(s)[at] == s[i]->0,
        somes(s).len() <= s.len(),
{
    let a = s.take(i);
    let b = s.skip(i + 1);
    let here = seq![s[i]];
    assert(s =~= a + here + b);
    lemma_somes_concat(a + here, b);
    lemma_somes_concat(a, here);
    assert(here.drop_last() =~= Seq::<Option<T>>::empty());
    assert(somes(here.drop_last()) =~= Seq::<T>::empty());
    assert(somes(here) =~= seq![s[i]->0]);
    lemma_somes_len(s);
    somes(a).len() as int
}

/// A node that gives no rule is passed over, and costs nothing else: the list is read as
/// if the node were not in it.
pub proof fn lemma_bad_rule_is_skipped<R: Rule>(items: Seq<Yaml>, i: int)
    requires
        0 <= i < items.len(),
        R::of_yaml(items[i]) is None,
    ensures
        described::<R>(items) == described::<R>(items.remove(i)),
{
    let all = items.map_values(|y: Yaml| R::of_yaml(y));
    lemma_somes_skips_none(all, i);
    assert(all.remove(i) =~= items.remove(i).map_values(|y: Yaml| R::of_yaml(y)));
}

/// Every node that gives a rule has its rule in the list that is read, and the rules
/// stand in the order of their nodes: the rule of node `i` comes after those of the nodes
/// before it.
pub proof fn lemma_good_rule_is_kept<R: Rule>(items: Seq<Yaml>, i: int) -> (at: int)
    requires
        0 <= i < items.len(),
        R::of_yaml(items[i]) is Some,
    ensures
        at == described::<R>(items.take(i)).len(),
        0 <= at < described::<R>(items).len(),
        Some(described::<R>(items)[at]) == R::of_yaml(items[i]),
{
    let all = items.map_values(|y: Yaml| R::of_yaml(y));
    assert(all.take(i) =~= items.take(i).map_values(|y: Yaml| R::of_yaml(y)));
    lemma_somes_keeps(all, i)
}

} // verus!
