//! Operating system rules.

use vstd::prelude::*;
use regex::Regex;
use yaml_rust::Yaml;
use crate::parser::{classified, classify, first_match, is_match, parse_with, sources, Rule};
use crate::pattern::{
    build_uap_regexp, captures_of, compiles, finds_by_text, pattern_source, regex_source,
    source_text, RuleCompileError, NEST_LIMIT,
};
use crate::record::{default_name, lemma_default_name, OSInfo, OS};
use crate::template::{as_text, lemma_no_empty_field, resolve, resolved};
use crate::yaml::{string_from_map, yaml_string};

verus! {

/// One operating system rule: a compiled pattern and the templates of the five fields.
#[derive(Debug)]
pub struct OSParser {
    regex: Regex,
    family: Option<String>,
    major: Option<String>,
    minor: Option<String>,
    patch: Option<String>,
    patch_minor: Option<String>,
}

/// An operating system rule as plain text.
pub struct OSRule {
    /// The pattern text that was compiled.
    pub source: Seq<char>,
    /// The template of the family; without one the family is the text of group 1.
    pub family: Option<Seq<char>>,
    /// The template of the major version; without one it is the text of group 2.
    pub major: Option<Seq<char>>,
    /// The template of the minor version; without one it is the text of group 3.
    pub minor: Option<Seq<char>>,
    /// The template of the patch version; without one it is the text of group 4.
    pub patch: Option<Seq<char>>,
    /// The template of the minor patch version; without one it is the text of group 5.
    pub patch_minor: Option<Seq<char>>,
}

impl OSRule {
    /// The record that the rule makes of the capture groups of a match.
    pub open spec fn extracted(self, groups: Seq<Option<Seq<char>>>) -> OSInfo {
        OSInfo {
            family: match resolved(self.family, groups, 1) {
                Some(family) => family,
                None => default_name(),
            },
            major: resolved(self.major, groups, 2),
            minor: resolved(self.minor, groups, 3),
            patch: resolved(self.patch, groups, 4),
            patch_minor: resolved(self.patch_minor, groups, 5),
        }
    }

    /// The rule that a node of the rule database describes: `None` where the node has no
    /// `regex`, or has one that does not compile.
    pub open spec fn of_yaml(y: Yaml) -> Option<OSRule> {
        match yaml_string(y, "regex"@) {
            Some(pattern) => {
                let source = pattern_source(pattern, yaml_string(y, "regex_flag"@));
                if compiles(source, NEST_LIMIT) {
                    Some(
                        OSRule {
                            source,
                            family: yaml_string(y, "os_replacement"@),
                            major: yaml_string(y, "os_v1_replacement"@),
                            minor: yaml_string(y, "os_v2_replacement"@),
                            patch: yaml_string(y, "os_v3_replacement"@),
                            patch_minor: yaml_string(y, "os_v4_replacement"@),
                        },
                    )
                } else {
                    None
                }
            },
            None => None,
        }
    }
}

impl View for OSParser {
    type V = OSRule;

    closed spec fn view(&self) -> OSRule {
        OSRule {
            source: regex_source(self.regex),
            family: self.family.deep_view(),
            major: self.major.deep_view(),
            minor: self.minor.deep_view(),
            patch: self.patch.deep_view(),
            patch_minor: self.patch_minor.deep_view(),
        }
    }
}

impl DeepView for OSParser {
    type V = OSRule;

    open spec fn deep_view(&self) -> OSRule {
        self@
    }
}

impl Rule for OSParser {
    type Record = OS;

    open spec fn source(&self) -> Seq<char> {
        self@.source
    }

    open spec fn extracted(&self, groups: Seq<Option<Seq<char>>>) -> OSInfo {
        self@.extracted(groups)
    }

    open spec fn other() -> OSInfo {
        OSInfo::other()
    }

    open spec fn of_yaml(y: Yaml) -> Option<OSRule> {
        OSRule::of_yaml(y)
    }

    fn regex(&self) -> (re: &Regex) {
        proof {
            use_type_invariant(self);
        }
        &self.regex
    }

    fn record_of(&self, groups: &Vec<Option<String>>) -> (r: OS) {
        self.extract(groups)
    }

    fn no_match() -> (r: OS) {
        OS::new()
    }

    fn copy_of(record: &OS) -> (r: OS) {
        record.clone()
    }

    fn from_node(y: &Yaml) -> (r: Option<OSParser>) {
        OSParser::from_yaml(y)
    }

    proof fn lemma_text_decides(a: &OSParser, b: &OSParser) {
    }
}

impl OSParser {
    /// The expression of a rule finds what its pattern text alone gives: it comes from
    /// `build_uap_regexp` and from nowhere else.
    #[verifier::type_invariant]
    spec fn pattern_decides(self) -> bool {
        finds_by_text(self.regex)
    }

    /// Compiles a rule from its pattern, its flag and its templates.
    pub fn new(
        regex: &str,
        regex_flag: Option<&String>,
        family: Option<String>,
        major: Option<String>,
        minor: Option<String>,
        patch: Option<String>,
        patch_minor: Option<String>,
    ) -> (r: Result<OSParser, RuleCompileError>)
        ensures
            r is Ok <==> compiles(pattern_source(regex@, regex_flag.deep_view()), NEST_LIMIT),
            r matches Ok(rule) ==> rule@ == (OSRule {
                source: pattern_source(regex@, regex_flag.deep_view()),
                family: family.deep_view(),
                major: major.deep_view(),
                minor: minor.deep_view(),
                patch: patch.deep_view(),
                patch_minor: patch_minor.deep_view(),
            }),
            r matches Err(e) ==> e.pattern@ == pattern_source(regex@, regex_flag.deep_view()),
    {
        match build_uap_regexp(regex, regex_flag) {
            Ok(re) => Ok(OSParser { regex: re, family, major, minor, patch, patch_minor }),
            Err(e) => Err(e),
        }
    }

    /// Reads a rule from a node of the rule database: the keys `regex`, `regex_flag`,
    /// `os_replacement` and `os_v1_replacement` to `os_v4_replacement`.
    /// `None` where the node has no `regex`, or has one that does not compile.
    pub fn from_yaml(y: &Yaml) -> (r: Option<OSParser>)
        ensures
            r.deep_view() == OSRule::of_yaml(*y),
    {
        let regex_flag = string_from_map(y, "regex_flag");
        match string_from_map(y, "regex") {
            Some(regex) => {
                let built = OSParser::new(
                    regex.as_str(),
                    regex_flag.as_ref(),
                    string_from_map(y, "os_replacement"),
                    string_from_map(y, "os_v1_replacement"),
                    string_from_map(y, "os_v2_replacement"),
                    string_from_map(y, "os_v3_replacement"),
                    string_from_map(y, "os_v4_replacement"),
                );
                match built {
                    Ok(rule) => Some(rule),
                    Err(_) => None,
                }
            },
            None => None,
        }
    }

    /// The record that the rule makes of the capture groups of a match. Its family is
    /// `Other` where neither template nor group 1 gives one.
    pub fn extract(&self, groups: &Vec<Option<String>>) -> (r: OS)
        ensures
            r@ == self@.extracted(groups.deep_view()),
            r@.well_formed(),
    {
        let family = match resolve(as_text(&self.family), groups, 1) {
            Some(family) => family,
            None => "Other".to_owned(),
        };
        proof {
            lemma_default_name();
        }
        OS {
            family,
            major: resolve(as_text(&self.major), groups, 2),
            minor: resolve(as_text(&self.minor), groups, 3),
            patch: resolve(as_text(&self.patch), groups, 4),
            patch_minor: resolve(as_text(&self.patch_minor), groups, 5),
        }
    }

    /// The record that the rule makes of `agent`: `None` where its pattern does not match.
    pub fn parse(&self, agent: &str) -> (r: Option<OS>)
        ensures
            r is Some <==> is_match(self@.source, agent@),
            r matches Some(os) ==> os@ == self@.extracted(
                captures_of(self@.source, agent@)->0,
            ) && os@.well_formed(),
    {
        let r = parse_with(self, agent);
        proof {
            if let Some(groups) = captures_of(self@.source, agent@) {
                lemma_os_fields(self@, groups);
            }
        }
        r
    }

    /// The pattern text that the rule was compiled from.
    pub fn pattern(&self) -> (r: &str)
        ensures
            r@ == self@.source,
    {
        source_text(&self.regex)
    }

    /// The template of the family, if the rule has one.
    pub fn family(&self) -> (r: Option<&str>)
        ensures
            r.deep_view() == self@.family,
    {
        as_text(&self.family)
    }

    /// The template of the major version, if the rule has one.
    pub fn major(&self) -> (r: Option<&str>)
        ensures
            r.deep_view() == self@.major,
    {
        as_text(&self.major)
    }

    /// The template of the minor version, if the rule has one.
    pub fn minor(&self) -> (r: Option<&str>)
        ensures
            r.deep_view() == self@.minor,
    {
        as_text(&self.minor)
    }

    /// The template of the patch version, if the rule has one.
    pub fn patch(&self) -> (r: Option<&str>)
        ensures
            r.deep_view() == self@.patch,
    {
        as_text(&self.patch)
    }

    /// The template of the minor patch version, if the rule has one.
    pub fn patch_minor(&self) -> (r: Option<&str>)
        ensures
            r.deep_view() == self@.patch_minor,
    {
        as_text(&self.patch_minor)
    }
}

/// A record that a rule makes has a family, and no optional field of it is an empty text.
pub proof fn lemma_os_fields(rule: OSRule, groups: Seq<Option<Seq<char>>>)
    ensures
        rule.extracted(groups).well_formed(),
{
    lemma_default_name();
    lemma_no_empty_field(rule.family, groups, 1);
    lemma_no_empty_field(rule.major, groups, 2);
    lemma_no_empty_field(rule.minor, groups, 3);
    lemma_no_empty_field(rule.patch, groups, 4);
    lemma_no_empty_field(rule.patch_minor, groups, 5);
}

/// Classifies `agent` by the first rule of `rules` whose pattern matches it. Where none
/// matches the record is the default one, family `Other`.
pub fn parse_os(rules: &Vec<OSParser>, agent: &str) -> (r: OS)
    ensures
        r@ == classified(rules@, agent@),
        r@.well_formed(),
        (forall|k: int| 0 <= k < rules.len() ==> !is_match((#[trigger] rules[k])@.source, agent@))
            ==> r@ == OSInfo::other(),
{
    proof {
        lemma_classified_fields(rules@, agent@);
    }
    classify(rules, agent)
}

/// The record of an agent has a family, and no optional field of it is an empty text.
pub proof fn lemma_classified_fields(rules: Seq<OSParser>, agent: Seq<char>)
    ensures
        classified(rules, agent).well_formed(),
{
    lemma_default_name();
    if let Some(i) = first_match(sources(rules), agent) {
        lemma_os_fields(rules[i]@, captures_of(rules[i]@.source, agent)->0);
    }
}

} // verus!
