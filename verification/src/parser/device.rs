//! Device rules.

use vstd::prelude::*;
use regex::Regex;
use yaml_rust::Yaml;
use crate::parser::{classified, classify, first_match, is_match, parse_with, sources, Rule};
use crate::pattern::{
    build_uap_regexp, captures_of, compiles, finds_by_text, pattern_source, regex_source,
    source_text, RuleCompileError, NEST_LIMIT,
};
use crate::record::{default_name, lemma_default_name, Device, DeviceInfo};
use crate::template::{
    as_text, lemma_no_empty_field, replace_matches, replaced, resolve, resolved,
};
use crate::yaml::{string_from_map, yaml_string};

verus! {

/// One device rule: a compiled pattern and the templates of the three fields.
#[derive(Debug)]
pub struct DeviceParser {
    regex: Regex,
    family: Option<String>,
    brand: Option<String>,
    model: Option<String>,
}

/// A device rule as plain text.
pub struct DeviceRule {
    /// The pattern text that was compiled.
    pub source: Seq<char>,
    /// The template of the family; without one the family is the text of group 1.
    pub family: Option<Seq<char>>,
    /// The template of the brand; without one the record has no brand.
    pub brand: Option<Seq<char>>,
    /// The template of the model; without one the model is the text of group 1.
    pub model: Option<Seq<char>>,
}

impl DeviceRule {
    /// The record that the rule makes of the capture groups of a match.
    pub open spec fn extracted(self, groups: Seq<Option<Seq<char>>>) -> DeviceInfo {
        DeviceInfo {
            family: match resolved(self.family, groups, 1) {
                Some(family) => family,
                None => default_name(),
            },
            brand: match self.brand {
                Some(template) => replaced(template, groups),
                None => None,
            },
            model: resolved(self.model, groups, 1),
        }
    }

    /// The rule that a node of the rule database describes: `None` where the node has no
    /// `regex`, or has one that does not compile.
    pub open spec fn of_yaml(y: Yaml) -> Option<DeviceRule> {
        match yaml_string(y, "regex"@) {
            Some(pattern) => {
                let source = pattern_source(pattern, yaml_string(y, "regex_flag"@));
                if compiles(source, NEST_LIMIT) {
                    Some(
                        DeviceRule {
                            source,
                            family: yaml_string(y, "device_replacement"@),
                            brand: yaml_string(y, "brand_replacement"@),
                            model: yaml_string(y, "model_replacement"@),
                        },
                    )
                } else {
                    None
                }
            },
            None => None,
        }
    }
}

impl View for DeviceParser {
    type V = DeviceRule;

    closed spec fn view(&self) -> DeviceRule {
        DeviceRule {
            source: regex_source(self.regex),
            family: self.family.deep_view(),
            brand: self.brand.deep_view(),
            model: self.model.deep_view(),
        }
    }
}

impl DeepView for DeviceParser {
    type V = DeviceRule;

    open spec fn deep_view(&self) -> DeviceRule {
        self@
    }
}

impl Rule for DeviceParser {
    type Record = Device;

    open spec fn source(&self) -> Seq<char> {
        self@.source
    }

    open spec fn extracted(&self, groups: Seq<Option<Seq<char>>>) -> DeviceInfo {
        self@.extracted(groups)
    }

    open spec fn other() -> DeviceInfo {
        DeviceInfo::other()
    }

    open spec fn of_yaml(y: Yaml) -> Option<DeviceRule> {
        DeviceRule::of_yaml(y)
    }

    fn regex(&self) -> (re: &Regex) {
        proof {
            use_type_invariant(self);
        }
        &self.regex
    }

    fn record_of(&self, groups: &Vec<Option<String>>) -> (r: Device) {
        self.extract(groups)
    }

    fn no_match() -> (r: Device) {
        Device::new()
    }

    fn copy_of(record: &Device) -> (r: Device) {
        record.clone()
    }

    fn from_node(y: &Yaml) -> (r: Option<DeviceParser>) {
        DeviceParser::from_yaml(y)
    }

    proof fn lemma_text_decides(a: &DeviceParser, b: &DeviceParser) {
    }
}

impl DeviceParser {
    /// The expression of a rule finds what its pattern text alone gives: it comes from
    /// `build_uap_regexp` and from nowhere else.
    #[verifier::type_invariant]
    spec fn pattern_decides(self) -> bool {
        finds_by_text(self.regex)
    }

    /// Compiles a rule from its pattern, its flag and its templates.
    pub fn new(
        regex: &str,
        regex_flag: Option<&String>,
        family: Option<String>,
        brand: Option<String>,
        model: Option<String>,
    ) -> (r: Result<DeviceParser, RuleCompileError>)
        ensures
            r is Ok <==> compiles(pattern_source(regex@, regex_flag.deep_view()), NEST_LIMIT),
            r matches Ok(rule) ==> rule@ == (DeviceRule {
                source: pattern_source(regex@, regex_flag.deep_view()),
                family: family.deep_view(),
                brand: brand.deep_view(),
                model: model.deep_view(),
            }),
            r matches Err(e) ==> e.pattern@ == pattern_source(regex@, regex_flag.deep_view()),
    {
        match build_uap_regexp(regex, regex_flag) {
            Ok(re) => Ok(DeviceParser { regex: re, family, brand, model }),
            Err(e) => Err(e),
        }
    }

    /// Reads a rule from a node of the rule database: the keys `regex`, `regex_flag`,
    /// `device_replacement`, `brand_replacement` and `model_replacement`.
    /// `None` where the node has no `regex`, or has one that does not compile.
    pub fn from_yaml(y: &Yaml) -> (r: Option<DeviceParser>)
        ensures
            r.deep_view() == DeviceRule::of_yaml(*y),
    {
        let regex_flag = string_from_map(y, "regex_flag");
        match string_from_map(y, "regex") {
            Some(regex) => {
                let built = DeviceParser::new(
                    regex.as_str(),
                    regex_flag.as_ref(),
                    string_from_map(y, "device_replacement"),
                    string_from_map(y, "brand_replacement"),
                    string_from_map(y, "model_replacement"),
                );
                match built {
                    Ok(rule) => Some(rule),
                    Err(_) => None,
                }
            },
            None => None,
        }
    }

    /// The record that the rule makes of the capture groups of a match. Its family is
    /// `Other` where neither template nor group 1 gives one.
    pub fn extract(&self, groups: &Vec<Option<String>>) -> (r: Device)
        ensures
            r@ == self@.extracted(groups.deep_view()),
            r@.well_formed(),
    {
        let family = match resolve(as_text(&self.family), groups, 1) {
            Some(family) => family,
            None => "Other".to_owned(),
        };
        proof {
            lemma_default_name();
        }
        let brand = match as_text(&self.brand) {
            Some(template) => replace_matches(template, groups),
            None => None,
        };
        Device { family, brand, model: resolve(as_text(&self.model), groups, 1) }
    }

    /// The record that the rule makes of `agent`: `None` where its pattern does not match.
    pub fn parse(&self, agent: &str) -> (r: Option<Device>)
        ensures
            r is Some <==> is_match(self@.source, agent@),
            r matches Some(device) ==> device@ == self@.extracted(
                captures_of(self@.source, agent@)->0,
            ) && device@.well_formed(),
    {
        let r = parse_with(self, agent);
        proof {
            if let Some(groups) = captures_of(self@.source, agent@) {
                lemma_device_fields(self@, groups);
            }
        }
        r
    }

    /// The pattern text that the rule was compiled from.
    pub fn pattern(&self) -> (r: &str)
        ensures
            r@ == self@.source,
    {
        source_text(&self.regex)
    }

    /// The template of the family, if the rule has one.
    pub fn family(&self) -> (r: Option<&str>)
        ensures
            r.deep_view() == self@.family,
    {
        as_text(&self.family)
    }

    /// The template of the brand, if the rule has one.
    pub fn brand(&self) -> (r: Option<&str>)
        ensures
            r.deep_view() == self@.brand,
    {
        as_text(&self.brand)
    }

    /// The template of the model, if the rule has one.
    pub fn model(&self) -> (r: Option<&str>)
        ensures
            r.deep_view() == self@.model,
    {
        as_text(&self.model)
    }
}

/// A record that a rule makes has a family, and no optional field of it is an empty text.
pub proof fn lemma_device_fields(rule: DeviceRule, groups: Seq<Option<Seq<char>>>)
    ensures
        rule.extracted(groups).well_formed(),
{
    lemma_default_name();
    lemma_no_empty_field(rule.family, groups, 1);
    lemma_no_empty_field(rule.brand, groups, 1);
    lemma_no_empty_field(rule.model, groups, 1);
}

/// Classifies `agent` by the first rule of `rules` whose pattern matches it. Where none
/// matches the record is the default one, family `Other`.
pub fn parse_device(rules: &Vec<DeviceParser>, agent: &str) -> (r: Device)
    ensures
        r@ == classified(rules@, agent@),
        r@.well_formed(),
        (forall|k: int| 0 <= k < rules.len() ==> !is_match((#[trigger] rules[k])@.source, agent@))
            ==> r@ == DeviceInfo::other(),
{
    proof {
        lemma_classified_fields(rules@, agent@);
    }
    classify(rules, agent)
}

/// The record of an agent has a family, and no optional field of it is an empty text.
pub proof fn lemma_classified_fields(rules: Seq<DeviceParser>, agent: Seq<char>)
    ensures
        classified(rules, agent).well_formed(),
{
    lemma_default_name();
    if let Some(i) = first_match(sources(rules), agent) {
        lemma_device_fields(rules[i]@, captures_of(rules[i]@.source, agent)->0);
    }
}

} // verus!
