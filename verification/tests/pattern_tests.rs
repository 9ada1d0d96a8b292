use uap_rust::pattern::{full_pattern, normalize_pattern, NEST_LIMIT};
use uap_rust::{build_uap_regexp, BrowserParser, DeviceParser, OSParser, RuleCompileError};

fn nested(depth: usize) -> String {
    let mut p = String::new();
    for _ in 0..depth {
        p.push('(');
    }
    p.push('a');
    for _ in 0..depth {
        p.push(')');
    }
    p
}

#[test]
fn needless_escapes_are_stripped() {
    assert_eq!(normalize_pattern(r"Version\/(\d+)"), r"Version/(\d+)");
    assert_eq!(normalize_pattern(r"a\!b"), "a!b");
    assert_eq!(normalize_pattern(r"\/\/"), "//");
    assert_eq!(normalize_pattern(""), "");
}

#[test]
fn other_escapes_stay() {
    assert_eq!(normalize_pattern(r"a\.b\d\ c"), r"a\.b\d\ c");
    assert_eq!(normalize_pattern(r"a\\/b"), r"a\\/b");
    assert_eq!(normalize_pattern(r"a\\\/b"), r"a\\/b");
    assert_eq!(normalize_pattern("a\\"), "a\\");
    assert_eq!(normalize_pattern("a/b!c"), "a/b!c");
}

#[test]
fn the_flag_goes_in_front() {
    let i = "i".to_string();
    let empty = String::new();
    assert_eq!(full_pattern(r"Foo\/(\d+)", Some(&i)), r"(?i)Foo/(\d+)");
    assert_eq!(full_pattern(r"Foo\/(\d+)", Some(&empty)), r"Foo/(\d+)");
    assert_eq!(full_pattern(r"Foo\/(\d+)", None), r"Foo/(\d+)");
}

#[test]
fn a_compiled_pattern_keeps_its_text() {
    let i = "i".to_string();
    let re = build_uap_regexp(r"Foo\/(\d+)", Some(&i)).unwrap();
    assert_eq!(re.as_str(), r"(?i)Foo/(\d+)");
    let rule = BrowserParser::new(r"Foo\/(\d+)", Some(&i), None, None, None, None).unwrap();
    assert_eq!(rule.pattern(), r"(?i)Foo/(\d+)");
    let rule = OSParser::new(r"(x)\!", None, None, None, None, None, None).unwrap();
    assert_eq!(rule.pattern(), "(x)!");
    let rule = DeviceParser::new("(y)", None, None, None, None).unwrap();
    assert_eq!(rule.pattern(), "(y)");
}

#[test]
fn the_flag_is_in_force() {
    let i = "i".to_string();
    let rule = BrowserParser::new("(firefox)/(\\d+)", Some(&i), None, None, None, None).unwrap();
    let record = rule.parse("Mozilla FireFox/12").unwrap();
    assert_eq!(record.family, "FireFox");
    assert_eq!(record.major, Some("12".to_string()));
    let plain = BrowserParser::new("(firefox)/(\\d+)", None, None, None, None, None).unwrap();
    assert!(plain.parse("Mozilla FireFox/12").is_none());
}

#[test]
fn a_bad_pattern_is_an_error_that_names_it() {
    assert_eq!(
        build_uap_regexp("(unclosed", None).err(),
        Some(RuleCompileError { pattern: "(unclosed".to_string() })
    );
    let q = "q".to_string();
    assert_eq!(
        build_uap_regexp(r"a\/b", Some(&q)).err(),
        Some(RuleCompileError { pattern: "(?q)a/b".to_string() })
    );
    assert!(BrowserParser::new("a{2,1}", None, None, None, None, None).is_err());
    assert!(OSParser::new("[z-a]", None, None, None, None, None, None).is_err());
    assert!(DeviceParser::new(r"\p{NoSuchClass}", None, None, None, None).is_err());
}

#[test]
fn deep_nesting_is_accepted_up_to_the_limit() {
    assert!(NEST_LIMIT >= 100);
    // deeper than the 250 levels that the regex crate allows when it is not told otherwise
    assert!(regex::Regex::new(&nested(400)).is_err());
    assert!(build_uap_regexp(&nested(99), None).is_ok());
    assert!(build_uap_regexp(&nested(400), None).is_ok());
    assert!(build_uap_regexp(&nested(5000), None).is_err());
}

#[test]
fn long_alternations_compile() {
    let mut p = String::from("(");
    for n in 0..600 {
        if n > 0 {
            p.push('|');
        }
        p.push_str(&format!("bot{}x", n));
    }
    p.push(')');
    let rule = DeviceParser::new(&p, None, Some("Spider".to_string()), None, None).unwrap();
    let record = rule.parse("Mozilla bot417x").unwrap();
    assert_eq!(record.family, "Spider");
}

#[test]
fn a_rule_hands_out_its_templates() {
    let some = |t: &str| Some(t.to_string());
    let b = BrowserParser::new("x", None, some("f"), None, some("m"), some("")).unwrap();
    assert_eq!((b.family(), b.major(), b.minor(), b.patch()), (Some("f"), None, Some("m"), Some("")));
    let o = OSParser::new("x", None, None, some("1"), some("2"), some("3"), some("4")).unwrap();
    assert_eq!(
        (o.family(), o.major(), o.minor(), o.patch(), o.patch_minor()),
        (None, Some("1"), Some("2"), Some("3"), Some("4"))
    );
    let d = DeviceParser::new("x", None, some("$1"), some("b"), None).unwrap();
    assert_eq!((d.family(), d.brand(), d.model()), (Some("$1"), Some("b"), None));
}

#[test]
fn what_a_rule_matches_is_told_by_its_pattern_text() {
    // Case is ignored only where the flag stands in the text that was compiled.
    let i = "i".to_string();
    let plain = BrowserParser::new("(a)", None, None, None, None, None).unwrap();
    let folded = BrowserParser::new("(a)", Some(&i), None, None, None, None).unwrap();
    assert_eq!(plain.pattern(), "(a)");
    assert_eq!(folded.pattern(), "(?i)(a)");
    assert!(plain.parse("A").is_none());
    assert_eq!(folded.parse("A").unwrap().family, "A");
    // Two rules with the same text match the same.
    let again = BrowserParser::new("(a)", None, None, None, None, None).unwrap();
    for agent in ["a", "A", "xax", "", "b"] {
        assert_eq!(plain.parse(agent), again.parse(agent));
    }
}
