use uap_rust::template::{digit_of, expand_template, none_if_empty};
use uap_rust::{get_or_none, replace_matches, resolve};

fn groups(texts: &[Option<&str>]) -> Vec<Option<String>> {
    texts.iter().map(|t| t.map(str::to_string)).collect()
}

fn some(text: &str) -> Option<String> {
    Some(text.to_string())
}

#[test]
fn placeholders_are_replaced_by_their_groups() {
    let g = groups(&[Some("49.2"), Some("49"), Some("2")]);
    assert_eq!(resolve(Some("$2 $1 $2"), &g, 1), some("2 49 2"));
    assert_eq!(replace_matches("$2 $1 $2", &g), some("2 49 2"));
    assert_eq!(expand_template("$2 $1 $2", &g), "2 49 2");
}

#[test]
fn placeholder_zero_is_the_whole_match() {
    let g = groups(&[Some("49.2"), Some("49"), Some("2")]);
    assert_eq!(replace_matches("<$0>", &g), some("<49.2>"));
}

#[test]
fn literal_text_around_placeholders_stays() {
    let g = groups(&[Some("Minefield/3"), Some("Minefield"), Some("3")]);
    assert_eq!(replace_matches("Firefox ($1)", &g), some("Firefox (Minefield)"));
    assert_eq!(replace_matches("$1$2", &g), some("Minefield3"));
    assert_eq!(replace_matches("v$2.x", &g), some("v3.x"));
}

#[test]
fn a_literal_template_is_returned_whatever_the_groups() {
    let a = groups(&[Some("abc"), Some("a"), Some("b")]);
    let b = groups(&[Some("")]);
    let none: Vec<Option<String>> = Vec::new();
    for g in [&a, &b, &none] {
        assert_eq!(resolve(Some("Mobile Safari"), g, 1), some("Mobile Safari"));
        assert_eq!(resolve(Some("  padded\t"), g, 1), some("padded"));
        assert_eq!(resolve(Some("7"), g, 2), some("7"));
    }
}

#[test]
fn a_dollar_without_digits_is_literal() {
    let g = groups(&[Some("x1"), Some("1")]);
    assert_eq!(replace_matches("$", &g), some("$"));
    assert_eq!(replace_matches("a$b", &g), some("a$b"));
    assert_eq!(replace_matches("US$ $1", &g), some("US$ 1"));
    assert_eq!(replace_matches("$$1", &g), some("$1"));
    assert_eq!(replace_matches("$1$", &g), some("1$"));
}

#[test]
fn a_placeholder_takes_every_digit_that_follows() {
    let mut texts: Vec<Option<&str>> = vec![Some("whole")];
    let names = ["g1", "g2", "g3", "g4", "g5", "g6", "g7", "g8", "g9", "g10", "g11", "g12"];
    for n in names.iter() {
        texts.push(Some(n));
    }
    let g = groups(&texts);
    assert_eq!(replace_matches("$10", &g), some("g10"));
    assert_eq!(replace_matches("$12!", &g), some("g12!"));
    assert_eq!(replace_matches("$1 0", &g), some("g1 0"));
    assert_eq!(replace_matches("$01", &g), some("g1"));
    assert_eq!(replace_matches("$007", &g), some("g7"));
    // no group 13, no group 120
    assert_eq!(replace_matches("a$13b", &g), some("ab"));
    assert_eq!(replace_matches("a$120b", &g), some("ab"));
}

#[test]
fn a_placeholder_without_a_group_is_empty() {
    let g = groups(&[Some("ab"), Some("a"), None]);
    assert_eq!(replace_matches("[$2]", &g), some("[]"));
    assert_eq!(replace_matches("[$3]", &g), some("[]"));
    assert_eq!(replace_matches("[$99]", &g), some("[]"));
    assert_eq!(replace_matches("[$18446744073709551615]", &g), some("[]"));
    assert_eq!(replace_matches("[$18446744073709551616]", &g), some("[]"));
    assert_eq!(replace_matches("[$99999999999999999999999999999999999999991]", &g), some("[]"));
    assert_eq!(replace_matches("$1$99999999999999999999999999999999999999991", &g), some("a"));
}

#[test]
fn an_empty_result_is_none() {
    let g = groups(&[Some("ab"), Some("  "), None, Some("")]);
    assert_eq!(resolve(Some(""), &g, 1), None);
    assert_eq!(resolve(Some("   "), &g, 1), None);
    assert_eq!(resolve(Some("\t\u{a0}\n"), &g, 1), None);
    assert_eq!(resolve(Some("$1"), &g, 1), None);
    assert_eq!(resolve(Some("$2"), &g, 1), None);
    assert_eq!(resolve(Some(" $2 $3 $4 "), &g, 1), None);
    assert_eq!(replace_matches("$7", &g), None);
}

#[test]
fn the_result_of_a_template_is_trimmed() {
    let g = groups(&[Some("ab"), Some("  a "), Some("b")]);
    assert_eq!(replace_matches("$1", &g), some("a"));
    assert_eq!(replace_matches(" $1 $2 ", &g), some("a  b"));
    assert_eq!(replace_matches("\u{3000}x\u{a0}", &g), some("x"));
    assert_eq!(expand_template(" $1 $2 ", &g), "   a  b ");
}

#[test]
fn without_a_template_the_group_is_taken_as_it_is() {
    let g = groups(&[Some("ab"), Some(" a "), None, Some(""), Some("5")]);
    assert_eq!(resolve(None, &g, 0), some("ab"));
    assert_eq!(resolve(None, &g, 1), some(" a "));
    assert_eq!(resolve(None, &g, 2), None);
    assert_eq!(resolve(None, &g, 3), None);
    assert_eq!(resolve(None, &g, 4), some("5"));
    assert_eq!(resolve(None, &g, 5), None);
    assert_eq!(resolve(None, &g, usize::MAX), None);
    assert_eq!(get_or_none(&g, 1), some(" a "));
    assert_eq!(get_or_none(&g, 2), None);
    assert_eq!(get_or_none(&g, 3), None);
    assert_eq!(get_or_none(&g, 9), None);
}

#[test]
fn digits_and_empty_strings() {
    assert_eq!(digit_of('0'), Some(0));
    assert_eq!(digit_of('9'), Some(9));
    assert_eq!(digit_of('/'), None);
    assert_eq!(digit_of(':'), None);
    assert_eq!(digit_of('\u{663}'), None);
    assert_eq!(none_if_empty(String::new()), None);
    assert_eq!(none_if_empty(" ".to_string()), some(" "));
}
