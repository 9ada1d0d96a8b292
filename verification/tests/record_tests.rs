use semver_parser::version::Identifier;
use uap_rust::record::parsed_or;
use uap_rust::{Browser, Device, OS};

fn some(text: &str) -> Option<String> {
    Some(text.to_string())
}

fn browser(major: Option<&str>, minor: Option<&str>, patch: Option<&str>) -> Browser {
    Browser {
        family: "Firefox".to_string(),
        major: major.map(str::to_string),
        minor: minor.map(str::to_string),
        patch: patch.map(str::to_string),
    }
}

fn os(major: Option<&str>, minor: Option<&str>, patch: Option<&str>, patch_minor: Option<&str>) -> OS {
    OS {
        family: "iOS".to_string(),
        major: major.map(str::to_string),
        minor: minor.map(str::to_string),
        patch: patch.map(str::to_string),
        patch_minor: patch_minor.map(str::to_string),
    }
}

#[test]
fn the_default_records_are_other() {
    let b = Browser { family: "Other".to_string(), major: None, minor: None, patch: None };
    assert_eq!(Browser::new(), b);
    assert_eq!(Browser::default(), b);
    let o = OS { family: "Other".to_string(), major: None, minor: None, patch: None, patch_minor: None };
    assert_eq!(OS::new(), o);
    assert_eq!(OS::default(), o);
    let d = Device { family: "Other".to_string(), brand: None, model: None };
    assert_eq!(Device::new(), d);
    assert_eq!(Device::default(), d);
    assert!(!d.is_spider());
}

#[test]
fn is_spider_looks_at_the_family() {
    let mut d = Device { family: "Spider".to_string(), brand: None, model: None };
    assert!(d.is_spider());
    d.family = "Spider ".to_string();
    assert!(!d.is_spider());
    d = Device { family: "iPhone".to_string(), brand: some("Spider"), model: some("Spider") };
    assert!(!d.is_spider());
}

#[test]
fn browser_version_text() {
    assert_eq!(browser(Some("5"), Some("1"), Some("2")).version_string(), some("5.1.2"));
    assert_eq!(browser(Some("5"), Some("1"), None).version_string(), some("5.1.0"));
    assert_eq!(browser(Some("5"), None, None).version_string(), some("5.0.0"));
    assert_eq!(browser(None, None, None).version_string(), None);
    assert_eq!(browser(None, Some("1"), Some("2")).version_string(), None);
    assert_eq!(browser(Some("5"), None, Some("2")).version_string(), None);
    assert_eq!(browser(Some("x"), Some(""), Some("1pre")).version_string(), some("x..1pre"));
}

#[test]
fn os_version_text() {
    assert_eq!(os(Some("5"), Some("1"), Some("1"), Some("2")).version_string(), some("5.1.1-2"));
    assert_eq!(os(Some("5"), Some("1"), Some("1"), None).version_string(), some("5.1.1"));
    assert_eq!(os(Some("5"), Some("1"), None, None).version_string(), some("5.1.0"));
    assert_eq!(os(Some("5"), None, None, None).version_string(), some("5"));
    assert_eq!(os(None, None, None, None).version_string(), None);
    assert_eq!(os(Some("5"), None, Some("1"), None).version_string(), None);
    assert_eq!(os(Some("5"), Some("1"), None, Some("2")).version_string(), None);
    assert_eq!(os(None, Some("1"), Some("1"), Some("2")).version_string(), None);
}

#[test]
fn browser_version() {
    let v = browser(Some("5"), Some("1"), None).version().unwrap();
    assert_eq!((v.major, v.minor, v.patch), (5, 1, 0));
    assert!(v.pre.is_empty());
    let v = browser(Some("41"), Some("0"), Some("2228")).version().unwrap();
    assert_eq!((v.major, v.minor, v.patch), (41, 0, 2228));
    let v = browser(Some("7"), None, None).version().unwrap();
    assert_eq!((v.major, v.minor, v.patch), (7, 0, 0));
    assert!(browser(None, None, None).version().is_none());
    assert!(browser(None, Some("1"), None).version().is_none());
    assert!(browser(Some("five"), Some("1"), None).version().is_none());
    assert!(browser(Some("3"), Some("7"), Some("1pre")).version().is_none());
}

#[test]
fn os_version() {
    let v = os(Some("5"), Some("1"), Some("1"), None).version().unwrap();
    assert_eq!((v.major, v.minor, v.patch), (5, 1, 1));
    let v = os(Some("10"), Some("9"), None, None).version().unwrap();
    assert_eq!((v.major, v.minor, v.patch), (10, 9, 0));
    let v = os(Some("6"), Some("0"), Some("1"), Some("2")).version().unwrap();
    assert_eq!((v.major, v.minor, v.patch), (6, 0, 1));
    assert_eq!(v.pre, vec![Identifier::Numeric(2)]);
    let v = os(Some("6"), Some("0"), Some("1"), Some("rc1")).version().unwrap();
    assert_eq!(v.pre, vec![Identifier::AlphaNumeric("rc1".to_string())]);
    // a major version alone is no semantic version
    assert!(os(Some("7"), None, None, None).version().is_none());
    assert!(os(None, None, None, None).version().is_none());
    assert!(os(Some("XP"), Some("1"), Some("1"), None).version().is_none());
}

#[test]
fn fields_as_numbers() {
    let b = browser(Some("41"), Some("x"), None);
    assert_eq!(b.major_or(0u32), 41);
    assert_eq!(b.minor_or(7u32), 7);
    assert_eq!(b.patch_or(9u32), 9);
    assert_eq!(b.major_or(0i8), 41);
    assert_eq!(b.major_or(String::from("none")), "41");
    assert_eq!(b.patch_or(String::from("none")), "none");
    let b = browser(Some("300"), Some("-1"), Some(" 2"));
    assert_eq!(b.major_or(5u8), 5);
    assert_eq!(b.minor_or(5i64), -1);
    assert_eq!(b.minor_or(5u64), 5);
    assert_eq!(b.patch_or(5u64), 5);

    let o = os(Some("10"), Some("9"), Some("3"), Some("b"));
    assert_eq!(o.major_or(0u64), 10);
    assert_eq!(o.minor_or(0u64), 9);
    assert_eq!(o.patch_or(0u64), 3);
    assert_eq!(o.patch_minor_or(4u64), 4);
    assert_eq!(o.patch_minor_or('z'), 'b');
    let o = os(None, None, None, None);
    assert_eq!(o.major_or(1u16), 1);
    assert_eq!(o.minor_or(2u16), 2);
    assert_eq!(o.patch_or(3u16), 3);
    assert_eq!(o.patch_minor_or(4u16), 4);
}

#[test]
fn parsed_or_prefers_what_was_read() {
    assert_eq!(parsed_or(Some(3), 4), 3);
    assert_eq!(parsed_or(None, 4), 4);
}
