//! The three records that a user agent is classified into.

use vstd::prelude::*;
use core::str::FromStr;
use semver_parser::version::Version;
use crate::text::push_char;
use crate::version::{parse_version, semver_of};

verus! {

/// The family of a record that no rule accounts for.
pub open spec fn default_name() -> Seq<char> {
    "Other"@
}

/// The default name is not empty.
pub proof fn lemma_default_name()
    ensures
        default_name().len() == 5,
{
    reveal_strlit("Other");
}

/// The device family that marks a crawler.
pub open spec fn spider_name() -> Seq<char> {
    "Spider"@
}

/// `Browser` contains browser information from the user agent.
#[derive(Debug, PartialEq, Eq)]
pub struct Browser {
    pub family: String,
    pub major: Option<String>,
    pub minor: Option<String>,
    pub patch: Option<String>,
}

/// `OS` contains the operating system information from the user agent.
#[derive(Debug, PartialEq, Eq)]
pub struct OS {
    pub family: String,
    pub major: Option<String>,
    pub minor: Option<String>,
    pub patch: Option<String>,
    pub patch_minor: Option<String>,
}

/// `Device` contains the device information from the user agent.
#[derive(Debug, PartialEq, Eq)]
pub struct Device {
    pub family: String,
    pub brand: Option<String>,
    pub model: Option<String>,
}

/// A `Browser` as plain text.
pub struct BrowserInfo {
    pub family: Seq<char>,
    pub major: Option<Seq<char>>,
    pub minor: Option<Seq<char>>,
    pub patch: Option<Seq<char>>,
}

/// An `OS` as plain text.
pub struct OSInfo {
    pub family: Seq<char>,
    pub major: Option<Seq<char>>,
    pub minor: Option<Seq<char>>,
    pub patch: Option<Seq<char>>,
    pub patch_minor: Option<Seq<char>>,
}

/// A `Device` as plain text.
pub struct DeviceInfo {
    pub family: Seq<char>,
    pub brand: Option<Seq<char>>,
    pub model: Option<Seq<char>>,
}

impl BrowserInfo {
    /// The record of an agent that no rule matches.
    pub open spec fn other() -> BrowserInfo {
        BrowserInfo { family: default_name(), major: None, minor: None, patch: None }
    }

    /// The family is not empty, and no optional field holds an empty text.
    pub open spec fn well_formed(self) -> bool {
        &&& self.family.len() > 0
        &&& self.major matches Some(v) ==> v.len() > 0
        &&& self.minor matches Some(v) ==> v.len() > 0
        &&& self.patch matches Some(v) ==> v.len() > 0
    }

    /// The text that `Browser::version` reads as a semantic version: the fields joined by
    /// dots, `0` in place of a missing minor or patch; `None` where the major is missing, or
    /// a field is missing in front of one that is there.
    pub open spec fn version_text(self) -> Option<Seq<char>> {
        match (self.major, self.minor, self.patch) {
            (Some(major), Some(minor), Some(patch)) => Some(
                major + seq!['.'] + minor + seq!['.'] + patch,
            ),
            (Some(major), Some(minor), None) => Some(major + seq!['.'] + minor + seq!['.', '0']),
            (Some(major), None, None) => Some(major + seq!['.', '0', '.', '0']),
            _ => None,
        }
    }
}

impl OSInfo {
    /// The record of an agent that no rule matches.
    pub open spec fn other() -> OSInfo {
        OSInfo { family: default_name(), major: None, minor: None, patch: None, patch_minor: None }
    }

    /// The family is not empty, and no optional field holds an empty text.
    pub open spec fn well_formed(self) -> bool {
        &&& self.family.len() > 0
        &&& self.major matches Some(v) ==> v.len() > 0
        &&& self.minor matches Some(v) ==> v.len() > 0
        &&& self.patch matches Some(v) ==> v.len() > 0
        &&& self.patch_minor matches Some(v) ==> v.len() > 0
    }

    /// The text that `OS::version` reads as a semantic version: `major.minor.patch-patch_minor`,
    /// `major.minor.patch`, `major.minor.0`, or the major alone; `None` where the major is
    /// missing, or a field is missing in front of one that is there.
    pub open spec fn version_text(self) -> Option<Seq<char>> {
        match (self.major, self.minor, self.patch, self.patch_minor) {
            (Some(major), Some(minor), Some(patch), Some(patch_minor)) => Some(
                major + seq!['.'] + minor + seq!['.'] + patch + seq!['-'] + patch_minor,
            ),
            (Some(major), Some(minor), Some(patch), None) => Some(
                major + seq!['.'] + minor + seq!['.'] + patch,
            ),
            (Some(major), Some(minor), None, None) => Some(
                major + seq!['.'] + minor + seq!['.', '0'],
            ),
            (Some(major), None, None, None) => Some(major),
            _ => None,
        }
    }
}

impl DeviceInfo {
    /// The record of an agent that no rule matches.
    pub open spec fn other() -> DeviceInfo {
        DeviceInfo { family: default_name(), brand: None, model: None }
    }

    /// The family is not empty, and no optional field holds an empty text.
    pub open spec fn well_formed(self) -> bool {
        &&& self.family.len() > 0
        &&& self.brand matches Some(v) ==> v.len() > 0
        &&& self.model matches Some(v) ==> v.len() > 0
    }

    /// Whether the record is that of a crawler.
    pub open spec fn is_spider(self) -> bool {
        self.family == spider_name()
    }
}

impl View for Browser {
    type V = BrowserInfo;

    open spec fn view(&self) -> BrowserInfo {
        BrowserInfo {
            family: self.family@,
            major: self.major.deep_view(),
            minor: self.minor.deep_view(),
            patch: self.patch.deep_view(),
        }
    }
}

impl View for OS {
    type V = OSInfo;

    open spec fn view(&self) -> OSInfo {
        OSInfo {
            family: self.family@,
            major: self.major.deep_view(),
            minor: self.minor.deep_view(),
            patch: self.patch.deep_view(),
            patch_minor: self.patch_minor.deep_view(),
        }
    }
}

impl View for Device {
    type V = DeviceInfo;

    open spec fn view(&self) -> DeviceInfo {
        DeviceInfo {
            family: self.family@,
            brand: self.brand.deep_view(),
            model: self.model.deep_view(),
        }
    }
}

/// A copy of an optional field.
fn copy_field(field: &Option<String>) -> (r: Option<String>)
    ensures
        r.deep_view() == field.deep_view(),
{
    match field {
        Some(text) => Some(text.clone()),
        None => None,
    }
}

impl Clone for Browser {
    fn clone(&self) -> (r: Browser)
        ensures
            r@ == self@,
    {
        Browser {
            family: self.family.clone(),
            major: copy_field(&self.major),
            minor: copy_field(&self.minor),
            patch: copy_field(&self.patch),
        }
    }
}

impl Clone for OS {
    fn clone(&self) -> (r: OS)
        ensures
            r@ == self@,
    {
        OS {
            family: self.family.clone(),
            major: copy_field(&self.major),
            minor: copy_field(&self.minor),
            patch: copy_field(&self.patch),
            patch_minor: copy_field(&self.patch_minor),
        }
    }
}

impl Clone for Device {
    fn clone(&self) -> (r: Device)
        ensures
            r@ == self@,
    {
        Device {
            family: self.family.clone(),
            brand: copy_field(&self.brand),
            model: copy_field(&self.model),
        }
    }
}

/// `str::parse` of std, its error dropped. What comes back is up to `T`'s `FromStr`.
#[verifier::external_body]
fn parse_text<T: FromStr>(text: &str) -> (r: Option<T>) {
    text.parse::<T>().ok()
}

/// The value that was read, or `default` where none was.
pub fn parsed_or<T>(parsed: Option<T>, default: T) -> (r: T)
    ensures
        r == match parsed {
            Some(v) => v,
            None => default,
        },
{
    match parsed {
        Some(v) => v,
        None => default,
    }
}

/// A field read as a `T`; `default` where the field is missing or `T` does not read it.
fn field_or<T: FromStr>(field: &Option<String>, default: T) -> (r: T)
    ensures
        field is None ==> r == default,
{
    match field {
        Some(text) => parsed_or(parse_text::<T>(text.as_str()), default),
        None => default,
    }
}

/// `a`, a dot and `b`.
fn dotted(a: &str, b: &str) -> (r: String)
    ensures
        r@ == a@ + seq!['.'] + b@,
{
    let mut r = a.to_owned();
    push_char(&mut r, '.');
    r.append(b);
    r
}

impl Browser {
    /// The record of an agent that no rule matches: family `Other`, nothing else.
    pub fn new() -> (r: Browser)
        ensures
            r@ == BrowserInfo::other(),
    {
        Browser { family: "Other".to_owned(), major: None, minor: None, patch: None }
    }

    /// The text that `version` hands to the parser.
    pub fn version_string(&self) -> (r: Option<String>)
        ensures
            r.deep_view() == self@.version_text(),
    {
        match (&self.major, &self.minor, &self.patch) {
            (Some(major), Some(minor), Some(patch)) => {
                let head = dotted(major.as_str(), minor.as_str());
                Some(dotted(head.as_str(), patch.as_str()))
            },
            (Some(major), Some(minor), None) => {
                let head = dotted(major.as_str(), minor.as_str());
                let r = dotted(head.as_str(), "0");
                proof {
                    reveal_strlit("0");
                    assert("0"@ =~= seq!['0']);
                    assert(r@ =~= major@ + seq!['.'] + minor@ + seq!['.', '0']);
                }
                Some(r)
            },
            (Some(major), None, None) => {
                let head = dotted(major.as_str(), "0");
                let r = dotted(head.as_str(), "0");
                proof {
                    reveal_strlit("0");
                    assert("0"@ =~= seq!['0']);
                    assert(r@ =~= major@ + seq!['.', '0', '.', '0']);
                }
                Some(r)
            },
            _ => None,
        }
    }

    /// The version as a semantic version, where the fields make one up.
    pub fn version(&self) -> (r: Option<Version>)
        ensures
            r == match self@.version_text() {
                Some(text) => semver_of(text),
                None => None,
            },
    {
        match self.version_string() {
            Some(text) => parse_version(text.as_str()),
            None => None,
        }
    }

    /// The major version read as a `T`, or `default`.
    pub fn major_or<T: FromStr>(&self, default: T) -> (r: T)
        ensures
            self.major is None ==> r == default,
    {
        field_or(&self.major, default)
    }

    /// The minor version read as a `T`, or `default`.
    pub fn minor_or<T: FromStr>(&self, default: T) -> (r: T)
        ensures
            self.minor is None ==> r == default,
    {
        field_or(&self.minor, default)
    }

    /// The patch version read as a `T`, or `default`.
    pub fn patch_or<T: FromStr>(&self, default: T) -> (r: T)
        ensures
            self.patch is None ==> r == default,
    {
        field_or(&self.patch, default)
    }
}

impl Default for Browser {
    fn default() -> (r: Browser)
        ensures
            r@ == BrowserInfo::other(),
    {
        Browser::new()
    }
}

impl OS {
    /// The record of an agent that no rule matches: family `Other`, nothing else.
    pub fn new() -> (r: OS)
        ensures
            r@ == OSInfo::other(),
    {
        OS {
            family: "Other".to_owned(),
            major: None,
            minor: None,
            patch: None,
            patch_minor: None,
        }
    }

    /// The text that `version` hands to the parser.
    pub fn version_string(&self) -> (r: Option<String>)
        ensures
            r.deep_view() == self@.version_text(),
    {
        match (&self.major, &self.minor, &self.patch, &self.patch_minor) {
            (Some(major), Some(minor), Some(patch), Some(patch_minor)) => {
                let head = dotted(major.as_str(), minor.as_str());
                let mut r = dotted(head.as_str(), patch.as_str());
                push_char(&mut r, '-');
                r.append(patch_minor.as_str());
                Some(r)
            },
            (Some(major), Some(minor), Some(patch), None) => {
                let head = dotted(major.as_str(), minor.as_str());
                Some(dotted(head.as_str(), patch.as_str()))
            },
            (Some(major), Some(minor), None, None) => {
                let head = dotted(major.as_str(), minor.as_str());
                let r = dotted(head.as_str(), "0");
                proof {
                    reveal_strlit("0");
                    assert("0"@ =~= seq!['0']);
                    assert(r@ =~= major@ + seq!['.'] + minor@ + seq!['.', '0']);
                }
                Some(r)
            },
            (Some(major), None, None, None) => Some(major.clone()),
            _ => None,
        }
    }

    /// The version as a semantic version, where the fields make one up.
    pub fn version(&self) -> (r: Option<Version>)
        ensures
            r == match self@.version_text() {
                Some(text) => semver_of(text),
                None => None,
            },
    {
        match self.version_string() {
            Some(text) => parse_version(text.as_str()),
            None => None,
        }
    }

    /// The major version read as a `T`, or `default`.
    pub fn major_or<T: FromStr>(&self, default: T) -> (r: T)
        ensures
            self.major is None ==> r == default,
    {
        field_or(&self.major, default)
    }

    /// The minor version read as a `T`, or `default`.
    pub fn minor_or<T: FromStr>(&self, default: T) -> (r: T)
        ensures
            self.minor is None ==> r == default,
    {
        field_or(&self.minor, default)
    }

    /// The patch version read as a `T`, or `default`.
    pub fn patch_or<T: FromStr>(&self, default: T) -> (r: T)
        ensures
            self.patch is None ==> r == default,
    {
        field_or(&self.patch, default)
    }

    /// The minor patch version read as a `T`, or `default`.
    pub fn patch_minor_or<T: FromStr>(&self, default: T) -> (r: T)
        ensures
            self.patch_minor is None ==> r == default,
    {
        field_or(&self.patch_minor, default)
    }
}

impl Default for OS {
    fn default() -> (r: OS)
        ensures
            r@ == OSInfo::other(),
    {
        OS::new()
    }
}

impl Device {
    /// The record of an agent that no rule matches: family `Other`, nothing else.
    pub fn new() -> (r: Device)
        ensures
            r@ == DeviceInfo::other(),
    {
        Device { family: "Other".to_owned(), brand: None, model: None }
    }

    /// Whether the record is that of a crawler: its family is `Spider`.
    pub fn is_spider(&self) -> (r: bool)
        ensures
            r == self@.is_spider(),
    {
        crate::text::same_text(self.family.as_str(), "Spider")
    }
}

impl Default for Device {
    fn default() -> (r: Device)
        ensures
            r@ == DeviceInfo::other(),
    {
        Device::new()
    }
}

} // verus!
