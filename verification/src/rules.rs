//! The rule lists of the three axes, as one value.

use vstd::prelude::*;
use yaml_rust::Yaml;
use crate::parser::browser::BrowserParser;
use crate::parser::device::DeviceParser;
use crate::parser::os::OSParser;
use crate::parser::{described, rules_from_yaml};

verus! {

/// The browser, operating system and device rules, each list in the order of the rule
/// database. Built once and read from then on.
#[derive(Debug)]
pub struct Rules {
    pub browser: Vec<BrowserParser>,
    pub os: Vec<OSParser>,
    pub device: Vec<DeviceParser>,
}

impl Rules {
    /// The three lists as one value.
    pub fn new(browser: Vec<BrowserParser>, os: Vec<OSParser>, device: Vec<DeviceParser>) -> (r:
        Rules)
        ensures
            r.browser == browser,
            r.os == os,
            r.device == device,
    {
        Rules { browser, os, device }
    }

    /// Reads the three lists from the nodes of a rule database: the entries of its
    /// `user_agent_parsers`, `os_parsers` and `device_parsers`. Every node that gives a rule
    /// is kept, in its place; a node that gives none is passed over.
    pub fn from_yaml(browser: &Vec<Yaml>, os: &Vec<Yaml>, device: &Vec<Yaml>) -> (r: Rules)
        ensures
            r.browser.deep_view() == described::<BrowserParser>(browser@),
            r.os.deep_view() == described::<OSParser>(os@),
            r.device.deep_view() == described::<DeviceParser>(device@),
    {
        Rules {
            browser: rules_from_yaml(browser),
            os: rules_from_yaml(os),
            device: rules_from_yaml(device),
        }
    }
}

} // verus!
