//! A user agent parser, driven by an ordered database of regular expressions.
//!
//! A user agent string is classified on three axes, each with its own list of rules: the
//! browser, the operating system and the device. On each axis the first rule whose pattern
//! matches decides, and its templates turn the capture groups of the match into the fields
//! of the record. An agent that no rule matches gets the record `Other`.
//!
//! The rules are compiled once into a [`Rules`] value. A [`Client`] is made for each user
//! agent; it works a record out when it is first asked for and keeps it. Both can be
//! shared between threads.
//!
//! ```text
//! let rules = Rules::from_yaml(&browser_nodes, &os_nodes, &device_nodes);
//! let client = Client::new("Mozilla/5.0 (iPhone; CPU iPhone OS 5_1_1 like Mac OS X) ...", &rules);
//! client.browser().family    // "Mobile Safari"
//! client.os().family         // "iOS"
//! client.device().brand      // Some("Apple")
//! client.is_bot()            // false
//! ```

pub mod client;
pub mod parser;
pub mod pattern;
pub mod record;
pub mod rules;
pub mod template;
pub mod text;
pub mod ua;
pub mod version;
pub mod yaml;

pub use crate::client::{Client, UserAgentInformation};
pub use crate::parser::browser::{parse_browser, BrowserParser};
pub use crate::parser::device::{parse_device, DeviceParser};
pub use crate::parser::os::{parse_os, OSParser};
pub use crate::parser::Rule;
pub use crate::pattern::{build_uap_regexp, RuleCompileError};
pub use crate::record::{Browser, Device, OS};
pub use crate::rules::Rules;
pub use crate::template::{get_or_none, replace_matches, resolve};
pub use crate::ua::{UserAgent, UserAgentParser};
