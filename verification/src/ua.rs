//! The browser axis under its older names.

use vstd::prelude::*;
use crate::parser::browser::BrowserParser;
use crate::record::Browser;

verus! {

/// `UserAgent` contains the user agent information: the browser record.
pub type UserAgent = Browser;

/// One rule of the `user_agent_parsers` list: a browser rule.
pub type UserAgentParser = BrowserParser;

} // verus!
