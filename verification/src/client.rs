//! The handle of one user agent: its three records, each worked out on first demand and
//! kept from then on.

use vstd::prelude::*;
use vstd::rwlock::RwLock;
use crate::parser::browser::BrowserParser;
use crate::parser::device::DeviceParser;
use crate::parser::os::OSParser;
use crate::parser::{classified, classify, Rule};
use crate::record::{Browser, BrowserInfo, Device, DeviceInfo, OSInfo, OS};
use crate::rules::Rules;

verus! {

/// What can be asked of a user agent.
pub trait UserAgentInformation {
    /// The text of the user agent.
    spec fn agent(&self) -> Seq<char>;

    /// The browser record of the agent.
    spec fn browser_info(&self) -> BrowserInfo;

    /// The device record of the agent.
    spec fn device_info(&self) -> DeviceInfo;

    /// The operating system record of the agent.
    spec fn os_info(&self) -> OSInfo;

    /// The text of the user agent.
    fn user_agent(&self) -> (r: &str)
        ensures
            r@ == self.agent(),
    ;

    /// The browser record.
    fn browser(&self) -> (r: Browser)
        ensures
            r@ == self.browser_info(),
    ;

    /// The device record.
    fn device(&self) -> (r: Device)
        ensures
            r@ == self.device_info(),
    ;

    /// The operating system record.
    fn os(&self) -> (r: OS)
        ensures
            r@ == self.os_info(),
    ;

    /// Whether the agent is a crawler: its device family is `Spider`.
    fn is_bot(&self) -> (r: bool)
        ensures
            r == self.device_info().is_spider(),
    ;
}

/// What a slot for the record of `agent` under `rules` may hold: nothing, or that record.
spec fn nothing_or_record<R: Rule>(rules: Seq<R>, agent: Seq<char>) -> spec_fn(
    Option<R::Record>,
) -> bool {
    |slot: Option<R::Record>| slot matches Some(record) ==> record@ == classified(rules, agent)
}

/// A slot for one record, empty until the record is first asked for.
///
/// The slot sits behind a readers-writer lock. A caller first looks under the read lock;
/// where it finds nothing it takes the write lock, looks again, and only if the slot is
/// still empty runs the rules and fills it. So the rules run once, however many callers
/// arrive together, and all of them get the same record.
struct Lazy<R: Rule> {
    slot: RwLock<Option<R::Record>, spec_fn(Option<R::Record>) -> bool>,
}

impl<R: Rule> Lazy<R> {
    /// Whether the slot is the one for the record of `agent` under `rules`.
    spec fn is_for(&self, rules: Seq<R>, agent: Seq<char>) -> bool {
        self.slot.pred() == nothing_or_record(rules, agent)
    }

    /// An empty slot for the record of `agent` under `rules`.
    fn new(Ghost(rules): Ghost<Seq<R>>, Ghost(agent): Ghost<Seq<char>>) -> (r: Lazy<R>)
        ensures
            r.is_for(rules, agent),
    {
        Lazy { slot: RwLock::new(None, Ghost(nothing_or_record(rules, agent))) }
    }

    /// The record, worked out now if it has never been asked for.
    fn get(&self, rules: &Vec<R>, agent: &str) -> (r: R::Record)
        requires
            self.is_for(rules@, agent@),
        ensures
            r@ == classified(rules@, agent@),
    {
        let reader = self.slot.acquire_read();
        let found = match reader.borrow() {
            Some(record) => Some(R::copy_of(record)),
            None => None,
        };
        reader.release_read();
        match found {
            Some(record) => record,
            None => {
                let (slot, writer) = self.slot.acquire_write();
                let record = match slot {
                    Some(record) => record,
                    None => classify(rules, agent),
                };
                let r = R::copy_of(&record);
                writer.release_write(Some(record));
                r
            },
        }
    }
}

/// `Client` holds a user agent and what has been worked out of it so far.
///
/// Each of the three records is worked out when it is first asked for and kept. A
/// `Client` can be shared: any number of threads may ask at once. What a caller gets is a
/// copy of the record that is kept: the record lies behind a lock, and a reference to it
/// could not be held past the lock.
pub struct Client<'a> {
    rules: &'a Rules,
    user_agent: String,
    browser: Lazy<BrowserParser>,
    os: Lazy<OSParser>,
    device: Lazy<DeviceParser>,
}

impl<'a> UserAgentInformation for Client<'a> {
    closed spec fn agent(&self) -> Seq<char> {
        self.user_agent@
    }

    open spec fn browser_info(&self) -> BrowserInfo {
        classified(self.rules().browser@, self.agent())
    }

    open spec fn device_info(&self) -> DeviceInfo {
        classified(self.rules().device@, self.agent())
    }

    open spec fn os_info(&self) -> OSInfo {
        classified(self.rules().os@, self.agent())
    }

    fn user_agent(&self) -> (r: &str) {
        Client::user_agent(self)
    }

    fn browser(&self) -> (r: Browser) {
        Client::browser(self)
    }

    fn device(&self) -> (r: Device) {
        Client::device(self)
    }

    fn os(&self) -> (r: OS) {
        Client::os(self)
    }

    fn is_bot(&self) -> (r: bool) {
        Client::is_bot(self)
    }
}

impl<'a> Client<'a> {
    /// Each slot is the one for its record of this agent under these rules.
    #[verifier::type_invariant]
    spec fn slots_match(self) -> bool {
        &&& self.browser.is_for(self.rules.browser@, self.user_agent@)
        &&& self.os.is_for(self.rules.os@, self.user_agent@)
        &&& self.device.is_for(self.rules.device@, self.user_agent@)
    }

    /// The rules that the agent is classified by.
    pub closed spec fn rules(&self) -> Rules {
        *self.rules
    }

    /// A handle for `user_agent`, which is copied, with nothing worked out yet.
    pub fn new(user_agent: &str, rules: &'a Rules) -> (c: Client<'a>)
        ensures
            c.agent() == user_agent@,
            c.rules() == *rules,
    {
        Client::from_string(user_agent.to_owned(), rules)
    }

    /// A handle for `user_agent`, which it takes over, with nothing worked out yet.
    pub fn from_string(user_agent: String, rules: &'a Rules) -> (c: Client<'a>)
        ensures
            c.agent() == user_agent@,
            c.rules() == *rules,
    {
        let browser = Lazy::new(Ghost(rules.browser@), Ghost(user_agent@));
        let os = Lazy::new(Ghost(rules.os@), Ghost(user_agent@));
        let device = Lazy::new(Ghost(rules.device@), Ghost(user_agent@));
        Client { rules, user_agent, browser, os, device }
    }

    /// The text of the user agent.
    pub fn user_agent(&self) -> (r: &str)
        ensures
            r@ == self.agent(),
    {
        self.user_agent.as_str()
    }

    /// The browser record. The first call works it out; every call returns the same.
    pub fn browser(&self) -> (r: Browser)
        ensures
            r@ == self.browser_info(),
            r@.well_formed(),
    {
        proof {
            use_type_invariant(self);
            crate::parser::browser::lemma_classified_fields(self.rules.browser@, self.user_agent@);
        }
        self.browser.get(&self.rules.browser, self.user_agent.as_str())
    }

    /// The operating system record. The first call works it out; every call returns the
    /// same.
    pub fn os(&self) -> (r: OS)
        ensures
            r@ == self.os_info(),
            r@.well_formed(),
    {
        proof {
            use_type_invariant(self);
            crate::parser::os::lemma_classified_fields(self.rules.os@, self.user_agent@);
        }
        self.os.get(&self.rules.os, self.user_agent.as_str())
    }

    /// The device record. The first call works it out; every call returns the same.
    pub fn device(&self) -> (r: Device)
        ensures
            r@ == self.device_info(),
            r@.well_formed(),
    {
        proof {
            use_type_invariant(self);
            crate::parser::device::lemma_classified_fields(self.rules.device@, self.user_agent@);
        }
        self.device.get(&self.rules.device, self.user_agent.as_str())
    }

    /// Whether the agent is a crawler: the family of its device record is `Spider`.
    pub fn is_bot(&self) -> (r: bool)
        ensures
            r == self.device_info().is_spider(),
            r == (self.device_info().family == "Spider"@),
    {
        self.device().is_spider()
    }
}

} // verus!
