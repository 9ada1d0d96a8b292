use uap_rust::{
    BrowserParser, Client, DeviceParser, OSParser, Rules, UserAgentInformation, UserAgentParser,
};

fn some(text: &str) -> Option<String> {
    Some(text.to_string())
}

fn rules() -> Rules {
    let i = "i".to_string();
    Rules::new(
        vec![
            BrowserParser::new(r"(Firefox)(?:/(\d+)\.(\d+))?", None, None, None, None, None)
                .unwrap(),
            BrowserParser::new(r"(Samba) (\d+)", None, None, None, None, None).unwrap(),
        ],
        vec![OSParser::new(r"(Linux|Windows)", None, None, None, None, None, None).unwrap()],
        vec![
            DeviceParser::new(r"(bot|spider|crawl)", Some(&i), some("Spider"), some("Spider"), some("Desktop"))
                .unwrap(),
            DeviceParser::new(r"(iPhone)", None, None, some("Apple"), None).unwrap(),
        ],
    )
}

fn summary<T: UserAgentInformation>(agent: &T) -> String {
    format!(
        "{}: {} / {} / {} / {}",
        agent.user_agent(),
        agent.browser().family,
        agent.os().family,
        agent.device().family,
        agent.is_bot()
    )
}

fn shareable<T: Send + Sync>(_: &T) {}

#[test]
fn test_owning_client() {
    let rules = rules();
    let client = {
        let ua = "Firefox".to_string();
        Client::from_string(ua, &rules)
    };
    let other_client = client;
    assert!(!other_client.is_bot());
}

#[test]
fn test_user_agent() {
    let rules = rules();
    assert_eq!(Client::new("Samba 1234", &rules).user_agent(), "Samba 1234");
    assert_eq!(
        Client::from_string("Samba 1234".to_string(), &rules).user_agent(),
        "Samba 1234"
    );
}

#[test]
fn a_borrowed_and_an_owned_agent_give_the_same_records() {
    let rules = rules();
    let text = String::from("Mozilla (Linux) Firefox/41.0");
    let borrowed = Client::new(&text, &rules);
    let owned = Client::from_string(text.clone(), &rules);
    assert_eq!(borrowed.browser(), owned.browser());
    assert_eq!(borrowed.os(), owned.os());
    assert_eq!(borrowed.device(), owned.device());
    assert_eq!(borrowed.is_bot(), owned.is_bot());
    assert_eq!(borrowed.browser().family, "Firefox");
    assert_eq!(borrowed.browser().major, some("41"));
    assert_eq!(borrowed.os().family, "Linux");
    assert_eq!(borrowed.device().family, "Other");
}

#[test]
fn a_spider_is_a_bot_and_nothing_else_is() {
    let rules = rules();
    assert!(Client::new("Googlebot/2.1", &rules).is_bot());
    assert!(Client::new("some SPIDER", &rules).is_bot());
    assert!(!Client::new("iPhone", &rules).is_bot());
    assert!(!Client::new("Firefox", &rules).is_bot());
    assert!(!Client::new("", &rules).is_bot());
    // only the family counts, and only the exact word
    let odd = Rules::new(
        Vec::new(),
        Vec::new(),
        vec![
            DeviceParser::new("lower", None, some("spider"), some("Spider"), some("Spider")).unwrap(),
            DeviceParser::new("longer", None, some("Spiders"), None, None).unwrap(),
            DeviceParser::new("padded", None, some(" Spider "), None, None).unwrap(),
            DeviceParser::new("(Spider)", None, None, None, None).unwrap(),
        ],
    );
    assert!(!Client::new("lower", &odd).is_bot());
    assert!(!Client::new("longer", &odd).is_bot());
    assert!(Client::new("padded", &odd).is_bot());
    assert!(Client::new("a Spider", &odd).is_bot());
    assert!(!Client::new("a spider", &odd).is_bot());
}

#[test]
fn repeated_calls_return_the_same_record() {
    let rules = rules();
    let client = Client::new("Mozilla (Windows) Firefox/3.6 bot", &rules);
    let first = client.browser();
    assert_eq!(first.family, "Firefox");
    assert_eq!(first.minor, some("6"));
    for _ in 0..3 {
        assert_eq!(client.browser(), first);
    }
    let os = client.os();
    let device = client.device();
    assert!(client.is_bot());
    assert!(client.is_bot());
    assert_eq!(client.os(), os);
    assert_eq!(client.device(), device);
    assert_eq!(client.browser(), first);
    assert_eq!(client.user_agent(), "Mozilla (Windows) Firefox/3.6 bot");
}

#[test]
fn the_order_of_the_questions_does_not_matter() {
    let rules = rules();
    let agent = "Mozilla (Linux) Samba 4 crawler";
    let a = Client::new(agent, &rules);
    let b = Client::new(agent, &rules);
    let a_bot = a.is_bot();
    let a_os = a.os();
    let a_browser = a.browser();
    let b_browser = b.browser();
    let b_os = b.os();
    let b_bot = b.is_bot();
    assert_eq!(a_browser, b_browser);
    assert_eq!(a_os, b_os);
    assert_eq!(a_bot, b_bot);
    assert_eq!(a.device(), b.device());
    assert_eq!(a_browser.family, "Samba");
}

#[test]
fn a_client_answers_through_the_trait() {
    let rules = rules();
    let client = Client::new("Mozilla (Linux) Firefox/41.0", &rules);
    assert_eq!(summary(&client), "Mozilla (Linux) Firefox/41.0: Firefox / Linux / Other / false");
    let client = Client::new("iPhone spider", &rules);
    assert_eq!(summary(&client), "iPhone spider: Other / Other / Spider / true");
}

#[test]
fn without_rules_everything_is_other() {
    let rules = Rules::new(Vec::new(), Vec::new(), Vec::new());
    let client = Client::new("Mozilla/5.0", &rules);
    assert_eq!(client.browser().family, "Other");
    assert_eq!(client.os().family, "Other");
    assert_eq!(client.device().family, "Other");
    assert!(!client.is_bot());
}

#[test]
fn a_client_can_be_shared_and_sent() {
    let rules = rules();
    let client = Client::new("Firefox", &rules);
    shareable(&client);
    shareable(&rules);
    let first = &client;
    let second = &client;
    assert_eq!(first.browser(), second.browser());
    assert!(!second.is_bot());
    assert!(!first.is_bot());
}

#[test]
fn a_record_outlives_its_client() {
    let rules = rules();
    let record = {
        let client = Client::new("Firefox/3.5", &rules);
        client.browser()
    };
    assert_eq!(record.major, some("3"));
}

#[test]
fn a_user_agent_parser_is_a_browser_rule() {
    let rule: UserAgentParser = UserAgentParser::new(r"(Firefox)/(\d+)", None, None, None, None, None).unwrap();
    let record: uap_rust::UserAgent = rule.parse("Firefox/9").unwrap();
    assert_eq!(record.family, "Firefox");
    assert_eq!(record.major, some("9"));
}
