use navcrawl::robots::{build_base_url, build_robots_url, can_fetch, load_policy, RobotsFetch};

const SITE: &str = "http://example.com";

fn rules(body: &str) -> RobotsFetch {
    RobotsFetch::Answered { status: 200, body: body.to_string() }
}

#[test]
fn robots_url_is_put_together() {
    assert_eq!(build_robots_url("http", "www.tegdesign.com"), "http://www.tegdesign.com/robots.txt");
    assert_eq!(build_robots_url("https", "example.org"), "https://example.org/robots.txt");
}

#[test]
fn robots_url_takes_an_empty_host() {
    assert_eq!(build_robots_url("http", ""), "http:///robots.txt");
    assert_eq!(build_robots_url("", ""), ":///robots.txt");
}

#[test]
fn base_url_is_scheme_and_host() {
    assert_eq!(build_base_url("http", "www.tegdesign.com"), "http://www.tegdesign.com");
}

#[test]
fn a_disallowed_path_is_refused() {
    let policy = load_policy(SITE, rules("User-agent: *\nDisallow: /private\n"));
    assert!(!can_fetch(&policy, "*", "/private/x"));
    assert!(!can_fetch(&policy, "*", "/private"));
}

#[test]
fn a_path_that_no_rule_names_is_allowed() {
    let policy = load_policy(SITE, rules("User-agent: *\nDisallow: /private\n"));
    assert!(can_fetch(&policy, "*", "/public"));
    assert!(can_fetch(&policy, "*", "/"));
}

#[test]
fn without_a_disallow_rule_every_path_is_allowed() {
    for body in ["", "User-agent: *\n", "User-agent: *\nAllow: /\n", "User-agent: *\nDisallow:\n"] {
        let policy = load_policy(SITE, rules(body));
        for path in ["/", "/a", "/private/x", "/a/b/c.html"] {
            assert!(can_fetch(&policy, "*", path));
            assert!(can_fetch(&policy, "crawler", path));
        }
    }
}

#[test]
fn the_longer_rule_wins() {
    let policy = load_policy(SITE, rules("User-agent: *\nAllow: /\nDisallow: /private\n"));
    assert!(!can_fetch(&policy, "*", "/private"));
    assert!(can_fetch(&policy, "*", "/other"));
    let policy = load_policy(SITE, rules("User-agent: *\nDisallow: /\nAllow: /open\n"));
    assert!(can_fetch(&policy, "*", "/open/page"));
    assert!(!can_fetch(&policy, "*", "/shut"));
}

#[test]
fn an_agent_goes_by_its_own_group_first() {
    let body = "User-agent: bot\nDisallow: /\n\nUser-agent: *\nAllow: /\n";
    let policy = load_policy(SITE, rules(body));
    assert!(!can_fetch(&policy, "bot", "/x"));
    assert!(can_fetch(&policy, "*", "/x"));
    assert!(can_fetch(&policy, "other", "/x"));
}

#[test]
fn the_any_agent_group_is_the_fallback() {
    let body = "User-agent: bot\nAllow: /\n\nUser-agent: *\nDisallow: /x\n";
    let policy = load_policy(SITE, rules(body));
    assert!(can_fetch(&policy, "bot", "/x"));
    assert!(!can_fetch(&policy, "other", "/x"));
}

#[test]
fn a_forbidden_robots_resource_closes_the_site() {
    for status in [401, 403] {
        let fetch = RobotsFetch::Answered { status, body: String::new() };
        let policy = load_policy(SITE, fetch);
        assert!(!can_fetch(&policy, "*", "/"));
        assert!(!can_fetch(&policy, "*", "/public"));
    }
}

#[test]
fn a_missing_robots_resource_leaves_the_site_open() {
    for status in [404, 410, 500, 301, 204] {
        let fetch =
            RobotsFetch::Answered { status, body: "User-agent: *\nDisallow: /\n".to_string() };
        let policy = load_policy(SITE, fetch);
        assert!(can_fetch(&policy, "*", "/"));
        assert!(can_fetch(&policy, "*", "/private"));
    }
}

#[test]
fn an_unreachable_site_allows() {
    let policy = load_policy(SITE, RobotsFetch::Unreachable);
    assert!(can_fetch(&policy, "*", "/"));
    assert!(can_fetch(&policy, "*", "/anything"));
}

#[test]
fn what_is_no_address_is_refused() {
    let open = load_policy(SITE, RobotsFetch::Unreachable);
    assert!(!can_fetch(&open, "*", "@other.example/"));
    assert!(!can_fetch(&open, "*", ":pw@other.example/"));
    let nowhere = load_policy("not a site", RobotsFetch::Unreachable);
    assert!(!can_fetch(&nowhere, "*", "/"));
    let hostless = load_policy("data:text/plain,", rules(""));
    assert!(!can_fetch(&hostless, "*", "hello"));
}

#[test]
fn rules_bind_only_where_the_web_has_origins() {
    let policy = load_policy("gopher://example.com", rules(""));
    assert!(!can_fetch(&policy, "*", "/"));
    let policy = load_policy("https://example.com", rules(""));
    assert!(can_fetch(&policy, "*", "/"));
}

#[test]
fn the_verdict_depends_on_the_rules() {
    let shut = load_policy(SITE, rules("User-agent: *\nDisallow: /\n"));
    let open = load_policy(SITE, rules("User-agent: *\nAllow: /\n"));
    assert!(!can_fetch(&shut, "*", "/page"));
    assert!(can_fetch(&open, "*", "/page"));
}

#[test]
fn comments_and_case_in_rules() {
    let body = "# the rules\nUSER-AGENT: *   # all\nDISALLOW: /tmp # scratch\n";
    let policy = load_policy(SITE, rules(body));
    assert!(!can_fetch(&policy, "*", "/tmp/file"));
    assert!(can_fetch(&policy, "*", "/var"));
}

#[test]
fn a_site_given_by_number_goes_by_its_rules() {
    for site in ["http://127.0.0.1", "http://[::1]", "https://[2001:db8::1]"] {
        let policy = load_policy(site, rules("User-agent: *\nDisallow: /private\n"));
        assert!(!can_fetch(&policy, "*", "/private/x"));
        assert!(can_fetch(&policy, "*", "/public"));
        let open = load_policy(site, rules(""));
        assert!(can_fetch(&open, "*", "/"));
        assert!(can_fetch(&open, "*", "/private/x"));
        let shut = load_policy(site, RobotsFetch::Answered { status: 403, body: String::new() });
        assert!(!can_fetch(&shut, "*", "/"));
        let none = load_policy(site, RobotsFetch::Unreachable);
        assert!(can_fetch(&none, "*", "/"));
    }
}

#[test]
fn an_empty_robots_resource_allows_every_page_on_the_web() {
    for site in [
        "http://example.com",
        "https://example.com",
        "ftp://example.com",
        "ws://example.com",
        "wss://example.com",
        "http://127.0.0.1",
    ] {
        let policy = load_policy(site, rules(""));
        for agent in ["*", "bot", "", "Mozilla/5.0"] {
            for path in ["/", "/a", "/a/b?x=1", "/private/x", "/%2e", "/\u{e9}"] {
                assert!(can_fetch(&policy, agent, path));
            }
        }
    }
}

#[test]
fn the_longer_rule_wins_in_any_order() {
    for body in [
        "User-agent: *\nAllow: /\nDisallow: /private\n",
        "User-agent: *\nDisallow: /private\nAllow: /\n",
        "User-agent: *\nAllow: /pri\nDisallow: /private\nAllow: /p\n",
    ] {
        let policy = load_policy(SITE, rules(body));
        assert!(!can_fetch(&policy, "*", "/private"));
        assert!(can_fetch(&policy, "*", "/pri"));
    }
    for body in [
        "User-agent: *\nDisallow: /private\nAllow: /private/open\n",
        "User-agent: *\nAllow: /private/open\nDisallow: /private\n",
    ] {
        let policy = load_policy(SITE, rules(body));
        assert!(can_fetch(&policy, "*", "/private/open"));
        assert!(!can_fetch(&policy, "*", "/private"));
    }
}

#[test]
fn a_group_without_disallow_refuses_nothing() {
    let body = "User-agent: bot\nAllow: /a\nCrawl-delay: 2\n\nUser-agent: other\nDisallow: /\n";
    let policy = load_policy(SITE, rules(body));
    for path in ["/", "/a", "/b", "/private/x"] {
        assert!(can_fetch(&policy, "bot", path));
        assert!(can_fetch(&policy, "third", path));
        assert!(!can_fetch(&policy, "other", path));
    }
}
