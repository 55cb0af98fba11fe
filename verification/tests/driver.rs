use navcrawl::decompose::{decompose, ParseOption};
use navcrawl::driver::{
    advance, awaits, confirms, draft, enter, gate, plan, read_page, report, CrawlAction,
    CrawlEvent, CrawlPlan, CrawlState, PageFetch,
};
use navcrawl::error::{CrawlError, ErrorPolicy};
use navcrawl::robots::RobotsFetch;
use navcrawl::text::relative_path;

const TARGET: &str = "http://www.tegdesign.com/";
const PAGE: &str = "<div id=\"navmenu\"><a href=\"/a\">A</a><a href=\"/b\">B</a></div>";

fn start(target: &str) -> CrawlEvent {
    CrawlEvent::Start { target: target.to_string() }
}

fn robots(status: u16, body: &str) -> CrawlEvent {
    CrawlEvent::Robots { fetch: RobotsFetch::Answered { status, body: body.to_string() } }
}

fn page(html: &str) -> CrawlEvent {
    CrawlEvent::Page { fetch: PageFetch::Body { html: html.to_string() } }
}

fn fixed_plan() -> CrawlPlan {
    CrawlPlan {
        target: TARGET.to_string(),
        base_url: "http://www.tegdesign.com".to_string(),
        robots_url: "http://www.tegdesign.com/robots.txt".to_string(),
        relative_path: "/".to_string(),
    }
}

#[test]
fn plan_of_the_fixed_target() {
    assert_eq!(plan(TARGET), Ok(fixed_plan()));
}

#[test]
fn plan_leaves_port_query_and_fragment_out_of_the_site() {
    let made = plan("https://example.com:8443/a/b?x=1#top").unwrap();
    assert_eq!(made.target, "https://example.com:8443/a/b?x=1#top");
    assert_eq!(made.base_url, "https://example.com");
    assert_eq!(made.robots_url, "https://example.com/robots.txt");
    assert_eq!(made.relative_path, "/a/b");
}

#[test]
fn plan_of_a_site_without_path() {
    let made = plan("http://example.com").unwrap();
    assert_eq!(made.relative_path, "/");
    let made = plan("foo://example.com").unwrap();
    assert_eq!(made.base_url, "foo://example.com");
    assert_eq!(made.relative_path, "/");
}

#[test]
fn plan_takes_credentials_out() {
    let made = plan("http://user:pw@example.com/a").unwrap();
    assert_eq!(made.base_url, "http://example.com");
    assert_eq!(made.relative_path, "/a");
}

#[test]
fn plan_of_no_url_fails() {
    assert_eq!(
        plan("not a url"),
        Err(CrawlError::MalformedUrl { description: "relative URL without a base".to_string() })
    );
}

#[test]
fn plan_without_host_fails() {
    assert_eq!(
        plan("mailto:someone@example.com"),
        Err(CrawlError::MissingUrlComponent { component: ParseOption::HostName })
    );
    assert_eq!(
        plan("data:text/plain,hello"),
        Err(CrawlError::MissingUrlComponent { component: ParseOption::HostName })
    );
}

#[test]
fn rebuilt_addresses_decompose_alike() {
    for target in [
        TARGET,
        "http://example.com",
        "https://Example.com:8443/a/b/?x=1#top",
        "http://user:pw@example.com/a%20b/c",
        "http://example.com/a/../b/./c",
        "http://example.com/caf\u{e9}/\u{65e5}\u{672c}",
        "http://b\u{fc}cher.example/",
        "ftp://ftp.example.org/pub//file",
        "foo://example.com/x\\y",
        "foo://example.com",
        "http://127.0.0.1/a/b",
        "http://[::1]:8080/",
        "https://[2001:db8::1]/x?y#z",
    ] {
        let parts = decompose(target).unwrap();
        let made = plan(target).unwrap();
        let again = decompose(&format!("{}{}", made.base_url, made.relative_path)).unwrap();
        assert_eq!(again.scheme(), parts.scheme());
        assert_eq!(again.host(), parts.host());
        assert_eq!(relative_path(again.path()), relative_path(parts.path()));
        assert_eq!(made.relative_path, relative_path(parts.path()));
    }
}

#[test]
fn a_crawl_runs_from_start_to_print() {
    let policy = ErrorPolicy::Abort;
    let (state, action) = advance(CrawlState::Ready, start(TARGET), policy);
    assert_eq!(state, CrawlState::AwaitingRobots { plan: fixed_plan() });
    assert_eq!(
        action,
        CrawlAction::FetchRobots { url: "http://www.tegdesign.com/robots.txt".to_string() }
    );
    let (state, action) = advance(state, robots(200, "User-agent: *\nDisallow: /private\n"), policy);
    assert_eq!(state, CrawlState::AwaitingPage);
    assert_eq!(action, CrawlAction::FetchPage { url: TARGET.to_string() });
    let (state, action) = advance(state, page(PAGE), policy);
    assert_eq!(state, CrawlState::Finished);
    assert_eq!(
        action,
        CrawlAction::Print { lines: vec!["A (\"/a\")".to_string(), "B (\"/b\")".to_string()] }
    );
}

#[test]
fn a_page_that_is_not_allowed_ends_the_crawl_quietly() {
    for policy in [ErrorPolicy::Abort, ErrorPolicy::Skip] {
        let (state, _) = advance(CrawlState::Ready, start("http://example.com/private/x"), policy);
        let (state, action) =
            advance(state, robots(200, "User-agent: *\nDisallow: /private\n"), policy);
        assert_eq!(state, CrawlState::Finished);
        assert_eq!(action, CrawlAction::Stop);
    }
}

#[test]
fn the_page_is_fetched_as_it_was_given() {
    let target = "http://example.com:8080/a?x=1";
    let (state, _) = advance(CrawlState::Ready, start(target), ErrorPolicy::Abort);
    let (_, action) = advance(state, robots(404, ""), ErrorPolicy::Abort);
    assert_eq!(action, CrawlAction::FetchPage { url: target.to_string() });
}

#[test]
fn an_unreachable_robots_resource_under_abort() {
    let state = CrawlState::AwaitingRobots { plan: fixed_plan() };
    let event = CrawlEvent::Robots { fetch: RobotsFetch::Unreachable };
    let (state, action) = advance(state, event, ErrorPolicy::Abort);
    assert_eq!(state, CrawlState::Finished);
    assert_eq!(action, CrawlAction::Fail { error: CrawlError::RobotsUnreachable });
}

#[test]
fn an_unreachable_robots_resource_under_skip() {
    let state = CrawlState::AwaitingRobots { plan: fixed_plan() };
    let event = CrawlEvent::Robots { fetch: RobotsFetch::Unreachable };
    let (state, action) = advance(state, event, ErrorPolicy::Skip);
    assert_eq!(state, CrawlState::AwaitingPage);
    assert_eq!(action, CrawlAction::FetchPage { url: TARGET.to_string() });
}

#[test]
fn a_forbidden_robots_resource_ends_the_crawl() {
    let state = CrawlState::AwaitingRobots { plan: fixed_plan() };
    let (state, action) = advance(state, robots(403, ""), ErrorPolicy::Abort);
    assert_eq!(state, CrawlState::Finished);
    assert_eq!(action, CrawlAction::Stop);
}

#[test]
fn a_bad_target_under_each_policy() {
    let (state, action) = advance(CrawlState::Ready, start("not a url"), ErrorPolicy::Abort);
    assert_eq!(state, CrawlState::Finished);
    assert_eq!(
        action,
        CrawlAction::Fail {
            error: CrawlError::MalformedUrl {
                description: "relative URL without a base".to_string()
            }
        }
    );
    let (state, action) = advance(CrawlState::Ready, start("not a url"), ErrorPolicy::Skip);
    assert_eq!(state, CrawlState::Finished);
    assert_eq!(action, CrawlAction::Stop);
}

#[test]
fn a_page_that_did_not_come_under_each_policy() {
    let failed = CrawlEvent::Page { fetch: PageFetch::Failed };
    let (state, action) = advance(CrawlState::AwaitingPage, failed.clone(), ErrorPolicy::Abort);
    assert_eq!(state, CrawlState::Finished);
    assert_eq!(action, CrawlAction::Fail { error: CrawlError::NetworkFailure });
    let (state, action) = advance(CrawlState::AwaitingPage, failed, ErrorPolicy::Skip);
    assert_eq!(state, CrawlState::Finished);
    assert_eq!(action, CrawlAction::Stop);
}

#[test]
fn an_anchor_without_href_under_each_policy() {
    let html = "<div id=\"navmenu\"><a>X</a><a href=\"/b\">B</a></div>";
    let (state, action) = advance(CrawlState::AwaitingPage, page(html), ErrorPolicy::Abort);
    assert_eq!(state, CrawlState::Finished);
    assert_eq!(action, CrawlAction::Fail { error: CrawlError::MalformedAnchor { position: 0 } });
    let (state, action) = advance(CrawlState::AwaitingPage, page(html), ErrorPolicy::Skip);
    assert_eq!(state, CrawlState::Finished);
    assert_eq!(action, CrawlAction::Print { lines: vec!["B (\"/b\")".to_string()] });
}

#[test]
fn a_page_without_menu_prints_nothing() {
    let (state, action) = advance(CrawlState::AwaitingPage, page("<p>hello</p>"), ErrorPolicy::Abort);
    assert_eq!(state, CrawlState::Finished);
    assert_eq!(action, CrawlAction::Print { lines: vec![] });
}

#[test]
fn each_state_waits_for_its_event() {
    let waiting = CrawlState::AwaitingRobots { plan: fixed_plan() };
    let failed = CrawlEvent::Page { fetch: PageFetch::Failed };
    assert!(awaits(&CrawlState::Ready, &start(TARGET)));
    assert!(awaits(&waiting, &robots(200, "")));
    assert!(awaits(&CrawlState::AwaitingPage, &failed));
    assert!(!awaits(&CrawlState::Ready, &failed));
    assert!(!awaits(&CrawlState::Ready, &robots(200, "")));
    assert!(!awaits(&waiting, &start(TARGET)));
    assert!(!awaits(&waiting, &failed));
    assert!(!awaits(&CrawlState::AwaitingPage, &start(TARGET)));
    assert!(!awaits(&CrawlState::Finished, &start(TARGET)));
    assert!(!awaits(&CrawlState::Finished, &robots(200, "")));
    assert!(!awaits(&CrawlState::Finished, &failed));
}

#[test]
fn a_plan_leads_to_the_robots_resource() {
    for policy in [ErrorPolicy::Abort, ErrorPolicy::Skip] {
        let (state, action) = enter(Ok(fixed_plan()), policy);
        assert_eq!(state, CrawlState::AwaitingRobots { plan: fixed_plan() });
        assert_eq!(
            action,
            CrawlAction::FetchRobots { url: "http://www.tegdesign.com/robots.txt".to_string() }
        );
    }
}

#[test]
fn a_fault_in_planning_ends_the_crawl() {
    let fault = CrawlError::MissingUrlComponent { component: ParseOption::HostName };
    let (state, action) = enter(Err(fault.clone()), ErrorPolicy::Abort);
    assert_eq!(state, CrawlState::Finished);
    assert_eq!(action, CrawlAction::Fail { error: fault.clone() });
    let (state, action) = enter(Err(fault), ErrorPolicy::Skip);
    assert_eq!(state, CrawlState::Finished);
    assert_eq!(action, CrawlAction::Stop);
}

#[test]
fn the_gate_in_every_case() {
    let fetch = (CrawlState::AwaitingPage, CrawlAction::FetchPage { url: TARGET.to_string() });
    let stop = (CrawlState::Finished, CrawlAction::Stop);
    let fail = (CrawlState::Finished, CrawlAction::Fail { error: CrawlError::RobotsUnreachable });
    assert_eq!(gate(fixed_plan(), true, true, ErrorPolicy::Abort), fetch);
    assert_eq!(gate(fixed_plan(), true, true, ErrorPolicy::Skip), fetch);
    assert_eq!(gate(fixed_plan(), true, false, ErrorPolicy::Abort), stop);
    assert_eq!(gate(fixed_plan(), true, false, ErrorPolicy::Skip), stop);
    assert_eq!(gate(fixed_plan(), false, true, ErrorPolicy::Abort), fail);
    assert_eq!(gate(fixed_plan(), false, false, ErrorPolicy::Abort), fail);
    assert_eq!(gate(fixed_plan(), false, true, ErrorPolicy::Skip), fetch);
    assert_eq!(gate(fixed_plan(), false, false, ErrorPolicy::Skip), stop);
}

#[test]
fn lines_are_printed_and_faults_end_the_crawl() {
    let lines = vec!["A (\"/a\")".to_string()];
    for policy in [ErrorPolicy::Abort, ErrorPolicy::Skip] {
        let (state, action) = report(Ok(lines.clone()), policy);
        assert_eq!(state, CrawlState::Finished);
        assert_eq!(action, CrawlAction::Print { lines: lines.clone() });
    }
    let fault = CrawlError::MalformedAnchor { position: 2 };
    assert_eq!(
        report(Err(fault.clone()), ErrorPolicy::Abort),
        (CrawlState::Finished, CrawlAction::Fail { error: fault.clone() })
    );
    assert_eq!(report(Err(fault), ErrorPolicy::Skip), (CrawlState::Finished, CrawlAction::Stop));
}

#[test]
fn a_page_is_read_into_lines() {
    let body = PageFetch::Body { html: PAGE.to_string() };
    assert_eq!(
        read_page(&body, ErrorPolicy::Abort),
        Ok(vec!["A (\"/a\")".to_string(), "B (\"/b\")".to_string()])
    );
    assert_eq!(read_page(&PageFetch::Failed, ErrorPolicy::Abort), Err(CrawlError::NetworkFailure));
    assert_eq!(read_page(&PageFetch::Failed, ErrorPolicy::Skip), Err(CrawlError::NetworkFailure));
    let broken = PageFetch::Body { html: "<p id=\"navmenu\"><a>x</a></p>".to_string() };
    assert_eq!(
        read_page(&broken, ErrorPolicy::Abort),
        Err(CrawlError::MalformedAnchor { position: 0 })
    );
    assert_eq!(read_page(&broken, ErrorPolicy::Skip), Ok(vec![]));
}

#[test]
fn a_draft_is_made_of_scheme_host_and_path() {
    let parts = decompose("https://user@example.com:8443/a/b?x#y").unwrap();
    assert_eq!(
        draft("anything", &parts),
        Ok(CrawlPlan {
            target: "anything".to_string(),
            base_url: "https://example.com".to_string(),
            robots_url: "https://example.com/robots.txt".to_string(),
            relative_path: "/a/b".to_string(),
        })
    );
}

#[test]
fn no_draft_without_a_named_host() {
    let parts = decompose("data:text/plain,hello").unwrap();
    assert_eq!(
        draft("data:text/plain,hello", &parts),
        Err(CrawlError::MissingUrlComponent { component: ParseOption::HostName })
    );
}

#[test]
fn what_confirms_an_address() {
    let parts = decompose("http://user:pw@example.com:81/a/b?x=1#top").unwrap();
    let same = decompose("http://example.com/a/b").unwrap();
    assert!(confirms(&parts, &same));
    assert!(!confirms(&parts, &parts));
    assert!(!confirms(&parts, &decompose("https://example.com/a/b").unwrap()));
    assert!(!confirms(&parts, &decompose("http://example.org/a/b").unwrap()));
    assert!(!confirms(&parts, &decompose("http://example.com/a/b/").unwrap()));
    assert!(!confirms(&parts, &decompose("http://example.com/a").unwrap()));
    assert!(!confirms(&parts, &decompose("http://u@example.com/a/b").unwrap()));
    assert!(!confirms(&parts, &decompose("http://:p@example.com/a/b").unwrap()));
    assert!(confirms(&same, &decompose("http://example.com:8080/a/b?q#f").unwrap()));
}

#[test]
fn an_address_by_number_confirms_itself() {
    let numbered = decompose("http://127.0.0.1/a").unwrap();
    assert!(confirms(&numbered, &numbered));
    assert!(confirms(&numbered, &decompose("http://127.0.0.1:8080/a?x").unwrap()));
    assert!(!confirms(&numbered, &decompose("http://127.0.0.2/a").unwrap()));
    assert!(!confirms(&numbered, &decompose("http://[::1]/a").unwrap()));
}

#[test]
fn an_address_without_host_confirms_nothing() {
    let hostless = decompose("data:text/plain,hello").unwrap();
    assert!(!confirms(&hostless, &hostless));
}

#[test]
fn plan_of_a_site_given_by_number() {
    assert_eq!(
        plan("http://[::1]/"),
        Ok(CrawlPlan {
            target: "http://[::1]/".to_string(),
            base_url: "http://[::1]".to_string(),
            robots_url: "http://[::1]/robots.txt".to_string(),
            relative_path: "/".to_string(),
        })
    );
    let made = plan("http://127.0.0.1:8000/a/b").unwrap();
    assert_eq!(made.base_url, "http://127.0.0.1");
    assert_eq!(made.robots_url, "http://127.0.0.1/robots.txt");
    assert_eq!(made.relative_path, "/a/b");
}

#[test]
fn a_crawl_of_a_site_given_by_number() {
    let policy = ErrorPolicy::Abort;
    let target = "http://[::1]/private/x";
    let (state, action) = advance(CrawlState::Ready, start(target), policy);
    assert_eq!(action, CrawlAction::FetchRobots { url: "http://[::1]/robots.txt".to_string() });
    let (_, action) =
        advance(state.clone(), robots(200, "User-agent: *\nDisallow: /private\n"), policy);
    assert_eq!(action, CrawlAction::Stop);
    let (state, action) = advance(state, robots(200, ""), policy);
    assert_eq!(action, CrawlAction::FetchPage { url: target.to_string() });
    let (state, action) = advance(state, page(PAGE), policy);
    assert_eq!(state, CrawlState::Finished);
    assert_eq!(
        action,
        CrawlAction::Print { lines: vec!["A (\"/a\")".to_string(), "B (\"/b\")".to_string()] }
    );
}

#[test]
fn no_path_and_the_root_are_one_path() {
    let bare = decompose("foo://example.com").unwrap();
    let rooted = decompose("foo://example.com/").unwrap();
    assert!(bare.path().is_empty());
    assert_eq!(rooted.path(), &vec![String::new()]);
    assert!(confirms(&bare, &rooted));
    assert!(confirms(&rooted, &bare));
}
