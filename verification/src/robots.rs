//! The robots policy of a site: where it lives, and what it allows.

use vstd::prelude::*;
use crate::decompose::{addressable, is_addressable, url_split};
use crate::text::followed_by;
use robotparser::parser::parse_fetched_robots_txt;
use robotparser::service::RobotsTxtService;
use url::Url;

verus! {

/// The address of a site: its scheme and host, with nothing after the host.
pub open spec fn base_url_of(scheme: Seq<char>, host: Seq<char>) -> Seq<char> {
    scheme + "://"@ + host
}

/// The address of a site's robots resource.
pub open spec fn robots_url_of(scheme: Seq<char>, host: Seq<char>) -> Seq<char> {
    base_url_of(scheme, host) + "/robots.txt"@
}

/// Writes the address of a site from its scheme and host.
pub fn build_base_url(scheme: &str, host: &str) -> (address: String)
    ensures
        address@ == base_url_of(scheme@, host@),
{
    let mut address = followed_by(scheme, "://");
    address.append(host);
    address
}

/// Writes the address of a site's robots resource. The host is taken as it
/// comes, empty or not.
pub fn build_robots_url(scheme: &str, host: &str) -> (address: String)
    ensures
        address@ == robots_url_of(scheme@, host@),
{
    let mut address = build_base_url(scheme, host);
    address.append("/robots.txt");
    address
}

/// What came of asking a site for its robots resource.
#[derive(Clone, Debug, PartialEq, Eq)]
pub enum RobotsFetch {
    /// The site answered, with this status code and this body.
    Answered { status: u16, body: String },
    /// No answer came at all.
    Unreachable,
}

/// A `RobotsFetch` with its body as a sequence of characters.
pub ghost enum RobotsReply {
    Answered { status: u16, body: Seq<char> },
    Unreachable,
}

impl View for RobotsFetch {
    type V = RobotsReply;

    open spec fn view(&self) -> RobotsReply {
        match self {
            RobotsFetch::Answered { status, body } => RobotsReply::Answered {
                status: *status,
                body: body@,
            },
            RobotsFetch::Unreachable => RobotsReply::Unreachable,
        }
    }
}

/// The rules of one site, loaded once from its robots resource and asked
/// through `can_fetch`.
#[derive(Clone, Debug, PartialEq, Eq)]
pub struct RobotsPolicy {
    base_url: String,
    fetch: RobotsFetch,
}

/// What a `RobotsPolicy` holds: the site's address and what the site
/// answered.
pub ghost struct PolicyModel {
    pub base_url: Seq<char>,
    pub reply: RobotsReply,
}

impl View for RobotsPolicy {
    type V = PolicyModel;

    closed spec fn view(&self) -> PolicyModel {
        PolicyModel { base_url: self.base_url@, reply: self.fetch@ }
    }
}

/// Keeps what a site answered as the policy for its pages.
pub fn load_policy(base_url: &str, fetch: RobotsFetch) -> (policy: RobotsPolicy)
    ensures
        policy@ == (PolicyModel { base_url: base_url@, reply: fetch@ }),
{
    RobotsPolicy { base_url: base_url.to_owned(), fetch }
}

/// Whether the rules in the text of a robots resource let an agent fetch the
/// page at a location: what the rules' parser and matcher say of the three.
pub uninterp spec fn rules_permit(body: Seq<char>, agent: Seq<char>, location: Seq<char>) -> bool;

/// What a site's answer means for a page: a status of 401 or 403 closes the
/// whole site, 200 puts the body's rules in force, and any other status
/// leaves the site open.
pub open spec fn reply_verdict(
    status: u16,
    body: Seq<char>,
    agent: Seq<char>,
    location: Seq<char>,
) -> bool {
    if status == 401 || status == 403 {
        false
    } else if status == 200 {
        rules_permit(body, agent, location)
    } else {
        true
    }
}

/// Whether a scheme is one whose addresses have an origin on the web, made
/// of scheme, host and port. The rules of a robots resource bind within an
/// origin.
pub open spec fn has_web_origin(scheme: Seq<char>) -> bool {
    scheme == "http"@ || scheme == "https"@ || scheme == "ftp"@ || scheme == "ws"@ || scheme
        == "wss"@
}

/// Parses `location` with `url::Url::parse`, reads the site's answer with
/// `robotparser::parser::parse_fetched_robots_txt`, under the location's own
/// `origin()`, and asks the result `can_fetch` for the agent and the
/// location. `None` where the location does not parse.
///
/// Trusted: the three cases by status, which `parse_fetched_robots_txt` and
/// `can_fetch` of `FetchedRobotsTxt` spell out, and that for a status of 200
/// the answer depends on body, agent and location alone, which gives it its
/// name `rules_permit`. Of what the rules say one thing is stated: a body
/// with nothing in it holds no rule, and the matcher allows what no rule
/// denies, for a location whose scheme gives it an origin. (The source
/// shows the matcher to ask the groups of the agent's own first and the
/// group of `*` after them, also where a group of the agent's own holds no
/// rule for the page.)
///
/// The matcher cuts the location's text after its origin and panics where
/// the text does not begin with it, as with a user name before the host or
/// a `blob:` URL around another: `requires` leaves those out.
#[verifier::external_body]
fn robots_verdict(status: u16, body: &str, agent: &str, location: &str) -> (verdict: Option<bool>)
    requires
        url_split(location@) is Ok ==> addressable(location@),
    ensures
        verdict is Some <==> url_split(location@) is Ok,
        verdict matches Some(allowed) ==> allowed == if status == 401 || status == 403 {
            false
        } else if status == 200 {
            rules_permit(body@, agent@, location@)
        } else {
            true
        },
        status == 200 && body@.len() == 0 && (url_split(location@) matches Ok(parts)
            && has_web_origin(parts.scheme)) ==> verdict == Some(true),
{
    let url = Url::parse(location).ok()?;
    let robots = parse_fetched_robots_txt(url.origin(), status, body).get_result();
    Some(robots.can_fetch(agent, &url))
}

/// Whether a policy lets an agent fetch the page at a path of its site.
///
/// A site that could not be reached allows every page: that is the
/// convention, and the choice is made here and nowhere else. A path that,
/// put behind the site's address, gives no address of a page on a host is
/// refused whatever the rules say.
pub open spec fn policy_verdict(policy: PolicyModel, agent: Seq<char>, path: Seq<char>) -> bool {
    let location = policy.base_url + path;
    addressable(location) && match policy.reply {
        RobotsReply::Unreachable => true,
        RobotsReply::Answered { status, body } => reply_verdict(status, body, agent, location),
    }
}

/// A site that has no robots resource forbids nothing: where the site
/// answered with a status other than 200, 401 and 403, or did not answer,
/// every agent may fetch every page of it that has an address.
pub proof fn lemma_no_rules_allow_all(policy: PolicyModel, agent: Seq<char>, path: Seq<char>)
    requires
        addressable(policy.base_url + path),
        policy.reply matches RobotsReply::Answered { status, .. } ==> status != 200 && status
            != 401 && status != 403,
    ensures
        policy_verdict(policy, agent, path),
{
}

/// Whether a text is the address of a page on the web: the address of a
/// page on a host, without user name and password, in a scheme that gives
/// it an origin.
pub open spec fn web_address(location: Seq<char>) -> bool {
    addressable(location) && has_web_origin(url_split(location)->Ok_0.scheme)
}

/// Whether a policy lets `user_agent` fetch the page at `path`. A robots
/// resource that came with nothing in it allows every agent every page of
/// the site that has an address on the web.
pub fn can_fetch(policy: &RobotsPolicy, user_agent: &str, path: &str) -> (allowed: bool)
    ensures
        allowed == policy_verdict(policy@, user_agent@, path@),
        policy@.reply matches RobotsReply::Answered { status, body } && status == 200
            && body.len() == 0 && web_address(policy@.base_url + path@) ==> allowed,
{
    let location = followed_by(policy.base_url.as_str(), path);
    if !is_addressable(location.as_str()) {
        return false;
    }
    match &policy.fetch {
        RobotsFetch::Unreachable => true,
        RobotsFetch::Answered { status, body } => {
            match robots_verdict(*status, body.as_str(), user_agent, location.as_str()) {
                Some(allowed) => allowed,
                None => unreached(),
            }
        },
    }
}

} // verus!
