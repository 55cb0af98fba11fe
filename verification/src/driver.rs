//! The crawl of one page as a sequence of decisions: each step says what to
//! fetch next, and takes what came of it.

use vstd::prelude::*;
use crate::decompose::{
    addressable, decompose, lemma_option_names, parse_url_text, url_split, ParseOption, UrlModel,
    UrlParts,
};
use crate::error::{CrawlError, CrawlFault, ErrorPolicy};
use crate::links::{
    collected, extract_nav_links, fits_parser, lines_of, nav_anchors, render_links,
    within_parser_limit,
};
use crate::robots::{
    base_url_of, build_base_url, build_robots_url, can_fetch, load_policy, policy_verdict,
    robots_url_of, PolicyModel, RobotsFetch, RobotsReply,
};
use crate::text::{followed_by, relative_path, relative_path_of, same_text};

verus! {

/// What a crawl of one page needs to know before it fetches anything.
#[derive(Clone, Debug, PartialEq, Eq)]
pub struct CrawlPlan {
    /// The page's address as it was given.
    pub target: String,
    /// The site's address: scheme and host.
    pub base_url: String,
    /// The address of the site's robots resource.
    pub robots_url: String,
    /// The page's path on the site, `"/"` at the least.
    pub relative_path: String,
}

/// A `CrawlPlan` with its texts as sequences of characters.
pub ghost struct PlanModel {
    pub target: Seq<char>,
    pub base_url: Seq<char>,
    pub robots_url: Seq<char>,
    pub relative_path: Seq<char>,
}

impl View for CrawlPlan {
    type V = PlanModel;

    open spec fn view(&self) -> PlanModel {
        PlanModel {
            target: self.target@,
            base_url: self.base_url@,
            robots_url: self.robots_url@,
            relative_path: self.relative_path@,
        }
    }
}

/// The address put together again from scheme, host and path.
pub open spec fn rebuilt(scheme: Seq<char>, host: Seq<char>, path: Seq<Seq<char>>) -> Seq<char> {
    base_url_of(scheme, host) + relative_path_of(path)
}

/// Whether two URLs name the same page of the same site: the same scheme,
/// the same host, and paths that are written alike.
pub open spec fn same_page(first: UrlModel, second: UrlModel) -> bool {
    &&& first.scheme == second.scheme
    &&& first.host == second.host
    &&& relative_path_of(first.path) == relative_path_of(second.path)
}

/// The reason given for an address that, put together again from its
/// parts, names another page or carries a user name or password.
pub open spec fn unstable_address() -> Seq<char> {
    "address does not survive being rebuilt from scheme, host and path"@
}

/// The plan that the parts of a target give: the site's address from scheme
/// and host, the robots resource at the site's root, and the path from the
/// segments. A URL without a host gives no plan.
pub open spec fn drafted(target: Seq<char>, parts: UrlModel) -> Result<PlanModel, CrawlFault> {
    match parts.host {
        None => Err(CrawlFault::MissingUrlComponent { component: ParseOption::HostName }),
        Some(host) => Ok(
            PlanModel {
                target,
                base_url: base_url_of(parts.scheme, host),
                robots_url: robots_url_of(parts.scheme, host),
                relative_path: relative_path_of(parts.path),
            },
        ),
    }
}

/// Whether `again` confirms `parts`: it names the same page of the same
/// site, on a host, and holds no user name and no password.
pub open spec fn confirmed(parts: UrlModel, again: UrlModel) -> bool {
    &&& same_page(parts, again)
    &&& again.host is Some
    &&& again.user() is None
    &&& again.password is None
}

/// The plan for a target, or the fault that stands in its way. The address
/// put together from the plan's site and path is taken apart again, and the
/// plan stands only where that confirms the target's parts.
pub open spec fn planned(target: Seq<char>) -> Result<PlanModel, CrawlFault> {
    match url_split(target) {
        Err(reason) => Err(CrawlFault::MalformedUrl { description: reason }),
        Ok(parts) => match drafted(target, parts) {
            Err(fault) => Err(fault),
            Ok(plan) => match url_split(plan.base_url + plan.relative_path) {
                Err(reason) => Err(CrawlFault::MalformedUrl { description: reason }),
                Ok(again) => if confirmed(parts, again) {
                    Ok(plan)
                } else {
                    Err(CrawlFault::MalformedUrl { description: unstable_address() })
                },
            },
        },
    }
}

/// The outcome of planning with its texts as sequences of characters.
pub open spec fn plan_model(outcome: Result<CrawlPlan, CrawlError>) -> Result<
    PlanModel,
    CrawlFault,
> {
    match outcome {
        Ok(plan) => Ok(plan@),
        Err(error) => Err(error@),
    }
}

fn same_name(first: Option<&str>, second: Option<&str>) -> (same: bool)
    ensures
        same == (first.deep_view() == second.deep_view()),
{
    match (first, second) {
        (Some(a), Some(b)) => same_text(a, b),
        (None, None) => true,
        _ => false,
    }
}

/// Drafts the plan that the parts of a target give.
pub fn draft(target: &str, parts: &UrlParts) -> (outcome: Result<CrawlPlan, CrawlError>)
    ensures
        plan_model(outcome) == drafted(target@, parts@),
{
    match parts.host() {
        None => Err(CrawlError::MissingUrlComponent { component: ParseOption::HostName }),
        Some(host) => Ok(
            CrawlPlan {
                target: target.to_owned(),
                base_url: build_base_url(parts.scheme(), host),
                robots_url: build_robots_url(parts.scheme(), host),
                relative_path: relative_path(parts.path()),
            },
        ),
    }
}

/// Whether `again` confirms `parts`.
pub fn confirms(parts: &UrlParts, again: &UrlParts) -> (yes: bool)
    ensures
        yes == confirmed(parts@, again@),
{
    same_text(parts.scheme(), again.scheme()) && same_name(parts.host(), again.host())
        && same_text(relative_path(parts.path()).as_str(), relative_path(again.path()).as_str())
        && again.host().is_some() && again.username().is_none() && again.password().is_none()
}

/// Plans the crawl of one page: takes its address apart, and from scheme,
/// host and path makes the site's address, the address of its robots
/// resource and the page's path on the site.
///
/// The address put together again from site and path is taken apart once
/// more: a plan is handed out only where that gives the same scheme, host
/// and path, and no user name or password.
pub fn plan(target: &str) -> (outcome: Result<CrawlPlan, CrawlError>)
    ensures
        plan_model(outcome) == planned(target@),
{
    let parts = match decompose(target) {
        Ok(parts) => parts,
        Err(error) => {
            return Err(error);
        },
    };
    let drafted = match draft(target, &parts) {
        Ok(drafted) => drafted,
        Err(error) => {
            return Err(error);
        },
    };
    let location = followed_by(drafted.base_url.as_str(), drafted.relative_path.as_str());
    let again = match decompose(location.as_str()) {
        Ok(again) => again,
        Err(error) => {
            return Err(error);
        },
    };
    if confirms(&parts, &again) {
        Ok(drafted)
    } else {
        Err(
            CrawlError::MalformedUrl {
                description:
                    "address does not survive being rebuilt from scheme, host and path".to_owned(),
            },
        )
    }
}

/// Round trip. Of every target for which there is a plan: the address put
/// together from the plan's site and path, taken apart, has the scheme, the
/// host and the path that the target has, the path as `relative_path_of`
/// writes it, where no segment and one empty segment both stand for `"/"`.
/// It is the address of a page on a host, and so one that the robots
/// policy can be asked about.
pub proof fn lemma_plan_round_trip(target: Seq<char>)
    requires
        planned(target) is Ok,
    ensures
        ({
            let plan = planned(target)->Ok_0;
            &&& url_split(target) matches Ok(parts)
            &&& url_split(plan.base_url + plan.relative_path) matches Ok(again)
            &&& same_page(parts, again)
            &&& parts.host is Some
            &&& plan.base_url + plan.relative_path == rebuilt(
                parts.scheme,
                parts.host->Some_0,
                parts.path,
            )
            &&& addressable(plan.base_url + plan.relative_path)
        }),
{
}

/// Round trip through `parse_url`. Of a URL whose parts spell it, so that
/// scheme, `"://"`, host and path written one after another give the text
/// back: what `parse_url` answers for `"scheme"`, for `"host"` and for
/// `"path"`, joined in the same way, is the URL.
pub proof fn lemma_parse_url_round_trip(url: Seq<char>)
    requires
        url_split(url) matches Ok(parts) && parts.host matches Some(host) && parts.path.len() > 0
            && rebuilt(parts.scheme, host, parts.path) == url,
    ensures
        parse_url_text("scheme"@, url) + "://"@ + parse_url_text("host"@, url) + parse_url_text(
            "path"@,
            url,
        ) == url,
{
    lemma_option_names();
}

/// What came of asking for the page.
#[derive(Clone, Debug, PartialEq, Eq)]
pub enum PageFetch {
    /// The page came, with this body as text.
    Body { html: String },
    /// The page did not come, or what came was no text.
    Failed,
}

/// A `PageFetch` with its body as a sequence of characters.
pub ghost enum PageReply {
    Body { html: Seq<char> },
    Failed,
}

impl View for PageFetch {
    type V = PageReply;

    open spec fn view(&self) -> PageReply {
        match self {
            PageFetch::Body { html } => PageReply::Body { html: html@ },
            PageFetch::Failed => PageReply::Failed,
        }
    }
}

/// How far the crawl of one page has come.
#[derive(Clone, Debug, PartialEq, Eq)]
pub enum CrawlState {
    /// Nothing has been asked for yet.
    Ready,
    /// The site's robots resource has been asked for.
    AwaitingRobots { plan: CrawlPlan },
    /// The robots policy allowed the page, and the page has been asked for.
    AwaitingPage,
    /// The crawl is over.
    Finished,
}

/// A `CrawlState` with its texts as sequences of characters.
pub ghost enum StateModel {
    Ready,
    AwaitingRobots { plan: PlanModel },
    AwaitingPage,
    Finished,
}

impl View for CrawlState {
    type V = StateModel;

    open spec fn view(&self) -> StateModel {
        match self {
            CrawlState::Ready => StateModel::Ready,
            CrawlState::AwaitingRobots { plan } => StateModel::AwaitingRobots { plan: plan@ },
            CrawlState::AwaitingPage => StateModel::AwaitingPage,
            CrawlState::Finished => StateModel::Finished,
        }
    }
}

/// What the one who runs the crawl reports back.
#[derive(Clone, Debug, PartialEq, Eq)]
pub enum CrawlEvent {
    /// The crawl of the page at `target` is to begin.
    Start { target: String },
    /// The robots resource was asked for.
    Robots { fetch: RobotsFetch },
    /// The page was asked for.
    Page { fetch: PageFetch },
}

/// A `CrawlEvent` with its texts as sequences of characters.
pub ghost enum EventModel {
    Start { target: Seq<char> },
    Robots { reply: RobotsReply },
    Page { reply: PageReply },
}

impl View for CrawlEvent {
    type V = EventModel;

    open spec fn view(&self) -> EventModel {
        match self {
            CrawlEvent::Start { target } => EventModel::Start { target: target@ },
            CrawlEvent::Robots { fetch } => EventModel::Robots { reply: fetch@ },
            CrawlEvent::Page { fetch } => EventModel::Page { reply: fetch@ },
        }
    }
}

/// What the one who runs the crawl is to do next.
#[derive(Clone, Debug, PartialEq, Eq)]
pub enum CrawlAction {
    /// Fetch the robots resource at `url` and report it as `Robots`.
    FetchRobots { url: String },
    /// Fetch the page at `url` and report it as `Page`.
    FetchPage { url: String },
    /// Print the lines, one under the other; the crawl is over.
    Print { lines: Vec<String> },
    /// Do nothing more; the crawl is over and nothing went wrong.
    Stop,
    /// Give up with this error; the crawl is over.
    Fail { error: CrawlError },
}

/// A `CrawlAction` with its texts as sequences of characters.
pub ghost enum ActionModel {
    FetchRobots { url: Seq<char> },
    FetchPage { url: Seq<char> },
    Print { lines: Seq<Seq<char>> },
    Stop,
    Fail { fault: CrawlFault },
}

impl View for CrawlAction {
    type V = ActionModel;

    open spec fn view(&self) -> ActionModel {
        match self {
            CrawlAction::FetchRobots { url } => ActionModel::FetchRobots { url: url@ },
            CrawlAction::FetchPage { url } => ActionModel::FetchPage { url: url@ },
            CrawlAction::Print { lines } => ActionModel::Print { lines: lines.deep_view() },
            CrawlAction::Stop => ActionModel::Stop,
            CrawlAction::Fail { error } => ActionModel::Fail { fault: error@ },
        }
    }
}

/// The agent in whose name the crawl asks the robots policy: any agent.
pub open spec fn crawl_agent() -> Seq<char> {
    "*"@
}

/// Whether an event is the one that a state waits for.
pub open spec fn awaited(state: StateModel, event: EventModel) -> bool {
    match (state, event) {
        (StateModel::Ready, EventModel::Start { .. }) => true,
        (StateModel::AwaitingRobots { .. }, EventModel::Robots { .. }) => true,
        (StateModel::AwaitingPage, EventModel::Page { .. }) => true,
        _ => false,
    }
}

/// Whether `event` is the one that `state` waits for.
pub fn awaits(state: &CrawlState, event: &CrawlEvent) -> (yes: bool)
    ensures
        yes == awaited(state@, event@),
{
    match (state, event) {
        (CrawlState::Ready, CrawlEvent::Start { .. }) => true,
        (CrawlState::AwaitingRobots { .. }, CrawlEvent::Robots { .. }) => true,
        (CrawlState::AwaitingPage, CrawlEvent::Page { .. }) => true,
        _ => false,
    }
}

/// How a crawl ends on a fault: with the fault under `Abort`, quietly under
/// `Skip`. Every fault goes through here.
pub open spec fn ended_on(policy: ErrorPolicy, fault: CrawlFault) -> (StateModel, ActionModel) {
    match policy {
        ErrorPolicy::Abort => (StateModel::Finished, ActionModel::Fail { fault }),
        ErrorPolicy::Skip => (StateModel::Finished, ActionModel::Stop),
    }
}

/// The step that follows planning: with a plan the site's robots resource
/// is asked for, and a fault ends the crawl.
pub open spec fn after_plan(outcome: Result<PlanModel, CrawlFault>, policy: ErrorPolicy) -> (
    StateModel,
    ActionModel,
) {
    match outcome {
        Ok(plan) => (
            StateModel::AwaitingRobots { plan },
            ActionModel::FetchRobots { url: plan.robots_url },
        ),
        Err(fault) => ended_on(policy, fault),
    }
}

/// The step that follows the robots policy's answer. A site that could not
/// be reached ends the crawl under `Abort`; under `Skip` the robots check is
/// what is left out. Otherwise a page that is allowed is asked for, at the
/// address that the crawl was started with, and a page that is not allowed
/// ends the crawl with nothing printed and nothing wrong.
pub open spec fn after_verdict(
    plan: PlanModel,
    reachable: bool,
    allowed: bool,
    policy: ErrorPolicy,
) -> (StateModel, ActionModel) {
    if !reachable && policy == ErrorPolicy::Abort {
        ended_on(policy, CrawlFault::RobotsUnreachable)
    } else if allowed {
        (StateModel::AwaitingPage, ActionModel::FetchPage { url: plan.target })
    } else {
        (StateModel::Finished, ActionModel::Stop)
    }
}

/// The step that follows reading the page: its lines are printed, and a
/// fault ends the crawl.
pub open spec fn after_page(outcome: Result<Seq<Seq<char>>, CrawlFault>, policy: ErrorPolicy) -> (
    StateModel,
    ActionModel,
) {
    match outcome {
        Ok(lines) => (StateModel::Finished, ActionModel::Print { lines }),
        Err(fault) => ended_on(policy, fault),
    }
}

/// The step after the crawl is told to start.
pub open spec fn started(target: Seq<char>, policy: ErrorPolicy) -> (StateModel, ActionModel) {
    after_plan(planned(target), policy)
}

/// The step after the robots resource was asked for: the policy is asked in
/// the name of any agent, for the path of the plan.
pub open spec fn gated(plan: PlanModel, reply: RobotsReply, policy: ErrorPolicy) -> (
    StateModel,
    ActionModel,
) {
    after_verdict(
        plan,
        reply is Answered,
        policy_verdict(
            PolicyModel { base_url: plan.base_url, reply },
            crawl_agent(),
            plan.relative_path,
        ),
        policy,
    )
}

/// What reading a page gives: a line for each link of its navigation menu,
/// or a fault. A body too long for the parser counts as a page that did not
/// come.
pub open spec fn page_lines(reply: PageReply, policy: ErrorPolicy) -> Result<
    Seq<Seq<char>>,
    CrawlFault,
> {
    match reply {
        PageReply::Body { html } => if within_parser_limit(html) {
            match collected(nav_anchors(html), policy) {
                Ok(links) => Ok(lines_of(links)),
                Err(fault) => Err(fault),
            }
        } else {
            Err(CrawlFault::NetworkFailure)
        },
        PageReply::Failed => Err(CrawlFault::NetworkFailure),
    }
}

/// The step after the page was asked for.
pub open spec fn reported(reply: PageReply, policy: ErrorPolicy) -> (StateModel, ActionModel) {
    after_page(page_lines(reply, policy), policy)
}

/// The state that follows and the action to take, for a state and the
/// event it waits for.
pub open spec fn stepped(state: StateModel, event: EventModel, policy: ErrorPolicy) -> (
    StateModel,
    ActionModel,
)
    recommends
        awaited(state, event),
{
    match (state, event) {
        (StateModel::Ready, EventModel::Start { target }) => started(target, policy),
        (StateModel::AwaitingRobots { plan }, EventModel::Robots { reply }) => gated(
            plan,
            reply,
            policy,
        ),
        (StateModel::AwaitingPage, EventModel::Page { reply }) => reported(reply, policy),
        _ => (state, ActionModel::Stop),
    }
}

/// How many more events a state can take before the crawl is over.
pub open spec fn steps_left(state: StateModel) -> nat {
    match state {
        StateModel::Ready => 3,
        StateModel::AwaitingRobots { .. } => 2,
        StateModel::AwaitingPage => 1,
        StateModel::Finished => 0,
    }
}

/// The page is asked for only after the site's robots policy has allowed
/// it, for the agent of the crawl and the path of the plan, and it is asked
/// for at the address that the crawl was started with.
pub proof fn lemma_page_is_fetched_only_if_allowed(
    state: StateModel,
    event: EventModel,
    policy: ErrorPolicy,
)
    requires
        awaited(state, event),
        stepped(state, event, policy).1 is FetchPage,
    ensures
        state matches StateModel::AwaitingRobots { plan } && event matches EventModel::Robots {
            reply,
        } && policy_verdict(
            PolicyModel { base_url: plan.base_url, reply },
            crawl_agent(),
            plan.relative_path,
        ) && stepped(state, event, policy).1 == (ActionModel::FetchPage { url: plan.target }),
{
}

/// Every step brings the crawl nearer its end, which comes after three
/// events at the most. The state that follows waits for the event that the
/// action asks for, and the crawl is over exactly where the action asks for
/// none.
pub proof fn lemma_crawl_goes_on_to_its_end(
    state: StateModel,
    event: EventModel,
    policy: ErrorPolicy,
)
    requires
        awaited(state, event),
    ensures
        steps_left(stepped(state, event, policy).0) < steps_left(state),
        stepped(state, event, policy).1 is FetchRobots <==> stepped(state, event, policy).0
            is AwaitingRobots,
        stepped(state, event, policy).1 is FetchPage <==> stepped(state, event, policy).0
            is AwaitingPage,
        (stepped(state, event, policy).1 is Print || stepped(state, event, policy).1 is Stop
            || stepped(state, event, policy).1 is Fail) <==> stepped(state, event, policy).0
            is Finished,
{
}

/// Under `Skip` no crawl ends on an error, and under `Abort` none passes
/// over one: a crawl that ends quietly under `Abort` was refused by the
/// robots policy.
pub proof fn lemma_policy_is_kept(state: StateModel, event: EventModel, policy: ErrorPolicy)
    requires
        awaited(state, event),
    ensures
        policy == ErrorPolicy::Skip ==> !(stepped(state, event, policy).1 is Fail),
        policy == ErrorPolicy::Abort && stepped(state, event, policy).1 is Stop ==> (
        state matches StateModel::AwaitingRobots { plan } && event matches EventModel::Robots {
            reply,
        } && !policy_verdict(
            PolicyModel { base_url: plan.base_url, reply },
            crawl_agent(),
            plan.relative_path,
        )),
{
}

fn end_on(policy: ErrorPolicy, error: CrawlError) -> (step: (CrawlState, CrawlAction))
    ensures
        (step.0@, step.1@) == ended_on(policy, error@),
{
    match policy {
        ErrorPolicy::Abort => (CrawlState::Finished, CrawlAction::Fail { error }),
        ErrorPolicy::Skip => (CrawlState::Finished, CrawlAction::Stop),
    }
}

/// Decides the step that follows planning.
pub fn enter(outcome: Result<CrawlPlan, CrawlError>, policy: ErrorPolicy) -> (step: (
    CrawlState,
    CrawlAction,
))
    ensures
        (step.0@, step.1@) == after_plan(plan_model(outcome), policy),
{
    match outcome {
        Ok(plan) => {
            let url = plan.robots_url.clone();
            (CrawlState::AwaitingRobots { plan }, CrawlAction::FetchRobots { url })
        },
        Err(error) => end_on(policy, error),
    }
}

/// Decides the step that follows the robots policy's answer: `reachable`
/// says whether the site answered at all, `allowed` what the policy says of
/// the page.
pub fn gate(plan: CrawlPlan, reachable: bool, allowed: bool, policy: ErrorPolicy) -> (step: (
    CrawlState,
    CrawlAction,
))
    ensures
        (step.0@, step.1@) == after_verdict(plan@, reachable, allowed, policy),
{
    let abort = match policy {
        ErrorPolicy::Abort => true,
        ErrorPolicy::Skip => false,
    };
    if !reachable && abort {
        end_on(policy, CrawlError::RobotsUnreachable)
    } else if allowed {
        (CrawlState::AwaitingPage, CrawlAction::FetchPage { url: plan.target })
    } else {
        (CrawlState::Finished, CrawlAction::Stop)
    }
}

/// The outcome of reading a page with its texts as sequences of characters.
pub open spec fn lines_model(outcome: Result<Vec<String>, CrawlError>) -> Result<
    Seq<Seq<char>>,
    CrawlFault,
> {
    match outcome {
        Ok(lines) => Ok(lines.deep_view()),
        Err(error) => Err(error@),
    }
}

/// Decides the step that follows reading the page.
pub fn report(outcome: Result<Vec<String>, CrawlError>, policy: ErrorPolicy) -> (step: (
    CrawlState,
    CrawlAction,
))
    ensures
        (step.0@, step.1@) == after_page(lines_model(outcome), policy),
{
    match outcome {
        Ok(lines) => (CrawlState::Finished, CrawlAction::Print { lines }),
        Err(error) => end_on(policy, error),
    }
}

/// Reads what came of asking for the page: a line for each link of its
/// navigation menu.
pub fn read_page(fetch: &PageFetch, policy: ErrorPolicy) -> (outcome: Result<
    Vec<String>,
    CrawlError,
>)
    ensures
        lines_model(outcome) == page_lines(fetch@, policy),
{
    match fetch {
        PageFetch::Body { html } => {
            if fits_parser(html.as_str()) {
                match extract_nav_links(html.as_str(), policy) {
                    Ok(links) => Ok(render_links(&links)),
                    Err(error) => Err(error),
                }
            } else {
                Err(CrawlError::NetworkFailure)
            }
        },
        PageFetch::Failed => Err(CrawlError::NetworkFailure),
    }
}

/// Decides the next step of a crawl: what to do after `event` in `state`.
/// The one who runs the crawl does what the action says and comes back with
/// the event that it names, until the state is `Finished`.
///
/// To report an event that the state does not wait for is the caller's
/// mistake.
pub fn advance(state: CrawlState, event: CrawlEvent, policy: ErrorPolicy) -> (step: (
    CrawlState,
    CrawlAction,
))
    requires
        awaited(state@, event@),
    ensures
        (step.0@, step.1@) == stepped(state@, event@, policy),
{
    match (state, event) {
        (CrawlState::Ready, CrawlEvent::Start { target }) => enter(plan(target.as_str()), policy),
        (CrawlState::AwaitingRobots { plan }, CrawlEvent::Robots { fetch }) => {
            let reachable = match &fetch {
                RobotsFetch::Answered { .. } => true,
                RobotsFetch::Unreachable => false,
            };
            let robots = load_policy(plan.base_url.as_str(), fetch);
            let allowed = can_fetch(&robots, "*", plan.relative_path.as_str());
            gate(plan, reachable, allowed, policy)
        },
        (CrawlState::AwaitingPage, CrawlEvent::Page { fetch }) => report(
            read_page(&fetch, policy),
            policy,
        ),
        _ => unreached(),
    }
}

} // verus!
