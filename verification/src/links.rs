//! The links of a page's navigation menu.

use vstd::prelude::*;
use crate::error::{CrawlError, CrawlFault, ErrorPolicy};
use crate::text::followed_by;
use select::document::Document;
use select::predicate::{Attr, Name};

verus! {

/// The longest page, in bytes, that is handed to the HTML parser. The parser
/// keeps text in buffers of at most 4 GiB and may write three bytes for one
/// that it read.
pub const MAX_DOCUMENT_BYTES: usize = 0x4000_0000;

/// Whether a page is short enough for the HTML parser.
pub open spec fn within_parser_limit(html: Seq<char>) -> bool {
    (vstd::utf8::encode_utf8(html).len() as usize) <= MAX_DOCUMENT_BYTES
}

/// Whether a page is short enough for the HTML parser.
pub fn fits_parser(html: &str) -> (fits: bool)
    ensures
        fits == within_parser_limit(html@),
{
    html.len() <= MAX_DOCUMENT_BYTES
}

/// An anchor as it stands in a page: its visible text, and its target if it
/// has one.
#[derive(Clone, Debug, PartialEq, Eq)]
pub struct Anchor {
    pub text: String,
    pub href: Option<String>,
}

/// An `Anchor` with its texts as sequences of characters.
pub ghost struct AnchorModel {
    pub text: Seq<char>,
    pub href: Option<Seq<char>>,
}

impl View for Anchor {
    type V = AnchorModel;

    open spec fn view(&self) -> AnchorModel {
        AnchorModel { text: self.text@, href: self.href.deep_view() }
    }
}

impl DeepView for Anchor {
    type V = AnchorModel;

    open spec fn deep_view(&self) -> AnchorModel {
        self@
    }
}

/// A hyperlink: visible text and target.
#[derive(Clone, Debug, PartialEq, Eq)]
pub struct Link {
    pub text: String,
    pub href: String,
}

/// A `Link` with its texts as sequences of characters.
pub ghost struct LinkModel {
    pub text: Seq<char>,
    pub href: Seq<char>,
}

impl View for Link {
    type V = LinkModel;

    open spec fn view(&self) -> LinkModel {
        LinkModel { text: self.text@, href: self.href@ }
    }
}

impl DeepView for Link {
    type V = LinkModel;

    open spec fn deep_view(&self) -> LinkModel {
        self@
    }
}

/// What the HTML parser and selector make of a page, asked for the elements
/// named `name` below an element whose attribute `attr` has the value
/// `value`: for each element that they find, its text and its attribute
/// `wanted`, in the order in which they hand the elements out.
pub uninterp spec fn selected_within(
    html: Seq<char>,
    attr: Seq<char>,
    value: Seq<char>,
    name: Seq<char>,
    wanted: Seq<char>,
) -> Seq<AnchorModel>;

/// Parses `html` with `select::document::Document::from`, takes the elements
/// that `Document::find` gives for `Attr(attr, value)`, as a selection, then
/// what `Selection::find` gives below them for `Name(name)`, and reads each
/// such node with `Node::text` and `Node::attr`.
///
/// Trusted: that what is found depends on the five texts alone, which gives
/// it its name `selected_within`; nothing is claimed of what is found. (The
/// source shows a selection to hold each node once and to hand its nodes
/// out in the order of the document.) The parser's buffers panic beyond
/// 4 GiB, which `requires` keeps far away. The selector walks the tree by
/// recursion: how deep a page may nest is bounded by the stack, as memory
/// bounds its length.
#[verifier::external_body]
fn select_within(html: &str, attr: &str, value: &str, name: &str, wanted: &str) -> (found: Vec<
    Anchor,
>)
    requires
        within_parser_limit(html@),
    ensures
        found.deep_view() == selected_within(html@, attr@, value@, name@, wanted@),
{
    let document = Document::from(html);
    let containers = document.find(Attr(attr, value)).into_selection();
    containers
        .find(Name(name))
        .iter()
        .map(|node| Anchor { text: node.text(), href: node.attr(wanted).map(String::from) })
        .collect()
}

/// The anchors of a page's navigation menu: every `a` element below an
/// element whose `id` is `navmenu`, with its text and its `href`.
pub open spec fn nav_anchors(html: Seq<char>) -> Seq<AnchorModel> {
    selected_within(html, "id"@, "navmenu"@, "a"@, "href"@)
}

/// Finds the anchors of a page's navigation menu, in document order, those
/// without a target among them.
pub fn find_nav_anchors(html: &str) -> (anchors: Vec<Anchor>)
    requires
        within_parser_limit(html@),
    ensures
        anchors.deep_view() == nav_anchors(html@),
{
    select_within(html, "id", "navmenu", "a", "href")
}

/// The links among some anchors: each anchor that has a target, in the
/// order in which the anchors stand. An anchor without one is left out and
/// the ones after it stay.
pub open spec fn links_of(anchors: Seq<AnchorModel>) -> Seq<LinkModel>
    decreases anchors.len(),
{
    if anchors.len() == 0 {
        Seq::empty()
    } else {
        let earlier = links_of(anchors.drop_last());
        match anchors.last().href {
            Some(href) => earlier.push(LinkModel { text: anchors.last().text, href }),
            None => earlier,
        }
    }
}

/// Whether every anchor has a target.
pub open spec fn all_have_targets(anchors: Seq<AnchorModel>) -> bool {
    forall|k: int| 0 <= k < anchors.len() ==> (#[trigger] anchors[k]).href is Some
}

/// Whether the anchor at `position` is the first one without a target.
pub open spec fn is_first_without_target(anchors: Seq<AnchorModel>, position: int) -> bool {
    &&& 0 <= position < anchors.len()
    &&& anchors[position].href is None
    &&& forall|k: int| 0 <= k < position ==> (#[trigger] anchors[k]).href is Some
}

/// The position of the first anchor without a target, if there is one.
pub open spec fn first_without_target(anchors: Seq<AnchorModel>) -> Option<nat>
    decreases anchors.len(),
{
    if anchors.len() == 0 {
        None
    } else if anchors.first().href is None {
        Some(0)
    } else {
        match first_without_target(anchors.drop_first()) {
            Some(position) => Some(position + 1),
            None => None,
        }
    }
}

/// `first_without_target` finds the first anchor without a target, and
/// finds none only where every anchor has one.
pub proof fn lemma_first_without_target(anchors: Seq<AnchorModel>)
    ensures
        match first_without_target(anchors) {
            Some(position) => is_first_without_target(anchors, position as int),
            None => all_have_targets(anchors),
        },
    decreases anchors.len(),
{
    if anchors.len() > 0 && anchors.first().href is Some {
        let rest = anchors.drop_first();
        lemma_first_without_target(rest);
        match first_without_target(rest) {
            Some(position) => {
                assert(anchors[position as int + 1] == rest[position as int]);
                assert forall|k: int| 0 <= k < position + 1 implies (#[trigger] anchors[k]).href
                    is Some by {
                    if k > 0 {
                        assert(anchors[k] == rest[k - 1]);
                    }
                }
            },
            None => {
                assert forall|k: int| 0 <= k < anchors.len() implies (#[trigger] anchors[k]).href
                    is Some by {
                    if k > 0 {
                        assert(anchors[k] == rest[k - 1]);
                    }
                }
            },
        }
    }
}

proof fn lemma_first_found(anchors: Seq<AnchorModel>, position: int)
    requires
        is_first_without_target(anchors, position),
    ensures
        first_without_target(anchors) == Some(position as nat),
    decreases position,
{
    if position > 0 {
        let rest = anchors.drop_first();
        assert(anchors[0].href is Some);
        assert(rest[position - 1] == anchors[position]);
        assert forall|k: int| 0 <= k < position - 1 implies (#[trigger] rest[k]).href is Some by {
            assert(rest[k] == anchors[k + 1]);
        }
        lemma_first_found(rest, position - 1);
    }
}

proof fn lemma_none_found(anchors: Seq<AnchorModel>)
    requires
        all_have_targets(anchors),
    ensures
        first_without_target(anchors) is None,
    decreases anchors.len(),
{
    if anchors.len() > 0 {
        let rest = anchors.drop_first();
        assert(anchors[0].href is Some);
        assert forall|k: int| 0 <= k < rest.len() implies (#[trigger] rest[k]).href is Some by {
            assert(rest[k] == anchors[k + 1]);
        }
        lemma_none_found(rest);
    }
}

/// The links of two runs of anchors, one after the other, are the links of
/// the first followed by the links of the second: what an anchor gives does
/// not depend on the anchors around it.
pub proof fn lemma_links_of_concat(first: Seq<AnchorModel>, second: Seq<AnchorModel>)
    ensures
        links_of(first + second) == links_of(first) + links_of(second),
    decreases second.len(),
{
    if second.len() == 0 {
        assert(first + second =~= first);
        assert(links_of(first) + links_of(second) =~= links_of(first));
    } else {
        let whole = first + second;
        assert(whole.drop_last() =~= first + second.drop_last());
        assert(whole.last() == second.last());
        lemma_links_of_concat(first, second.drop_last());
        let earlier = links_of(first + second.drop_last());
        match second.last().href {
            Some(href) => {
                let link = LinkModel { text: second.last().text, href };
                assert(earlier.push(link) =~= links_of(first) + links_of(second.drop_last()).push(
                    link,
                ));
            },
            None => {},
        }
    }
}

/// An anchor without a target takes nothing from the anchors around it: the
/// links of the whole run are those before it followed by those after it.
pub proof fn lemma_anchor_without_target_is_left_out(
    before: Seq<AnchorModel>,
    anchor: AnchorModel,
    after: Seq<AnchorModel>,
)
    requires
        anchor.href is None,
    ensures
        links_of(before + seq![anchor] + after) == links_of(before) + links_of(after),
{
    lemma_links_of_concat(before + seq![anchor], after);
    lemma_links_of_concat(before, seq![anchor]);
    assert(links_of(seq![anchor]) =~= Seq::<LinkModel>::empty()) by {
        reveal_with_fuel(links_of, 2);
    }
    assert(links_of(before) + links_of(seq![anchor]) =~= links_of(before));
}

/// What collecting gives: the links of all anchors that have a target, or,
/// under `Abort`, the fault that names the first anchor without one.
pub open spec fn collected(anchors: Seq<AnchorModel>, policy: ErrorPolicy) -> Result<
    Seq<LinkModel>,
    CrawlFault,
> {
    match (policy, first_without_target(anchors)) {
        (ErrorPolicy::Abort, Some(position)) => Err(CrawlFault::MalformedAnchor { position }),
        _ => Ok(links_of(anchors)),
    }
}

/// The outcome of collecting with its texts as sequences of characters.
pub open spec fn links_model(outcome: Result<Vec<Link>, CrawlError>) -> Result<
    Seq<LinkModel>,
    CrawlFault,
> {
    match outcome {
        Ok(links) => Ok(links.deep_view()),
        Err(error) => Err(error@),
    }
}

/// Makes links of anchors. An anchor without a target is left out under
/// `Skip`; under `Abort` the first such anchor is reported as
/// `MalformedAnchor` with its position among the anchors.
pub fn collect_links(anchors: &Vec<Anchor>, policy: ErrorPolicy) -> (outcome: Result<
    Vec<Link>,
    CrawlError,
>)
    ensures
        links_model(outcome) == collected(anchors.deep_view(), policy),
{
    let ghost all = anchors.deep_view();
    let mut links: Vec<Link> = Vec::new();
    let mut i: usize = 0;
    assert(all.take(0) =~= Seq::<AnchorModel>::empty());
    assert(links.deep_view() =~= Seq::<LinkModel>::empty());
    while i < anchors.len()
        invariant
            i <= anchors.len(),
            all == anchors.deep_view(),
            links.deep_view() == links_of(all.take(i as int)),
            policy == ErrorPolicy::Abort ==> forall|k: int|
                0 <= k < i ==> (#[trigger] all[k]).href is Some,
        decreases anchors.len() - i,
    {
        let ghost before = all.take(i as int);
        let ghost after = all.take(i + 1);
        let ghost earlier = links.deep_view();
        assert(after.drop_last() =~= before);
        assert(after.last() == anchors[i as int]@);
        assert(all[i as int] == anchors[i as int]@);
        match &anchors[i].href {
            Some(href) => {
                let link = Link { text: anchors[i].text.clone(), href: href.clone() };
                links.push(link);
                assert(links.deep_view() =~= earlier.push(link@));
            },
            None => {
                match policy {
                    ErrorPolicy::Abort => {
                        proof {
                            lemma_first_found(all, i as int);
                        }
                        return Err(CrawlError::MalformedAnchor { position: i });
                    },
                    ErrorPolicy::Skip => {},
                }
            },
        }
        i = i + 1;
    }
    assert(all.take(i as int) =~= all);
    proof {
        if policy == ErrorPolicy::Abort {
            lemma_none_found(all);
        }
    }
    Ok(links)
}

/// Finds the links of a page's navigation menu, in document order.
pub fn extract_nav_links(html: &str, policy: ErrorPolicy) -> (outcome: Result<
    Vec<Link>,
    CrawlError,
>)
    requires
        within_parser_limit(html@),
    ensures
        links_model(outcome) == collected(nav_anchors(html@), policy),
{
    let anchors = find_nav_anchors(html);
    collect_links(&anchors, policy)
}

/// A text as Rust writes it for debugging: between double quotes, with what
/// cannot stand there escaped.
pub uninterp spec fn debug_quoted(text: Seq<char>) -> Seq<char>;

/// Formats `text` with `{:?}`, the `Debug` of `str`.
///
/// Trusted: that the result depends on the text alone, which gives it its
/// name `debug_quoted`.
#[verifier::external_body]
fn quoted(text: &str) -> (shown: String)
    ensures
        shown@ == debug_quoted(text@),
{
    format!("{:?}", text)
}

/// A line made of a link's text and its target as it is to be shown: the
/// text, a space, and the target in round brackets.
pub open spec fn line_of(text: Seq<char>, shown_target: Seq<char>) -> Seq<char> {
    text + " ("@ + shown_target + ")"@
}

/// Writes a link's text and, in round brackets behind it, its target as it
/// is to be shown.
pub fn line_for(text: &str, shown_target: &str) -> (line: String)
    ensures
        line@ == line_of(text@, shown_target@),
{
    let mut line = followed_by(text, " (");
    line.append(shown_target);
    line.append(")");
    line
}

/// The line that shows a link: its text, and its target quoted in brackets.
pub open spec fn link_line(link: LinkModel) -> Seq<char> {
    line_of(link.text, debug_quoted(link.href))
}

/// Writes the line that shows a link.
pub fn render_link(link: &Link) -> (line: String)
    ensures
        line@ == link_line(link@),
{
    let target = quoted(link.href.as_str());
    line_for(link.text.as_str(), target.as_str())
}

/// The lines that show some links, one for each, in the links' order.
pub open spec fn lines_of(links: Seq<LinkModel>) -> Seq<Seq<char>> {
    Seq::new(links.len(), |k: int| link_line(links[k]))
}

/// Writes one line for each link, in the links' order.
pub fn render_links(links: &Vec<Link>) -> (lines: Vec<String>)
    ensures
        lines.deep_view() == lines_of(links.deep_view()),
{
    let mut lines: Vec<String> = Vec::new();
    let mut i: usize = 0;
    while i < links.len()
        invariant
            i <= links.len(),
            lines.len() == i,
            forall|k: int| 0 <= k < i ==> (#[trigger] lines[k])@ == link_line(links[k]@),
        decreases links.len() - i,
    {
        lines.push(render_link(&links[i]));
        i = i + 1;
    }
    assert(lines.deep_view() =~= lines_of(links.deep_view()));
    lines
}

} // verus!
