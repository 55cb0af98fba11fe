//! The errors of a crawl, and the choice of what is done about them.

use vstd::prelude::*;
use crate::decompose::{description_of, ParseOption};
use crate::text::followed_by;

verus! {

/// What can go wrong while one page is crawled.
#[derive(Clone, Debug, PartialEq, Eq)]
pub enum CrawlError {
    /// The text is no absolute URL; `description` says why.
    MalformedUrl { description: String },
    /// The page could not be fetched, or its body was no text.
    NetworkFailure,
    /// The URL is valid but lacks the part that was asked for.
    MissingUrlComponent { component: ParseOption },
    /// The anchor at `position` among the navigation anchors has no target.
    MalformedAnchor { position: usize },
    /// The site's robots resource could not be reached.
    RobotsUnreachable,
}

/// A `CrawlError` with its text as a sequence of characters.
pub ghost enum CrawlFault {
    MalformedUrl { description: Seq<char> },
    NetworkFailure,
    MissingUrlComponent { component: ParseOption },
    MalformedAnchor { position: nat },
    RobotsUnreachable,
}

impl View for CrawlError {
    type V = CrawlFault;

    open spec fn view(&self) -> CrawlFault {
        match self {
            CrawlError::MalformedUrl { description } => CrawlFault::MalformedUrl {
                description: description@,
            },
            CrawlError::NetworkFailure => CrawlFault::NetworkFailure,
            CrawlError::MissingUrlComponent { component } => CrawlFault::MissingUrlComponent {
                component: *component,
            },
            CrawlError::MalformedAnchor { position } => CrawlFault::MalformedAnchor {
                position: *position as nat,
            },
            CrawlError::RobotsUnreachable => CrawlFault::RobotsUnreachable,
        }
    }
}

/// What the one who runs a crawl wants done when something goes wrong.
#[derive(Clone, Copy, Debug, PartialEq, Eq, Structural)]
pub enum ErrorPolicy {
    /// Stop at the first error and report it.
    Abort,
    /// Leave out what failed and go on with the rest.
    Skip,
}

/// The message that says a part named `description` is not there.
pub open spec fn absence_message(description: Seq<char>) -> Seq<char> {
    "No "@ + description + " found"@
}

/// Writes the message that says a part named `description` is not there.
pub fn absence_text(description: &str) -> (message: String)
    ensures
        message@ == absence_message(description@),
{
    let mut message = followed_by("No ", description);
    message.append(" found");
    message
}

/// The words in which a fault is shown to a reader.
pub open spec fn fault_message(fault: CrawlFault) -> Seq<char> {
    match fault {
        CrawlFault::MalformedUrl { description } => description,
        CrawlFault::NetworkFailure => "page could not be fetched"@,
        CrawlFault::MissingUrlComponent { component } => absence_message(
            description_of(component),
        ),
        CrawlFault::MalformedAnchor { position } => "anchor without href"@,
        CrawlFault::RobotsUnreachable => "robots.txt could not be reached"@,
    }
}

impl CrawlError {
    /// The error in words, for display.
    pub fn message(&self) -> (text: String)
        ensures
            text@ == fault_message(self@),
    {
        match self {
            CrawlError::MalformedUrl { description } => description.clone(),
            CrawlError::NetworkFailure => "page could not be fetched".to_owned(),
            CrawlError::MissingUrlComponent { component } => absence_text(
                crate::decompose::description(*component),
            ),
            CrawlError::MalformedAnchor { position } => "anchor without href".to_owned(),
            CrawlError::RobotsUnreachable => "robots.txt could not be reached".to_owned(),
        }
    }
}

} // verus!
