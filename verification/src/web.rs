//! What the HTTP front-end decides: who may call, and what a caller is
//! told.

use vstd::prelude::*;
use crate::config::{origin_allowed, State};
use crate::failure::{shown_messages, Failure};
use crate::link::{parsed, Link};
use crate::scraper::{OutcomeView, ScrapeResult, ScrapeResultError};

verus! {

/// What a caller asks for.
#[derive(Debug, Clone, PartialEq, Eq)]
pub struct ScrapeRequest {
    /// The URL to scrape.
    pub url: String,
    /// The method that a form asked for, where a form sent the request.
    pub _method: Option<String>,
}

/// The `Origin` header of a request.
#[derive(Debug, PartialEq, Eq)]
pub enum OriginHeader {
    /// The request has none.
    Absent,
    /// The request has this one.
    Present(String),
    /// The request has one that is no text.
    Malformed,
}

/// What the front-end answers to a request whose origin it turns down:
/// 500 where the header is no text, 404 where the origin is not allowed;
/// nothing where the request may pass.
pub open spec fn origin_verdict(state: State, origin: OriginHeader) -> Result<(), u16> {
    match origin {
        OriginHeader::Malformed => Err(500u16),
        OriginHeader::Absent => if origin_allowed(state, None) {
            Ok(())
        } else {
            Err(404u16)
        },
        OriginHeader::Present(text) => if origin_allowed(state, Some(text@)) {
            Ok(())
        } else {
            Err(404u16)
        },
    }
}

/// Whether a request with this `Origin` header may pass, and the status
/// to answer with if not.
pub fn origin_check(state: &State, origin: &OriginHeader) -> (r: Result<(), u16>)
    ensures
        r == origin_verdict(*state, *origin),
{
    let allowed = match origin {
        OriginHeader::Malformed => {
            return Err(500);
        },
        OriginHeader::Absent => state.is_allowed_origin(None),
        OriginHeader::Present(text) => state.is_allowed_origin(Some(text.as_str())),
    };
    if allowed {
        Ok(())
    } else {
        Err(404)
    }
}

/// The answer of the front-end to a scrape request.
#[derive(Debug, PartialEq, Eq)]
pub struct ScrapeResponse {
    pub status: u16,
    pub content_type: String,
    /// What the body says, once written as JSON.
    pub body: ScrapeResult,
}

/// What the body of the answer says for a request and the outcome of its
/// scrape: `URL invalid` where the URL of the request is no absolute URL
/// or no provider had anything to return; the outcome itself where there
/// is one; the messages shown for the failure where the scrape failed.
pub open spec fn response_body(
    url: Seq<char>,
    outcome: Result<Option<ScrapeResult>, Failure>,
) -> OutcomeView {
    if parsed(url) is Err {
        OutcomeView::Failed(seq!["URL invalid"@])
    } else {
        match outcome {
            Ok(Some(result)) => result@,
            Ok(None) => OutcomeView::Failed(seq!["URL invalid"@]),
            Err(failure) => OutcomeView::Failed(shown_messages(failure@)),
        }
    }
}

/// The answer to a scrape request for `url`, given the outcome that the
/// cache of results handed out for it: always with status 200 and as
/// JSON.
pub fn scrape_inner(url: &str, outcome: Result<Option<ScrapeResult>, Failure>) -> (response:
    ScrapeResponse)
    ensures
        response.status == 200,
        response.content_type@ == "application/json"@,
        response.body@ == response_body(url@, outcome),
        parsed(url@) is Err ==> response.body@ == OutcomeView::Failed(seq!["URL invalid"@]),
        parsed(url@) is Err || !(outcome matches Ok(Some(_))) ==> (response.body@ matches OutcomeView::Failed(
            messages,
        ) && messages.len() > 0),
{
    let invalid = match Link::parse(url) {
        Ok(_) => false,
        Err(_) => true,
    };
    let body = if invalid {
        ScrapeResult::Failed(ScrapeResultError::from("URL invalid".to_owned()))
    } else {
        match outcome {
            Ok(Some(result)) => result,
            Ok(None) => ScrapeResult::Failed(ScrapeResultError::from("URL invalid".to_owned())),
            Err(failure) => ScrapeResult::from_err(&failure),
        }
    };
    ScrapeResponse { status: 200, content_type: "application/json".to_owned(), body }
}

} // verus!
