//! The provider of last resort: a URL that is itself a media file.

use vstd::prelude::*;
use crate::camo::{camo_of, camo_url};
use crate::config::Configuration;
use crate::failure::{CauseView, Failure};
use crate::link::{Link, LinkView};
use crate::scraper::{scrape_view, DataView, ImageView, OutcomeView, ScrapeImage, ScrapeResult,
    ScrapeResultData};
use crate::text::same_text;

verus! {

/// Whether `content_type` names a kind of media that is served as it is.
pub open spec fn media_type(content_type: Seq<char>) -> bool {
    ||| content_type == "image/gif"@
    ||| content_type == "image/jpeg"@
    ||| content_type == "image/png"@
    ||| content_type == "image/svg"@
    ||| content_type == "image/svg+xml"@
    ||| content_type == "video/webm"@
}

/// Whether the answer to a `HEAD` request shows a media file: the status
/// is 200 and the content type is one of the media types.
pub open spec fn raw_response(status: u16, content_type: Option<Seq<char>>) -> bool {
    status == 200 && (content_type matches Some(t) && media_type(t))
}

/// Whether the answer to a `HEAD` request for a URL shows that the URL is
/// a media file.
pub fn is_raw(status: u16, content_type: Option<&str>) -> (r: bool)
    ensures
        r == raw_response(
            status,
            match content_type {
                Some(t) => Some(t@),
                None => None,
            },
        ),
{
    if status != 200 {
        return false;
    }
    match content_type {
        None => false,
        Some(t) => same_text(t, "image/gif") || same_text(t, "image/jpeg") || same_text(
            t,
            "image/png",
        ) || same_text(t, "image/svg") || same_text(t, "image/svg+xml") || same_text(
            t,
            "video/webm",
        ),
    }
}

/// What [`raw_scrape`] returns.
pub open spec fn raw_outcome(config: Configuration, url: LinkView) -> Result<
    Option<OutcomeView>,
    Seq<CauseView>,
> {
    match camo_of(config, url) {
        Err(chain) => Err(chain),
        Ok(camo) => Ok(
            Some(
                OutcomeView::Found(
                    DataView {
                        source_url: Some(url),
                        author_name: None,
                        additional_tags: None,
                        description: None,
                        images: seq![ImageView { url, camo_url: camo }],
                    },
                ),
            ),
        ),
    }
}

/// The record of a media file: the URL is its own source and its one
/// image, served by the image proxy under its own address.
pub fn raw_scrape(config: &Configuration, url: &Link) -> (r: Result<Option<ScrapeResult>, Failure>)
    ensures
        scrape_view(r) == raw_outcome(*config, url@),
        r matches Ok(Some(ScrapeResult::Found(data))) ==> data@.well_formed() && data@.proxied(
            *config,
        ),
{
    let camo = match camo_url(config, url) {
        Ok(camo) => camo,
        Err(failure) => {
            return Err(failure);
        },
    };
    let mut images: Vec<ScrapeImage> = Vec::new();
    images.push(ScrapeImage { url: url.clone(), camo_url: camo });
    let data = ScrapeResultData {
        source_url: Some(url.clone()),
        author_name: None,
        additional_tags: None,
        description: None,
        images,
    };
    assert(data@.images =~= seq![ImageView { url: url@, camo_url: camo@ }]);
    Ok(Some(ScrapeResult::Found(data)))
}

/// The record of a media file shows one image, served by the image proxy
/// under the address that the settings give it, and has neither tags nor
/// description.
pub proof fn lemma_raw_well_formed(config: Configuration, url: LinkView)
    ensures
        raw_outcome(config, url) matches Ok(Some(OutcomeView::Found(data))) ==> data.well_formed()
            && data.proxied(config),
{
}

} // verus!
