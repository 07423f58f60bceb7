//! The Twitter provider over the authenticated API, version 2: which
//! tweet to ask for, whose profile to ask for next, and what record the
//! answers make.

use vstd::prelude::*;
use crate::camo::{camo_of, camo_url};
use crate::codec::{decimal_outcome, parse_decimal, Decimal};
use crate::config::Configuration;
use crate::failure::{plain, CauseView, Failure};
use crate::link::{opt_link, Link, LinkView};
use crate::pattern::{capture, capture_of};
use crate::scraper::{image_views, DataView, ImageView, OutcomeView, ScrapeImage, ScrapeResult,
    ScrapeResultData, scrape_view};
use crate::text::{blank, is_blank, opt_text};

verus! {

/// The shape of the address of a tweet: the author's handle in the first
/// group, the number of the tweet in the second.
pub const TWEET_PATTERN: &'static str =
    r#"\Ahttps?://(?:(?:www|mobile)\.)?(?:twitter|x)\.com/([A-Za-z\d_]+)/status/([\d]+)/?"#;

/// What the API is asked first: one tweet, by its number, with the bearer
/// token of the settings.
#[derive(Debug, PartialEq, Eq)]
pub struct TweetRequest {
    pub bearer: String,
    pub tweet_id: u64,
}

/// One attachment of a tweet, as the API describes it.
#[derive(Debug, PartialEq, Eq)]
pub struct TweetMedia {
    /// The address of the attachment.
    pub url: Option<Link>,
    /// The address of a still picture of the attachment; the record does
    /// not show it.
    pub preview_image_url: Option<Link>,
}

/// The mathematical content of a [`TweetMedia`].
pub struct MediaView {
    pub url: Option<LinkView>,
    pub preview_image_url: Option<LinkView>,
}

impl View for TweetMedia {
    type V = MediaView;

    open spec fn view(&self) -> MediaView {
        MediaView {
            url: opt_link(self.url),
            preview_image_url: opt_link(self.preview_image_url),
        }
    }
}

/// The views of a list of attachments.
pub open spec fn media_views(media: Seq<TweetMedia>) -> Seq<MediaView> {
    media.map_values(|m: TweetMedia| m@)
}

/// A tweet, as the API describes it.
#[derive(Debug, PartialEq, Eq)]
pub struct Tweet {
    pub text: String,
    pub author_id: Option<u64>,
}

/// The answer of the API to a [`TweetRequest`].
#[derive(Debug, PartialEq, Eq)]
pub struct TweetLookup {
    /// The tweet, if the API returned one.
    pub data: Option<Tweet>,
    /// The expansions, if the API returned any, and in them the
    /// attachments, if it listed any.
    pub includes: Option<Option<Vec<TweetMedia>>>,
}

/// The profile of an account, as the API describes it.
#[derive(Debug, PartialEq, Eq)]
pub struct TweetUser {
    pub username: String,
}

/// Which tweet to ask for, given the bearer token of the settings and what
/// the pattern of a tweet's address captured as handle and as number.
pub open spec fn tweet_request_of(
    bearer: Option<Seq<char>>,
    user: Option<Seq<char>>,
    status: Option<Seq<char>>,
) -> Result<(Seq<char>, u64), Seq<CauseView>> {
    if bearer is None {
        Err(seq![plain("must have configured v2 api key"@)])
    } else if user is None || status is None {
        Err(seq![plain("could not parse tweet url"@)])
    } else {
        match decimal_outcome(status->0, u64::MAX) {
            Decimal::Value(n) => Ok((bearer->0, n)),
            Decimal::Empty => Err(seq![plain("cannot parse integer from empty string"@)]),
            Decimal::InvalidDigit => Err(seq![plain("invalid digit found in string"@)]),
            Decimal::TooLarge => Err(seq![plain("number too large to fit in target type"@)]),
        }
    }
}

/// What [`tweet_request`] returns for a bearer token and the address of a
/// tweet.
pub open spec fn tweet_request_outcome(bearer: Option<Seq<char>>, url: Seq<char>) -> Result<
    (Seq<char>, u64),
    Seq<CauseView>,
> {
    tweet_request_of(bearer, capture(TWEET_PATTERN@, url, 1), capture(TWEET_PATTERN@, url, 2))
}

/// Which tweet to ask the API for, given the bearer token of the settings
/// and what the pattern of a tweet's address captured as handle and as
/// number: the tweet of that number, unless the token or a capture is
/// missing or the number does not fit.
pub fn tweet_request_from(bearer: &Option<String>, user: Option<&str>, status: Option<&str>) -> (r:
    Result<TweetRequest, Failure>)
    ensures
        match tweet_request_of(
            opt_text(*bearer),
            match user {
                Some(u) => Some(u@),
                None => None,
            },
            match status {
                Some(s) => Some(s@),
                None => None,
            },
        ) {
            Ok((token, id)) => r matches Ok(request) && request.bearer@ == token
                && request.tweet_id == id,
            Err(chain) => r matches Err(failure) && failure@ == chain,
        },
{
    let bearer = match bearer {
        Some(bearer) => bearer.clone(),
        None => {
            return Err(Failure::new("must have configured v2 api key"));
        },
    };
    let status = match (user, status) {
        (Some(_), Some(status)) => status,
        _ => {
            return Err(Failure::new("could not parse tweet url"));
        },
    };
    match parse_decimal(status, u64::MAX) {
        Decimal::Value(tweet_id) => Ok(TweetRequest { bearer, tweet_id }),
        Decimal::Empty => Err(Failure::new("cannot parse integer from empty string")),
        Decimal::InvalidDigit => Err(Failure::new("invalid digit found in string")),
        Decimal::TooLarge => Err(Failure::new("number too large to fit in target type")),
    }
}

/// Which tweet to ask the API for, and with which token.
pub fn tweet_request(config: &Configuration, url: &Link) -> (r: Result<TweetRequest, Failure>)
    ensures
        match tweet_request_outcome(opt_text(config.twitter_api_key_bearer), url@.text) {
            Ok((bearer, id)) => r matches Ok(request) && request.bearer@ == bearer
                && request.tweet_id == id,
            Err(chain) => r matches Err(failure) && failure@ == chain,
        },
{
    let user = capture_of(TWEET_PATTERN, url.as_str(), 1);
    let status = capture_of(TWEET_PATTERN, url.as_str(), 2);
    tweet_request_from(
        &config.twitter_api_key_bearer,
        match &user {
            Some(u) => Some(u.as_str()),
            None => None,
        },
        match &status {
            Some(s) => Some(s.as_str()),
            None => None,
        },
    )
}

/// Whether the settings ask for the Twitter provider that goes through
/// the authenticated API, rather than the one that reads pages.
pub fn twitter_path(config: &Configuration) -> (v2: bool)
    ensures
        v2 == config.twitter_use_v2,
{
    config.twitter_use_v2
}

/// Whose profile to ask the API for once it has answered for the tweet:
/// nobody's, unless the answer holds expansions, the tweet and its author.
pub fn tweet_author(lookup: &TweetLookup) -> (author: Option<u64>)
    ensures
        author == match (lookup.includes, lookup.data) {
            (Some(_), Some(tweet)) => tweet.author_id,
            _ => None,
        },
{
    match (&lookup.includes, &lookup.data) {
        (Some(_), Some(tweet)) => tweet.author_id,
        _ => None,
    }
}

/// The image that an attachment stands for: none if it has no address;
/// else one that the image proxy serves under the address that the
/// settings give the address of the attachment.
pub open spec fn tweet_image(config: Configuration, media: MediaView) -> Option<
    Result<ImageView, Seq<CauseView>>,
> {
    match media.url {
        None => None,
        Some(url) => Some(
            match camo_of(config, url) {
                Ok(camo) => Ok(ImageView { url, camo_url: camo }),
                Err(chain) => Err(seq![plain("invalid tweet media uri"@)] + chain),
            },
        ),
    }
}

/// The images of a list of attachments, in order, or the failure of the
/// first attachment that has one.
pub open spec fn tweet_images(config: Configuration, media: Seq<MediaView>) -> Result<
    Seq<ImageView>,
    Seq<CauseView>,
>
    decreases media.len(),
{
    if media.len() == 0 {
        Ok(Seq::empty())
    } else {
        match tweet_images(config, media.drop_last()) {
            Err(chain) => Err(chain),
            Ok(images) => match tweet_image(config, media.last()) {
                None => Ok(images),
                Some(Ok(image)) => Ok(images.push(image)),
                Some(Err(chain)) => Err(chain),
            },
        }
    }
}

/// What [`twitter_v2_scrape`] returns, given the text and the author of the
/// tweet, the attachments that the API listed and the handle of the
/// profile, each where the API returned it: no record where any of them
/// is missing.
pub open spec fn twitter_v2_outcome(
    config: Configuration,
    url: LinkView,
    text: Option<Seq<char>>,
    author: Option<u64>,
    media: Option<Option<Seq<MediaView>>>,
    username: Option<Seq<char>>,
) -> Result<Option<OutcomeView>, Seq<CauseView>> {
    if media is None || text is None || author is None || username is None {
        Ok(None)
    } else {
        let listed = match media->0 {
            Some(listed) => listed,
            None => Seq::empty(),
        };
        match tweet_images(config, listed) {
            Err(chain) => Err(chain),
            Ok(images) => if images.len() == 0 {
                Ok(None)
            } else {
                Ok(
                    Some(
                        OutcomeView::Found(
                            DataView {
                                source_url: Some(url),
                                author_name: username,
                                additional_tags: None,
                                description: if blank(text->0) {
                                    None
                                } else {
                                    text
                                },
                                images,
                            },
                        ),
                    ),
                )
            },
        }
    }
}

/// The views of what the API listed as attachments.
pub open spec fn lookup_media(lookup: TweetLookup) -> Option<Option<Seq<MediaView>>> {
    match lookup.includes {
        None => None,
        Some(None) => Some(None),
        Some(Some(media)) => Some(Some(media_views(media@))),
    }
}

/// The text of the tweet of an answer.
pub open spec fn lookup_text(lookup: TweetLookup) -> Option<Seq<char>> {
    match lookup.data {
        Some(tweet) => Some(tweet.text@),
        None => None,
    }
}

/// The author of the tweet of an answer.
pub open spec fn lookup_author(lookup: TweetLookup) -> Option<u64> {
    match lookup.data {
        Some(tweet) => tweet.author_id,
        None => None,
    }
}

/// The handle of a profile.
pub open spec fn user_name(user: Option<TweetUser>) -> Option<Seq<char>> {
    match user {
        Some(user) => Some(user.username@),
        None => None,
    }
}

/// The record that the answers of the API make. There is none where the
/// API left out the expansions, the tweet, its author or the profile, or
/// where no attachment has an address. Else the record links back to the tweet,
/// names the account, describes itself by the text of the tweet unless
/// that is blank, and shows one image for each attachment with an address.
#[verifier::loop_isolation(false)]
pub fn twitter_v2_scrape(
    config: &Configuration,
    url: &Link,
    lookup: &TweetLookup,
    user: &Option<TweetUser>,
) -> (r: Result<Option<ScrapeResult>, Failure>)
    ensures
        scrape_view(r) == twitter_v2_outcome(
            *config,
            url@,
            lookup_text(*lookup),
            lookup_author(*lookup),
            lookup_media(*lookup),
            user_name(*user),
        ),
        r matches Ok(Some(ScrapeResult::Found(data))) ==> data@.well_formed() && data@.proxied(
            *config,
        ),
{
    proof {
        match lookup_media(*lookup) {
            Some(Some(listed)) => lemma_tweet_images_proxied(*config, listed),
            _ => {},
        }
    }
    let media = match &lookup.includes {
        None => {
            return Ok(None);
        },
        Some(media) => media,
    };
    let tweet = match &lookup.data {
        None => {
            return Ok(None);
        },
        Some(tweet) => tweet,
    };
    if tweet.author_id.is_none() {
        return Ok(None);
    }
    let user = match user {
        None => {
            return Ok(None);
        },
        Some(user) => user,
    };
    let mut images: Vec<ScrapeImage> = Vec::new();
    match media {
        None => {},
        Some(media) => {
            let mut i: usize = 0;
            assert(image_views(images@) =~= Seq::<ImageView>::empty());
            while i < media.len()
                invariant
                    i <= media.len(),
                    tweet_images(*config, media_views(media@).take(i as int)) == Ok::<
                        Seq<ImageView>,
                        Seq<CauseView>,
                    >(image_views(images@)),
                decreases media.len() - i,
            {
                proof {
                    assert(media_views(media@).take(i + 1).drop_last() =~= media_views(
                        media@,
                    ).take(i as int));
                    assert(media_views(media@).take(i + 1).last() == media@[i as int]@);
                }
                match &media[i].url {
                    None => {},
                    Some(address) => {
                        match camo_url(config, address) {
                            Ok(camo) => {
                                let ghost before = image_views(images@);
                                images.push(ScrapeImage { url: address.clone(), camo_url: camo });
                                assert(image_views(images@) =~= before.push(
                                    ImageView { url: address@, camo_url: camo@ },
                                ));
                            },
                            Err(failure) => {
                                proof {
                                    lemma_tweet_images_fail(
                                        *config,
                                        media_views(media@),
                                        i + 1,
                                    );
                                }
                                return Err(failure.context("invalid tweet media uri"));
                            },
                        }
                    },
                }
                i += 1;
            }
            assert(media_views(media@).take(media.len() as int) =~= media_views(media@));
        },
    }
    if images.len() == 0 {
        return Ok(None);
    }
    let description = if is_blank(tweet.text.as_str()) {
        None
    } else {
        Some(tweet.text.clone())
    };
    Ok(
        Some(
            ScrapeResult::Found(
                ScrapeResultData {
                    source_url: Some(url.clone()),
                    author_name: Some(user.username.clone()),
                    additional_tags: None,
                    description,
                    images,
                },
            ),
        ),
    )
}

/// Once the attachments up to some point have failed, the whole list
/// fails in the same way.
proof fn lemma_tweet_images_fail(config: Configuration, media: Seq<MediaView>, n: int)
    requires
        0 <= n <= media.len(),
        tweet_images(config, media.take(n)) is Err,
    ensures
        tweet_images(config, media) == tweet_images(config, media.take(n)),
    decreases media.len() - n,
{
    if n < media.len() {
        assert(media.take(n + 1).drop_last() =~= media.take(n));
        lemma_tweet_images_fail(config, media, n + 1);
    } else {
        assert(media.take(n) =~= media);
    }
}

/// The image proxy serves every image of a tweet under the address that
/// the settings give its own address.
pub proof fn lemma_tweet_images_proxied(config: Configuration, media: Seq<MediaView>)
    ensures
        tweet_images(config, media) matches Ok(images) ==> forall|j: int|
            0 <= j < images.len() ==> camo_of(config, (#[trigger] images[j]).url) == Ok::<
                LinkView,
                Seq<CauseView>,
            >(images[j].camo_url),
    decreases media.len(),
{
    if media.len() > 0 {
        lemma_tweet_images_proxied(config, media.drop_last());
    }
}

/// Every record of a tweet shows at least one image, has no tags, and
/// describes itself by more than whitespace or not at all: a tweet whose
/// text is blank gives a record without a description.
pub proof fn lemma_twitter_v2_well_formed(
    config: Configuration,
    url: LinkView,
    text: Option<Seq<char>>,
    author: Option<u64>,
    media: Option<Option<Seq<MediaView>>>,
    username: Option<Seq<char>>,
)
    ensures
        twitter_v2_outcome(config, url, text, author, media, username) matches Ok(
            Some(OutcomeView::Found(data)),
        ) ==> {
            &&& data.well_formed()
            &&& data.proxied(config)
            &&& data.additional_tags is None
            &&& text matches Some(t) && (blank(t) <==> data.description is None)
            &&& author is Some
            &&& username is Some
        },
{
    match media {
        Some(Some(listed)) => lemma_tweet_images_proxied(config, listed),
        _ => {},
    }
}

} // verus!
