//! The provider for image boards of the Philomena family.

use vstd::prelude::*;
use vstd::string::StringExecFns;
use crate::camo::{camo_of, camo_url, link_outcome};
use crate::codec::is_digit;
use crate::config::Configuration;
use crate::failure::{plain, CauseView, Failure};
use crate::link::{parsed, Link, LinkView};
use crate::scraper::{ImageView, ScrapeImage, ScrapeResult, ScrapeResultData};
use crate::text::{ascending, blank, chars_of, debug_text, has_prefix, lemma_trimmed, opt_text,
    option_debug, same_text, sorted, text_of, texts, trim, trimmed};

verus! {

/// What the API of an image board says of one image.
#[derive(Debug, PartialEq, Eq)]
pub struct PhilomenaApiImageResponse {
    pub tags: Vec<String>,
    pub source_url: Option<String>,
    pub uploader: Option<String>,
    pub description: Option<String>,
    pub view_url: String,
}

/// The answer of the API of an image board to a request for one image.
#[derive(Debug, PartialEq, Eq)]
pub struct PhilomenaApiResponse {
    pub image: PhilomenaApiImageResponse,
}

/// Whether `host` is a host of Derpibooru.
pub open spec fn derpibooru_host(host: Seq<char>) -> bool {
    host == "derpibooru.org"@ || host == "www.derpibooru.org"@
}

/// Whether Derpibooru serves `url`.
pub fn is_derpibooru(url: &Link) -> (r: bool)
    ensures
        r == (url@.host matches Some(host) && derpibooru_host(host)),
{
    match url.host_str() {
        Some(host) => same_text(host, "derpibooru.org") || same_text(host, "www.derpibooru.org"),
        None => false,
    }
}

/// Whether a board of the Philomena family serves `url`: today, whether
/// Derpibooru does.
pub fn is_philomena(url: &Link) -> (r: bool)
    ensures
        r == (url@.host matches Some(host) && derpibooru_host(host)),
{
    is_derpibooru(url)
}

/// Whether `s` holds ASCII digits only.
pub open spec fn all_digits(s: Seq<char>) -> bool {
    forall|i: int| 0 <= i < s.len() ==> is_digit(#[trigger] s[i])
}

/// A path without the `/images/` or the `/` that it starts with.
pub open spec fn path_tail(path: Seq<char>) -> Seq<char> {
    if "/images/"@.is_prefix_of(path) {
        path.skip(8)
    } else if "/"@.is_prefix_of(path) {
        path.skip(1)
    } else {
        path
    }
}

/// The number of the image that a path of the shape `/images/{id}` or
/// `/{id}` names, as its digits.
pub open spec fn image_id(path: Seq<char>) -> Option<Seq<char>> {
    let id = path_tail(path);
    if id.len() > 0 && all_digits(id) {
        Some(id)
    } else {
        None
    }
}

/// The number of the image that `path` names.
#[verifier::loop_isolation(false)]
pub fn image_id_of(path: &str) -> (out: Option<String>)
    ensures
        opt_text(out) == image_id(path@),
{
    proof {
        reveal_strlit("/images/");
        reveal_strlit("/");
    }
    let v = chars_of(path);
    let n: usize = v.len();
    let start: usize = if has_prefix(path, "/images/") {
        8
    } else if has_prefix(path, "/") {
        1
    } else {
        0
    };
    let ghost id = path_tail(path@);
    assert(start <= n);
    assert(id =~= v@.skip(start as int));
    if start >= n {
        return None;
    }
    let mut i: usize = start;
    while i < n
        invariant
            start <= i <= n == v.len(),
            forall|k: int| 0 <= k < i - start ==> is_digit(#[trigger] id[k]),
        decreases n - i,
    {
        let c: char = v[i];
        if !('0' <= c && c <= '9') {
            assert(!is_digit(id[i - start]));
            return None;
        }
        i += 1;
    }
    let out = text_of(&v, start, n);
    assert(v@.subrange(start as int, n as int) =~= id);
    Some(out)
}

/// The address at which the API describes the image `id` of the board on
/// `host`.
pub open spec fn api_address(scheme: Seq<char>, host: Seq<char>, id: Seq<char>) -> Seq<char> {
    scheme + "://"@ + host + "/api/v1/json/images/"@ + id
}

/// What [`philomena_api_url`] returns.
pub open spec fn api_url_outcome(url: LinkView) -> Result<LinkView, Seq<CauseView>> {
    if !(url.host matches Some(host) && derpibooru_host(host)) {
        Err(seq![plain("Tried URL that isn't known philomena"@)])
    } else {
        match image_id(url.path) {
            None => Err(seq![plain("URL did not match and returned empty"@)]),
            Some(id) => parsed(api_address(url.scheme, url.host->0, id)),
        }
    }
}

/// Where to ask the API about the image that `url` shows.
pub fn philomena_api_url(url: &Link) -> (r: Result<Link, Failure>)
    ensures
        link_outcome(r) == api_url_outcome(url@),
{
    if !is_derpibooru(url) {
        return Err(Failure::new("Tried URL that isn't known philomena"));
    }
    let host = match url.host_str() {
        Some(host) => host,
        None => {
            return Err(Failure::new("Tried URL that isn't known philomena"));
        },
    };
    let id = match image_id_of(url.path()) {
        Some(id) => id,
        None => {
            return Err(Failure::new("URL did not match and returned empty"));
        },
    };
    let mut address = url.scheme().to_owned();
    address.append("://");
    address.append(host);
    address.append("/api/v1/json/images/");
    address.append(id.as_str());
    Link::parse(address.as_str())
}

/// Whether a tag names an artist.
pub open spec fn is_artist_tag(tag: Seq<char>) -> bool {
    "artist:"@.is_prefix_of(tag)
}

/// The artist that the first artist tag of `tags` names.
pub open spec fn first_artist(tags: Seq<Seq<char>>) -> Option<Seq<char>>
    decreases tags.len(),
{
    if tags.len() == 0 {
        None
    } else if is_artist_tag(tags.first()) {
        Some(tags.first().skip(7))
    } else {
        first_artist(tags.drop_first())
    }
}

/// The tags of `tags` that name no artist, in order.
pub open spec fn other_tags(tags: Seq<Seq<char>>) -> Seq<Seq<char>>
    decreases tags.len(),
{
    if tags.len() == 0 {
        Seq::empty()
    } else if is_artist_tag(tags.last()) {
        other_tags(tags.drop_last())
    } else {
        other_tags(tags.drop_last()).push(tags.last())
    }
}

/// Whether `listed` is what a record shows for the tags `rest`: nothing
/// if there are none, else the same tags in ascending order.
pub open spec fn shows_tags(listed: Option<Seq<Seq<char>>>, rest: Seq<Seq<char>>) -> bool {
    if rest.len() == 0 {
        listed is None
    } else {
        listed matches Some(tags) && tags.len() == rest.len() && ascending(tags)
            && tags.to_multiset() == rest.to_multiset()
    }
}

/// A text without the whitespace around it, or nothing where nothing but
/// whitespace was there.
pub open spec fn meaningful(text: Option<Seq<char>>) -> Option<Seq<char>> {
    match text {
        Some(t) => if trimmed(t).len() == 0 {
            None
        } else {
            Some(trimmed(t))
        },
        None => None,
    }
}

/// The failure, if any, that keeps the answer of the API from becoming a
/// record; else the addresses of the image and of its source and the
/// address under which the image proxy serves the image.
pub open spec fn philomena_links(config: Configuration, image: PhilomenaApiImageResponse) -> Result<
    (LinkView, Option<LinkView>, LinkView),
    Seq<CauseView>,
> {
    match parsed(image.view_url@) {
        Err(chain) => Err(chain),
        Ok(view) => {
            let source = match meaningful(opt_text(image.source_url)) {
                None => Ok(None),
                Some(text) => match parsed(text) {
                    Ok(link) => Ok(Some(link)),
                    Err(chain) => Err(
                        seq![plain("source url: "@ + option_debug(opt_text(image.source_url)))]
                            + chain,
                    ),
                },
            };
            match source {
                Err(chain) => Err(chain),
                Ok(source) => match camo_of(config, view) {
                    Err(chain) => Err(chain),
                    Ok(camo) => Ok((view, source, camo)),
                },
            }
        },
    }
}

#[verifier::loop_isolation(false)]
fn artist_of(tags: &Vec<String>) -> (out: Option<String>)
    ensures
        opt_text(out) == first_artist(texts(tags@)),
{
    proof {
        reveal_strlit("artist:");
    }
    let mut i: usize = 0;
    assert(texts(tags@).skip(0) =~= texts(tags@));
    while i < tags.len()
        invariant
            i <= tags.len(),
            first_artist(texts(tags@)) == first_artist(texts(tags@).skip(i as int)),
        decreases tags.len() - i,
    {
        assert(texts(tags@).skip(i as int).drop_first() =~= texts(tags@).skip(i + 1));
        assert(texts(tags@).skip(i as int).first() == tags@[i as int]@);
        if has_prefix(tags[i].as_str(), "artist:") {
            let v = chars_of(tags[i].as_str());
            let out = text_of(&v, 7, v.len());
            assert(v@.subrange(7, v.len() as int) =~= v@.skip(7));
            return Some(out);
        }
        i += 1;
    }
    None
}

fn tags_without_artists(tags: &Vec<String>) -> (out: Vec<String>)
    ensures
        texts(out@) == other_tags(texts(tags@)),
{
    let mut out: Vec<String> = Vec::new();
    let mut i: usize = 0;
    assert(texts(out@) =~= Seq::<Seq<char>>::empty());
    while i < tags.len()
        invariant
            i <= tags.len(),
            texts(out@) == other_tags(texts(tags@).take(i as int)),
        decreases tags.len() - i,
    {
        assert(texts(tags@).take(i + 1).drop_last() =~= texts(tags@).take(i as int));
        assert(texts(tags@).take(i + 1).last() == tags@[i as int]@);
        if !has_prefix(tags[i].as_str(), "artist:") {
            let ghost before = texts(out@);
            out.push(tags[i].clone());
            assert(texts(out@) =~= before.push(tags@[i as int]@));
        }
        i += 1;
    }
    assert(texts(tags@).take(tags.len() as int) =~= texts(tags@));
    out
}

fn meaningful_text(text: &Option<String>) -> (out: Option<String>)
    ensures
        opt_text(out) == meaningful(opt_text(*text)),
{
    match text {
        Some(t) => {
            let kept = trim(t.as_str());
            if kept.as_str().unicode_len() == 0 {
                None
            } else {
                Some(kept)
            }
        },
        None => None,
    }
}

/// The record that the answer of the API makes: the source of the image
/// and its description, each without the whitespace around it and left
/// out where nothing remains; the artist of the first artist tag; the
/// other tags in ascending order, left out where there are none; and the
/// one image, served by the image proxy under its own address.
pub fn philomena_scrape(config: &Configuration, resp: &PhilomenaApiResponse) -> (r: Result<
    Option<ScrapeResult>,
    Failure,
>)
    ensures
        match philomena_links(*config, resp.image) {
            Err(chain) => r matches Err(failure) && failure@ == chain,
            Ok((view, source, camo)) => r matches Ok(Some(ScrapeResult::Found(data))) && {
                &&& data@.source_url == source
                &&& data@.author_name == first_artist(texts(resp.image.tags@))
                &&& shows_tags(data@.additional_tags, other_tags(texts(resp.image.tags@)))
                &&& data@.description == meaningful(opt_text(resp.image.description))
                &&& data@.images == seq![ImageView { url: view, camo_url: camo }]
                &&& data@.well_formed()
                &&& data@.proxied(*config)
            },
        },
{
    let image = &resp.image;
    let image_view = match Link::parse(image.view_url.as_str()) {
        Ok(link) => link,
        Err(failure) => {
            return Err(failure);
        },
    };
    let description = meaningful_text(&image.description);
    let source_url = match meaningful_text(&image.source_url) {
        None => None,
        Some(text) => match Link::parse(text.as_str()) {
            Ok(link) => Some(link),
            Err(failure) => {
                let mut context = "source url: ".to_owned();
                context.append(debug_text(&image.source_url).as_str());
                return Err(failure.context(context.as_str()));
            },
        },
    };
    let author_name = artist_of(&image.tags);
    let rest = tags_without_artists(&image.tags);
    let ghost rest_view = texts(rest@);
    let add_tags = sorted(rest);
    proof {
        texts(add_tags@).to_multiset_ensures();
        rest_view.to_multiset_ensures();
    }
    let additional_tags = if add_tags.len() == 0 {
        None
    } else {
        Some(add_tags)
    };
    let camo = match camo_url(config, &image_view) {
        Ok(camo) => camo,
        Err(failure) => {
            return Err(failure);
        },
    };
    let mut images: Vec<ScrapeImage> = Vec::new();
    images.push(ScrapeImage { url: image_view, camo_url: camo });
    let data = ScrapeResultData { source_url, author_name, additional_tags, description, images };
    proof {
        assert(data@.images =~= seq![ImageView { url: image_view@, camo_url: camo@ }]);
        if image.description is Some {
            lemma_trimmed(image.description->0@);
        }
    }
    Ok(Some(ScrapeResult::Found(data)))
}

/// What a record of an image board shows as tags is a non-empty ascending
/// list or nothing, and what it shows as description or takes as the text
/// of its source is more than whitespace or nothing.
pub proof fn lemma_philomena_well_formed(
    listed: Option<Seq<Seq<char>>>,
    rest: Seq<Seq<char>>,
    text: Option<Seq<char>>,
)
    requires
        shows_tags(listed, rest),
    ensures
        listed matches Some(tags) ==> tags.len() > 0 && ascending(tags),
        meaningful(text) matches Some(kept) ==> !blank(kept),
{
    if text is Some {
        lemma_trimmed(text->0);
    }
}

} // verus!
