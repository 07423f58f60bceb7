//! The DeviantArt provider: what the page of a deviation says, and which
//! better copies of its image may exist.

use vstd::prelude::*;
use vstd::string::StringExecFns;
use crate::camo::{camo_of, camo_url};
use crate::codec::{base36, decimal_outcome, parse_decimal, radix36, Decimal};
use crate::config::Configuration;
use crate::failure::{plain, CauseView, Failure};
use crate::link::{parsed, Link, LinkView};
use crate::pattern::{capture, capture_of, regex_search, search_first, Found, FoundView};
use crate::scraper::{image_views, scrape_view, DataView, ImageView, OutcomeView, ScrapeImage,
    ScrapeResult, ScrapeResultData};
use crate::text::{has_suffix, opt_text, same_text};

verus! {

/// The preload hint of a page, its address in the first group.
pub const IMAGE_PATTERN: &'static str = r#"data-rh="true" rel="preload" href="([^"]*)" as="image""#;

/// The canonical address of a page, in the first group.
pub const SOURCE_PATTERN: &'static str = r#"rel="canonical" href="([^"]*)""#;

/// The address of a deviation, the artist's handle in the first group.
pub const ARTIST_PATTERN: &'static str = r#"https://www.deviantart.com/([^/]*)/art"#;

/// The address of a deviation, its serial number in the first group.
pub const SERIAL_PATTERN: &'static str = r#"https://www.deviantart.com/(?:.*?)-(\d+)\z"#;

/// An image on the content network: its domain, the identifier of the
/// object and its file name in the three groups.
pub const CDNINT_PATTERN: &'static str =
    r#"(https://images-wixmp-[0-9a-f]+.wixmp.com)(?:/intermediary)?/f/([^/]*)/([^/?]*)"#;

/// A scaled copy of a PNG: the address of the original, the segments
/// that name the variant, and what follows, in the three groups.
pub const PNG_PATTERN: &'static str =
    r#"(https://[0-9a-z\-\.]+(?:/intermediary)?/f/[0-9a-f\-]+/[0-9a-z\-]+\.png)(/v1/fill/[0-9a-z_,]+/[0-9a-z_\-]+\.png)(.*)"#;

/// A scaled copy of a JPEG: what stands before the quality, the quality,
/// and what follows, in the three groups.
pub const JPG_PATTERN: &'static str =
    r#"(https://[0-9a-z\-\.]+(?:/intermediary)?/f/[0-9a-f\-]+/[0-9a-z\-]+\.jpg/v1/fill/w_[0-9]+,h_[0-9]+,q_)([0-9]+)(,[a-z]+\/[a-z0-6_\-]+\.jpe?g.*)"#;

/// Whether `host` is DeviantArt's or lies under it.
pub open spec fn deviantart_host(host: Seq<char>) -> bool {
    ".deviantart.com"@.is_suffix_of(host) || host == "deviantart.com"@
}

/// Whether DeviantArt serves `url`.
pub fn is_deviantart(url: &Link) -> (r: bool)
    ensures
        r == (url@.host matches Some(host) && deviantart_host(host)),
{
    match url.host_str() {
        Some(host) => has_suffix(host, ".deviantart.com") || same_text(host, "deviantart.com"),
        None => false,
    }
}

/// The record of a deviation whose page names `image` as its image,
/// `source` as its canonical address and `artist` as its artist, with the
/// address under which the image proxy serves the image.
pub open spec fn page_record_of(
    config: Configuration,
    image: Seq<char>,
    source: Seq<char>,
    artist: Seq<char>,
) -> Result<(DataView, LinkView), Seq<CauseView>> {
    match parsed(image) {
        Err(chain) => Err(seq![plain("could not parse image URL"@)] + chain),
        Ok(image_url) => match camo_of(config, image_url) {
            Err(chain) => Err(seq![plain("could not camo URL"@)] + chain),
            Ok(camo) => match parsed(source) {
                Err(chain) => Err(seq![plain("source URL not valid URL"@)] + chain),
                Ok(source_url) => Ok(
                    (
                        DataView {
                            source_url: Some(source_url),
                            author_name: Some(artist),
                            additional_tags: None,
                            description: None,
                            images: seq![ImageView { url: image_url, camo_url: camo }],
                        },
                        camo,
                    ),
                ),
            },
        },
    }
}

/// What the page `body` says: the record of the deviation, with its one
/// image, and the address under which the image proxy serves that image.
pub open spec fn extracted(config: Configuration, body: Seq<char>) -> Result<
    (DataView, LinkView),
    Seq<CauseView>,
> {
    let image = capture(IMAGE_PATTERN@, body, 1);
    let source = capture(SOURCE_PATTERN@, body, 1);
    if image is None {
        Err(seq![plain("no image found"@)])
    } else if source is None {
        Err(seq![plain("no source found"@)])
    } else {
        match capture(ARTIST_PATTERN@, source->0, 1) {
            None => Err(seq![plain("no artist found"@)]),
            Some(artist) => page_record_of(config, image->0, source->0, artist),
        }
    }
}

/// Makes the record of a deviation of what its page names as image, as
/// canonical address and as artist.
pub fn page_record(config: &Configuration, image: &str, source: &str, artist: &str) -> (r: Result<
    (ScrapeResultData, Link),
    Failure,
>)
    ensures
        match page_record_of(*config, image@, source@, artist@) {
            Ok((data, camo)) => r matches Ok((d, c)) && d@ == data && c@ == camo,
            Err(chain) => r matches Err(failure) && failure@ == chain,
        },
        r matches Ok((d, c)) ==> d@.well_formed() && d@.proxied(*config),
{
    let image_url = match Link::parse(image) {
        Ok(link) => link,
        Err(failure) => {
            return Err(failure.context("could not parse image URL"));
        },
    };
    let camo = match camo_url(config, &image_url) {
        Ok(camo) => camo,
        Err(failure) => {
            return Err(failure.context("could not camo URL"));
        },
    };
    let source_url = match Link::parse(source) {
        Ok(link) => link,
        Err(failure) => {
            return Err(failure.context("source URL not valid URL"));
        },
    };
    let mut images: Vec<ScrapeImage> = Vec::new();
    images.push(ScrapeImage { url: image_url, camo_url: camo.clone() });
    let data = ScrapeResultData {
        source_url: Some(source_url),
        author_name: Some(artist.to_owned()),
        additional_tags: None,
        description: None,
        images,
    };
    assert(data@.images =~= seq![ImageView { url: image_url@, camo_url: camo@ }]);
    Ok((data, camo))
}

/// Reads the page of a deviation: the preload hint names the image, the
/// canonical address is the source, and the source names the artist.
pub fn extract_data(config: &Configuration, body: &str) -> (r: Result<
    (ScrapeResultData, Link),
    Failure,
>)
    ensures
        match extracted(*config, body@) {
            Ok((data, camo)) => r matches Ok((d, c)) && d@ == data && c@ == camo,
            Err(chain) => r matches Err(failure) && failure@ == chain,
        },
        r matches Ok((d, c)) ==> d@.well_formed() && d@.proxied(*config),
{
    let image = match capture_of(IMAGE_PATTERN, body, 1) {
        None => {
            return Err(Failure::new("no image found"));
        },
        Some(image) => image,
    };
    let source = match capture_of(SOURCE_PATTERN, body, 1) {
        None => {
            return Err(Failure::new("no source found"));
        },
        Some(source) => source,
    };
    let artist = match capture_of(ARTIST_PATTERN, source.as_str(), 1) {
        None => {
            return Err(Failure::new("no artist found"));
        },
        Some(artist) => artist,
    };
    page_record(config, image.as_str(), source.as_str(), artist.as_str())
}

/// The text around and in a match, with `middle` in place of what its
/// second group captured, if its first and third groups captured
/// anything.
pub open spec fn rewritten_found(found: FoundView, middle: Seq<char>) -> Option<Seq<char>> {
    match (found.group(1), found.group(3)) {
        (Some(head), Some(tail)) => Some(found.before + head + middle + tail + found.after),
        _ => None,
    }
}

/// The address `url` with `middle` in place of the second group of the
/// leftmost match of `pattern`, if there is a match with a first and a
/// third group.
pub open spec fn rewritten(pattern: Seq<char>, url: Seq<char>, middle: Seq<char>) -> Option<
    Seq<char>,
> {
    match regex_search(pattern, url) {
        Some(found) => rewritten_found(found, middle),
        None => None,
    }
}

/// Puts a text together again around a match, with `middle` in place of
/// what the second group captured.
pub fn rewrite_found(found: &Found, middle: &str) -> (out: Option<String>)
    ensures
        opt_text(out) == rewritten_found(found@, middle@),
{
    match (found.group(1), found.group(3)) {
        (Some(head), Some(tail)) => {
            let mut out = found.before.clone();
            out.append(head);
            out.append(middle);
            out.append(tail);
            out.append(found.after.as_str());
            Some(out)
        },
        _ => None,
    }
}

fn rewrite(pattern: &str, url: &str, middle: &str) -> (out: Option<String>)
    ensures
        opt_text(out) == rewritten(pattern@, url@, middle@),
{
    match search_first(pattern, url) {
        Some(found) => rewrite_found(&found, middle),
        None => None,
    }
}

/// The better copies that the address of `image` promises: for a scaled
/// PNG the original, which is the address without the segments that name
/// the variant; for a scaled JPEG the copy of full quality, which is the
/// address with 100 for the quality. Each is served by the image proxy as
/// `image` is.
pub open spec fn hires_of(image: ImageView) -> Result<Seq<ImageView>, Seq<CauseView>> {
    let png = match rewritten(PNG_PATTERN@, image.url.text, ""@) {
        None => Ok(Seq::empty()),
        Some(text) => match parsed(text) {
            Ok(link) => Ok(seq![ImageView { url: link, camo_url: image.camo_url }]),
            Err(chain) => Err(seq![plain("could not parse png url"@)] + chain),
        },
    };
    match png {
        Err(chain) => Err(chain),
        Ok(found) => match rewritten(JPG_PATTERN@, image.url.text, "100"@) {
            None => Ok(found),
            Some(text) => match parsed(text) {
                Ok(link) => Ok(found.push(ImageView { url: link, camo_url: image.camo_url })),
                Err(chain) => Err(seq![plain("could not parse jpeg url"@)] + chain),
            },
        },
    }
}

/// The better copies that the first `n` of `seeds` promise, in order, or
/// the failure of the first seed that has one.
pub open spec fn new_hires(seeds: Seq<ImageView>, n: int) -> Result<
    Seq<ImageView>,
    Seq<CauseView>,
>
    decreases n,
{
    if n <= 0 {
        Ok(Seq::empty())
    } else {
        match new_hires(seeds, n - 1) {
            Err(chain) => Err(chain),
            Ok(found) => match hires_of(seeds[n - 1]) {
                Err(chain) => Err(chain),
                Ok(more) => Ok(found + more),
            },
        }
    }
}

proof fn lemma_new_hires_fail(seeds: Seq<ImageView>, n: int, m: int)
    requires
        0 <= n <= m,
        new_hires(seeds, n) is Err,
    ensures
        new_hires(seeds, m) == new_hires(seeds, n),
    decreases m - n,
{
    if n < m {
        lemma_new_hires_fail(seeds, n, m - 1);
    }
}

/// Appends to `images` the better copies that their addresses promise.
#[verifier::loop_isolation(false)]
pub fn try_new_hires(images: Vec<ScrapeImage>) -> (r: Result<Vec<ScrapeImage>, Failure>)
    ensures
        match new_hires(image_views(images@), images@.len() as int) {
            Ok(more) => r matches Ok(out) && image_views(out@) == image_views(images@) + more,
            Err(chain) => r matches Err(failure) && failure@ == chain,
        },
{
    let ghost seeds = image_views(images@);
    let n: usize = images.len();
    let mut images = images;
    let mut i: usize = 0;
    assert(image_views(images@) =~= seeds + Seq::<ImageView>::empty());
    while i < n
        invariant
            i <= n == seeds.len() <= images.len(),
            new_hires(seeds, i as int) is Ok,
            image_views(images@) == seeds + new_hires(seeds, i as int)->Ok_0,
        decreases n - i,
    {
        let ghost found = new_hires(seeds, i as int)->Ok_0;
        assert(image_views(images@)[i as int] == seeds[i as int]);
        let old_url = images[i].url.as_str().to_owned();
        let camo = images[i].camo_url.clone();
        match rewrite(PNG_PATTERN, old_url.as_str(), "") {
            None => {},
            Some(text) => match Link::parse(text.as_str()) {
                Ok(link) => {
                    let ghost before = image_views(images@);
                    images.push(ScrapeImage { url: link, camo_url: camo.clone() });
                    assert(image_views(images@) =~= before.push(
                        ImageView { url: link@, camo_url: camo@ },
                    ));
                },
                Err(failure) => {
                    proof {
                        lemma_new_hires_fail(seeds, i + 1, n as int);
                    }
                    return Err(failure.context("could not parse png url"));
                },
            },
        }
        match rewrite(JPG_PATTERN, old_url.as_str(), "100") {
            None => {},
            Some(text) => match Link::parse(text.as_str()) {
                Ok(link) => {
                    let ghost before = image_views(images@);
                    images.push(ScrapeImage { url: link, camo_url: camo });
                    assert(image_views(images@) =~= before.push(
                        ImageView { url: link@, camo_url: camo@ },
                    ));
                },
                Err(failure) => {
                    proof {
                        lemma_new_hires_fail(seeds, i + 1, n as int);
                    }
                    return Err(failure.context("could not parse jpeg url"));
                },
            },
        }
        assert(image_views(images@) =~= seeds + (found + hires_of(seeds[i as int])->Ok_0));
        i += 1;
    }
    Ok(images)
}

/// Where the content network keeps the intermediary copy of an image,
/// given the match of the network's pattern in the address of the image:
/// on the domain of the first group, the object of the second and the
/// name of the third.
pub open spec fn intermediary_of(found: FoundView) -> Option<Seq<char>> {
    match (found.group(1), found.group(2), found.group(3)) {
        (Some(domain), Some(object), Some(name)) => Some(
            domain + "/intermediary/"@ + object + "/"@ + name,
        ),
        _ => None,
    }
}

/// Where the content network may keep an intermediary copy of the image
/// at `url`, if `url` lies on that network.
pub open spec fn intermediary_address(url: Seq<char>) -> Option<Seq<char>> {
    match regex_search(CDNINT_PATTERN@, url) {
        Some(found) => intermediary_of(found),
        None => None,
    }
}

/// What [`intermediary_candidate`] returns for the address of an image.
pub open spec fn intermediary_outcome(url: Seq<char>) -> Result<Option<LinkView>, Seq<CauseView>> {
    match intermediary_address(url) {
        None => Ok(None),
        Some(text) => match parsed(text) {
            Ok(link) => Ok(Some(link)),
            Err(chain) => Err(chain),
        },
    }
}

/// Writes the address of the intermediary copy of an image, given the
/// match of the network's pattern in the address of the image.
pub fn intermediary_address_of(found: &Found) -> (out: Option<String>)
    ensures
        opt_text(out) == intermediary_of(found@),
{
    match (found.group(1), found.group(2), found.group(3)) {
        (Some(domain), Some(object), Some(name)) => {
            let mut address = domain.to_owned();
            address.append("/intermediary/");
            address.append(object);
            address.append("/");
            address.append(name);
            Some(address)
        },
        _ => None,
    }
}

/// Where to probe for an intermediary copy of `image`: nowhere unless the
/// image lies on the content network.
pub fn intermediary_candidate(image: &ScrapeImage) -> (r: Result<Option<Link>, Failure>)
    ensures
        match intermediary_outcome(image@.url.text) {
            Ok(None) => r matches Ok(None),
            Ok(Some(link)) => r matches Ok(Some(l)) && l@ == link,
            Err(chain) => r matches Err(failure) && failure@ == chain,
        },
{
    let address = match search_first(CDNINT_PATTERN, image.url.as_str()) {
        Some(found) => intermediary_address_of(&found),
        None => None,
    };
    match address {
        None => Ok(None),
        Some(address) => match Link::parse(address.as_str()) {
            Ok(link) => Ok(Some(link)),
            Err(failure) => Err(failure),
        },
    }
}

/// The old address of the original of a deviation, given the digits at
/// the end of the address of the deviation: it ends in the number that
/// they write, in base 36.
pub open spec fn old_hires_of(serial: Option<Seq<char>>) -> Result<Seq<char>, Seq<CauseView>> {
    match serial {
        None => Err(seq![plain("no serial captured"@)]),
        Some(digits) => match decimal_outcome(digits, 0x7fff_ffff_ffff_ffff) {
            Decimal::Value(serial) => Ok(
                "http://orig01.deviantart.net/x_by_x-d"@ + base36(serial as nat) + ".png"@,
            ),
            Decimal::Empty => Err(
                seq![
                    plain("integer could not be parsed"@),
                    plain("cannot parse integer from empty string"@),
                ],
            ),
            Decimal::InvalidDigit => Err(
                seq![
                    plain("integer could not be parsed"@),
                    plain("invalid digit found in string"@),
                ],
            ),
            Decimal::TooLarge => Err(
                seq![
                    plain("integer could not be parsed"@),
                    plain("number too large to fit in target type"@),
                ],
            ),
        },
    }
}

/// What [`old_hires_address`] returns for the address of a deviation.
pub open spec fn old_hires_outcome(source: Seq<char>) -> Result<Seq<char>, Seq<CauseView>> {
    old_hires_of(capture(SERIAL_PATTERN@, source, 1))
}

/// Writes the old address of the original of a deviation, given the
/// digits at the end of the address of the deviation.
pub fn old_hires_from_serial(serial: Option<&str>) -> (r: Result<String, Failure>)
    ensures
        match old_hires_of(
            match serial {
                Some(digits) => Some(digits@),
                None => None,
            },
        ) {
            Ok(address) => r matches Ok(text) && text@ == address,
            Err(chain) => r matches Err(failure) && failure@ == chain,
        },
{
    let digits = match serial {
        None => {
            return Err(Failure::new("no serial captured"));
        },
        Some(digits) => digits,
    };
    let serial: u64 = match parse_decimal(digits, 0x7fff_ffff_ffff_ffff) {
        Decimal::Value(serial) => serial,
        Decimal::Empty => {
            return Err(
                Failure::new("cannot parse integer from empty string").context(
                    "integer could not be parsed",
                ),
            );
        },
        Decimal::InvalidDigit => {
            return Err(
                Failure::new("invalid digit found in string").context(
                    "integer could not be parsed",
                ),
            );
        },
        Decimal::TooLarge => {
            return Err(
                Failure::new("number too large to fit in target type").context(
                    "integer could not be parsed",
                ),
            );
        },
    };
    let mut address = "http://orig01.deviantart.net/x_by_x-d".to_owned();
    address.append(radix36(serial as i64).as_str());
    address.append(".png");
    Ok(address)
}

/// The address that redirected to the original of a deviation in the old
/// days: it ends in the serial number of the deviation, which is the
/// number at the end of `source_url`, in base 36.
pub fn old_hires_address(source_url: &Link) -> (r: Result<String, Failure>)
    ensures
        match old_hires_outcome(source_url@.text) {
            Ok(address) => r matches Ok(text) && text@ == address,
            Err(chain) => r matches Err(failure) && failure@ == chain,
        },
{
    let digits = capture_of(SERIAL_PATTERN, source_url.as_str(), 1);
    old_hires_from_serial(
        match &digits {
            Some(d) => Some(d.as_str()),
            None => None,
        },
    )
}

/// A deviation whose page has been read, while better copies of its image
/// are looked for.
#[derive(Debug, PartialEq, Eq)]
pub struct Refinement {
    data: ScrapeResultData,
    camo: Link,
    seeds: usize,
    next: usize,
}

/// The mathematical content of a [`Refinement`].
pub struct RefinementView {
    /// The record so far.
    pub data: DataView,
    /// The address under which the image proxy serves the image of the
    /// page.
    pub camo: LinkView,
    /// How many images of the record an intermediary copy is looked for.
    pub seeds: nat,
    /// How many of them have been dealt with.
    pub next: nat,
}

impl View for Refinement {
    type V = RefinementView;

    closed spec fn view(&self) -> RefinementView {
        RefinementView {
            data: self.data@,
            camo: self.camo@,
            seeds: self.seeds as nat,
            next: self.next as nat,
        }
    }
}

impl Refinement {
    #[verifier::type_invariant]
    spec fn wf(self) -> bool {
        &&& self.next <= self.seeds <= self.data.images@.len()
        &&& self.data.images@.len() > 0
        &&& self.data.additional_tags is None
        &&& self.data.description is None
    }
}

/// The work that is pending for a deviation.
#[derive(Debug, PartialEq, Eq)]
pub enum DeviantArtJob {
    /// Fetch the page at this address.
    Page(Link),
    /// Ask by `HEAD` whether this intermediary copy exists.
    Intermediary(Refinement, Link),
    /// Fetch this address without following redirects.
    OldHires(Refinement, String),
}

/// The mathematical content of a [`DeviantArtJob`].
pub enum JobView {
    Page(LinkView),
    Intermediary(RefinementView, LinkView),
    OldHires(RefinementView, Seq<char>),
}

impl View for DeviantArtJob {
    type V = JobView;

    open spec fn view(&self) -> JobView {
        match self {
            DeviantArtJob::Page(link) => JobView::Page(link@),
            DeviantArtJob::Intermediary(r, link) => JobView::Intermediary(r@, link@),
            DeviantArtJob::OldHires(r, address) => JobView::OldHires(r@, address@),
        }
    }
}

/// What came of the pending work.
#[derive(Debug, PartialEq, Eq)]
pub enum DeviantArtAnswer {
    /// The body of the page.
    Body(String),
    /// The status of the answer to the `HEAD` request.
    Status(u16),
    /// The `Location` header of the answer, if it had one.
    Location(Option<String>),
}

/// How the scrape of a deviation goes on.
#[derive(Debug, PartialEq, Eq)]
pub enum DeviantArtStep {
    /// More work is pending.
    Next(DeviantArtJob),
    /// The scrape has ended with this outcome.
    Done(Result<Option<ScrapeResult>, Failure>),
}

/// The mathematical content of a [`DeviantArtStep`].
pub enum StepView {
    Next(JobView),
    Done(Result<Option<OutcomeView>, Seq<CauseView>>),
}

impl View for DeviantArtStep {
    type V = StepView;

    open spec fn view(&self) -> StepView {
        match self {
            DeviantArtStep::Next(job) => StepView::Next(job@),
            DeviantArtStep::Done(r) => StepView::Done(scrape_view(*r)),
        }
    }
}

/// How the scrape goes on once every image up to `r.next` has been dealt
/// with: the next image that lies on the content network has its
/// intermediary copy probed; when none is left, the old address of the
/// original is tried.
pub open spec fn probe_from(r: RefinementView) -> StepView
    decreases r.seeds - r.next,
{
    if r.next >= r.seeds || r.next >= r.data.images.len() {
        after_probes(r)
    } else {
        match intermediary_outcome(r.data.images[r.next as int].url.text) {
            Err(chain) => StepView::Done(Err(chain)),
            Ok(Some(link)) => StepView::Next(JobView::Intermediary(r, link)),
            Ok(None) => probe_from(RefinementView { next: r.next + 1, ..r }),
        }
    }
}

/// How the scrape goes on once the intermediary copies have been dealt
/// with.
pub open spec fn after_probes(r: RefinementView) -> StepView {
    match r.data.source_url {
        None => StepView::Done(Err(seq![plain("had no source url"@)])),
        Some(source) => match old_hires_outcome(source.text) {
            Err(chain) => StepView::Done(
                Err(seq![plain("old_hires conversion failed"@)] + chain),
            ),
            Ok(address) => StepView::Next(JobView::OldHires(r, address)),
        },
    }
}

/// How the scrape goes on once the page has been fetched.
pub open spec fn after_page(config: Configuration, body: Seq<char>) -> StepView {
    match extracted(config, body) {
        Err(chain) => StepView::Done(Err(seq![plain("could not extract DA page data"@)] + chain)),
        Ok((data, camo)) => match new_hires(data.images, data.images.len() as int) {
            Err(chain) => StepView::Done(Err(chain)),
            Ok(more) => probe_from(
                RefinementView {
                    data: DataView { images: data.images + more, ..data },
                    camo,
                    seeds: (data.images + more).len(),
                    next: 0,
                },
            ),
        },
    }
}

/// How the scrape goes on once the probe for the intermediary copy at
/// `candidate` has been answered: the copy joins the record if the status
/// is 200, served by the image proxy as the image it is a copy of.
pub open spec fn after_status(r: RefinementView, candidate: LinkView, status: u16) -> StepView {
    if r.next >= r.seeds || r.next >= r.data.images.len() {
        after_probes(r)
    } else {
        let images = if status == 200 {
            r.data.images.push(
                ImageView { url: candidate, camo_url: r.data.images[r.next as int].camo_url },
            )
        } else {
            r.data.images
        };
        probe_from(RefinementView { data: DataView { images, ..r.data }, next: r.next + 1, ..r })
    }
}

/// How the scrape ends once the old address has been fetched: where the
/// answer redirects is one more image of the record, served by the image
/// proxy as the image of the page is.
pub open spec fn after_location(r: RefinementView, location: Option<Seq<char>>) -> StepView {
    match location {
        None => StepView::Done(Ok(Some(OutcomeView::Found(r.data)))),
        Some(text) => match parsed(text) {
            Err(chain) => StepView::Done(
                Err(
                    seq![
                        plain("old_hires conversion failed"@),
                        plain("new old_hires location is not valid URL"@),
                    ] + chain,
                ),
            ),
            Ok(link) => StepView::Done(
                Ok(
                    Some(
                        OutcomeView::Found(
                            DataView {
                                images: r.data.images.push(
                                    ImageView { url: link, camo_url: r.camo },
                                ),
                                ..r.data
                            },
                        ),
                    ),
                ),
            ),
        },
    }
}

/// How the scrape of a deviation goes on once `answer` has come in for
/// `job`. An answer of another kind than the job asks for changes
/// nothing.
pub open spec fn deviantart_next(config: Configuration, job: JobView, answer: DeviantArtAnswer) -> StepView {
    match (job, answer) {
        (JobView::Page(_), DeviantArtAnswer::Body(body)) => after_page(config, body@),
        (JobView::Intermediary(r, candidate), DeviantArtAnswer::Status(status)) => after_status(
            r,
            candidate,
            status,
        ),
        (JobView::OldHires(r, _), DeviantArtAnswer::Location(location)) => after_location(
            r,
            opt_text(location),
        ),
        _ => StepView::Next(job),
    }
}

/// Begins the scrape of the deviation at `url`: its page is to be
/// fetched.
pub fn deviantart_scrape(url: &Link) -> (job: DeviantArtJob)
    ensures
        job@ == JobView::Page(url@),
{
    DeviantArtJob::Page(url.clone())
}

fn finish_probes(r: Refinement) -> (step: DeviantArtStep)
    ensures
        step@ == after_probes(r@),
{
    let address = match &r.data.source_url {
        None => {
            return DeviantArtStep::Done(Err(Failure::new("had no source url")));
        },
        Some(source) => old_hires_address(source),
    };
    match address {
        Err(failure) => DeviantArtStep::Done(Err(failure.context("old_hires conversion failed"))),
        Ok(address) => DeviantArtStep::Next(DeviantArtJob::OldHires(r, address)),
    }
}

#[verifier::loop_isolation(false)]
fn probe_next(r: Refinement) -> (step: DeviantArtStep)
    ensures
        step@ == probe_from(r@),
{
    proof {
        use_type_invariant(&r);
    }
    let ghost start = r@;
    let Refinement { data, camo, seeds, next } = r;
    let mut next = next;
    while next < seeds
        invariant
            next <= seeds <= data.images@.len(),
            data.images@.len() > 0,
            data.additional_tags is None,
            data.description is None,
            start.data == data@,
            start.camo == camo@,
            start.seeds == seeds,
            probe_from(start) == probe_from(RefinementView { next: next as nat, ..start }),
        decreases seeds - next,
    {
        assert(image_views(data.images@)[next as int] == data.images@[next as int]@);
        match intermediary_candidate(&data.images[next]) {
            Err(failure) => {
                return DeviantArtStep::Done(Err(failure));
            },
            Ok(Some(link)) => {
                return DeviantArtStep::Next(
                    DeviantArtJob::Intermediary(Refinement { data, camo, seeds, next }, link),
                );
            },
            Ok(None) => {
                next += 1;
            },
        }
    }
    finish_probes(Refinement { data, camo, seeds, next })
}

/// Goes on with the scrape of a deviation once `answer` has come in for
/// `job`.
pub fn deviantart_resume(config: &Configuration, job: DeviantArtJob, answer: DeviantArtAnswer) -> (step:
    DeviantArtStep)
    ensures
        step@ == deviantart_next(*config, job@, answer),
        step matches DeviantArtStep::Done(Ok(Some(ScrapeResult::Found(data))))
            ==> data@.well_formed(),
{
    match (job, answer) {
        (DeviantArtJob::Page(_), DeviantArtAnswer::Body(body)) => {
            let (data, camo) = match extract_data(config, body.as_str()) {
                Err(failure) => {
                    return DeviantArtStep::Done(
                        Err(failure.context("could not extract DA page data")),
                    );
                },
                Ok(extract) => extract,
            };
            let ScrapeResultData { source_url, author_name, additional_tags, description, images } =
                data;
            let images = match try_new_hires(images) {
                Err(failure) => {
                    return DeviantArtStep::Done(Err(failure));
                },
                Ok(images) => images,
            };
            let seeds: usize = images.len();
            let data = ScrapeResultData {
                source_url,
                author_name,
                additional_tags,
                description,
                images,
            };
            let step = probe_next(Refinement { data, camo, seeds, next: 0 });
            proof {
                lemma_probe_well_formed(
                    RefinementView { data: data@, camo: camo@, seeds: seeds as nat, next: 0 },
                );
            }
            step
        },
        (DeviantArtJob::Intermediary(r, candidate), DeviantArtAnswer::Status(status)) => {
            proof {
                use_type_invariant(&r);
            }
            if r.next >= r.seeds {
                return finish_probes(r);
            }
            let Refinement { data, camo, seeds, next } = r;
            let mut data = data;
            if status == 200 {
                let ghost before = image_views(data.images@);
                assert(before[next as int] == data.images@[next as int]@);
                let camo_url = data.images[next].camo_url.clone();
                data.images.push(ScrapeImage { url: candidate, camo_url });
                assert(image_views(data.images@) =~= before.push(
                    ImageView { url: candidate@, camo_url: camo_url@ },
                ));
            }
            let step = probe_next(Refinement { data, camo, seeds, next: next + 1 });
            proof {
                lemma_probe_well_formed(
                    RefinementView {
                        data: data@,
                        camo: camo@,
                        seeds: seeds as nat,
                        next: (next + 1) as nat,
                    },
                );
            }
            step
        },
        (DeviantArtJob::OldHires(r, address), DeviantArtAnswer::Location(location)) => {
            proof {
                use_type_invariant(&r);
            }
            let Refinement { data, camo, seeds, next } = r;
            let mut data = data;
            match location {
                None => {},
                Some(text) => match Link::parse(text.as_str()) {
                    Err(failure) => {
                        let failure = failure.context(
                            "new old_hires location is not valid URL",
                        ).context("old_hires conversion failed");
                        assert(failure@ =~= seq![
                            plain("old_hires conversion failed"@),
                            plain("new old_hires location is not valid URL"@),
                        ] + parsed(text@)->Err_0);
                        return DeviantArtStep::Done(Err(failure));
                    },
                    Ok(link) => {
                        let ghost before = image_views(data.images@);
                        data.images.push(ScrapeImage { url: link, camo_url: camo });
                        assert(image_views(data.images@) =~= before.push(
                            ImageView { url: link@, camo_url: camo@ },
                        ));
                    },
                },
            }
            DeviantArtStep::Done(Ok(Some(ScrapeResult::Found(data))))
        },
        (job, _) => DeviantArtStep::Next(job),
    }
}

/// Looking for intermediary copies never ends the scrape with a record.
proof fn lemma_probe_well_formed(r: RefinementView)
    ensures
        !(probe_from(r) matches StepView::Done(Ok(_))),
    decreases r.seeds - r.next,
{
    if !(r.next >= r.seeds || r.next >= r.data.images.len()) {
        if intermediary_outcome(r.data.images[r.next as int].url.text) == Ok::<
            Option<LinkView>,
            Seq<CauseView>,
        >(None) {
            lemma_probe_well_formed(RefinementView { next: r.next + 1, ..r });
        }
    }
}

/// Whether the image proxy serves every one of `images` under `camo`.
pub open spec fn served_as(images: Seq<ImageView>, camo: LinkView) -> bool {
    forall|i: int| 0 <= i < images.len() ==> (#[trigger] images[i]).camo_url == camo
}

/// Whether the image proxy serves every image that `job` has collected
/// under the address under which it serves the image of the page.
pub open spec fn job_served(job: JobView) -> bool {
    match job {
        JobView::Page(_) => true,
        JobView::Intermediary(r, _) => served_as(r.data.images, r.camo),
        JobView::OldHires(r, _) => served_as(r.data.images, r.camo),
    }
}

/// Whether `step` keeps to the image proxy's address `camo`: the images
/// collected so far, or those of the final record, are all served under
/// it.
pub open spec fn step_served(step: StepView, camo: LinkView) -> bool {
    match step {
        StepView::Next(JobView::Page(_)) => true,
        StepView::Next(JobView::Intermediary(r, _)) => r.camo == camo && served_as(
            r.data.images,
            camo,
        ),
        StepView::Next(JobView::OldHires(r, _)) => r.camo == camo && served_as(
            r.data.images,
            camo,
        ),
        StepView::Done(Ok(Some(OutcomeView::Found(data)))) => served_as(data.images, camo),
        StepView::Done(_) => true,
    }
}

proof fn lemma_new_hires_served(seeds: Seq<ImageView>, n: int, camo: LinkView)
    requires
        0 <= n <= seeds.len(),
        served_as(seeds, camo),
    ensures
        new_hires(seeds, n) matches Ok(more) ==> served_as(more, camo),
    decreases n,
{
    if n > 0 {
        lemma_new_hires_served(seeds, n - 1, camo);
        assert(seeds[n - 1].camo_url == camo);
    }
}

proof fn lemma_probe_from_served(r: RefinementView)
    requires
        served_as(r.data.images, r.camo),
    ensures
        step_served(probe_from(r), r.camo),
    decreases r.seeds - r.next,
{
    if !(r.next >= r.seeds || r.next >= r.data.images.len()) {
        lemma_probe_from_served(RefinementView { next: r.next + 1, ..r });
    }
}

/// However a scrape of a deviation goes on, the image proxy serves every
/// image of its record as it serves the image of the page: each better
/// copy under the address of the image that it is a copy of. The image of
/// the page itself is served under the address that the settings give its
/// own address.
pub proof fn lemma_deviantart_served(config: Configuration, job: JobView, answer: DeviantArtAnswer)
    requires
        job_served(job),
    ensures
        match job {
            JobView::Page(_) => match answer {
                DeviantArtAnswer::Body(body) => extracted(config, body@) matches Ok(
                    (data, camo),
                ) ==> step_served(deviantart_next(config, job, answer), camo) && camo_of(
                    config,
                    data.images[0].url,
                ) == Ok::<LinkView, Seq<CauseView>>(camo),
                _ => true,
            },
            JobView::Intermediary(r, _) => step_served(
                deviantart_next(config, job, answer),
                r.camo,
            ),
            JobView::OldHires(r, _) => step_served(deviantart_next(config, job, answer), r.camo),
        },
{
    match (job, answer) {
        (JobView::Page(_), DeviantArtAnswer::Body(body)) => {
            if let Ok((data, camo)) = extracted(config, body@) {
                lemma_new_hires_served(data.images, data.images.len() as int, camo);
                if let Ok(more) = new_hires(data.images, data.images.len() as int) {
                    lemma_probe_from_served(
                        RefinementView {
                            data: DataView { images: data.images + more, ..data },
                            camo,
                            seeds: (data.images + more).len(),
                            next: 0,
                        },
                    );
                }
            }
        },
        (JobView::Intermediary(r, candidate), DeviantArtAnswer::Status(status)) => {
            if !(r.next >= r.seeds || r.next >= r.data.images.len()) {
                let images = if status == 200 {
                    r.data.images.push(
                        ImageView {
                            url: candidate,
                            camo_url: r.data.images[r.next as int].camo_url,
                        },
                    )
                } else {
                    r.data.images
                };
                lemma_probe_from_served(
                    RefinementView {
                        data: DataView { images, ..r.data },
                        next: r.next + 1,
                        ..r
                    },
                );
            }
        },
        _ => {},
    }
}

/// Whether the record that `job` has collected shows an image and has
/// neither tags nor description.
pub open spec fn job_well_formed(job: JobView) -> bool {
    match job {
        JobView::Page(_) => true,
        JobView::Intermediary(r, _) => bare_record(r.data),
        JobView::OldHires(r, _) => bare_record(r.data),
    }
}

/// Whether a record shows an image and has neither tags nor description.
pub open spec fn bare_record(data: DataView) -> bool {
    data.images.len() > 0 && data.additional_tags is None && data.description is None
}

/// Whether the record that `step` has collected or ends with shows an
/// image and has neither tags nor description.
pub open spec fn step_well_formed(step: StepView) -> bool {
    match step {
        StepView::Next(job) => job_well_formed(job),
        StepView::Done(Ok(Some(OutcomeView::Found(data)))) => bare_record(data),
        StepView::Done(_) => true,
    }
}

proof fn lemma_probe_from_bare(r: RefinementView)
    requires
        bare_record(r.data),
    ensures
        step_well_formed(probe_from(r)),
    decreases r.seeds - r.next,
{
    if !(r.next >= r.seeds || r.next >= r.data.images.len()) {
        lemma_probe_from_bare(RefinementView { next: r.next + 1, ..r });
    }
}

/// However a scrape of a deviation goes on, its record shows at least one
/// image and has neither tags nor description.
pub proof fn lemma_deviantart_well_formed(
    config: Configuration,
    job: JobView,
    answer: DeviantArtAnswer,
)
    requires
        job_well_formed(job),
    ensures
        step_well_formed(deviantart_next(config, job, answer)),
        deviantart_next(config, job, answer) matches StepView::Done(
            Ok(Some(OutcomeView::Found(data))),
        ) ==> data.well_formed(),
{
    match (job, answer) {
        (JobView::Page(_), DeviantArtAnswer::Body(body)) => {
            if let Ok((data, camo)) = extracted(config, body@) {
                if let Ok(more) = new_hires(data.images, data.images.len() as int) {
                    lemma_probe_from_bare(
                        RefinementView {
                            data: DataView { images: data.images + more, ..data },
                            camo,
                            seeds: (data.images + more).len(),
                            next: 0,
                        },
                    );
                }
            }
        },
        (JobView::Intermediary(r, candidate), DeviantArtAnswer::Status(status)) => {
            if !(r.next >= r.seeds || r.next >= r.data.images.len()) {
                let images = if status == 200 {
                    r.data.images.push(
                        ImageView {
                            url: candidate,
                            camo_url: r.data.images[r.next as int].camo_url,
                        },
                    )
                } else {
                    r.data.images
                };
                lemma_probe_from_bare(
                    RefinementView {
                        data: DataView { images, ..r.data },
                        next: r.next + 1,
                        ..r
                    },
                );
            }
        },
        _ => {},
    }
}

} // verus!
