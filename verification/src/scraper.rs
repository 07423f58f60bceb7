//! The normalized record that every provider produces, and the choice of
//! the provider that owns a URL.

pub mod buzzly;
pub mod deviantart;
pub mod nitter;
pub mod philomena;
pub mod raw;
pub mod tumblr;
pub mod twitter;
pub mod twitterv2;

use vstd::prelude::*;
use crate::failure::{plain, shown_messages, visible_messages, CauseView, Failure};
use crate::link::{clone_opt_link, opt_link, parsed, Link, LinkView};
use crate::camo::camo_of;
use crate::config::Configuration;
use crate::text::{ascending, blank, clone_opt_text, clone_texts, opt_text, same_text, texts};

verus! {

/// One media artifact: where it lives upstream and where the image proxy
/// serves it.
#[derive(Debug, PartialEq, Eq)]
pub struct ScrapeImage {
    pub url: Link,
    pub camo_url: Link,
}

/// The mathematical content of a [`ScrapeImage`].
pub struct ImageView {
    pub url: LinkView,
    pub camo_url: LinkView,
}

impl View for ScrapeImage {
    type V = ImageView;

    open spec fn view(&self) -> ImageView {
        ImageView { url: self.url@, camo_url: self.camo_url@ }
    }
}

impl Clone for ScrapeImage {
    fn clone(&self) -> (out: Self)
        ensures
            out@ == self@,
    {
        ScrapeImage { url: self.url.clone(), camo_url: self.camo_url.clone() }
    }
}

/// The views of a list of images.
pub open spec fn image_views(images: Seq<ScrapeImage>) -> Seq<ImageView> {
    images.map_values(|i: ScrapeImage| i@)
}

/// A copy of a list of images.
pub fn clone_images(images: &Vec<ScrapeImage>) -> (out: Vec<ScrapeImage>)
    ensures
        image_views(out@) == image_views(images@),
{
    let mut out: Vec<ScrapeImage> = Vec::new();
    let mut i: usize = 0;
    while i < images.len()
        invariant
            i <= images.len(),
            out.len() == i,
            forall|k: int| 0 <= k < i ==> out@[k]@ == images@[k]@,
        decreases images.len() - i,
    {
        out.push(images[i].clone());
        i += 1;
    }
    assert(image_views(out@) =~= image_views(images@));
    out
}

/// A normalized hit.
#[derive(Debug, PartialEq, Eq)]
pub struct ScrapeResultData {
    pub source_url: Option<Link>,
    pub author_name: Option<String>,
    pub additional_tags: Option<Vec<String>>,
    pub description: Option<String>,
    pub images: Vec<ScrapeImage>,
}

/// The mathematical content of a [`ScrapeResultData`].
pub struct DataView {
    pub source_url: Option<LinkView>,
    pub author_name: Option<Seq<char>>,
    pub additional_tags: Option<Seq<Seq<char>>>,
    pub description: Option<Seq<char>>,
    pub images: Seq<ImageView>,
}

impl DataView {
    /// What holds of every record that a provider hands out: it shows at
    /// least one image; its tags, where it has any, are a non-empty
    /// ascending list; its description, where it has one, is more than
    /// whitespace.
    pub open spec fn well_formed(self) -> bool {
        &&& self.images.len() > 0
        &&& self.additional_tags matches Some(tags) ==> tags.len() > 0 && ascending(tags)
        &&& self.description matches Some(d) ==> !blank(d)
    }

    /// Whether every image of the record is served by the image proxy
    /// under the address that these settings give its own address.
    pub open spec fn proxied(self, config: Configuration) -> bool {
        forall|i: int|
            0 <= i < self.images.len() ==> camo_of(config, (#[trigger] self.images[i]).url)
                == Ok::<LinkView, Seq<CauseView>>(self.images[i].camo_url)
    }
}

impl View for ScrapeResultData {
    type V = DataView;

    open spec fn view(&self) -> DataView {
        DataView {
            source_url: opt_link(self.source_url),
            author_name: opt_text(self.author_name),
            additional_tags: match self.additional_tags {
                Some(tags) => Some(texts(tags@)),
                None => None,
            },
            description: opt_text(self.description),
            images: image_views(self.images@),
        }
    }
}

impl Clone for ScrapeResultData {
    fn clone(&self) -> (out: Self)
        ensures
            out@ == self@,
    {
        ScrapeResultData {
            source_url: clone_opt_link(&self.source_url),
            author_name: clone_opt_text(&self.author_name),
            additional_tags: match &self.additional_tags {
                Some(tags) => Some(clone_texts(tags)),
                None => None,
            },
            description: clone_opt_text(&self.description),
            images: clone_images(&self.images),
        }
    }
}

/// What a caller is told when a scrape went wrong.
#[derive(Debug, PartialEq, Eq)]
pub struct ScrapeResultError {
    pub errors: Vec<String>,
}

impl View for ScrapeResultError {
    type V = Seq<Seq<char>>;

    open spec fn view(&self) -> Seq<Seq<char>> {
        texts(self.errors@)
    }
}

impl Clone for ScrapeResultError {
    fn clone(&self) -> (out: Self)
        ensures
            out@ == self@,
    {
        ScrapeResultError { errors: clone_texts(&self.errors) }
    }
}

impl From<String> for ScrapeResultError {
    /// The error that shows the one message `f`.
    fn from(f: String) -> (out: Self)
        ensures
            out@ == seq![f@],
    {
        let mut errors: Vec<String> = Vec::new();
        errors.push(f);
        let out = ScrapeResultError { errors };
        assert(out@ =~= seq![f@]);
        out
    }
}

impl vstd::std_specs::convert::FromSpecImpl<String> for ScrapeResultError {
    /// The conversion is specified by the `ensures` of `from`, over views:
    /// a list of strings has no value in specifications to compare with.
    open spec fn obeys_from_spec() -> bool {
        false
    }

    open spec fn from_spec(f: String) -> Self {
        arbitrary()
    }
}

/// The outcome of a scrape as callers see it.
#[derive(Debug, PartialEq, Eq)]
pub enum ScrapeResult {
    /// The scrape went wrong in a way the caller should see.
    Failed(ScrapeResultError),
    /// The scrape found media.
    Found(ScrapeResultData),
    /// There was nothing to return.
    Nothing,
}

/// The mathematical content of a [`ScrapeResult`].
pub enum OutcomeView {
    Failed(Seq<Seq<char>>),
    Found(DataView),
    Nothing,
}

impl View for ScrapeResult {
    type V = OutcomeView;

    open spec fn view(&self) -> OutcomeView {
        match self {
            ScrapeResult::Failed(e) => OutcomeView::Failed(e@),
            ScrapeResult::Found(d) => OutcomeView::Found(d@),
            ScrapeResult::Nothing => OutcomeView::Nothing,
        }
    }
}

impl Clone for ScrapeResult {
    fn clone(&self) -> (out: Self)
        ensures
            out@ == self@,
    {
        match self {
            ScrapeResult::Failed(e) => ScrapeResult::Failed(e.clone()),
            ScrapeResult::Found(d) => ScrapeResult::Found(d.clone()),
            ScrapeResult::Nothing => ScrapeResult::Nothing,
        }
    }
}

impl Default for ScrapeResult {
    fn default() -> (out: Self)
        ensures
            out@ == OutcomeView::Nothing,
    {
        ScrapeResult::Nothing
    }
}

impl ScrapeResult {
    /// The error outcome for a failure: one message for each cause of the
    /// chain that the HTTP transport did not report, outermost first; the
    /// one message that the request failed where it reported them all.
    pub fn from_err(e: &Failure) -> (out: ScrapeResult)
        ensures
            out@ == OutcomeView::Failed(shown_messages(e@)),
            out@ matches OutcomeView::Failed(m) && m.len() > 0 && (visible_messages(e@).len() > 0
                ==> m == visible_messages(e@)),
    {
        let mut errors = e.messages();
        if errors.len() == 0 {
            errors.push("request failed".to_owned());
            assert(texts(errors@) =~= seq!["request failed"@]);
        }
        ScrapeResult::Failed(ScrapeResultError { errors })
    }
}

/// The views of an optional outcome.
pub open spec fn opt_outcome(o: Option<ScrapeResult>) -> Option<OutcomeView> {
    match o {
        Some(r) => Some(r@),
        None => None,
    }
}

/// The view of what a provider returns.
pub open spec fn scrape_view(r: Result<Option<ScrapeResult>, Failure>) -> Result<
    Option<OutcomeView>,
    Seq<CauseView>,
> {
    match r {
        Ok(o) => Ok(opt_outcome(o)),
        Err(f) => Err(f@),
    }
}

/// The providers, in the canonical order that decides between them.
#[derive(Debug, Clone, Copy, PartialEq, Eq, PartialOrd, Ord, Structural)]
pub enum Scraper {
    Twitter,
    Nitter,
    Tumblr,
    DeviantArt,
    Philomena,
    Buzzly,
    Raw,
}

impl Scraper {
    /// The place of the provider in the canonical order.
    pub open spec fn ordinal(self) -> nat {
        match self {
            Scraper::Twitter => 0,
            Scraper::Nitter => 1,
            Scraper::Tumblr => 2,
            Scraper::DeviantArt => 3,
            Scraper::Philomena => 4,
            Scraper::Buzzly => 5,
            Scraper::Raw => 6,
        }
    }

    /// The name of the provider.
    pub open spec fn name(self) -> Seq<char> {
        match self {
            Scraper::Twitter => "twitter"@,
            Scraper::Nitter => "nitter"@,
            Scraper::Tumblr => "tumblr"@,
            Scraper::DeviantArt => "deviantart"@,
            Scraper::Philomena => "philomena"@,
            Scraper::Buzzly => "buzzly"@,
            Scraper::Raw => "raw"@,
        }
    }

    /// How a failure of the provider is described one level further out.
    pub open spec fn failure_context(self) -> Seq<char> {
        match self {
            Scraper::Twitter => "Twitter parser failed"@,
            Scraper::Nitter => "Nitter parser failed"@,
            Scraper::Tumblr => "Tumblr parser failed"@,
            Scraper::DeviantArt => "DeviantArt parser failed"@,
            Scraper::Philomena => "Philomena parser failed"@,
            Scraper::Buzzly => "Buzzly parser failed"@,
            Scraper::Raw => "Raw parser failed"@,
        }
    }

    /// The place of the provider in the canonical order.
    pub fn rank(self) -> (r: u8)
        ensures
            r == self.ordinal(),
    {
        match self {
            Scraper::Twitter => 0,
            Scraper::Nitter => 1,
            Scraper::Tumblr => 2,
            Scraper::DeviantArt => 3,
            Scraper::Philomena => 4,
            Scraper::Buzzly => 5,
            Scraper::Raw => 6,
        }
    }

    /// The name of the provider.
    pub fn to_string(&self) -> (out: String)
        ensures
            out@ == self.name(),
    {
        match self {
            Scraper::Twitter => "twitter",
            Scraper::Nitter => "nitter",
            Scraper::Tumblr => "tumblr",
            Scraper::DeviantArt => "deviantart",
            Scraper::Philomena => "philomena",
            Scraper::Buzzly => "buzzly",
            Scraper::Raw => "raw",
        }.to_owned()
    }

    /// A failure of the provider, described one level further out.
    pub fn failed(self, failure: Failure) -> (out: Failure)
        ensures
            out@ == seq![plain(self.failure_context())] + failure@,
    {
        let context = match self {
            Scraper::Twitter => "Twitter parser failed",
            Scraper::Nitter => "Nitter parser failed",
            Scraper::Tumblr => "Tumblr parser failed",
            Scraper::DeviantArt => "DeviantArt parser failed",
            Scraper::Philomena => "Philomena parser failed",
            Scraper::Buzzly => "Buzzly parser failed",
            Scraper::Raw => "Raw parser failed",
        };
        failure.context(context)
    }

    /// The provider that stands first in the canonical order among
    /// `matches`, if there is any.
    pub fn lowest(matches: &Vec<Scraper>) -> (out: Option<Scraper>)
        ensures
            match out {
                None => matches@.len() == 0,
                Some(s) => matches@.contains(s) && forall|i: int|
                    0 <= i < matches@.len() ==> s.ordinal() <= (#[trigger] matches@[i]).ordinal(),
            },
    {
        if matches.len() == 0 {
            return None;
        }
        let mut best: Scraper = matches[0];
        let mut i: usize = 1;
        while i < matches.len()
            invariant
                1 <= i <= matches.len(),
                matches@.contains(best),
                forall|k: int| 0 <= k < i ==> best.ordinal() <= (#[trigger] matches@[k]).ordinal(),
            decreases matches.len() - i,
        {
            if matches[i].rank() < best.rank() {
                best = matches[i];
            }
            i += 1;
        }
        Some(best)
    }
}

/// What a classifier answered for a URL: whether its provider owns the
/// URL, or why it could not tell.
pub open spec fn verdict(check: Result<bool, Failure>) -> Result<bool, Seq<CauseView>> {
    match check {
        Ok(matched) => Ok(matched),
        Err(failure) => Err(failure@),
    }
}

/// The answers of the classifiers that cost no request of their own.
#[derive(Debug, PartialEq, Eq)]
pub struct CheapChecks {
    pub twitter: Result<bool, Failure>,
    pub nitter: Result<bool, Failure>,
    pub tumblr: Result<bool, Failure>,
    pub deviantart: Result<bool, Failure>,
    pub philomena: Result<bool, Failure>,
    pub buzzly: Result<bool, Failure>,
}

impl CheapChecks {
    /// The answers in canonical order, each with its provider.
    pub open spec fn answers(self) -> Seq<(Scraper, Result<bool, Seq<CauseView>>)> {
        seq![
            (Scraper::Twitter, verdict(self.twitter)),
            (Scraper::Nitter, verdict(self.nitter)),
            (Scraper::Tumblr, verdict(self.tumblr)),
            (Scraper::DeviantArt, verdict(self.deviantart)),
            (Scraper::Philomena, verdict(self.philomena)),
            (Scraper::Buzzly, verdict(self.buzzly)),
        ]
    }

    /// Whether the classifier of `scraper` said that its provider owns the
    /// URL.
    pub open spec fn matched(self, scraper: Scraper) -> bool {
        exists|i: int|
            0 <= i < self.answers().len() && #[trigger] self.answers()[i] == (
                scraper,
                Ok::<bool, Seq<CauseView>>(true),
            )
    }
}

/// What follows from the answers of the cheap classifiers.
pub enum Selection {
    /// A classifier failed: the scrape fails with it.
    Failed(Seq<CauseView>),
    /// This provider owns the URL.
    Chosen(Scraper),
    /// No provider claimed the URL: the raw classifier has to probe it.
    ProbeRaw,
}

/// The first failure among `answers[from..]`.
pub open spec fn first_failure(
    answers: Seq<(Scraper, Result<bool, Seq<CauseView>>)>,
    from: int,
) -> Option<Seq<CauseView>>
    decreases answers.len() - from,
{
    if from < 0 || from >= answers.len() {
        None
    } else {
        match answers[from].1 {
            Err(chain) => Some(chain),
            Ok(_) => first_failure(answers, from + 1),
        }
    }
}

/// The first provider among `answers[from..]` whose classifier matched.
pub open spec fn first_match(
    answers: Seq<(Scraper, Result<bool, Seq<CauseView>>)>,
    from: int,
) -> Option<Scraper>
    decreases answers.len() - from,
{
    if from < 0 || from >= answers.len() {
        None
    } else if answers[from].1 == Ok::<bool, Seq<CauseView>>(true) {
        Some(answers[from].0)
    } else {
        first_match(answers, from + 1)
    }
}

/// What follows from the answers of the cheap classifiers: the first
/// failure in canonical order if any classifier failed; else the first
/// provider in canonical order whose classifier matched; else a probe by
/// the raw classifier.
pub open spec fn selection(checks: CheapChecks) -> Selection {
    match first_failure(checks.answers(), 0) {
        Some(chain) => Selection::Failed(chain),
        None => match first_match(checks.answers(), 0) {
            Some(scraper) => Selection::Chosen(scraper),
            None => Selection::ProbeRaw,
        },
    }
}

/// What remains to be done for a scrape, by whoever can reach the
/// network.
#[derive(Debug, PartialEq, Eq)]
pub enum Pending {
    /// Run the cheap classifiers on the URL.
    Classify(Link),
    /// Let the raw classifier probe the URL.
    Probe(Link),
    /// Let the provider scrape the URL.
    Execute(Scraper, Link),
}

/// What came of the work that was pending.
#[derive(Debug, PartialEq, Eq)]
pub enum Event {
    /// The cheap classifiers answered.
    Classified(CheapChecks),
    /// The raw classifier answered.
    Probed(Result<bool, Failure>),
    /// The provider returned.
    Scraped(Result<Option<ScrapeResult>, Failure>),
}

/// How a scrape goes on.
#[derive(Debug, PartialEq, Eq)]
pub enum Step {
    /// More work is pending.
    Next(Pending),
    /// The scrape has ended with this outcome.
    Done(Result<Option<ScrapeResult>, Failure>),
}

/// Begins the scrape of `url`: fails if it is no absolute URL, else asks
/// for the cheap classifiers.
pub fn scrape(url: &str) -> (step: Step)
    ensures
        match parsed(url@) {
            Ok(link) => step matches Step::Next(Pending::Classify(l)) && l@ == link,
            Err(chain) => step matches Step::Done(Err(failure)) && failure@ == seq![
                plain("could not parse URL for scraper"@),
            ] + chain,
        },
{
    match Link::parse(url) {
        Ok(link) => Step::Next(Pending::Classify(link)),
        Err(failure) => Step::Done(Err(failure.context("could not parse URL for scraper"))),
    }
}

/// Picks the provider from the answers of the cheap classifiers.
fn get_scraper(checks: CheapChecks) -> (r: Result<Option<Scraper>, Failure>)
    ensures
        match selection(checks) {
            Selection::Failed(chain) => r matches Err(failure) && failure@ == chain,
            Selection::Chosen(scraper) => r == Ok::<Option<Scraper>, Failure>(Some(scraper)),
            Selection::ProbeRaw => r == Ok::<Option<Scraper>, Failure>(None),
        },
{
    reveal_with_fuel(first_failure, 7);
    reveal_with_fuel(first_match, 7);
    let twitter = match checks.twitter {
        Ok(matched) => matched,
        Err(failure) => {
            return Err(failure);
        },
    };
    let nitter = match checks.nitter {
        Ok(matched) => matched,
        Err(failure) => {
            return Err(failure);
        },
    };
    let tumblr = match checks.tumblr {
        Ok(matched) => matched,
        Err(failure) => {
            return Err(failure);
        },
    };
    let deviantart = match checks.deviantart {
        Ok(matched) => matched,
        Err(failure) => {
            return Err(failure);
        },
    };
    let philomena = match checks.philomena {
        Ok(matched) => matched,
        Err(failure) => {
            return Err(failure);
        },
    };
    let buzzly = match checks.buzzly {
        Ok(matched) => matched,
        Err(failure) => {
            return Err(failure);
        },
    };
    let mut matches: Vec<Scraper> = Vec::new();
    if twitter {
        matches.push(Scraper::Twitter);
    }
    if nitter {
        matches.push(Scraper::Nitter);
    }
    if tumblr {
        matches.push(Scraper::Tumblr);
    }
    if deviantart {
        matches.push(Scraper::DeviantArt);
    }
    if philomena {
        matches.push(Scraper::Philomena);
    }
    if buzzly {
        matches.push(Scraper::Buzzly);
    }
    assert(forall|s: Scraper|
        matches@.contains(s) <==> (s == Scraper::Twitter && twitter) || (s == Scraper::Nitter
            && nitter) || (s == Scraper::Tumblr && tumblr) || (s == Scraper::DeviantArt
            && deviantart) || (s == Scraper::Philomena && philomena) || (s == Scraper::Buzzly
            && buzzly)) by {
        assert forall|s: Scraper| matches@.contains(s) implies (s == Scraper::Twitter && twitter)
            || (s == Scraper::Nitter && nitter) || (s == Scraper::Tumblr && tumblr) || (s
            == Scraper::DeviantArt && deviantart) || (s == Scraper::Philomena && philomena) || (s
            == Scraper::Buzzly && buzzly) by {
            let k = choose|k: int| 0 <= k < matches@.len() && matches@[k] == s;
        }
        if twitter {
            assert(matches@[0] == Scraper::Twitter);
        }
        let n1: int = if twitter { 1 } else { 0 };
        if nitter {
            assert(matches@[n1] == Scraper::Nitter);
        }
        let n2: int = if nitter { n1 + 1 } else { n1 };
        if tumblr {
            assert(matches@[n2] == Scraper::Tumblr);
        }
        let n3: int = if tumblr { n2 + 1 } else { n2 };
        if deviantart {
            assert(matches@[n3] == Scraper::DeviantArt);
        }
        let n4: int = if deviantart { n3 + 1 } else { n3 };
        if philomena {
            assert(matches@[n4] == Scraper::Philomena);
        }
        let n5: int = if philomena { n4 + 1 } else { n4 };
        if buzzly {
            assert(matches@[n5] == Scraper::Buzzly);
        }
    }
    let chosen = Scraper::lowest(&matches);
    proof {
        if chosen is Some {
            let s = chosen->0;
            assert(matches@.contains(s));
            if twitter {
                assert(matches@.contains(Scraper::Twitter));
            }
            if nitter {
                assert(matches@.contains(Scraper::Nitter));
            }
            if tumblr {
                assert(matches@.contains(Scraper::Tumblr));
            }
            if deviantart {
                assert(matches@.contains(Scraper::DeviantArt));
            }
            if philomena {
                assert(matches@.contains(Scraper::Philomena));
            }
        }
    }
    Ok(chosen)
}

/// Goes on with a scrape once the pending work has been done.
///
/// After the cheap classifiers: the scrape fails if one of them failed;
/// else the provider that stands first in the canonical order among those
/// that matched scrapes the URL; only if none matched, the raw classifier
/// probes it. After that probe: the raw provider scrapes the URL if the
/// probe matched; else there is nothing to return. After the provider:
/// the scrape ends with what it returned, a failure described as the
/// failure of that provider. An event that does not answer the pending
/// work changes nothing.
pub fn resume(pending: Pending, event: Event) -> (step: Step)
    ensures
        match (pending, event) {
            (Pending::Classify(link), Event::Classified(checks)) => match selection(checks) {
                Selection::Failed(chain) => step matches Step::Done(Err(failure)) && failure@
                    == chain,
                Selection::Chosen(scraper) => step matches Step::Next(Pending::Execute(s, l))
                    && s == scraper && l@ == link@,
                Selection::ProbeRaw => step matches Step::Next(Pending::Probe(l)) && l@ == link@,
            },
            (Pending::Probe(link), Event::Probed(Ok(true))) => step matches Step::Next(
                Pending::Execute(Scraper::Raw, l),
            ) && l@ == link@,
            (Pending::Probe(link), Event::Probed(Ok(false))) => step matches Step::Done(Ok(None)),
            (Pending::Probe(link), Event::Probed(Err(failure))) => step matches Step::Done(
                Err(f),
            ) && f@ == failure@,
            (Pending::Execute(scraper, link), Event::Scraped(Ok(outcome))) => step == Step::Done(
                Ok(outcome),
            ),
            (Pending::Execute(scraper, link), Event::Scraped(Err(failure))) => step matches Step::Done(
                Err(f),
            ) && f@ == seq![plain(scraper.failure_context())] + failure@,
            _ => step == Step::Next(pending),
        },
{
    match (pending, event) {
        (Pending::Classify(link), Event::Classified(checks)) => match get_scraper(checks) {
            Err(failure) => Step::Done(Err(failure)),
            Ok(Some(scraper)) => Step::Next(Pending::Execute(scraper, link)),
            Ok(None) => Step::Next(Pending::Probe(link)),
        },
        (Pending::Probe(link), Event::Probed(probe)) => match probe {
            Ok(true) => Step::Next(Pending::Execute(Scraper::Raw, link)),
            Ok(false) => Step::Done(Ok(None)),
            Err(failure) => Step::Done(Err(failure)),
        },
        (Pending::Execute(scraper, link), Event::Scraped(scraped)) => match scraped {
            Ok(outcome) => Step::Done(Ok(outcome)),
            Err(failure) => Step::Done(Err(scraper.failed(failure))),
        },
        (pending, _) => Step::Next(pending),
    }
}

/// Of the providers whose cheap classifiers matched, the one that is
/// chosen stands first in the canonical order.
pub proof fn lemma_chosen_is_lowest(checks: CheapChecks, chosen: Scraper)
    requires
        selection(checks) == Selection::Chosen(chosen),
    ensures
        checks.matched(chosen),
        forall|other: Scraper| checks.matched(other) ==> chosen.ordinal() <= other.ordinal(),
{
    reveal_with_fuel(first_failure, 7);
    reveal_with_fuel(first_match, 7);
    let answers = checks.answers();
    assert(exists|i: int|
        0 <= i < answers.len() && #[trigger] answers[i] == (
            chosen,
            Ok::<bool, Seq<CauseView>>(true),
        )) by {
        let i = chosen.ordinal() as int;
        assert(answers[i] == (chosen, Ok::<bool, Seq<CauseView>>(true)));
    }
    assert forall|other: Scraper| checks.matched(other) implies chosen.ordinal()
        <= other.ordinal() by {
        let i = choose|i: int|
            0 <= i < answers.len() && #[trigger] answers[i] == (
                other,
                Ok::<bool, Seq<CauseView>>(true),
            );
        assert(i == other.ordinal());
    }
}

/// The raw classifier probes a URL only if no cheap classifier matched.
pub proof fn lemma_probe_only_without_match(checks: CheapChecks, matched: Scraper)
    requires
        checks.matched(matched),
    ensures
        selection(checks) != Selection::ProbeRaw,
{
    reveal_with_fuel(first_failure, 7);
    reveal_with_fuel(first_match, 7);
    let answers = checks.answers();
    let i = choose|i: int|
        0 <= i < answers.len() && #[trigger] answers[i] == (
            matched,
            Ok::<bool, Seq<CauseView>>(true),
        );
    assert(answers[i].1 == Ok::<bool, Seq<CauseView>>(true));
}

/// How far an HTTP client follows redirects.
#[derive(Debug, Clone, Copy, PartialEq, Eq, Structural)]
pub enum RedirectPolicy {
    /// Not at all.
    Never,
    /// Through at most this many.
    Limited(usize),
}

/// How the HTTP client of the providers is to be built.
#[derive(Debug, PartialEq, Eq)]
pub struct ClientSettings {
    /// Milliseconds that a whole request may take.
    pub timeout_ms: u64,
    /// Milliseconds that connecting may take.
    pub connect_timeout_ms: u64,
    /// What the client calls itself; some providers answer by it.
    pub user_agent: String,
    /// Whether the client keeps cookies; some providers need them to
    /// survive their redirects.
    pub cookie_store: bool,
    pub redirect: RedirectPolicy,
    /// The proxy for all requests, if there is one.
    pub proxy: Option<Link>,
}

/// Whether a proxy can be reached by this scheme.
pub open spec fn proxy_scheme(scheme: Seq<char>) -> bool {
    ||| scheme == "http"@
    ||| scheme == "https"@
    ||| scheme == "socks"@
    ||| scheme == "socks5"@
}

/// The proxy that the settings ask for, or why they ask for none that
/// can be used.
pub open spec fn proxy_outcome(proxy_url: Option<Seq<char>>) -> Result<
    Option<LinkView>,
    Seq<CauseView>,
> {
    match proxy_url {
        None => Ok(None),
        Some(text) => match parsed(text) {
            Err(chain) => Err(chain),
            Ok(link) => if proxy_scheme(link.scheme) {
                Ok(Some(link))
            } else {
                Err(
                    seq![
                        plain(
                            "unknown client proxy protocol, specify http, https, socks or socks5"@,
                        ),
                    ],
                )
            },
        },
    }
}

/// How to build the HTTP client of the providers under these settings,
/// with the given way of following redirects: five seconds for a
/// request, half of that to connect, cookies kept, and the proxy of the
/// settings if its scheme is one of `http`, `https`, `socks`, `socks5`.
pub fn client_with_redir_limit(config: &Configuration, redir_policy: RedirectPolicy) -> (r: Result<
    ClientSettings,
    Failure,
>)
    ensures
        match proxy_outcome(opt_text(config.proxy_url)) {
            Err(chain) => r matches Err(failure) && failure@ == chain,
            Ok(proxy) => r matches Ok(settings) && {
                &&& settings.timeout_ms == 5000
                &&& settings.connect_timeout_ms == 2500
                &&& settings.user_agent@ == "curl/7.83.1"@
                &&& settings.cookie_store
                &&& settings.redirect == redir_policy
                &&& opt_link(settings.proxy) == proxy
            },
        },
{
    let proxy = match &config.proxy_url {
        None => None,
        Some(text) => {
            let link = match Link::parse(text.as_str()) {
                Ok(link) => link,
                Err(failure) => {
                    return Err(failure);
                },
            };
            let scheme = link.scheme();
            if same_text(scheme, "http") || same_text(scheme, "https") || same_text(
                scheme,
                "socks",
            ) || same_text(scheme, "socks5") {
                Some(link)
            } else {
                return Err(
                    Failure::new(
                        "unknown client proxy protocol, specify http, https, socks or socks5",
                    ),
                );
            }
        },
    };
    Ok(
        ClientSettings {
            timeout_ms: 5000,
            connect_timeout_ms: 2500,
            user_agent: "curl/7.83.1".to_owned(),
            cookie_store: true,
            redirect: redir_policy,
            proxy,
        },
    )
}

/// How to build the HTTP client of the providers under these settings: as
/// [`client_with_redir_limit`] says, following no redirect.
pub fn client(config: &Configuration) -> (r: Result<ClientSettings, Failure>)
    ensures
        match proxy_outcome(opt_text(config.proxy_url)) {
            Err(chain) => r matches Err(failure) && failure@ == chain,
            Ok(proxy) => r matches Ok(settings) && {
                &&& settings.timeout_ms == 5000
                &&& settings.connect_timeout_ms == 2500
                &&& settings.user_agent@ == "curl/7.83.1"@
                &&& settings.cookie_store
                &&& settings.redirect == RedirectPolicy::Never
                &&& opt_link(settings.proxy) == proxy
            },
        },
{
    client_with_redir_limit(config, RedirectPolicy::Never)
}

} // verus!
