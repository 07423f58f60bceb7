use philomena_scraper::failure::Failure;
use philomena_scraper::link::Link;
use philomena_scraper::scraper::buzzly::is_buzzlyart;
use philomena_scraper::scraper::deviantart::is_deviantart;
use philomena_scraper::scraper::nitter::is_nitter;
use philomena_scraper::scraper::philomena::is_philomena;
use philomena_scraper::scraper::raw::is_raw;
use philomena_scraper::scraper::tumblr::{is_tumblr, tumblr_resolved, TumblrCheck};
use philomena_scraper::scraper::twitter::is_twitter;
use philomena_scraper::scraper::{
    client, client_with_redir_limit, resume, scrape, CheapChecks, Event, Pending, RedirectPolicy,
    ScrapeResult, Scraper, Step,
};
use philomena_scraper::Configuration;

fn link(text: &str) -> Link {
    Link::parse(text).unwrap()
}

fn checks(matched: [bool; 6]) -> CheapChecks {
    CheapChecks {
        twitter: Ok(matched[0]),
        nitter: Ok(matched[1]),
        tumblr: Ok(matched[2]),
        deviantart: Ok(matched[3]),
        philomena: Ok(matched[4]),
        buzzly: Ok(matched[5]),
    }
}

const ORDER: [Scraper; 6] = [
    Scraper::Twitter,
    Scraper::Nitter,
    Scraper::Tumblr,
    Scraper::DeviantArt,
    Scraper::Philomena,
    Scraper::Buzzly,
];

/// What the cheap classifiers of this crate say of a URL.
fn classify(config: &Configuration, url: &Link) -> CheapChecks {
    CheapChecks {
        twitter: Ok(is_twitter(url)),
        nitter: Ok(is_nitter(config, url)),
        tumblr: Ok(is_tumblr(url, Some(false)) == TumblrCheck::Decided(true)),
        deviantart: Ok(is_deviantart(url)),
        philomena: Ok(is_philomena(url)),
        buzzly: Ok(is_buzzlyart(url)),
    }
}

#[test]
fn scrape_begins_with_the_cheap_classifiers() {
    assert_eq!(
        scrape("https://derpibooru.org/images/1426211"),
        Step::Next(Pending::Classify(link("https://derpibooru.org/images/1426211")))
    );
    match scrape("no url") {
        Step::Done(Err(failure)) => assert_eq!(
            failure.messages(),
            vec![
                "could not parse URL for scraper".to_string(),
                "relative URL without a base".to_string()
            ]
        ),
        other => panic!("unexpected step {:?}", other),
    }
}

#[test]
fn the_lowest_provider_wins_for_every_set_of_matches() {
    let url = link("https://example.com/");
    for mask in 0u32..64 {
        let matched = [
            mask & 1 != 0,
            mask & 2 != 0,
            mask & 4 != 0,
            mask & 8 != 0,
            mask & 16 != 0,
            mask & 32 != 0,
        ];
        let step = resume(Pending::Classify(url.clone()), Event::Classified(checks(matched)));
        let first = (0..6).find(|i| matched[*i]);
        match first {
            Some(i) => assert_eq!(step, Step::Next(Pending::Execute(ORDER[i], url.clone()))),
            None => assert_eq!(step, Step::Next(Pending::Probe(url.clone()))),
        }
    }
}

#[test]
fn lowest_of_a_list() {
    assert_eq!(Scraper::lowest(&vec![]), None);
    assert_eq!(Scraper::lowest(&vec![Scraper::Raw]), Some(Scraper::Raw));
    assert_eq!(
        Scraper::lowest(&vec![Scraper::Buzzly, Scraper::Tumblr, Scraper::Philomena, Scraper::Tumblr]),
        Some(Scraper::Tumblr)
    );
    let mut sorted = vec![Scraper::Buzzly, Scraper::Tumblr, Scraper::Philomena];
    sorted.sort();
    assert_eq!(Scraper::lowest(&sorted), Some(sorted[0]));
    let ranks: Vec<u8> = ORDER.iter().map(|s| s.rank()).collect();
    assert_eq!(ranks, vec![0, 1, 2, 3, 4, 5]);
    assert_eq!(Scraper::Raw.rank(), 6);
}

#[test]
fn a_failing_classifier_fails_the_scrape() {
    let url = link("https://example.com/");
    let mut answers = checks([true, true, true, true, true, true]);
    answers.tumblr = Err(Failure::new("dns lookup failed"));
    answers.buzzly = Err(Failure::new("later failure"));
    let step = resume(Pending::Classify(url), Event::Classified(answers));
    assert_eq!(step, Step::Done(Err(Failure::new("dns lookup failed"))));
}

#[test]
fn the_raw_probe_decides_when_nobody_matched() {
    let url = link("https://static.example.art/img/view/4010154.png");
    let config = Configuration::default();
    let step = resume(Pending::Classify(url.clone()), Event::Classified(classify(&config, &url)));
    assert_eq!(step, Step::Next(Pending::Probe(url.clone())));
    let matched = is_raw(200, Some("image/png"));
    let step = resume(Pending::Probe(url.clone()), Event::Probed(Ok(matched)));
    assert_eq!(step, Step::Next(Pending::Execute(Scraper::Raw, url.clone())));
    let outcome = philomena_scraper::scraper::raw::raw_scrape(&config, &url);
    let step = resume(Pending::Execute(Scraper::Raw, url.clone()), Event::Scraped(outcome));
    match step {
        Step::Done(Ok(Some(ScrapeResult::Found(data)))) => {
            assert_eq!(data.source_url, Some(url.clone()));
            assert_eq!(data.images.len(), 1);
            assert_eq!(data.images[0].url, url);
            assert_eq!(data.images[0].camo_url, url);
        }
        other => panic!("unexpected step {:?}", other),
    }
}

#[test]
fn an_unknown_url_has_no_provider() {
    let url = link("https://example.com/no-match");
    let config = Configuration::default();
    let step = resume(Pending::Classify(url.clone()), Event::Classified(classify(&config, &url)));
    assert_eq!(step, Step::Next(Pending::Probe(url.clone())));
    for matched in [is_raw(404, Some("image/png")), is_raw(200, Some("text/html"))] {
        assert!(!matched);
        let step = resume(Pending::Probe(url.clone()), Event::Probed(Ok(matched)));
        assert_eq!(step, Step::Done(Ok(None)));
    }
    let step = resume(Pending::Probe(url), Event::Probed(Err(Failure::transport("timed out"))));
    assert_eq!(step, Step::Done(Err(Failure::transport("timed out"))));
}

#[test]
fn derpibooru_goes_to_philomena() {
    let config = Configuration::default();
    for text in ["https://derpibooru.org/images/1426211", "https://derpibooru.org/1426211"] {
        let url = link(text);
        let step =
            resume(Pending::Classify(url.clone()), Event::Classified(classify(&config, &url)));
        assert_eq!(step, Step::Next(Pending::Execute(Scraper::Philomena, url)));
    }
}

#[test]
fn deviantart_goes_to_deviantart() {
    let config = Configuration::default();
    let url = link("https://www.deviantart.com/the-park/art/Comm-Baseball-cap-derpy-833396912");
    let step = resume(Pending::Classify(url.clone()), Event::Classified(classify(&config, &url)));
    assert_eq!(step, Step::Next(Pending::Execute(Scraper::DeviantArt, url)));
}

#[test]
fn a_provider_failure_names_the_provider() {
    let url = link("https://example.com/");
    let names = [
        (Scraper::Twitter, "twitter", "Twitter parser failed"),
        (Scraper::Nitter, "nitter", "Nitter parser failed"),
        (Scraper::Tumblr, "tumblr", "Tumblr parser failed"),
        (Scraper::DeviantArt, "deviantart", "DeviantArt parser failed"),
        (Scraper::Philomena, "philomena", "Philomena parser failed"),
        (Scraper::Buzzly, "buzzly", "Buzzly parser failed"),
        (Scraper::Raw, "raw", "Raw parser failed"),
    ];
    for (scraper, name, context) in names {
        assert_eq!(scraper.to_string(), name);
        let step = resume(
            Pending::Execute(scraper, url.clone()),
            Event::Scraped(Err(Failure::new("no image found"))),
        );
        match step {
            Step::Done(Err(failure)) => assert_eq!(
                failure.messages(),
                vec![context.to_string(), "no image found".to_string()]
            ),
            other => panic!("unexpected step {:?}", other),
        }
        assert_eq!(
            scraper.failed(Failure::new("x")).messages(),
            vec![context.to_string(), "x".to_string()]
        );
    }
}

#[test]
fn a_provider_outcome_ends_the_scrape() {
    let url = link("https://example.com/");
    let step = resume(Pending::Execute(Scraper::Nitter, url.clone()), Event::Scraped(Ok(None)));
    assert_eq!(step, Step::Done(Ok(None)));
    let step = resume(
        Pending::Execute(Scraper::Nitter, url),
        Event::Scraped(Ok(Some(ScrapeResult::Nothing))),
    );
    assert_eq!(step, Step::Done(Ok(Some(ScrapeResult::Nothing))));
}

#[test]
fn an_event_that_answers_nothing_changes_nothing() {
    let url = link("https://example.com/");
    let step = resume(Pending::Classify(url.clone()), Event::Probed(Ok(true)));
    assert_eq!(step, Step::Next(Pending::Classify(url.clone())));
    let step = resume(Pending::Probe(url.clone()), Event::Scraped(Ok(None)));
    assert_eq!(step, Step::Next(Pending::Probe(url.clone())));
    let step = resume(
        Pending::Execute(Scraper::Raw, url.clone()),
        Event::Classified(checks([true, false, false, false, false, false])),
    );
    assert_eq!(step, Step::Next(Pending::Execute(Scraper::Raw, url)));
}

#[test]
fn twitter_hosts() {
    for host in ["twitter.com", "www.twitter.com", "mobile.twitter.com", "x.com"] {
        assert!(is_twitter(&link(&format!("https://{}/a/status/1", host))));
    }
    for host in ["api.twitter.com", "nottwitter.com", "www.x.com", "x.com.example.org"] {
        assert!(!is_twitter(&link(&format!("https://{}/a/status/1", host))));
    }
}

#[test]
fn nitter_hosts() {
    let mut config = Configuration::default();
    assert!(is_nitter(&config, &link("https://nitter.net/a/status/1")));
    assert!(is_nitter(&config, &link("https://nitter.nixnet.services/a/status/1")));
    assert!(!is_nitter(&config, &link("https://nitter.example.org/a/status/1")));
    config.preferred_nitter_instance_host = Some("nitter.example.org".to_string());
    assert!(is_nitter(&config, &link("https://nitter.example.org/a/status/1")));
    assert!(is_nitter(&config, &link("https://nitter.net/a/status/1")));
    assert!(!is_nitter(&config, &link("https://other.example.org/a/status/1")));
    assert!(!is_nitter(&config, &link("data:text/plain,nitter.net")));
}

#[test]
fn buzzly_hosts() {
    assert!(is_buzzlyart(&link("https://buzzly.art/~artist/art/title")));
    assert!(is_buzzlyart(&link("https://www.buzzly.art/~artist/art/title")));
    assert!(!is_buzzlyart(&link("https://buzzly.art.example.org/")));
    assert!(!is_buzzlyart(&link("https://notbuzzly.art/")));
}

#[test]
fn tumblr_hosts_and_names() {
    let blog = link("https://staff.tumblr.com/post/1");
    assert_eq!(is_tumblr(&blog, None), TumblrCheck::Decided(true));
    assert_eq!(is_tumblr(&blog, Some(false)), TumblrCheck::Decided(true));
    let own = link("https://blog.example.org/post/1");
    assert_eq!(is_tumblr(&own, None), TumblrCheck::Resolve("blog.example.org".to_string()));
    assert_eq!(is_tumblr(&own, Some(true)), TumblrCheck::Decided(true));
    assert_eq!(is_tumblr(&own, Some(false)), TumblrCheck::Decided(false));
    assert_eq!(is_tumblr(&link("data:text/plain,x"), None), TumblrCheck::Decided(false));
    assert_eq!(is_tumblr(&link("https://tumblr.com.example.org/"), Some(false)), TumblrCheck::Decided(false));
    assert!(tumblr_resolved(&vec!["domains.tumblr.com.".to_string()]));
    assert!(tumblr_resolved(&vec!["cdn.example.org".to_string(), "domains.tumblr.com".to_string()]));
    assert!(tumblr_resolved(&vec!["tumblr.com".to_string()]));
    assert!(!tumblr_resolved(&vec!["nottumblr.com".to_string(), "tumblr.com.example.org.".to_string()]));
    assert!(!tumblr_resolved(&vec![]));
}

#[test]
fn raw_answers() {
    for media in
        ["image/gif", "image/jpeg", "image/png", "image/svg", "image/svg+xml", "video/webm"]
    {
        assert!(is_raw(200, Some(media)));
        assert!(!is_raw(206, Some(media)));
        assert!(!is_raw(404, Some(media)));
    }
    assert!(!is_raw(200, Some("image/webp")));
    assert!(!is_raw(200, Some("image/png; charset=utf-8")));
    assert!(!is_raw(200, Some("IMAGE/PNG")));
    assert!(!is_raw(200, Some("")));
    assert!(!is_raw(200, None));
}

#[test]
fn client_settings() {
    let mut config = Configuration::default();
    let settings = client(&config).unwrap();
    assert_eq!(settings.timeout_ms, 5000);
    assert_eq!(settings.connect_timeout_ms, 2500);
    assert_eq!(settings.user_agent, "curl/7.83.1");
    assert!(settings.cookie_store);
    assert_eq!(settings.redirect, RedirectPolicy::Never);
    assert_eq!(settings.proxy, None);
    let settings = client_with_redir_limit(&config, RedirectPolicy::Limited(3)).unwrap();
    assert_eq!(settings.redirect, RedirectPolicy::Limited(3));
    for proxy in [
        "http://proxy.example:3128",
        "https://proxy.example",
        "socks://proxy.example:1080",
        "socks5://proxy.example:1080",
        "SOCKS5://proxy.example:1080",
    ] {
        config.proxy_url = Some(proxy.to_string());
        let settings = client(&config).unwrap();
        assert_eq!(settings.proxy, Some(link(proxy)));
    }
    for proxy in ["ftp://proxy.example", "socks4://proxy.example:1080", "socks5h://proxy.example"] {
        config.proxy_url = Some(proxy.to_string());
        let failure = client(&config).unwrap_err();
        assert_eq!(
            failure.messages(),
            vec!["unknown client proxy protocol, specify http, https, socks or socks5".to_string()]
        );
    }
    config.proxy_url = Some("//proxy.example".to_string());
    let failure = client(&config).unwrap_err();
    assert_eq!(failure.messages(), vec!["relative URL without a base".to_string()]);
}
