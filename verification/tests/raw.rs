use philomena_scraper::link::Link;
use philomena_scraper::scraper::raw::{is_raw, raw_scrape};
use philomena_scraper::scraper::{ScrapeImage, ScrapeResult, ScrapeResultData};
use philomena_scraper::Configuration;

#[test]
fn test_raw_scraper() {
    let url = r#"https://static.manebooru.art/img/view/2021/3/20/4010154.png"#;
    let config = Configuration::default();
    assert!(is_raw(200, Some("image/png")));
    let link = Link::parse(url).unwrap();
    let scrape = raw_scrape(&config, &link).unwrap();
    let scrape = match scrape {
        Some(s) => s,
        None => panic!("got none response from scraper"),
    };
    let expected_result = ScrapeResult::Found(ScrapeResultData {
        source_url: Some(Link::parse(url).unwrap()),
        author_name: None,
        additional_tags: None,
        description: None,
        images: Vec::from([ScrapeImage {
            url: Link::parse(url).unwrap(),
            camo_url: Link::parse(url).unwrap(),
        }]),
    });
    assert_eq!(expected_result, scrape);
}
