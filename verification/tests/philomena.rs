use philomena_scraper::link::Link;
use philomena_scraper::scraper::philomena::{
    image_id_of, is_philomena, philomena_api_url, philomena_scrape, PhilomenaApiImageResponse,
    PhilomenaApiResponse,
};
use philomena_scraper::scraper::{ScrapeImage, ScrapeResult, ScrapeResultData};
use philomena_scraper::Configuration;

fn link(text: &str) -> Link {
    Link::parse(text).unwrap()
}

fn sorted(tags: &[&str]) -> Vec<String> {
    let mut tags: Vec<String> = tags.iter().map(|t| t.to_string()).collect();
    tags.sort();
    tags
}

fn response(
    tags: &[&str],
    source_url: Option<&str>,
    description: Option<&str>,
    view_url: &str,
) -> PhilomenaApiResponse {
    PhilomenaApiResponse {
        image: PhilomenaApiImageResponse {
            tags: tags.iter().map(|t| t.to_string()).collect(),
            source_url: source_url.map(|s| s.to_string()),
            uploader: Some("somebody".to_string()),
            description: description.map(|s| s.to_string()),
            view_url: view_url.to_string(),
        },
    }
}

fn without_title(link: &Link) -> Link {
    let mut url = url::Url::parse(link.as_str()).unwrap();
    let path = url.path().to_string();
    url.set_path(path.split_once("__").unwrap().0);
    Link::parse(url.as_str()).unwrap()
}

fn image(text: &str) -> ScrapeImage {
    ScrapeImage { url: link(text), camo_url: link(text) }
}

const STARLIGHT: [&str; 17] = [
    "blue eyes", "female", "horn", "mare", "multicolored mane", "multicolored tail", "pony",
    "safe", "simple background", "smiling", "solo", "standing", "starlight glimmer", "tail",
    "transparent background", "unicorn", "vector",
];

const FLUTTERSHY: [&str; 38] = [
    "2011", "artifact", "cloud", "cloudy", "crepuscular rays", "cute", "derpibooru legacy",
    "eyes closed", "female", "first fluttershy picture on derpibooru", "fluttershy", "flying",
    "g4", "happy", "index get", "long hair", "mammal", "mare", "messy mane", "milestone",
    "one of the first", "outdoors", "pegasus", "pony", "safe", "shyabetes", "signature", "sky",
    "smiling", "solo", "spread wings", "stretching", "sunlight", "sunshine",
    "sweet dreams fuel", "upside down", "weapons-grade cute", "wings",
];

const DASH: [&str; 15] = [
    "bathtub", "female", "irl", "mare", "pegasus", "photo", "ponies in real life", "pony",
    "rainbow dash", "safe", "shower", "solo", "surprised", "toilet", "vector",
];

/// What the board answers for the image that `url` shows: the tags in the
/// order in which the board lists them, the artist among them.
fn upstream(url: &str) -> PhilomenaApiResponse {
    let api = philomena_api_url(&link(url)).unwrap();
    let mut tags: Vec<&str>;
    match api.as_str() {
        "https://derpibooru.org/api/v1/json/images/1426211" => {
            tags = STARLIGHT.to_vec();
            tags.reverse();
            tags.insert(3, "artist:zacatron94");
            response(
                &tags,
                Some("http://brunomilan13.deviantart.com/art/Starlight-Glimmer-Season-6-by-Zacatron94-678047433"),
                Some(""),
                "https://derpicdn.net/img/view/2017/5/1/1426211__safe_artist-colon-zacatron94_starlight+glimmer_pony.png",
            )
        }
        "https://derpibooru.org/api/v1/json/images/1" => {
            tags = FLUTTERSHY.to_vec();
            tags.reverse();
            tags.insert(0, "artist:speccysy");
            response(
                &tags,
                Some("https://www.deviantart.com/speccysy/art/Afternoon-Flight-215193985"),
                None,
                "https://derpicdn.net/img/view/2012/1/2/1__safe_artist-colon-speccysy_fluttershy.png",
            )
        }
        "https://derpibooru.org/api/v1/json/images/17368" => {
            tags = DASH.to_vec();
            tags.reverse();
            response(
                &tags,
                Some("  "),
                Some("Dash, how'd you get in my(hit by shampoo bottle)"),
                "https://derpicdn.net/img/view/2012/6/23/17368__safe_rainbow+dash.jpg",
            )
        }
        other => panic!("no answer recorded for {}", other),
    }
}

#[test]
fn test_derpibooru_scraper() {
    let urls = vec![
        (
            r#"https://derpibooru.org/images/1426211"#,
            ScrapeResultData {
                source_url: Some(link("http://brunomilan13.deviantart.com/art/Starlight-Glimmer-Season-6-by-Zacatron94-678047433")),
                author_name: Some("zacatron94".to_string()),
                additional_tags: Some(sorted(&STARLIGHT)),
                description: None,
                images: vec![image("https://derpicdn.net/img/view/2017/5/1/1426211")],
            },
        ),
        (
            r#"https://derpibooru.org/1426211"#,
            ScrapeResultData {
                source_url: Some(link("http://brunomilan13.deviantart.com/art/Starlight-Glimmer-Season-6-by-Zacatron94-678047433")),
                author_name: Some("zacatron94".to_string()),
                additional_tags: Some(sorted(&STARLIGHT)),
                description: None,
                images: vec![image("https://derpicdn.net/img/view/2017/5/1/1426211")],
            },
        ),
        (
            r#"https://derpibooru.org/images/1"#,
            ScrapeResultData {
                source_url: Some(link("https://www.deviantart.com/speccysy/art/Afternoon-Flight-215193985")),
                author_name: Some("speccysy".to_string()),
                additional_tags: Some(sorted(&FLUTTERSHY)),
                description: None,
                images: vec![image("https://derpicdn.net/img/view/2012/1/2/1")],
            },
        ),
        (
            r#"https://derpibooru.org/1"#,
            ScrapeResultData {
                source_url: Some(link("https://www.deviantart.com/speccysy/art/Afternoon-Flight-215193985")),
                author_name: Some("speccysy".to_string()),
                additional_tags: Some(sorted(&FLUTTERSHY)),
                description: None,
                images: vec![image("https://derpicdn.net/img/view/2012/1/2/1")],
            },
        ),
        (
            r#"https://derpibooru.org/images/17368"#,
            ScrapeResultData {
                source_url: None,
                author_name: None,
                additional_tags: Some(sorted(&DASH)),
                description: Some("Dash, how'd you get in my(hit by shampoo bottle)".to_string()),
                images: vec![image("https://derpicdn.net/img/view/2012/6/23/17368")],
            },
        ),
    ];
    let config = Configuration::default();
    for (url, expected_result) in urls {
        assert!(is_philomena(&link(url)));
        let scrape = philomena_scrape(&config, &upstream(url)).unwrap();
        let mut scrape = match scrape {
            Some(s) => s,
            None => panic!("got none response from scraper"),
        };
        match &mut scrape {
            ScrapeResult::Found(ref mut scrape) => {
                scrape.images.iter_mut().for_each(|x: &mut ScrapeImage| {
                    x.url = without_title(&x.url);
                    x.camo_url = without_title(&x.camo_url);
                })
            }
            _ => panic!(),
        }
        let expected_result = ScrapeResult::Found(expected_result);
        assert_eq!(expected_result, scrape, "Failed on URL {url:?}");
    }
}

#[test]
fn philomena_hosts() {
    assert!(is_philomena(&link("https://derpibooru.org/images/1")));
    assert!(is_philomena(&link("https://www.derpibooru.org/1")));
    assert!(!is_philomena(&link("https://derpibooru.org.example.com/1")));
    assert!(!is_philomena(&link("https://example.com/images/1")));
}

#[test]
fn api_url_of_both_path_shapes() {
    assert_eq!(
        philomena_api_url(&link("https://derpibooru.org/images/1426211")).unwrap().as_str(),
        "https://derpibooru.org/api/v1/json/images/1426211"
    );
    assert_eq!(
        philomena_api_url(&link("https://derpibooru.org/1426211?q=safe")).unwrap().as_str(),
        "https://derpibooru.org/api/v1/json/images/1426211"
    );
    assert_eq!(
        philomena_api_url(&link("http://www.derpibooru.org/17368")).unwrap().as_str(),
        "http://www.derpibooru.org/api/v1/json/images/17368"
    );
}

#[test]
fn api_url_failures() {
    let failure = philomena_api_url(&link("https://example.com/images/1")).unwrap_err();
    assert_eq!(failure.messages(), vec!["Tried URL that isn't known philomena".to_string()]);
    for url in [
        "https://derpibooru.org/",
        "https://derpibooru.org/images/",
        "https://derpibooru.org/images/12a",
        "https://derpibooru.org/tags/safe",
        "https://derpibooru.org/images/1/2",
    ] {
        let failure = philomena_api_url(&link(url)).unwrap_err();
        assert_eq!(
            failure.messages(),
            vec!["URL did not match and returned empty".to_string()],
            "for {url}"
        );
    }
}

#[test]
fn image_ids() {
    assert_eq!(image_id_of("/images/17368"), Some("17368".to_string()));
    assert_eq!(image_id_of("/17368"), Some("17368".to_string()));
    assert_eq!(image_id_of("17368"), Some("17368".to_string()));
    assert_eq!(image_id_of("/images/"), None);
    assert_eq!(image_id_of("/"), None);
    assert_eq!(image_id_of(""), None);
    assert_eq!(image_id_of("/images/17368/"), None);
    assert_eq!(image_id_of("/images/\u{0663}"), None);
}

#[test]
fn record_without_tags_or_texts() {
    let config = Configuration::default();
    let answer = response(
        &["artist:first", "artist:second"],
        None,
        Some(" \n\t "),
        "https://derpicdn.net/img/view/2012/1/2/1.png",
    );
    let scrape = philomena_scrape(&config, &answer).unwrap();
    assert_eq!(
        scrape,
        Some(ScrapeResult::Found(ScrapeResultData {
            source_url: None,
            author_name: Some("first".to_string()),
            additional_tags: None,
            description: None,
            images: vec![image("https://derpicdn.net/img/view/2012/1/2/1.png")],
        }))
    );
}

#[test]
fn record_keeps_texts_without_the_whitespace_around_them() {
    let config = Configuration::default();
    let answer = response(
        &["b", "a", "artist", "B", "a"],
        Some("  https://example.com/source \n"),
        Some("\n  a picture \u{a0}"),
        "https://derpicdn.net/img/view/2012/1/2/1.png",
    );
    let scrape = philomena_scrape(&config, &answer).unwrap();
    assert_eq!(
        scrape,
        Some(ScrapeResult::Found(ScrapeResultData {
            source_url: Some(link("https://example.com/source")),
            author_name: None,
            additional_tags: Some(vec![
                "B".to_string(),
                "a".to_string(),
                "a".to_string(),
                "artist".to_string(),
                "b".to_string()
            ]),
            description: Some("a picture".to_string()),
            images: vec![image("https://derpicdn.net/img/view/2012/1/2/1.png")],
        }))
    );
}

#[test]
fn record_failures() {
    let config = Configuration::default();
    let answer = response(&["safe"], None, None, "/img/view/1.png");
    let failure = philomena_scrape(&config, &answer).unwrap_err();
    assert_eq!(failure.messages(), vec!["relative URL without a base".to_string()]);
    let answer = response(
        &["safe"],
        Some("not \"a\" url"),
        None,
        "https://derpicdn.net/img/view/2012/1/2/1.png",
    );
    let failure = philomena_scrape(&config, &answer).unwrap_err();
    assert_eq!(
        failure.messages(),
        vec![
            "source url: Some(\"not \\\"a\\\" url\")".to_string(),
            "relative URL without a base".to_string()
        ]
    );
}

#[test]
fn record_is_served_by_the_image_proxy() {
    let mut config = Configuration::default();
    config.camo_key = Some("0123456789abcdef".to_string());
    config.camo_host = Some("camo.example".to_string());
    let answer = response(&["safe"], None, None, "https://derpicdn.net/img/view/2017/5/1/1426211.png");
    let scrape = philomena_scrape(&config, &answer).unwrap();
    let data = match scrape {
        Some(ScrapeResult::Found(data)) => data,
        other => panic!("unexpected outcome {:?}", other),
    };
    assert_eq!(data.images.len(), 1);
    assert_eq!(
        data.images[0].camo_url,
        philomena_scraper::camo::camo_url(&config, &data.images[0].url).unwrap()
    );
    assert_ne!(data.images[0].camo_url, data.images[0].url);
}
