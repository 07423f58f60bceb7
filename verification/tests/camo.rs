use philomena_scraper::camo::{camo_address_of, camo_url};
use philomena_scraper::codec::{decode_hex, encode_hex, parse_decimal, Decimal};
use philomena_scraper::link::Link;
use philomena_scraper::Configuration;

fn link(text: &str) -> Link {
    Link::parse(text).unwrap()
}

#[test]
fn camo_leaves_urls_alone_when_unconfigured() {
    let url = link("https://derpicdn.net/img/view/2017/5/1/1426211.png");
    let config = Configuration::default();
    assert_eq!(camo_url(&config, &url).unwrap(), url);
    let mut only_key = Configuration::default();
    only_key.camo_key = Some("0123456789abcdef".to_string());
    assert_eq!(camo_url(&only_key, &url).unwrap(), url);
    let mut only_host = Configuration::default();
    only_host.camo_host = Some("camo.example".to_string());
    assert_eq!(camo_url(&only_host, &url).unwrap(), url);
    let mut bad_key_no_host = Configuration::default();
    bad_key_no_host.camo_key = Some("no hex".to_string());
    assert_eq!(camo_url(&bad_key_no_host, &url).unwrap(), url);
}

#[test]
fn camo_signs_the_url() {
    let url = link("https://derpicdn.net/img/view/2017/5/1/1426211.png");
    let mut config = Configuration::default();
    config.camo_key = Some("0123456789abcdef".to_string());
    config.camo_host = Some("camo.example".to_string());
    let camo = camo_url(&config, &url).unwrap();
    assert_eq!(
        camo.as_str(),
        "https://camo.example/0b429f45499f7177072a44d651efdd0359495dc9/68747470733a2f2f646572706963646e2e6e65742f696d672f766965772f323031372f352f312f313432363231312e706e67"
    );
    assert_eq!(camo.host_str(), Some("camo.example"));
    assert_eq!(camo.scheme(), "https");
}

#[test]
fn camo_is_deterministic() {
    let url = link("https://derpicdn.net/img/view/2017/5/1/1426211.png");
    let mut config = Configuration::default();
    config.camo_key = Some("0123456789ABCDEF".to_string());
    config.camo_host = Some("camo.example".to_string());
    let first = camo_url(&config, &url).unwrap();
    let second = camo_url(&config, &url).unwrap();
    assert_eq!(first, second);
    let mut lower = config.clone();
    lower.camo_key = Some("0123456789abcdef".to_string());
    assert_eq!(camo_url(&lower, &url).unwrap(), first);
    let other = camo_url(&config, &link("https://derpicdn.net/img/view/2017/5/1/1426212.png"))
        .unwrap();
    assert_ne!(first, other);
}

#[test]
fn camo_failures() {
    let url = link("https://derpicdn.net/img/view/2017/5/1/1426211.png");
    let mut config = Configuration::default();
    config.camo_key = Some("0123456789abcde".to_string());
    config.camo_host = Some("camo.example".to_string());
    let failure = camo_url(&config, &url).unwrap_err();
    assert_eq!(failure.messages(), vec!["camo key is not hexadecimal".to_string()]);
    config.camo_key = Some("zz".to_string());
    let failure = camo_url(&config, &url).unwrap_err();
    assert_eq!(failure.messages(), vec!["camo key is not hexadecimal".to_string()]);
    config.camo_key = Some("00".to_string());
    config.camo_host = Some("a b".to_string());
    let failure = camo_url(&config, &url).unwrap_err();
    assert_eq!(failure.messages()[0], "could not build camo URL");
    assert_eq!(failure.messages().len(), 2);
}

#[test]
fn hex_round_trip() {
    assert_eq!(encode_hex(&[]), "");
    assert_eq!(encode_hex(&[0x00, 0x0f, 0xf0, 0xff, 0x5a]), "000ff0ff5a");
    assert_eq!(decode_hex(""), Some(vec![]));
    assert_eq!(decode_hex("000ff0ff5a"), Some(vec![0x00, 0x0f, 0xf0, 0xff, 0x5a]));
    assert_eq!(decode_hex("000FF0Ff5A"), Some(vec![0x00, 0x0f, 0xf0, 0xff, 0x5a]));
    assert_eq!(decode_hex("0"), None);
    assert_eq!(decode_hex("0g"), None);
    assert_eq!(decode_hex("g0"), None);
    assert_eq!(decode_hex("\u{ff10}0"), None);
    let bytes: Vec<u8> = (0..=255).collect();
    assert_eq!(decode_hex(&encode_hex(&bytes)), Some(bytes));
}

#[test]
fn decimal_numbers() {
    assert_eq!(parse_decimal("0", u64::MAX), Decimal::Value(0));
    assert_eq!(parse_decimal("833396912", u64::MAX), Decimal::Value(833396912));
    assert_eq!(parse_decimal("007", u64::MAX), Decimal::Value(7));
    assert_eq!(parse_decimal("18446744073709551615", u64::MAX), Decimal::Value(u64::MAX));
    assert_eq!(parse_decimal("18446744073709551616", u64::MAX), Decimal::TooLarge);
    assert_eq!(
        parse_decimal("9223372036854775807", i64::MAX as u64),
        Decimal::Value(i64::MAX as u64)
    );
    assert_eq!(parse_decimal("9223372036854775808", i64::MAX as u64), Decimal::TooLarge);
    assert_eq!(parse_decimal("", u64::MAX), Decimal::Empty);
    assert_eq!(parse_decimal("12a", u64::MAX), Decimal::InvalidDigit);
    assert_eq!(parse_decimal("+12", u64::MAX), Decimal::InvalidDigit);
    assert_eq!(parse_decimal("\u{0663}", u64::MAX), Decimal::InvalidDigit);
    assert_eq!(parse_decimal("99999999999999999999999x", u64::MAX), Decimal::TooLarge);
    assert_eq!(parse_decimal("1x99999999999999999999999", u64::MAX), Decimal::InvalidDigit);
    assert_eq!(parse_decimal("10", 9), Decimal::TooLarge);
    assert_eq!(parse_decimal("9", 9), Decimal::Value(9));
    assert_eq!(parse_decimal("5", 0), Decimal::TooLarge);
    assert_eq!(parse_decimal("0", 0), Decimal::Value(0));
}

#[test]
fn a_proxy_address_is_host_tag_and_target() {
    assert_eq!(
        camo_address_of("camo.example", &[0xde, 0xad], b"http://a/"),
        "https://camo.example/dead/687474703a2f2f612f"
    );
    assert_eq!(camo_address_of("", &[], &[]), "https:////");
}
