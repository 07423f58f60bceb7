//! Image-proxy URLs: where the proxy serves an upstream media URL.

use hmac::Mac;
use vstd::prelude::*;
use vstd::string::StringExecFns;
use vstd::utf8::encode_utf8;
use crate::codec::{decode_hex, encode_hex, hex_of, is_hex, unhex};
use crate::config::Configuration;
use crate::failure::{plain, CauseView, Failure};
use crate::link::{parsed, Link, LinkView};
use crate::text::opt_text;

verus! {

/// The HMAC of `message` under `key` with SHA-1 as the hash.
pub uninterp spec fn hmac_sha1(key: Seq<u8>, message: Seq<u8>) -> Seq<u8>;

/// Computes an HMAC-SHA1 tag with the `hmac` and `sha1` crates: a
/// `Hmac<Sha1>` made of `key`, fed `message` and finalized. The crate takes
/// keys of any length.
#[verifier::external_body]
fn hmac_sha1_tag(key: &[u8], message: &[u8]) -> (tag: Vec<u8>)
    ensures
        tag@ == hmac_sha1(key@, message@),
{
    let mut mac = match hmac::Hmac::<sha1::Sha1>::new_from_slice(key) {
        Ok(mac) => mac,
        Err(_) => return Vec::new(),
    };
    mac.update(message);
    mac.finalize().into_bytes().to_vec()
}

/// The text of a proxy URL: on `host`, the tag in hexadecimal, then the
/// bytes of the upstream URL in hexadecimal.
pub open spec fn camo_text(host: Seq<char>, tag: Seq<u8>, target: Seq<u8>) -> Seq<char> {
    "https://"@ + host + "/"@ + hex_of(tag) + "/"@ + hex_of(target)
}

/// The text of the proxy URL for `url`: on `host`, the hexadecimal tag of
/// the URL under `key`, then the URL itself in hexadecimal.
pub open spec fn camo_address(key: Seq<u8>, host: Seq<char>, url: Seq<char>) -> Seq<char> {
    camo_text(host, hmac_sha1(key, encode_utf8(url)), encode_utf8(url))
}

/// Writes the text of a proxy URL on `host` for the upstream URL with the
/// bytes `target` and the tag `tag`.
pub fn camo_address_of(host: &str, tag: &[u8], target: &[u8]) -> (out: String)
    ensures
        out@ == camo_text(host@, tag@, target@),
{
    let mut address = "https://".to_owned();
    address.append(host);
    address.append("/");
    address.append(encode_hex(tag).as_str());
    address.append("/");
    address.append(encode_hex(target).as_str());
    address
}

/// What [`camo_url`] returns for a key, a host and a URL.
pub open spec fn camo_outcome(
    key: Option<Seq<char>>,
    host: Option<Seq<char>>,
    url: LinkView,
) -> Result<LinkView, Seq<CauseView>> {
    if key is None || host is None {
        Ok(url)
    } else if !is_hex(key->0) {
        Err(seq![plain("camo key is not hexadecimal"@)])
    } else {
        match parsed(camo_address(unhex(key->0), host->0, url.text)) {
            Ok(link) => Ok(link),
            Err(chain) => Err(seq![plain("could not build camo URL"@)] + chain),
        }
    }
}

/// The view of a link or the failure in its place.
pub open spec fn link_outcome(r: Result<Link, Failure>) -> Result<LinkView, Seq<CauseView>> {
    match r {
        Ok(link) => Ok(link@),
        Err(failure) => Err(failure@),
    }
}

/// What the image proxy serves in place of `url` under these settings.
pub open spec fn camo_of(config: Configuration, url: LinkView) -> Result<
    LinkView,
    Seq<CauseView>,
> {
    camo_outcome(opt_text(config.camo_key), opt_text(config.camo_host), url)
}

/// The URL under which the image proxy serves `url`. Without a key or
/// without a host there is no proxy, and the URL stands for itself.
pub fn camo_url(config: &Configuration, url: &Link) -> (r: Result<Link, Failure>)
    ensures
        link_outcome(r) == camo_of(*config, url@),
        config.camo_key is None || config.camo_host is None ==> (r matches Ok(link) && link@
            == url@),
{
    let (key, host) = match (&config.camo_key, &config.camo_host) {
        (Some(key), Some(host)) => (key, host),
        _ => {
            return Ok(url.clone());
        },
    };
    let key_bytes = match decode_hex(key.as_str()) {
        Some(bytes) => bytes,
        None => {
            return Err(Failure::new("camo key is not hexadecimal"));
        },
    };
    let target = url.as_str().as_bytes();
    let tag = hmac_sha1_tag(key_bytes.as_slice(), target);
    let address = camo_address_of(host.as_str(), tag.as_slice(), target);
    match Link::parse(address.as_str()) {
        Ok(link) => Ok(link),
        Err(failure) => Err(failure.context("could not build camo URL")),
    }
}

/// What the image proxy serves in place of a URL depends on nothing but
/// the key, the host and the URL.
pub proof fn lemma_camo_deterministic(a: Configuration, b: Configuration, url: LinkView)
    requires
        opt_text(a.camo_key) == opt_text(b.camo_key),
        opt_text(a.camo_host) == opt_text(b.camo_host),
    ensures
        camo_of(a, url) == camo_of(b, url),
{
}

/// An unconfigured image proxy changes no URL.
pub proof fn lemma_camo_identity(key: Option<Seq<char>>, host: Option<Seq<char>>, url: LinkView)
    requires
        key is None || host is None,
    ensures
        camo_outcome(key, host, url) == Ok::<LinkView, Seq<CauseView>>(url),
{
}

} // verus!
