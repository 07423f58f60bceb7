//! The classifier of the Tumblr provider. Tumblr serves blogs under its
//! own domain and under domains of their owners; the latter are known by
//! the canonical name that the DNS gives for them.

use vstd::prelude::*;
use crate::link::Link;
use crate::text::{has_suffix, same_text, texts};

verus! {

/// Whether `name` is Tumblr's domain or lies under it, with or without
/// the dot that ends a name in the DNS.
pub open spec fn tumblr_name(name: Seq<char>) -> bool {
    ||| name == "tumblr.com"@
    ||| name == "tumblr.com."@
    ||| ".tumblr.com"@.is_suffix_of(name)
    ||| ".tumblr.com."@.is_suffix_of(name)
}

/// What to do about a URL whose provider may be Tumblr.
#[derive(Debug, PartialEq, Eq)]
pub enum TumblrCheck {
    /// Tumblr serves the URL, or does not.
    Decided(bool),
    /// The DNS has to say under which canonical names this host goes.
    Resolve(String),
}

/// What [`is_tumblr`] returns for a host and what the cache holds for it.
pub open spec fn tumblr_check(host: Option<Seq<char>>, cached: Option<bool>) -> Result<
    bool,
    Seq<char>,
> {
    match host {
        None => Ok(false),
        Some(host) => if ".tumblr.com"@.is_suffix_of(host) {
            Ok(true)
        } else {
            match cached {
                Some(known) => Ok(known),
                None => Err(host),
            }
        },
    }
}

/// Whether Tumblr serves `url`, as far as the host and the cache of DNS
/// answers tell; `cached` is what the cache holds for the host.
pub fn is_tumblr(url: &Link, cached: Option<bool>) -> (check: TumblrCheck)
    ensures
        match tumblr_check(url@.host, cached) {
            Ok(known) => check == TumblrCheck::Decided(known),
            Err(host) => check matches TumblrCheck::Resolve(h) && h@ == host,
        },
{
    let host = match url.host_str() {
        Some(host) => host,
        None => {
            return TumblrCheck::Decided(false);
        },
    };
    if has_suffix(host, ".tumblr.com") {
        return TumblrCheck::Decided(true);
    }
    match cached {
        Some(known) => TumblrCheck::Decided(known),
        None => TumblrCheck::Resolve(host.to_owned()),
    }
}

/// Whether the canonical names that the DNS gave for a host show that
/// Tumblr serves it: whether one of them is Tumblr's. The answer is what
/// the cache is to hold for the host.
pub fn tumblr_resolved(names: &Vec<String>) -> (r: bool)
    ensures
        r == exists|i: int| 0 <= i < names@.len() && tumblr_name(#[trigger] texts(names@)[i]),
{
    let mut i: usize = 0;
    while i < names.len()
        invariant
            i <= names.len(),
            forall|k: int| 0 <= k < i ==> !tumblr_name(#[trigger] texts(names@)[k]),
        decreases names.len() - i,
    {
        let name = names[i].as_str();
        assert(texts(names@)[i as int] == name@);
        if same_text(name, "tumblr.com") || same_text(name, "tumblr.com.") || has_suffix(
            name,
            ".tumblr.com",
        ) || has_suffix(name, ".tumblr.com.") {
            return true;
        }
        i += 1;
    }
    false
}

} // verus!
