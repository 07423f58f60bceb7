//! The classifier of the Twitter provider.

use vstd::prelude::*;
use crate::link::Link;
use crate::text::same_text;

verus! {

/// Whether `host` is one of Twitter's.
pub open spec fn twitter_host(host: Seq<char>) -> bool {
    ||| host == "twitter.com"@
    ||| host == "www.twitter.com"@
    ||| host == "mobile.twitter.com"@
    ||| host == "x.com"@
}

/// Whether Twitter serves `url`.
pub fn is_twitter(url: &Link) -> (r: bool)
    ensures
        r == (url@.host matches Some(host) && twitter_host(host)),
{
    match url.host_str() {
        Some(host) => same_text(host, "twitter.com") || same_text(host, "www.twitter.com")
            || same_text(host, "mobile.twitter.com") || same_text(host, "x.com"),
        None => false,
    }
}

} // verus!
