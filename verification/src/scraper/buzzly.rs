//! The classifier of the Buzzly provider.

use vstd::prelude::*;
use crate::link::Link;
use crate::text::{has_suffix, same_text};

verus! {

/// Whether `host` is Buzzly's or lies under it.
pub open spec fn buzzly_host(host: Seq<char>) -> bool {
    host == "buzzly.art"@ || ".buzzly.art"@.is_suffix_of(host)
}

/// Whether Buzzly serves `url`.
pub fn is_buzzlyart(url: &Link) -> (r: bool)
    ensures
        r == (url@.host matches Some(host) && buzzly_host(host)),
{
    match url.host_str() {
        Some(host) => same_text(host, "buzzly.art") || has_suffix(host, ".buzzly.art"),
        None => false,
    }
}

} // verus!
