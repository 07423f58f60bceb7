//! The classifier of the Nitter provider.

use vstd::prelude::*;
use crate::config::Configuration;
use crate::link::Link;
use crate::text::{opt_text, same_text};

verus! {

/// Whether `host` is one of the public Nitter instances that this crate
/// knows.
pub open spec fn known_nitter_host(host: Seq<char>) -> bool {
    ||| host == "nitter.net"@
    ||| host == "nitter.it"@
    ||| host == "nitter.42l.fr"@
    ||| host == "nitter.fdn.fr"@
    ||| host == "nitter.1d4.us"@
    ||| host == "nitter.kavin.rocks"@
    ||| host == "nitter.pussthecat.org"@
    ||| host == "nitter.nixnet.services"@
}

/// Whether `host` is a Nitter instance: a known one, or the one that the
/// settings prefer.
pub open spec fn nitter_host(preferred: Option<Seq<char>>, host: Seq<char>) -> bool {
    known_nitter_host(host) || preferred == Some(host)
}

/// Whether a Nitter instance serves `url`.
pub fn is_nitter(config: &Configuration, url: &Link) -> (r: bool)
    ensures
        r == (url@.host matches Some(host) && nitter_host(
            opt_text(config.preferred_nitter_instance_host),
            host,
        )),
{
    let host = match url.host_str() {
        Some(host) => host,
        None => {
            return false;
        },
    };
    let known = same_text(host, "nitter.net") || same_text(host, "nitter.it") || same_text(
        host,
        "nitter.42l.fr",
    ) || same_text(host, "nitter.fdn.fr") || same_text(host, "nitter.1d4.us") || same_text(
        host,
        "nitter.kavin.rocks",
    ) || same_text(host, "nitter.pussthecat.org") || same_text(host, "nitter.nixnet.services");
    if known {
        return true;
    }
    match &config.preferred_nitter_instance_host {
        Some(preferred) => same_text(preferred.as_str(), host),
        None => false,
    }
}

} // verus!
