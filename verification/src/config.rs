//! Settings of the service and what is derived from them at start-up.

use vstd::prelude::*;
use crate::failure::Failure;
use crate::link::Link;
use crate::text::{pieces, same_text, split_nonempty, texts};

verus! {

/// How much the service logs.
#[derive(Debug, Clone, Copy, PartialEq, Eq, Structural)]
pub enum LogLevel {
    Trace,
    Debug,
    Info,
    Warn,
    Error,
}

/// The settings of the service, fixed once it has started.
#[derive(Debug, Clone)]
pub struct Configuration {
    /// The address the front-end listens on.
    pub bind_to: String,
    /// The origins that may call the front-end, separated by commas.
    pub allowed_origins: String,
    pub check_csrf_presence: bool,
    pub tumblr_api_key: Option<String>,
    /// The outbound proxy, as a URL.
    pub proxy_url: Option<String>,
    /// The key that signs image-proxy URLs, in hexadecimal.
    pub camo_key: Option<String>,
    /// The host of the image proxy.
    pub camo_host: Option<String>,
    pub enable_get_request: bool,
    pub preferred_nitter_instance_host: Option<String>,
    pub log_level: LogLevel,
    /// Whether a request without an origin is let through.
    pub allow_empty_origin: bool,
    pub sentry_url: Option<Link>,
    pub twitter_use_v2: bool,
    pub twitter_api_key: Option<String>,
    pub twitter_api_key_secret: Option<String>,
    pub twitter_api_key_bearer: Option<String>,
}

impl Default for Configuration {
    /// The settings of a service that nobody configured: it listens on
    /// `localhost:8080`, allows every origin that names itself, and uses
    /// neither proxy nor image proxy nor any provider's credentials.
    fn default() -> (out: Self)
        ensures
            out.bind_to@ == "localhost:8080"@,
            out.allowed_origins@.len() == 0,
            !out.check_csrf_presence,
            out.tumblr_api_key is None,
            out.proxy_url is None,
            out.camo_key is None,
            out.camo_host is None,
            !out.enable_get_request,
            out.preferred_nitter_instance_host is None,
            out.log_level == LogLevel::Info,
            !out.allow_empty_origin,
            out.sentry_url is None,
            !out.twitter_use_v2,
            out.twitter_api_key is None,
            out.twitter_api_key_secret is None,
            out.twitter_api_key_bearer is None,
    {
        Configuration {
            bind_to: "localhost:8080".to_owned(),
            allowed_origins: String::new(),
            check_csrf_presence: false,
            tumblr_api_key: None,
            proxy_url: None,
            camo_key: None,
            camo_host: None,
            enable_get_request: false,
            preferred_nitter_instance_host: None,
            log_level: LogLevel::Info,
            allow_empty_origin: false,
            sentry_url: None,
            twitter_use_v2: false,
            twitter_api_key: None,
            twitter_api_key_secret: None,
            twitter_api_key_bearer: None,
        }
    }
}

/// How a cache of the service is sized and when its entries expire.
#[derive(Debug, Clone, Copy, PartialEq, Eq, Structural)]
pub struct CachePolicy {
    /// The largest number of entries.
    pub max_capacity: u64,
    /// The number of entries to make room for at once.
    pub initial_capacity: usize,
    /// Seconds after the last access at which an entry expires.
    pub time_to_idle_secs: u64,
    /// Seconds after insertion at which an entry expires, used or not.
    pub time_to_live_secs: u64,
    /// Whether entries can be invalidated in bulk by a predicate.
    pub invalidation_closures: bool,
}

/// The policy of both caches of the service, the one of scrape results by
/// URL and the one of DNS answers by host name: a thousand entries, ten
/// minutes to idle, a hundred minutes to live.
pub fn cache_policy() -> (out: CachePolicy)
    ensures
        out == (CachePolicy {
            max_capacity: 1000,
            initial_capacity: 1000,
            time_to_idle_secs: 600,
            time_to_live_secs: 6000,
            invalidation_closures: true,
        }),
{
    CachePolicy {
        max_capacity: 1000,
        initial_capacity: 1000,
        time_to_idle_secs: 10 * 60,
        time_to_live_secs: 100 * 60,
        invalidation_closures: true,
    }
}

/// The settings together with what start-up derives from them.
#[derive(Debug, Clone)]
pub struct State {
    pub config: Configuration,
    /// The allowed origins, one by one.
    pub parsed_allowed_origins: Vec<String>,
}

/// Whether `state` lets a request with this origin through: one without
/// an origin if the settings say so; one with an origin if the list of
/// allowed origins holds it or is empty.
pub open spec fn origin_allowed(state: State, origin: Option<Seq<char>>) -> bool {
    match origin {
        Some(o) => texts(state.parsed_allowed_origins@).contains(o)
            || state.parsed_allowed_origins@.len() == 0,
        None => state.config.allow_empty_origin,
    }
}

impl State {
    /// Derives the state from the settings: the allowed origins are the
    /// non-empty pieces between the commas of `allowed_origins`.
    pub fn new(config: Configuration) -> (r: Result<State, Failure>)
        ensures
            r matches Ok(state) && state.config == config && texts(state.parsed_allowed_origins@)
                == pieces(config.allowed_origins@, ','),
    {
        let parsed_allowed_origins = split_nonempty(config.allowed_origins.as_str(), ',');
        Ok(State { config, parsed_allowed_origins })
    }

    /// Whether a request with this origin is let through.
    pub fn is_allowed_origin(&self, origin: Option<&str>) -> (allowed: bool)
        ensures
            allowed == origin_allowed(
                *self,
                match origin {
                    Some(o) => Some(o@),
                    None => None,
                },
            ),
    {
        match origin {
            Some(origin) => {
                let mut allowed = false;
                let mut i: usize = 0;
                while i < self.parsed_allowed_origins.len()
                    invariant
                        i <= self.parsed_allowed_origins.len(),
                        allowed == texts(self.parsed_allowed_origins@).take(i as int).contains(
                            origin@,
                        ),
                    decreases self.parsed_allowed_origins.len() - i,
                {
                    let ghost seen = texts(self.parsed_allowed_origins@).take(i as int);
                    let ghost next = texts(self.parsed_allowed_origins@).take(i + 1);
                    assert(next =~= seen.push(self.parsed_allowed_origins@[i as int]@));
                    if same_text(self.parsed_allowed_origins[i].as_str(), origin) {
                        allowed = true;
                        assert(next[i as int] == origin@);
                    } else {
                        assert(next.contains(origin@) <==> seen.contains(origin@)) by {
                            if next.contains(origin@) {
                                let k = choose|k: int| 0 <= k < next.len() && next[k] == origin@;
                                assert(seen[k] == origin@);
                            }
                            if seen.contains(origin@) {
                                let k = choose|k: int| 0 <= k < seen.len() && seen[k] == origin@;
                                assert(next[k] == origin@);
                            }
                        }
                    }
                    i += 1;
                }
                assert(texts(self.parsed_allowed_origins@).take(
                    self.parsed_allowed_origins.len() as int,
                ) =~= texts(self.parsed_allowed_origins@));
                allowed || self.parsed_allowed_origins.len() == 0
            },
            None => self.config.allow_empty_origin,
        }
    }
}

} // verus!
