//! Absolute URLs, as the `url` crate parses them.

use vstd::prelude::*;
use crate::failure::{plain, CauseView, Failure};
use crate::text::opt_text;

verus! {

/// A parsed absolute URL: its serialization and the components that this
/// crate reads.
#[derive(Debug, PartialEq, Eq)]
pub struct Link {
    text: String,
    scheme: String,
    host: Option<String>,
    path: String,
}

/// The mathematical content of a [`Link`].
pub struct LinkView {
    /// The serialization of the URL.
    pub text: Seq<char>,
    /// The scheme, without the colon.
    pub scheme: Seq<char>,
    /// The host, where the URL has one.
    pub host: Option<Seq<char>>,
    /// The path.
    pub path: Seq<char>,
}

impl View for Link {
    type V = LinkView;

    closed spec fn view(&self) -> LinkView {
        LinkView {
            text: self.text@,
            scheme: self.scheme@,
            host: opt_text(self.host),
            path: self.path@,
        }
    }
}

/// The views of an optional link.
pub open spec fn opt_link(o: Option<Link>) -> Option<LinkView> {
    match o {
        Some(l) => Some(l@),
        None => None,
    }
}

/// What `url::Url::parse` makes of `input`: the record of the URL it
/// returns, or the text of the error it reports.
pub uninterp spec fn url_record(input: Seq<char>) -> Result<LinkView, Seq<char>>;

/// Parses `input` with `url::Url::parse`. On success the link holds what
/// the URL's `as_str`, `scheme`, `host_str` and `path` return; on failure
/// the string is the error as its `Display` prints it. The contract only
/// says that this outcome is the one named [`url_record`].
#[verifier::external_body]
fn parse_record(input: &str) -> (r: Result<Link, String>)
    ensures
        match r {
            Ok(link) => url_record(input@) == Ok::<LinkView, Seq<char>>(link@),
            Err(message) => url_record(input@) == Err::<LinkView, Seq<char>>(message@),
        },
{
    match url::Url::parse(input) {
        Ok(u) => Ok(Link {
            scheme: u.scheme().to_owned(),
            host: u.host_str().map(|h| h.to_owned()),
            path: u.path().to_owned(),
            text: u.into(),
        }),
        Err(e) => Err(e.to_string()),
    }
}

/// The outcome of parsing `input`, with the parser's error as a failure
/// of one cause.
pub open spec fn parsed(input: Seq<char>) -> Result<LinkView, Seq<CauseView>> {
    match url_record(input) {
        Ok(v) => Ok(v),
        Err(message) => Err(seq![plain(message)]),
    }
}

impl Clone for Link {
    fn clone(&self) -> (out: Self)
        ensures
            out@ == self@,
    {
        let host = match &self.host {
            Some(h) => Some(h.clone()),
            None => None,
        };
        Link {
            text: self.text.clone(),
            scheme: self.scheme.clone(),
            host,
            path: self.path.clone(),
        }
    }
}

impl Link {
    /// Parses an absolute URL.
    pub fn parse(input: &str) -> (r: Result<Link, Failure>)
        ensures
            match parsed(input@) {
                Ok(v) => r matches Ok(link) && link@ == v,
                Err(chain) => r matches Err(failure) && failure@ == chain,
            },
    {
        match parse_record(input) {
            Ok(link) => Ok(link),
            Err(message) => Err(Failure::new(message.as_str())),
        }
    }

    /// The serialization of the URL.
    pub fn as_str(&self) -> (out: &str)
        ensures
            out@ == self@.text,
    {
        self.text.as_str()
    }

    /// The scheme, without the colon.
    pub fn scheme(&self) -> (out: &str)
        ensures
            out@ == self@.scheme,
    {
        self.scheme.as_str()
    }

    /// The host, where the URL has one.
    pub fn host_str(&self) -> (out: Option<&str>)
        ensures
            match out {
                Some(h) => self@.host == Some(h@),
                None => self@.host is None,
            },
    {
        match &self.host {
            Some(h) => Some(h.as_str()),
            None => None,
        }
    }

    /// The path.
    pub fn path(&self) -> (out: &str)
        ensures
            out@ == self@.path,
    {
        self.path.as_str()
    }
}

/// A copy of an optional link.
pub fn clone_opt_link(o: &Option<Link>) -> (out: Option<Link>)
    ensures
        opt_link(out) == opt_link(*o),
{
    match o {
        Some(l) => Some(l.clone()),
        None => None,
    }
}

} // verus!
