//! The address a request is sent to, taken apart into what the `Host`
//! header and the request target are built from.
use vstd::prelude::*;
use crate::text::{decimal, decimal_text};

verus! {

/// A parsed absolute URL.
#[derive(Debug)]
pub struct Target {
    /// The whole URL in its normalised spelling.
    pub href: String,
    /// The host, absent for URLs that have none (`mailto:`, `data:`).
    pub host: Option<String>,
    /// The port, absent when the URL names none or names the scheme's default.
    pub port: Option<u16>,
    /// The path, starting with `/` for URLs with a host.
    pub path: String,
    /// The query without its leading `?`.
    pub query: Option<String>,
}

/// The mathematical value of a [`Target`].
pub struct TargetView {
    pub href: Seq<char>,
    pub host: Option<Seq<char>>,
    pub port: Option<u16>,
    pub path: Seq<char>,
    pub query: Option<Seq<char>>,
}

impl View for Target {
    type V = TargetView;

    open spec fn view(&self) -> TargetView {
        TargetView {
            href: self.href@,
            host: match self.host {
                Some(h) => Some(h@),
                None => None,
            },
            port: self.port,
            path: self.path@,
            query: match self.query {
                Some(q) => Some(q@),
                None => None,
            },
        }
    }
}

/// What `url::Url::parse` makes of `uri`: nothing when it is not an
/// absolute URL, else its parts.
pub uninterp spec fn parsed_url(uri: Seq<char>) -> Option<TargetView>;

/// `url::Url::parse`, with the parts read by `Url::as_str`, `host_str`,
/// `port`, `path` and `query`: the outcome depends on the text alone.
#[verifier::external_body]
fn parse_url(uri: &str) -> (target: Option<Target>)
    ensures
        match target {
            Some(t) => parsed_url(uri@) == Some(t@),
            None => parsed_url(uri@) is None,
        },
{
    match url::Url::parse(uri) {
        Ok(u) => Some(Target {
            href: u.as_str().to_string(),
            host: u.host_str().map(|h| h.to_string()),
            port: u.port(),
            path: u.path().to_string(),
            query: u.query().map(|q| q.to_string()),
        }),
        Err(_) => None,
    }
}

impl TargetView {
    /// The value of the `Host` header: the host, followed by a colon and
    /// the port where the URL names one.
    pub open spec fn host_header(self) -> Option<Seq<char>> {
        match self.host {
            None => None,
            Some(host) => match self.port {
                None => Some(host),
                Some(port) => Some(host + seq![':'] + decimal(port as nat)),
            },
        }
    }

    /// The path and, after a question mark, the query where there is one.
    pub open spec fn path_and_query(self) -> Seq<char> {
        match self.query {
            None => self.path,
            Some(query) => self.path + seq!['?'] + query,
        }
    }
}

impl Target {
    /// Parses an absolute URL.
    pub fn parse(uri: &str) -> (target: Option<Target>)
        ensures
            match target {
                Some(t) => parsed_url(uri@) == Some(t@),
                None => parsed_url(uri@) is None,
            },
    {
        parse_url(uri)
    }

    /// A copy of this address.
    pub fn copy(&self) -> (same: Target)
        ensures
            same@ == self@,
    {
        Target {
            href: self.href.clone(),
            host: match &self.host {
                Some(h) => Some(h.clone()),
                None => None,
            },
            port: self.port,
            path: self.path.clone(),
            query: match &self.query {
                Some(q) => Some(q.clone()),
                None => None,
            },
        }
    }

    /// The value of the `Host` header for a request to this address.
    pub fn host_header(&self) -> (value: Option<String>)
        ensures
            match value {
                Some(v) => self@.host_header() == Some(v@),
                None => self@.host_header() is None,
            },
    {
        match &self.host {
            None => None,
            Some(host) => {
                let mut value: String = host.clone();
                match self.port {
                    None => {},
                    Some(port) => {
                        proof {
                            reveal_strlit(":");
                        }
                        value.append(":");
                        let digits: String = decimal_text(port);
                        value.append(digits.as_str());
                        assert(value@ =~= host@ + seq![':'] + decimal(port as nat));
                    },
                }
                Some(value)
            },
        }
    }

    /// The request target: path and query as they go on the request line.
    pub fn path_and_query(&self) -> (value: String)
        ensures
            value@ == self@.path_and_query(),
    {
        let mut value: String = self.path.clone();
        match &self.query {
            None => {},
            Some(query) => {
                proof {
                    reveal_strlit("?");
                }
                value.append("?");
                value.append(query.as_str());
                assert(value@ =~= self.path@ + seq!['?'] + query@);
            },
        }
        value
    }
}

} // verus!
