use vstd::prelude::*;

verus! {

/// An IP address: version 4 as its 32-bit big-endian number, version 6 as
/// its 128-bit one.
#[derive(Clone, Copy, Debug, PartialEq, Eq, Structural)]
pub enum IpAddress {
    V4(u32),
    V6(u128),
}

/// One concrete (IP, port) pair that a listener can bind.
#[derive(Clone, Copy, Debug, PartialEq, Eq, Structural)]
pub struct SocketAddress {
    pub ip: IpAddress,
    pub port: u16,
}

/// The host of a parsed URL.
#[derive(Clone, Debug)]
pub enum UrlHost {
    Domain(String),
    Ipv4(u32),
    Ipv6(u128),
}

pub enum HostView {
    Domain(Seq<char>),
    Ipv4(u32),
    Ipv6(u128),
}

impl View for UrlHost {
    type V = HostView;

    open spec fn view(&self) -> HostView {
        match self {
            UrlHost::Domain(d) => HostView::Domain(d@),
            UrlHost::Ipv4(ip) => HostView::Ipv4(*ip),
            UrlHost::Ipv6(ip) => HostView::Ipv6(*ip),
        }
    }
}

/// What the logic reads of an absolute URL: its canonical text, its scheme,
/// its host and its explicit port (a scheme's default port counts as absent).
#[derive(Clone, Debug)]
pub struct ParsedUrl {
    pub text: String,
    pub scheme: String,
    pub host: Option<UrlHost>,
    pub port: Option<u16>,
}

pub struct UrlView {
    pub text: Seq<char>,
    pub scheme: Seq<char>,
    pub host: Option<HostView>,
    pub port: Option<u16>,
}

impl View for ParsedUrl {
    type V = UrlView;

    open spec fn view(&self) -> UrlView {
        UrlView {
            text: self.text@,
            scheme: self.scheme@,
            host: match self.host {
                Some(h) => Some(h@),
                None => None,
            },
            port: self.port,
        }
    }
}

impl UrlView {
    pub open spec fn is_https(self) -> bool {
        self.scheme == "https"@
    }
}

/// The URL that the url crate parses from a text, or `None` where it finds
/// no absolute URL there.
pub uninterp spec fn url_parse_of(s: Seq<char>) -> Option<UrlView>;

#[verifier::external_type_specification]
#[verifier::external_body]
pub struct ExUrlParseError(url::ParseError);

/// Relies on url::Url::parse, with its as_str, scheme, host and port: the
/// outcome depends on the text alone.
#[verifier::external_body]
fn parse_with_url_crate(s: &str) -> (r: Result<ParsedUrl, url::ParseError>)
    ensures
        match r {
            Ok(u) => url_parse_of(s@) == Some(u@),
            Err(_) => url_parse_of(s@) is None,
        },
{
    let u = url::Url::parse(s)?;
    let host = match u.host() {
        None => None,
        Some(url::Host::Domain(d)) => Some(UrlHost::Domain(d.to_string())),
        Some(url::Host::Ipv4(ip)) => Some(UrlHost::Ipv4(u32::from(ip))),
        Some(url::Host::Ipv6(ip)) => Some(UrlHost::Ipv6(u128::from(ip))),
    };
    let text = u.as_str().to_string();
    let scheme = u.scheme().to_string();
    Ok(ParsedUrl { text, scheme, host, port: u.port() })
}

/// A text that holds no absolute URL.
#[derive(Clone, Copy, Debug, PartialEq, Eq, Structural)]
pub enum UrlError {
    Invalid,
}

impl ParsedUrl {
    /// Parses an absolute URL.
    pub fn parse(s: &str) -> (r: Result<ParsedUrl, UrlError>)
        ensures
            match r {
                Ok(u) => url_parse_of(s@) == Some(u@),
                Err(e) => url_parse_of(s@) is None && e == UrlError::Invalid,
            },
    {
        match parse_with_url_crate(s) {
            Ok(u) => Ok(u),
            Err(_) => Err(UrlError::Invalid),
        }
    }

    /// Whether the URL is served over TLS.
    pub fn is_https(&self) -> (r: bool)
        ensures
            r == self@.is_https(),
    {
        let https = String::from_str("https");
        proof {
            reveal_strlit("https");
        }
        self.scheme == https
    }

    /// The canonical text of the URL.
    pub fn as_str(&self) -> (r: &str)
        ensures
            r@ == self.text@,
    {
        self.text.as_str()
    }
}

} // verus!
