use crate::address::{HostView, IpAddress, ParsedUrl, SocketAddress, UrlHost, UrlView};
use vstd::prelude::*;

verus! {

/// Why a URL gave no address to bind.
#[derive(Clone, Copy, Debug, PartialEq, Eq, Structural)]
pub enum AddressError {
    MissingHost,
    MissingPort,
    Resolution,
}

/// The addresses of a URL: known at once for a literal IP, or still to be
/// looked up by the system resolver for a domain name.
#[derive(Clone, Debug)]
pub enum AddressPlan {
    Ready(Vec<SocketAddress>),
    Lookup { domain: String, port: u16 },
}

pub enum AddressPlanView {
    Ready(Seq<SocketAddress>),
    Lookup(Seq<char>, u16),
}

impl View for AddressPlan {
    type V = AddressPlanView;

    open spec fn view(&self) -> AddressPlanView {
        match self {
            AddressPlan::Ready(v) => AddressPlanView::Ready(v@),
            AddressPlan::Lookup { domain, port } => AddressPlanView::Lookup(domain@, *port),
        }
    }
}

/// The address plan of a URL: host and port are required; a literal IP
/// gives exactly one address and a domain name a lookup.
pub open spec fn address_plan_of(u: UrlView) -> Result<AddressPlanView, AddressError> {
    match u.host {
        None => Err(AddressError::MissingHost),
        Some(h) => match u.port {
            None => Err(AddressError::MissingPort),
            Some(port) => Ok(
                match h {
                    HostView::Domain(d) => AddressPlanView::Lookup(d, port),
                    HostView::Ipv4(ip) => AddressPlanView::Ready(
                        seq![SocketAddress { ip: IpAddress::V4(ip), port }],
                    ),
                    HostView::Ipv6(ip) => AddressPlanView::Ready(
                        seq![SocketAddress { ip: IpAddress::V6(ip), port }],
                    ),
                },
            ),
        },
    }
}

/// What a lookup of the system resolver gives: its addresses, in the order
/// returned, where it found any.
pub open spec fn lookup_outcome(found: Option<Seq<SocketAddress>>) -> Result<
    Seq<SocketAddress>,
    AddressError,
> {
    match found {
        Some(v) => if v.len() > 0 {
            Ok(v)
        } else {
            Err(AddressError::Resolution)
        },
        None => Err(AddressError::Resolution),
    }
}

pub open spec fn plan_result_view(r: Result<AddressPlan, AddressError>) -> Result<
    AddressPlanView,
    AddressError,
> {
    match r {
        Ok(p) => Ok(p@),
        Err(e) => Err(e),
    }
}

/// Turns a URL into the addresses to bind, or into the lookup that gives them.
pub fn url_to_socket_addrs(url: &ParsedUrl) -> (r: Result<AddressPlan, AddressError>)
    ensures
        plan_result_view(r) == address_plan_of(url@),
{
    let host = match &url.host {
        Some(h) => h,
        None => return Err(AddressError::MissingHost),
    };
    let port = match url.port {
        Some(p) => p,
        None => return Err(AddressError::MissingPort),
    };
    match host {
        UrlHost::Domain(d) => Ok(AddressPlan::Lookup { domain: d.clone(), port }),
        UrlHost::Ipv4(ip) => {
            let v = vec![SocketAddress { ip: IpAddress::V4(*ip), port }];
            assert(v@ =~= seq![SocketAddress { ip: IpAddress::V4(*ip), port }]);
            Ok(AddressPlan::Ready(v))
        },
        UrlHost::Ipv6(ip) => {
            let v = vec![SocketAddress { ip: IpAddress::V6(*ip), port }];
            assert(v@ =~= seq![SocketAddress { ip: IpAddress::V6(*ip), port }]);
            Ok(AddressPlan::Ready(v))
        },
    }
}

/// Accepts the answer of the system resolver for a planned lookup (`None`
/// where the lookup failed); an empty answer is a failed resolution.
pub fn accept_lookup(found: Option<Vec<SocketAddress>>) -> (r: Result<
    Vec<SocketAddress>,
    AddressError,
>)
    ensures
        match r {
            Ok(v) => lookup_outcome(
                match found {
                    Some(f) => Some(f@),
                    None => None,
                },
            ) == Ok::<Seq<SocketAddress>, AddressError>(v@),
            Err(e) => lookup_outcome(
                match found {
                    Some(f) => Some(f@),
                    None => None,
                },
            ) == Err::<Seq<SocketAddress>, AddressError>(e),
        },
{
    match found {
        Some(v) => if v.len() > 0 {
            Ok(v)
        } else {
            Err(AddressError::Resolution)
        },
        None => Err(AddressError::Resolution),
    }
}

/// A URL with a host and an explicit port always gets an address plan; a
/// ready plan holds at least one address, and so does every accepted lookup.
/// A URL without a host fails with `MissingHost`, one with a host but
/// without a port with `MissingPort`.
pub proof fn lemma_resolve_nonempty(u: UrlView, found: Option<Seq<SocketAddress>>)
    ensures
        u.host is Some && u.port is Some ==> address_plan_of(u) is Ok,
        address_plan_of(u) matches Ok(AddressPlanView::Ready(v)) ==> v.len() > 0,
        lookup_outcome(found) matches Ok(v) ==> v.len() > 0,
        u.host is None ==> address_plan_of(u) == Err::<AddressPlanView, AddressError>(
            AddressError::MissingHost,
        ),
        u.host is Some && u.port is None ==> address_plan_of(u) == Err::<
            AddressPlanView,
            AddressError,
        >(AddressError::MissingPort),
{
}

/// A literal IP host gives exactly one address: that IP with the URL's port.
pub proof fn lemma_literal_ip_single(u: UrlView)
    requires
        u.host matches Some(h) && !(h is Domain),
        u.port is Some,
    ensures
        address_plan_of(u) matches Ok(AddressPlanView::Ready(v)) && v.len() == 1 && v[0].port
            == u.port->0 && match u.host->0 {
            HostView::Ipv4(ip) => v[0].ip == IpAddress::V4(ip),
            HostView::Ipv6(ip) => v[0].ip == IpAddress::V6(ip),
            HostView::Domain(_) => false,
        },
{
}

/// Resolving the same literal-IP URL text twice gives the same single
/// address both times.
pub proof fn lemma_literal_ip_stable(s: Seq<char>, first: UrlView, second: UrlView)
    requires
        crate::address::url_parse_of(s) == Some(first),
        crate::address::url_parse_of(s) == Some(second),
        first.host matches Some(h) && !(h is Domain),
        first.port is Some,
    ensures
        address_plan_of(first) == address_plan_of(second),
        address_plan_of(first) matches Ok(AddressPlanView::Ready(v)) && v.len() == 1,
{
}

} // verus!
