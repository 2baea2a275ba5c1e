use crate::address::{url_parse_of, ParsedUrl, UrlView};
use crate::config::ServerConfig;
use crate::resolve::{
    address_plan_of, url_to_socket_addrs, AddressError, AddressPlan, AddressPlanView,
};
use crate::tls::TlsError;
use vstd::prelude::*;

verus! {

/// Why a listener could not be brought up.
#[derive(Clone, Copy, Debug, PartialEq, Eq, Structural)]
pub enum ServerError {
    InvalidUrl,
    Address(AddressError),
    Tls(TlsError),
    Bind,
    Run,
}

/// What it takes to bring up one listener: its URL, the addresses to bind
/// (or the lookup that gives them) and whether it serves TLS.
#[derive(Clone, Debug)]
pub struct ListenerPlan {
    pub url: ParsedUrl,
    pub addresses: AddressPlan,
    pub tls: bool,
}

pub struct ListenerPlanView {
    pub url: UrlView,
    pub addresses: AddressPlanView,
    pub tls: bool,
}

impl View for ListenerPlan {
    type V = ListenerPlanView;

    open spec fn view(&self) -> ListenerPlanView {
        ListenerPlanView { url: self.url@, addresses: self.addresses@, tls: self.tls }
    }
}

/// The plan of a listener for a URL text: the text must hold an absolute URL
/// whose address plan exists; TLS is served exactly for the https scheme.
pub open spec fn listener_plan_of(s: Seq<char>) -> Result<ListenerPlanView, ServerError> {
    match url_parse_of(s) {
        None => Err(ServerError::InvalidUrl),
        Some(u) => match address_plan_of(u) {
            Err(e) => Err(ServerError::Address(e)),
            Ok(a) => Ok(ListenerPlanView { url: u, addresses: a, tls: u.is_https() }),
        },
    }
}

pub open spec fn plan_view(r: Result<ListenerPlan, ServerError>) -> Result<
    ListenerPlanView,
    ServerError,
> {
    match r {
        Ok(p) => Ok(p@),
        Err(e) => Err(e),
    }
}

/// Plans the listener for one URL text.
pub fn plan_listener(s: &str) -> (r: Result<ListenerPlan, ServerError>)
    ensures
        plan_view(r) == listener_plan_of(s@),
{
    let url = match ParsedUrl::parse(s) {
        Ok(u) => u,
        Err(_) => return Err(ServerError::InvalidUrl),
    };
    let addresses = match url_to_socket_addrs(&url) {
        Ok(a) => a,
        Err(e) => return Err(ServerError::Address(e)),
    };
    let tls = url.is_https();
    Ok(ListenerPlan { url, addresses, tls })
}

/// Plans the primary listener from `server.url`; any error is fatal to startup.
pub fn plan_primary(config: &ServerConfig) -> (r: Result<ListenerPlan, ServerError>)
    ensures
        plan_view(r) == listener_plan_of(config.url@),
{
    plan_listener(config.url.as_str())
}

/// The plans of the redirect listeners, one per entry and in order; each
/// depends on its own entry alone, so a bad entry only fails its own plan.
pub open spec fn redirect_plans_of(entries: Seq<Seq<char>>) -> Seq<
    Result<ListenerPlanView, ServerError>,
> {
    entries.map_values(|s: Seq<char>| listener_plan_of(s))
}

/// Plans a redirect listener for every entry of `server.redirect_from`.
pub fn plan_redirects(config: &ServerConfig) -> (r: Vec<Result<ListenerPlan, ServerError>>)
    ensures
        r@.map_values(|p: Result<ListenerPlan, ServerError>| plan_view(p)) == redirect_plans_of(
            config.redirect_from@.map_values(|s: String| s@),
        ),
{
    let entries = &config.redirect_from;
    let mut plans: Vec<Result<ListenerPlan, ServerError>> = Vec::new();
    let mut i: usize = 0;
    while i < entries.len()
        invariant
            i <= entries@.len(),
            plans@.len() == i,
            forall|j: int|
                0 <= j < i ==> plan_view(#[trigger] plans@[j]) == listener_plan_of(entries@[j]@),
        decreases entries@.len() - i,
    {
        let p = plan_listener(entries[i].as_str());
        plans.push(p);
        i = i + 1;
    }
    assert(plans@.map_values(|p: Result<ListenerPlan, ServerError>| plan_view(p))
        =~= redirect_plans_of(entries@.map_values(|s: String| s@)));
    plans
}

/// A redirect entry whose text holds a URL with a host and an explicit port
/// gets a plan, whatever the other entries hold.
pub proof fn lemma_redirect_entry_isolated(entries: Seq<Seq<char>>, i: int)
    requires
        0 <= i < entries.len(),
        url_parse_of(entries[i]) matches Some(u) && u.host is Some && u.port is Some,
    ensures
        redirect_plans_of(entries).len() == entries.len(),
        redirect_plans_of(entries)[i] is Ok,
        redirect_plans_of(entries)[i] == listener_plan_of(entries[i]),
{
}

/// The status of a permanent redirect.
pub const PERMANENT_REDIRECT: u16 = 308;

/// The answer of a redirect listener to any request.
#[derive(Clone, Debug)]
pub struct RedirectResponse {
    pub status: u16,
    pub location: String,
}

/// The status and location of the answer of a redirect listener to a
/// request for `path`.
pub open spec fn redirect_of(primary: UrlView, path: Seq<char>) -> (u16, Seq<char>) {
    (PERMANENT_REDIRECT, primary.text)
}

/// The answer of a redirect listener to a request for `path`: a permanent
/// redirect to the canonical text of the primary URL.
pub fn redirect_response(primary: &ParsedUrl, path: &str) -> (r: RedirectResponse)
    ensures
        (r.status, r.location@) == redirect_of(primary@, path@),
{
    RedirectResponse { status: PERMANENT_REDIRECT, location: primary.text.clone() }
}

/// Every request to a redirect listener, whatever its path, is sent with a
/// permanent redirect to exactly the primary URL's text.
pub proof fn lemma_redirect_path_independent(primary: UrlView, p1: Seq<char>, p2: Seq<char>)
    ensures
        redirect_of(primary, p1) == redirect_of(primary, p2),
        redirect_of(primary, p1) == (PERMANENT_REDIRECT, primary.text),
{
}

} // verus!
