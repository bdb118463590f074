//! Tunnel destinations and the routing claims that may overwrite them.
use vstd::prelude::*;

verus! {

/// The kind of local endpoint that a tunnel ultimately reaches.
#[derive(Clone, Copy, Debug, PartialEq, Eq, Structural)]
pub enum Protocol {
    Tcp,
    Udp,
    Socks5,
    Stdio,
    Unix,
}

/// A parsed host: a domain name, an IPv4 address or an IPv6 address
/// (addresses as big-endian integers).
#[derive(Debug)]
pub enum HostAddr {
    Domain(String),
    Ipv4(u32),
    Ipv6(u128),
}

/// The mathematical value of a `HostAddr`.
pub enum HostView {
    Domain(Seq<char>),
    Ipv4(u32),
    Ipv6(u128),
}

impl HostAddr {
    pub open spec fn view(&self) -> HostView {
        match self {
            HostAddr::Domain(d) => HostView::Domain(d@),
            HostAddr::Ipv4(a) => HostView::Ipv4(*a),
            HostAddr::Ipv6(a) => HostView::Ipv6(*a),
        }
    }

    /// A copy of this host.
    pub fn duplicate(&self) -> (r: HostAddr)
        ensures
            r == *self,
    {
        match self {
            HostAddr::Domain(d) => HostAddr::Domain(d.clone()),
            HostAddr::Ipv4(a) => HostAddr::Ipv4(*a),
            HostAddr::Ipv6(a) => HostAddr::Ipv6(*a),
        }
    }

    /// The empty domain, which stands for a host that could not be parsed.
    pub fn empty_domain() -> (r: HostAddr)
        ensures
            r@ == HostView::Domain(Seq::<char>::empty()),
    {
        HostAddr::Domain(String::new())
    }
}

/// The logical destination of a tunnel.
#[derive(Debug)]
pub struct RemoteAddr {
    pub protocol: Protocol,
    pub host: HostAddr,
    pub port: u16,
}

impl RemoteAddr {
    /// A copy of this destination.
    pub fn duplicate(&self) -> (r: RemoteAddr)
        ensures
            r == *self,
    {
        RemoteAddr { protocol: self.protocol, host: self.host.duplicate(), port: self.port }
    }
}

/// The payload of a signed routing token, once its signature has been
/// verified: protocol, host text and port.
#[derive(Debug)]
pub struct RoutingClaim {
    pub protocol: Protocol,
    pub host: String,
    pub port: u16,
}

/// What the host parser makes of a text: `None` where the text is no valid
/// host.
pub uninterp spec fn parsed_host(s: Seq<char>) -> Option<HostView>;

/// Relies on `url::Host::parse`: the result depends on the text alone, an
/// empty text is refused (`EmptyHost`), and a domain that it returns is not
/// empty.
#[verifier::external_body]
fn parse_host(s: &str) -> (r: Option<HostAddr>)
    ensures
        match r {
            Some(h) => parsed_host(s@) == Some(h@),
            None => parsed_host(s@).is_none(),
        },
        s@.len() == 0 ==> r.is_none(),
        r matches Some(HostAddr::Domain(d)) ==> d@.len() > 0,
{
    match url::Host::parse(s) {
        Ok(url::Host::Domain(d)) => Some(HostAddr::Domain(d)),
        Ok(url::Host::Ipv4(a)) => Some(HostAddr::Ipv4(u32::from(a))),
        Ok(url::Host::Ipv6(a)) => Some(HostAddr::Ipv6(u128::from(a))),
        Err(_) => None,
    }
}

/// The host that a claim's host text designates: the parsed host, or the
/// empty domain where the text does not parse.
pub open spec fn claim_host(s: Seq<char>) -> HostView {
    match parsed_host(s) {
        Some(h) => h,
        None => HostView::Domain(Seq::<char>::empty()),
    }
}

/// The host of a claim, given what the host parser returned for its text.
/// A text that does not parse degrades to the empty domain.
pub fn host_or_empty(parsed: Option<HostAddr>) -> (r: HostAddr)
    ensures
        match parsed {
            Some(h) => r == h,
            None => r@ == HostView::Domain(Seq::<char>::empty()),
        },
{
    match parsed {
        Some(h) => h,
        None => HostAddr::empty_domain(),
    }
}

/// Parses the host text of a routing claim, degrading to the empty domain
/// where it is no valid host.
pub fn claim_host_of(s: &str) -> (r: HostAddr)
    ensures
        r@ == claim_host(s@),
        s@.len() == 0 ==> r@ == HostView::Domain(Seq::<char>::empty()),
{
    host_or_empty(parse_host(s))
}

/// The destination that a verified routing claim designates.
pub fn claim_destination(claim: &RoutingClaim) -> (r: RemoteAddr)
    ensures
        r.protocol == claim.protocol,
        r.host@ == claim_host(claim.host@),
        r.port == claim.port,
{
    RemoteAddr { protocol: claim.protocol, host: claim_host_of(claim.host.as_str()), port: claim.port }
}

/// The destination after a session's handshake: the claim's destination
/// where a verified claim came with it, else the previous working
/// destination unchanged.
pub fn resolve_destination(working: &RemoteAddr, claim: &Option<RoutingClaim>) -> (r: RemoteAddr)
    ensures
        match claim {
            Some(c) => r.protocol == c.protocol && r.host@ == claim_host(c.host@) && r.port == c.port,
            None => r == *working,
        },
{
    match claim {
        Some(c) => claim_destination(c),
        None => working.duplicate(),
    }
}

} // verus!
