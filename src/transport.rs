//! Transport schemes and the transport family that serves each.
use vstd::prelude::*;

verus! {

/// The scheme of the configured tunnel server address.
#[derive(Clone, Copy, Debug, PartialEq, Eq, Structural)]
pub enum TransportScheme {
    Ws,
    Wss,
    Http,
    Https,
}

/// The two families of transport connectors.
#[derive(Clone, Copy, Debug, PartialEq, Eq, Structural)]
pub enum TransportFamily {
    Websocket,
    Http2,
}

/// The family that serves a scheme: websocket for `ws` and `wss`, HTTP/2
/// for `http` and `https`.
pub open spec fn family_of(s: TransportScheme) -> TransportFamily {
    match s {
        TransportScheme::Ws | TransportScheme::Wss => TransportFamily::Websocket,
        TransportScheme::Http | TransportScheme::Https => TransportFamily::Http2,
    }
}

/// Selects the transport connector for the configured scheme.
pub fn transport_for(s: TransportScheme) -> (r: TransportFamily)
    ensures
        r == family_of(s),
{
    match s {
        TransportScheme::Ws | TransportScheme::Wss => TransportFamily::Websocket,
        TransportScheme::Http | TransportScheme::Https => TransportFamily::Http2,
    }
}

} // verus!
