//! Upstream endpoints and the choice of the primary one.
//!
//! Two endpoints are fixed when the filter is set up: the primary upstream,
//! whose response the client gets, and the shadow upstream, which gets a copy
//! of the request. Neither changes afterwards and choosing one reads nothing
//! but this configuration.

use vstd::prelude::*;
use vstd::slice::slice_to_vec;
use vstd::string::*;
use crate::error::PeerConfigurationError;

verus! {

/// An upstream endpoint.
#[derive(Debug)]
pub struct PeerDescriptor {
    pub host: Vec<u8>,
    pub port: u16,
    pub scheme: Vec<u8>,
    pub use_tls: bool,
}

/// What a `PeerDescriptor` holds, as plain values.
pub struct PeerView {
    pub host: Seq<u8>,
    pub port: u16,
    pub scheme: Seq<u8>,
    pub use_tls: bool,
}

impl View for PeerDescriptor {
    type V = PeerView;

    open spec fn view(&self) -> PeerView {
        PeerView { host: self.host@, port: self.port, scheme: self.scheme@, use_tls: self.use_tls }
    }
}

/// The decimal digits of `n` as ASCII, without leading zeros.
pub open spec fn decimal(n: nat) -> Seq<u8>
    decreases n,
{
    if n < 10 {
        seq![(0x30 + n) as u8]
    } else {
        decimal(n / 10).push((0x30 + n % 10) as u8)
    }
}

/// `host:port`.
pub open spec fn authority(peer: PeerView) -> Seq<u8> {
    peer.host + seq![0x3au8] + decimal(peer.port as nat)
}

/// The absolute URI under which `peer` serves the path and query `path`: the
/// peer's scheme, `://`, its authority, and then `path` exactly as given.
pub open spec fn absolute_uri(peer: PeerView, path: Seq<u8>) -> Seq<u8> {
    peer.scheme + seq![0x3au8, 0x2fu8, 0x2fu8] + authority(peer) + path
}

/// Appends `bytes` to `out`.
pub fn push_bytes(out: &mut Vec<u8>, bytes: &[u8])
    ensures
        final(out)@ == old(out)@ + bytes@,
{
    let mut i: usize = 0;
    while i < bytes.len()
        invariant
            0 <= i <= bytes@.len(),
            out@ == old(out)@ + bytes@.take(i as int),
        decreases bytes@.len() - i,
    {
        out.push(bytes[i]);
        assert(bytes@.take(i + 1) =~= bytes@.take(i as int).push(bytes@[i as int]));
        i = i + 1;
    }
    assert(bytes@.take(i as int) =~= bytes@);
}

/// Appends the decimal digits of `n` to `out`.
pub fn push_decimal(out: &mut Vec<u8>, n: u16)
    ensures
        final(out)@ == old(out)@ + decimal(n as nat),
    decreases n,
{
    if n >= 10 {
        push_decimal(out, n / 10);
    }
    let digit: u8 = (n % 10) as u8;
    out.push(0x30u8 + digit);
}

impl PeerDescriptor {
    /// An endpoint from its parts.
    pub fn new(host: &[u8], port: u16, scheme: &[u8], use_tls: bool) -> (peer: PeerDescriptor)
        ensures
            peer@ == (PeerView { host: host@, port, scheme: scheme@, use_tls }),
    {
        PeerDescriptor { host: slice_to_vec(host), port, scheme: slice_to_vec(scheme), use_tls }
    }

    /// An endpoint with the same parts.
    pub fn duplicate(&self) -> (copy: PeerDescriptor)
        ensures
            copy@ == self@,
    {
        PeerDescriptor::new(self.host.as_slice(), self.port, self.scheme.as_slice(), self.use_tls)
    }

    /// The absolute URI of the path and query `path` on this endpoint. `path`
    /// is carried over byte for byte.
    pub fn uri_for(&self, path: &[u8]) -> (uri: Vec<u8>)
        ensures
            uri@ == absolute_uri(self@, path@),
    {
        let mut uri: Vec<u8> = Vec::new();
        push_bytes(&mut uri, self.scheme.as_slice());
        uri.push(0x3au8);
        uri.push(0x2fu8);
        uri.push(0x2fu8);
        push_bytes(&mut uri, self.host.as_slice());
        uri.push(0x3au8);
        push_decimal(&mut uri, self.port);
        push_bytes(&mut uri, path);
        assert(uri@ =~= absolute_uri(self@, path@));
        uri
    }
}

/// The primary upstream that is used when nothing else is configured:
/// plain HTTP on port 3000 of the local host.
pub open spec fn standard_primary() -> PeerView {
    PeerView {
        host: "127.0.0.1".spec_bytes(),
        port: 3000,
        scheme: "http".spec_bytes(),
        use_tls: false,
    }
}

/// The shadow upstream that is used when nothing else is configured:
/// plain HTTP on port 3001 of the local host.
pub open spec fn standard_shadow() -> PeerView {
    PeerView {
        host: "127.0.0.1".spec_bytes(),
        port: 3001,
        scheme: "http".spec_bytes(),
        use_tls: false,
    }
}

/// Holds the two endpoints and answers which one is the primary.
#[derive(Debug)]
pub struct PeerResolver {
    primary: Option<PeerDescriptor>,
    shadow: PeerDescriptor,
}

/// What a `PeerResolver` holds, as plain values.
pub struct ResolverView {
    pub primary: Option<PeerView>,
    pub shadow: PeerView,
}

impl View for PeerResolver {
    type V = ResolverView;

    closed spec fn view(&self) -> ResolverView {
        ResolverView {
            primary: match self.primary {
                Some(p) => Some(p@),
                None => None,
            },
            shadow: self.shadow@,
        }
    }
}

impl PeerResolver {
    /// A resolver for the given endpoints. The primary may be left out; the
    /// resolver then refuses every request.
    pub fn new(primary: Option<PeerDescriptor>, shadow: PeerDescriptor) -> (resolver: PeerResolver)
        ensures
            resolver@.shadow == shadow@,
            resolver@.primary == match primary {
                Some(p) => Some(p@),
                None => None::<PeerView>,
            },
    {
        PeerResolver { primary, shadow }
    }

    /// A resolver for the standard endpoints.
    pub fn standard() -> (resolver: PeerResolver)
        ensures
            resolver@.primary == Some(standard_primary()),
            resolver@.shadow == standard_shadow(),
    {
        let primary = PeerDescriptor::new("127.0.0.1".as_bytes(), 3000, "http".as_bytes(), false);
        let shadow = PeerDescriptor::new("127.0.0.1".as_bytes(), 3001, "http".as_bytes(), false);
        PeerResolver { primary: Some(primary), shadow }
    }

    /// The primary upstream, or `MissingPrimary` if none is configured.
    pub fn primary(&self) -> (chosen: Result<&PeerDescriptor, PeerConfigurationError>)
        ensures
            match self@.primary {
                Some(p) => chosen is Ok && chosen->Ok_0@ == p,
                None => chosen == Err::<&PeerDescriptor, _>(PeerConfigurationError::MissingPrimary),
            },
    {
        match &self.primary {
            Some(p) => Ok(p),
            None => Err(PeerConfigurationError::MissingPrimary),
        }
    }

    /// The shadow upstream.
    pub fn shadow(&self) -> (peer: &PeerDescriptor)
        ensures
            peer@ == self@.shadow,
    {
        &self.shadow
    }
}

} // verus!
