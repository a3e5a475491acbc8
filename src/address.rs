use vstd::prelude::*;

verus! {

#[verifier::external_type_specification]
#[verifier::external_body]
pub struct ExMultiaddr(libp2p::Multiaddr);

#[verifier::external_type_specification]
#[verifier::external_body]
pub struct ExPeerId(libp2p::PeerId);

#[verifier::external_type_specification]
#[verifier::external_body]
pub struct ExMultiaddrError(libp2p::multiaddr::Error);

/// Relies on the derived `Clone` of `Multiaddr`: it clones the shared byte
/// buffer, so the copy is the same address.
pub assume_specification[ <libp2p::Multiaddr as std::clone::Clone>::clone ](a: &libp2p::Multiaddr) -> (r: libp2p::Multiaddr)
    ensures
        r == *a,
;

/// Whether `<Multiaddr as FromStr>::from_str` accepts a text.
pub uninterp spec fn multiaddr_accepts(s: Seq<char>) -> bool;

/// The address that `<Multiaddr as FromStr>::from_str` builds from an accepted text.
pub uninterp spec fn multiaddr_of(s: Seq<char>) -> libp2p::Multiaddr;

/// Relies on `<Multiaddr as FromStr>::from_str`: the outcome depends on the
/// text alone; a text that does not start with `/` is refused, and the empty
/// text is accepted as the empty address.
#[verifier::external_body]
pub(crate) fn parse_multiaddr(s: &str) -> (r: Result<libp2p::Multiaddr, libp2p::multiaddr::Error>)
    ensures
        r.is_ok() == multiaddr_accepts(s@),
        r matches Ok(m) ==> m == multiaddr_of(s@),
        s@.len() == 0 ==> r.is_ok(),
        s@.len() > 0 && s@[0] != '/' ==> r.is_err(),
{
    s.parse::<libp2p::Multiaddr>()
}

/// Relies on `Multiaddr::with` and `Protocol::P2p`: appends a `/p2p/<peer>`
/// component to the address, which is how a discovered peer is dialed.
#[verifier::external_body]
pub(crate) fn with_peer(addr: libp2p::Multiaddr, peer: libp2p::PeerId) -> (r: libp2p::Multiaddr) {
    addr.with(libp2p::multiaddr::Protocol::P2p(peer))
}

} // verus!
