//! Server names: which host strings may be offered to a TLS peer.

use vstd::prelude::*;

verus! {

/// Whether `webpki` takes `host` as a syntactically valid reference DNS name.
///
/// The grammar is the one of `webpki::DnsNameRef::try_from_ascii_str`; it is
/// named here, not restated.
pub uninterp spec fn dns_name_accepted(host: Seq<char>) -> bool;

/// Calls `webpki::DnsNameRef::try_from_ascii_str` and reports whether it
/// returned `Ok`.
///
/// Trusted: the answer depends on the bytes of `host` alone and is the named
/// predicate `dns_name_accepted`; the empty string is never accepted, since
/// the parser fails on its first read.
#[verifier::external_body]
pub(crate) fn dns_name_ok(host: &str) -> (ok: bool)
    ensures
        ok == dns_name_accepted(host@),
        host@.len() == 0 ==> !ok,
{
    webpki::DnsNameRef::try_from_ascii_str(host).is_ok()
}

/// Decides whether `host` can serve as the server name of a handshake.
pub fn is_valid_server_name(host: &str) -> (ok: bool)
    ensures
        ok == dns_name_accepted(host@),
        host@.len() == 0 ==> !ok,
{
    dns_name_ok(host)
}

} // verus!
