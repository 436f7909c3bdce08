//! Per-client admission control, keyed by a normalised client address.

use vstd::prelude::*;

verus! {

/// The bits that an IPv6 address keeps when it is reduced to its /64 prefix.
pub const V6_PREFIX_MASK: u128 = 0xffff_ffff_ffff_ffff_0000_0000_0000_0000;

/// A client's network address: an IPv4 address as its 32 bits, an IPv6
/// address as its 128 bits (most significant first, as written).
#[derive(Clone, Copy, Debug, PartialEq, Eq, Hash, Structural)]
pub enum ClientAddr {
    V4(u32),
    V6(u128),
}

/// The key that admission control uses for an address: an IPv4 address as it
/// is, an IPv6 address with its lower 64 bits cleared.
pub open spec fn client_key(addr: ClientAddr) -> ClientAddr {
    match addr {
        ClientAddr::V4(a) => ClientAddr::V4(a),
        ClientAddr::V6(a) => ClientAddr::V6(a & V6_PREFIX_MASK),
    }
}

/// Truncates an IPv6 address to its /64 subnet; an IPv4 address is kept.
pub fn normalise_ip_addr(addr: &ClientAddr) -> (r: ClientAddr)
    ensures
        r == client_key(*addr),
{
    match addr {
        ClientAddr::V4(a) => ClientAddr::V4(*a),
        ClientAddr::V6(a) => ClientAddr::V6(*a & V6_PREFIX_MASK),
    }
}

/// Two IPv6 addresses get the same key exactly when they share their /64
/// prefix, whatever their lower 64 bits hold.
pub proof fn lemma_v6_key_is_prefix(a: u128, b: u128)
    ensures
        (client_key(ClientAddr::V6(a)) == client_key(ClientAddr::V6(b))) <==> (a >> 64u128 == b
            >> 64u128),
{
    assert((a & 0xffff_ffff_ffff_ffff_0000_0000_0000_0000u128 == b
        & 0xffff_ffff_ffff_ffff_0000_0000_0000_0000u128) <==> (a >> 64u128 == b >> 64u128))
        by (bit_vector);
}

/// An IPv4 address and an IPv6 address never share a key.
pub proof fn lemma_families_never_share_key(a: u32, b: u128)
    ensures
        client_key(ClientAddr::V4(a)) != client_key(ClientAddr::V6(b)),
{
}

/// A check that was refused: the client's quota for the current minute is spent.
#[derive(Clone, Copy, Debug, PartialEq, Eq, Structural)]
pub struct RateLimited;

/// The number of requests a minute that a limiter admits from each client key,
/// as it was made.
pub uninterp spec fn quota_per_minute(l: ClientRateLimiter) -> u32;

/// Keyed token buckets, one per client key, shared by every connection.
/// It holds governor's keyed limiter, whose type is bounded by governor's
/// own traits and so cannot be declared to Verus: the struct is opaque, and
/// only the two methods below reach into it.
#[verifier::external_body]
pub struct ClientRateLimiter {
    inner: governor::DefaultKeyedRateLimiter<ClientAddr>,
}

impl ClientRateLimiter {
    /// Relies on governor's `RateLimiter::dashmap` with `Quota::per_minute`:
    /// an empty keyed limiter that replenishes `per_minute` cells a minute.
    #[verifier::external_body]
    fn with_quota(per_minute: u32) -> (r: Self)
        requires
            per_minute > 0,
        ensures
            quota_per_minute(r) == per_minute,
    {
        let quota = governor::Quota::per_minute(std::num::NonZeroU32::new(per_minute).unwrap());
        ClientRateLimiter { inner: governor::RateLimiter::dashmap(quota) }
    }

    /// Relies on governor's `RateLimiter::check_key`: whether the bucket of
    /// `key` had a cell left now. The answer depends on the time and on
    /// earlier checks, so nothing is stated of it.
    #[verifier::external_body]
    fn admits(&self, key: &ClientAddr) -> (r: bool) {
        self.inner.check_key(key).is_ok()
    }

    /// A limiter that admits `per_minute` requests a minute from each client key.
    pub fn new(per_minute: u32) -> (r: Self)
        requires
            per_minute > 0,
        ensures
            quota_per_minute(r) == per_minute,
    {
        Self::with_quota(per_minute)
    }

    /// Whether a client may complete another request. IPv4 addresses are
    /// used directly; IPv6 addresses are truncated to their /64 subnet, as a
    /// client can make more IPv6 addresses at will.
    pub fn check_key(&self, addr: &ClientAddr) -> (r: Result<(), RateLimited>) {
        let key = normalise_ip_addr(addr);
        if self.admits(&key) {
            Ok(())
        } else {
            Err(RateLimited)
        }
    }
}

} // verus!
