//! The trust policy: which peer certificates a consumer accepts.
//!
//! A policy is a value handed to the channel setup, so a deployment picks
//! one by configuration. Deciding has no side effect.

use vstd::prelude::*;
use crate::transport::bytes_equal;

verus! {

/// A rule for accepting a producer's certificate.
#[derive(Debug, PartialEq, Eq)]
pub enum TrustPolicy {
    /// Accept whatever the peer presents. This relies on the network for
    /// isolation: it is sound only where the producer's address is itself
    /// the secret, as on a private link.
    AcceptAny,
    /// Accept one certificate only, given in DER encoding.
    Pinned(Vec<u8>),
}

/// What a policy says of a certificate chain, given as DER encodings with
/// the peer's own certificate first. `AcceptAny` accepts every chain, the
/// empty one included. `Pinned` accepts a chain whose first certificate is
/// the pinned one, byte for byte.
pub open spec fn policy_accepts(policy: TrustPolicy, chain: Seq<Seq<u8>>) -> bool {
    match policy {
        TrustPolicy::AcceptAny => true,
        TrustPolicy::Pinned(pinned) => chain.len() > 0 && chain[0] == pinned@,
    }
}

/// The certificate chain that a vector of DER encodings stands for.
pub open spec fn chain_view(chain: Vec<Vec<u8>>) -> Seq<Seq<u8>> {
    Seq::new(chain@.len(), |i: int| chain@[i]@)
}

impl TrustPolicy {
    /// Decides whether the peer that presented `chain` is acceptable as
    /// `identity`. Neither policy looks at the identity hint: the first
    /// trusts the network, the second the certificate alone.
    pub fn accepts(&self, chain: &Vec<Vec<u8>>, identity: &str) -> (accepted: bool)
        ensures
            accepted == policy_accepts(*self, chain_view(*chain)),
    {
        match self {
            TrustPolicy::AcceptAny => true,
            TrustPolicy::Pinned(pinned) => {
                if chain.len() == 0 {
                    false
                } else {
                    bytes_equal(chain[0].as_slice(), pinned.as_slice())
                }
            },
        }
    }
}

} // verus!
