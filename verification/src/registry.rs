//! Registry lookups: the deterministic namespaced key under which a named
//! sub-contract's address is stored, and the reading of the registry's
//! answer, where the all-zero address means "not registered".

use vstd::prelude::*;
use vstd::string::StringSliceAdditionalSpecFns;
use crate::address::Address;
use crate::errors::QueryError;

verus! {

/// The 32-byte Keccak-256 digest of a byte sequence. A function of the input
/// bytes alone.
pub uninterp spec fn keccak_of(bytes: Seq<u8>) -> Seq<u8>;

/// Relies on ethers::utils::keccak256: the digest is computed from the input
/// bytes alone and is exactly 32 bytes.
#[verifier::external_body]
fn keccak256_digest(bytes: &Vec<u8>) -> (r: Vec<u8>)
    ensures
        r@ == keccak_of(bytes@),
        r@.len() == 32,
{
    ethers::utils::keccak256(bytes.as_slice()).to_vec()
}

/// The bytes that are hashed to form a lookup key: the domain bytes followed
/// directly by the name bytes — no length prefix, no separator. The registry
/// contract computes the identical concatenation, so any separator would
/// silently resolve wrong keys rather than fail.
pub open spec fn spec_key_preimage(domain: Seq<u8>, name: Seq<u8>) -> Seq<u8> {
    domain + name
}

/// The registry storage key for a (domain, name) pair: the Keccak-256 digest
/// of the bare concatenation of the two.
pub open spec fn spec_lookup_key(domain: Seq<u8>, name: Seq<u8>) -> Seq<u8> {
    keccak_of(spec_key_preimage(domain, name))
}

/// Computes the 32-byte registry storage key for a (domain, name) pair, such
/// as `("contract.address", "rocketNetworkPrices")`.
pub fn lookup_key(domain: &str, name: &str) -> (r: Vec<u8>)
    ensures
        r@ == spec_lookup_key(domain.spec_bytes(), name.spec_bytes()),
        r@.len() == 32,
{
    let mut preimage: Vec<u8> = Vec::new();
    preimage.extend_from_slice(domain.as_bytes());
    preimage.extend_from_slice(name.as_bytes());
    assert(preimage@ == spec_key_preimage(domain.spec_bytes(), name.spec_bytes()));
    keccak256_digest(&preimage)
}

/// Law: the lookup key is deterministic — an equal (domain, name) pair always
/// hashes to the equal key.
pub proof fn lemma_lookup_key_deterministic(d1: Seq<u8>, n1: Seq<u8>, d2: Seq<u8>, n2: Seq<u8>)
    requires
        d1 == d2,
        n1 == n2,
    ensures
        spec_lookup_key(d1, n1) == spec_lookup_key(d2, n2),
{
}

/// Law: under one fixed domain, distinct names feed distinct byte sequences
/// to the hash, so two names can only share a key through a digest collision.
/// (That a collision never happens is a property of the hash itself and is
/// not claimed here.)
pub proof fn lemma_distinct_names_distinct_preimages(domain: Seq<u8>, n1: Seq<u8>, n2: Seq<u8>)
    requires
        n1 != n2,
    ensures
        spec_key_preimage(domain, n1) != spec_key_preimage(domain, n2),
{
    if spec_key_preimage(domain, n1) == spec_key_preimage(domain, n2) {
        assert((domain + n1).len() == (domain + n2).len());
        assert(n1.len() == n2.len());
        assert forall|i: int| 0 <= i < n1.len() implies n1[i] == n2[i] by {
            assert((domain + n1)[domain.len() + i] == n1[i]);
            assert((domain + n2)[domain.len() + i] == n2[i]);
        }
        assert(n1 =~= n2);
    }
}

/// What [`resolve_address`] returns for each possible registry answer.
pub open spec fn spec_resolve_address(answer: Option<Address>) -> Result<Address, QueryError> {
    match answer {
        None => Err(QueryError::RpcFailure),
        Some(a) => if a.spec_is_zero() {
            Err(QueryError::Unresolved)
        } else {
            Ok(a)
        },
    }
}

/// Reads the registry's answer to a `getAddress` query. `answer` is `None`
/// where the ledger read itself failed; the all-zero address is the
/// registry's "not registered" marker and is surfaced as
/// [`QueryError::Unresolved`], never as a usable address.
pub fn resolve_address(answer: Option<Address>) -> (r: Result<Address, QueryError>)
    requires
        answer matches Some(a) ==> a.wf(),
    ensures
        r == spec_resolve_address(answer),
        r matches Ok(out) ==> out.wf() && !out.spec_is_zero(),
{
    match answer {
        None => Err(QueryError::RpcFailure),
        Some(a) => {
            if a.is_zero() {
                Err(QueryError::Unresolved)
            } else {
                Ok(a)
            }
        },
    }
}

} // verus!
