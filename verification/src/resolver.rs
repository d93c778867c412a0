//! The interface resolver's decisions: consult the cache first, fall back to
//! the remote interface-lookup service only on a miss, and classify what the
//! service answered. The caller performs the cache read and the remote call
//! and hands their plain outcomes back in.

use vstd::prelude::*;
use crate::errors::{CacheError, IoError, ResolveError};
use crate::interface::{interface_text_well_formed, InterfaceDefinition};

verus! {

/// Why an interface could not be resolved at all: the cache held a corrupt
/// record, or the remote lookup failed. Both abort the operation; only a
/// cache *write* failure is tolerated.
#[derive(Clone, Copy, PartialEq, Eq, Structural, Debug)]
pub enum ResolveFailure {
    Cache(CacheError),
    Lookup(ResolveError),
}

/// What to do after the cache has been consulted.
pub enum ResolveAction {
    /// The cache held a definition: use it, with no remote call and no
    /// cache write.
    UseCached(InterfaceDefinition),
    /// The cache held nothing: fetch from the interface-lookup service.
    FetchRemote,
}

/// The plan for each possible cache outcome.
pub open spec fn spec_plan(cached: Option<InterfaceDefinition>) -> ResolveAction {
    match cached {
        Some(d) => ResolveAction::UseCached(d),
        None => ResolveAction::FetchRemote,
    }
}

/// Decides the next step from what the cache held for the address.
pub fn plan_after_cache(cached: Option<InterfaceDefinition>) -> (r: ResolveAction)
    ensures
        r == spec_plan(cached),
{
    match cached {
        Some(d) => ResolveAction::UseCached(d),
        None => ResolveAction::FetchRemote,
    }
}

/// Law (cache-hit short-circuit): with a populated cache the plan is to use
/// the cached definition as it stands — never a remote fetch. Resolving the
/// same address again therefore never invokes the lookup service while its
/// record remains cached.
pub proof fn lemma_cache_hit_short_circuit(d: InterfaceDefinition)
    ensures
        spec_plan(Some(d)) == ResolveAction::UseCached(d),
        !(spec_plan(Some(d)) is FetchRemote),
{
}

/// Classifies the interface-lookup service's answer. `fetched` is `None`
/// where the service could not be reached; otherwise it is the textual
/// interface payload of each metadata item the service returned, first item
/// first. Exactly one well-formed first item is expected: no items means the
/// contract is unknown ([`ResolveError::NotFound`]), a first item whose text
/// does not parse is [`ResolveError::Malformed`] — the two are distinct.
pub fn interpret_fetch(fetched: Option<Vec<String>>) -> (r: Result<
    InterfaceDefinition,
    ResolveError,
>)
    ensures
        fetched is None <==> r == Result::<InterfaceDefinition, ResolveError>::Err(
            ResolveError::ServiceUnavailable,
        ),
        (fetched matches Some(items) && items@.len() == 0) <==> r == Result::<
            InterfaceDefinition,
            ResolveError,
        >::Err(ResolveError::NotFound),
        (fetched matches Some(items) && items@.len() > 0 && !interface_text_well_formed(
            items@[0]@,
        )) <==> r == Result::<InterfaceDefinition, ResolveError>::Err(ResolveError::Malformed),
        r matches Ok(d) ==> {
            &&& d.wf()
            &&& fetched matches Some(items) && items@.len() > 0 && d.spec_text() == items@[0]@
        },
        (fetched matches Some(items) && items@.len() > 0 && interface_text_well_formed(
            items@[0]@,
        )) ==> r is Ok,
{
    match fetched {
        None => Err(ResolveError::ServiceUnavailable),
        Some(mut items) => {
            if items.len() == 0 {
                Err(ResolveError::NotFound)
            } else {
                let first = items.remove(0);
                match InterfaceDefinition::from_text(first) {
                    Some(d) => Ok(d),
                    None => Err(ResolveError::Malformed),
                }
            }
        },
    }
}

/// Concludes a resolve once the freshly fetched definition has been offered
/// to the cache. The cache is an optimization: a failed write
/// ([`IoError`]) degrades later runs, never this one, so the definition
/// stands whatever the write's outcome was.
pub fn conclude_after_store(d: InterfaceDefinition, store_outcome: Result<(), IoError>) -> (r:
    InterfaceDefinition)
    ensures
        r == d,
{
    match store_outcome {
        Ok(_) => d,
        Err(IoError) => d,
    }
}

} // verus!
