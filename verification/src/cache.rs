//! The on-disk interface cache, as the verified half of its contract: the
//! record name derived from an address, the exact payload a record holds,
//! and the reading of a record's content back into a definition. Opening,
//! reading and writing the records themselves is plain file I/O and sits
//! with the caller.

use vstd::prelude::*;
use vstd::string::StringExecFns;
use crate::address::{checksum_of, Address};
use crate::errors::CacheError;
use crate::interface::{interface_text_well_formed, InterfaceDefinition};

verus! {

/// The name of the cache record for an address: a dot-file in the working
/// directory named by the address's checksummed text.
pub open spec fn spec_record_name(address_bytes: Seq<u8>) -> Seq<char> {
    "./."@ + checksum_of(address_bytes) + ".json"@
}

/// Derives the cache record name for an address. Identical addresses always
/// derive the identical name, so repeated runs share one record per address.
pub fn record_name(address: &Address) -> (r: String)
    requires
        address.wf(),
    ensures
        r@ == spec_record_name(address.bytes@),
{
    let mut name = String::from_str("./.");
    let checksum = address.checksum_text();
    name.append(checksum.as_str());
    name.append(".json");
    name
}

/// The exact payload a record holds for a definition: the definition's text.
pub open spec fn spec_encode(d: InterfaceDefinition) -> Seq<char> {
    d.spec_text()
}

/// What decoding record content yields: the same text if it parses as an
/// interface definition, nothing if the record is corrupt.
pub open spec fn spec_decode(content: Seq<char>) -> Option<Seq<char>> {
    if interface_text_well_formed(content) {
        Some(content)
    } else {
        None
    }
}

/// Serializes a definition into the payload its cache record holds. The
/// caller writes the payload to the record as one whole-file replace.
pub fn store_payload(d: &InterfaceDefinition) -> (r: String)
    ensures
        r@ == spec_encode(*d),
{
    String::from_str(d.text())
}

/// Reads a cache record's content back. `content` is `None` where no record
/// exists — an ordinary miss, not an error; existing content that does not
/// parse is a corrupt record and fails with [`CacheError`] rather than being
/// silently ignored.
pub fn load_record(content: Option<String>) -> (r: Result<
    Option<InterfaceDefinition>,
    CacheError,
>)
    ensures
        r is Err <==> (content matches Some(t) && spec_decode(t@) is None),
        (r matches Ok(o) && o is None) <==> content is None,
        r matches Ok(Some(d)) ==> {
            &&& d.wf()
            &&& content matches Some(t) && spec_decode(t@) == Some(d.spec_text())
        },
        (content matches Some(t) && spec_decode(t@) is Some) ==> (r matches Ok(o) && o is Some),
{
    match content {
        None => Ok(None),
        Some(text) => {
            match InterfaceDefinition::from_text(text) {
                Some(d) => Ok(Some(d)),
                None => Err(CacheError),
            }
        },
    }
}

/// Law: the cache round-trips exactly — decoding the payload stored for any
/// well-formed definition succeeds and yields the identical text, hence a
/// definition equal in every function signature.
pub proof fn lemma_store_load_round_trip(d: InterfaceDefinition)
    requires
        d.wf(),
    ensures
        spec_decode(spec_encode(d)) == Some(d.spec_text()),
{
}

} // verus!
