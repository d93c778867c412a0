//! The contract interface definition: the typed function catalogue needed to
//! encode calls to a contract and decode its answers. The pipeline carries a
//! definition as its textual form and never looks inside it; all it ever
//! checks is that the text parses.

use vstd::prelude::*;

verus! {

/// True of text that parses as a contract interface definition. A function
/// of the text alone.
pub uninterp spec fn interface_text_well_formed(s: Seq<char>) -> bool;

/// Relies on serde_json deserialization into ethers::abi::Abi: whether the
/// text parses as an interface definition depends on the text alone.
#[verifier::external_body]
fn parses_as_interface(text: &str) -> (r: bool)
    ensures
        r == interface_text_well_formed(text@),
{
    serde_json::from_str::<ethers::abi::Abi>(text).is_ok()
}

/// A contract's interface definition, held as text that is known to parse.
/// Immutable once loaded; opaque to the rest of the pipeline, which only
/// hands it to the call-encoding layer.
pub struct InterfaceDefinition {
    text: String,
}

impl InterfaceDefinition {
    /// The definition's text.
    pub closed spec fn spec_text(&self) -> Seq<char> {
        self.text@
    }

    /// Well-formed: the held text parses as an interface definition.
    pub open spec fn wf(&self) -> bool {
        interface_text_well_formed(self.spec_text())
    }

    /// Wraps interface text, accepting it only if it parses. The only way to
    /// obtain a definition, so every definition's text is known to parse.
    pub fn from_text(text: String) -> (r: Option<InterfaceDefinition>)
        ensures
            r is Some <==> interface_text_well_formed(text@),
            r matches Some(d) ==> d.wf() && d.spec_text() == text@,
    {
        if parses_as_interface(text.as_str()) {
            Some(InterfaceDefinition { text })
        } else {
            None
        }
    }

    /// The definition's text, for the call-encoding layer and for storage.
    pub fn text(&self) -> (r: &str)
        ensures
            r@ == self.spec_text(),
    {
        self.text.as_str()
    }
}

impl Clone for InterfaceDefinition {
    /// The copy is the same definition.
    fn clone(&self) -> (r: Self)
        ensures
            r == *self,
    {
        InterfaceDefinition { text: self.text.clone() }
    }
}

} // verus!
