//! Unknown element: the always-succeeding fallback for element IDs, or ID
//! extensions, that no dedicated decoder recognizes.

use vstd::prelude::*;

use crate::ies::InformationElement;

verus! {

/// Unknown element: preserves the ID, the optional ID extension, and the raw
/// payload of an unrecognized element. Construction always succeeds.
#[derive(Debug, PartialEq, Eq)]
pub struct Unknown {
    bytes: Vec<u8>,
    id: u8,
    id_ext: Option<u8>,
}

impl Unknown {
    /// Builds the element from its payload and identity; any byte count,
    /// including zero, is accepted.
    pub fn new(bytes: Vec<u8>, id: u8, id_ext: Option<u8>) -> (r: Unknown)
        ensures
            r@ == bytes@,
            r.spec_id() == id,
            r.spec_id_ext() == id_ext,
    {
        Unknown { bytes, id, id_ext }
    }
}

impl View for Unknown {
    type V = Seq<u8>;

    closed spec fn view(&self) -> Seq<u8> {
        self.bytes@
    }
}

impl InformationElement for Unknown {
    open spec fn spec_name(&self) -> Seq<char> {
        "Unknown"@
    }

    closed spec fn spec_id(&self) -> u8 {
        self.id
    }

    closed spec fn spec_id_ext(&self) -> Option<u8> {
        self.id_ext
    }

    open spec fn payload(&self) -> Seq<u8> {
        self@
    }

    fn name(&self) -> (r: &'static str) {
        "Unknown"
    }

    fn id(&self) -> (r: u8) {
        self.id
    }

    fn id_ext(&self) -> (r: Option<u8>) {
        self.id_ext
    }

    fn bytes(&self) -> (r: &[u8]) {
        self.bytes.as_slice()
    }
}

} // verus!
