//! HE (802.11ax) elements, carried under the reserved element ID 255 with a
//! one-byte ID extension.

use vstd::prelude::*;

use crate::ies::InformationElement;

verus! {

/// HE Capabilities element (ID 255, extension 35): the raw capability bytes
/// of an 802.11ax station. Any byte count is accepted; the payload is kept
/// for callers that decode it further.
#[derive(Debug, PartialEq, Eq)]
pub struct HeCapabilities {
    bytes: Vec<u8>,
}

impl HeCapabilities {
    pub const ID: u8 = 255;

    pub const ID_EXT: u8 = 35;

    /// Builds the element from its payload; any byte count, including zero,
    /// is accepted.
    pub fn new(bytes: Vec<u8>) -> (r: HeCapabilities)
        ensures
            r@ == bytes@,
    {
        HeCapabilities { bytes }
    }
}

impl View for HeCapabilities {
    type V = Seq<u8>;

    closed spec fn view(&self) -> Seq<u8> {
        self.bytes@
    }
}

impl InformationElement for HeCapabilities {
    open spec fn spec_name(&self) -> Seq<char> {
        "HE Capabilities"@
    }

    open spec fn spec_id(&self) -> u8 {
        255
    }

    open spec fn spec_id_ext(&self) -> Option<u8> {
        Some(35)
    }

    open spec fn payload(&self) -> Seq<u8> {
        self@
    }

    fn name(&self) -> (r: &'static str) {
        "HE Capabilities"
    }

    fn id(&self) -> (r: u8) {
        255
    }

    fn id_ext(&self) -> (r: Option<u8>) {
        Some(35)
    }

    fn bytes(&self) -> (r: &[u8]) {
        self.bytes.as_slice()
    }
}

/// HE Operation element (ID 255, extension 36): the raw operation parameters
/// of an 802.11ax BSS. Any byte count is accepted; the payload is kept for
/// callers that decode it further.
#[derive(Debug, PartialEq, Eq)]
pub struct HeOperation {
    bytes: Vec<u8>,
}

impl HeOperation {
    pub const ID: u8 = 255;

    pub const ID_EXT: u8 = 36;

    /// Builds the element from its payload; any byte count, including zero,
    /// is accepted.
    pub fn new(bytes: Vec<u8>) -> (r: HeOperation)
        ensures
            r@ == bytes@,
    {
        HeOperation { bytes }
    }
}

impl View for HeOperation {
    type V = Seq<u8>;

    closed spec fn view(&self) -> Seq<u8> {
        self.bytes@
    }
}

impl InformationElement for HeOperation {
    open spec fn spec_name(&self) -> Seq<char> {
        "HE Operation"@
    }

    open spec fn spec_id(&self) -> u8 {
        255
    }

    open spec fn spec_id_ext(&self) -> Option<u8> {
        Some(36)
    }

    open spec fn payload(&self) -> Seq<u8> {
        self@
    }

    fn name(&self) -> (r: &'static str) {
        "HE Operation"
    }

    fn id(&self) -> (r: u8) {
        255
    }

    fn id_ext(&self) -> (r: Option<u8>) {
        Some(36)
    }

    fn bytes(&self) -> (r: &[u8]) {
        self.bytes.as_slice()
    }
}

} // verus!
