//! Vendor Specific element: an opaque vendor-defined payload.

use vstd::prelude::*;

use crate::ies::InformationElement;

verus! {

/// Vendor Specific element (ID 221): any payload whose leading bytes are not the WPA OUI prefix.
#[derive(Debug, PartialEq, Eq)]
pub struct VendorSpecific {
    bytes: Vec<u8>,
}

impl VendorSpecific {
    pub const ID: u8 = 221;

    /// Builds the element from its payload; any byte count, including
    /// zero, is accepted.
    pub fn new(bytes: Vec<u8>) -> (r: VendorSpecific)
        ensures
            r@ == bytes@,
    {
        VendorSpecific { bytes }
    }
}

impl View for VendorSpecific {
    type V = Seq<u8>;

    closed spec fn view(&self) -> Seq<u8> {
        self.bytes@
    }
}

impl InformationElement for VendorSpecific {
    open spec fn spec_name(&self) -> Seq<char> {
        "Vendor Specific"@
    }

    open spec fn spec_id(&self) -> u8 {
        221
    }

    open spec fn spec_id_ext(&self) -> Option<u8> {
        None
    }

    open spec fn payload(&self) -> Seq<u8> {
        self@
    }

    fn name(&self) -> (r: &'static str) {
        "Vendor Specific"
    }

    fn id(&self) -> (r: u8) {
        221
    }

    fn id_ext(&self) -> (r: Option<u8>) {
        None
    }

    fn bytes(&self) -> (r: &[u8]) {
        self.bytes.as_slice()
    }
}

} // verus!
