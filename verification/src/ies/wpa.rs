//! WPA element: the vendor-specific element carrying WPA version 1 security
//! parameters, recognized by its OUI prefix.

use vstd::prelude::*;

use crate::ies::InformationElement;

verus! {

/// Holds exactly when `bytes` starts with the four-byte WPA OUI prefix
/// `00:50:F2:01` that singles the WPA element out among vendor-specific
/// elements.
pub open spec fn has_wpa_oui(bytes: Seq<u8>) -> bool {
    &&& bytes.len() >= 4
    &&& bytes[0] == 0x00
    &&& bytes[1] == 0x50
    &&& bytes[2] == 0xF2
    &&& bytes[3] == 0x01
}

/// Tests the four-byte WPA OUI prefix on a payload.
pub fn starts_with_wpa_oui(bytes: &Vec<u8>) -> (r: bool)
    ensures
        r == has_wpa_oui(bytes@),
{
    bytes.len() >= 4 && bytes[0] == 0x00 && bytes[1] == 0x50 && bytes[2] == 0xF2 && bytes[3]
        == 0x01
}

/// WPA element (ID 221, OUI prefix `00:50:F2:01`): any byte count.
#[derive(Debug, PartialEq, Eq)]
pub struct Wpa {
    bytes: Vec<u8>,
}

impl Wpa {
    pub const ID: u8 = 221;

    /// Builds the element from its payload; any byte count, including zero,
    /// is accepted.
    pub fn new(bytes: Vec<u8>) -> (r: Wpa)
        ensures
            r@ == bytes@,
    {
        Wpa { bytes }
    }
}

impl View for Wpa {
    type V = Seq<u8>;

    closed spec fn view(&self) -> Seq<u8> {
        self.bytes@
    }
}

impl InformationElement for Wpa {
    open spec fn spec_name(&self) -> Seq<char> {
        "WPA"@
    }

    open spec fn spec_id(&self) -> u8 {
        221
    }

    open spec fn spec_id_ext(&self) -> Option<u8> {
        None
    }

    open spec fn payload(&self) -> Seq<u8> {
        self@
    }

    fn name(&self) -> (r: &'static str) {
        "WPA"
    }

    fn id(&self) -> (r: u8) {
        221
    }

    fn id_ext(&self) -> (r: Option<u8>) {
        None
    }

    fn bytes(&self) -> (r: &[u8]) {
        self.bytes.as_slice()
    }
}

} // verus!
