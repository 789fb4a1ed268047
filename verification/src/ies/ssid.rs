//! SSID element: the network name.

use vstd::prelude::*;
use vstd::utf8::decode_utf8;
use vstd::utf8::valid_utf8;

use crate::ies::InformationElement;
use crate::ies::utf8_from;

verus! {

/// SSID element (ID 0): any byte count, including zero (a hidden network).
/// The payload is the network name, usually UTF-8 text.
#[derive(Debug, PartialEq, Eq)]
pub struct Ssid {
    bytes: Vec<u8>,
}

impl Ssid {
    pub const ID: u8 = 0;

    /// Builds the element from its payload; any byte count, including zero,
    /// is accepted.
    pub fn new(bytes: Vec<u8>) -> (r: Ssid)
        ensures
            r@ == bytes@,
    {
        Ssid { bytes }
    }

    /// The network name as text: the UTF-8 decoding of the payload, absent
    /// exactly when the payload is not valid UTF-8.
    pub fn as_str(&self) -> (r: Option<&str>)
        ensures
            r is Some <==> valid_utf8(self@),
            r matches Some(s) ==> s@ == decode_utf8(self@),
    {
        utf8_from(self.bytes.as_slice())
    }
}

impl View for Ssid {
    type V = Seq<u8>;

    closed spec fn view(&self) -> Seq<u8> {
        self.bytes@
    }
}

impl InformationElement for Ssid {
    open spec fn spec_name(&self) -> Seq<char> {
        "SSID"@
    }

    open spec fn spec_id(&self) -> u8 {
        0
    }

    open spec fn spec_id_ext(&self) -> Option<u8> {
        None
    }

    open spec fn payload(&self) -> Seq<u8> {
        self@
    }

    fn name(&self) -> (r: &'static str) {
        "SSID"
    }

    fn id(&self) -> (r: u8) {
        0
    }

    fn id_ext(&self) -> (r: Option<u8>) {
        None
    }

    fn bytes(&self) -> (r: &[u8]) {
        self.bytes.as_slice()
    }
}

} // verus!
