//! Antenna element: names the antenna a frame was transmitted on.

use vstd::prelude::*;

use crate::ies::{is_invalid_length, IeError, InformationElement};

verus! {

/// Antenna element (ID 64): exactly one byte, the antenna ID.
#[derive(Debug, PartialEq, Eq)]
pub struct Antenna {
    bytes: Vec<u8>,
}

impl Antenna {
    pub const ID: u8 = 64;

    pub const LENGTH: usize = 1;

    #[verifier::type_invariant]
    closed spec fn len_contract(self) -> bool {
        self.bytes@.len() == 1
    }

    /// Builds the element from its payload; any length other than one byte is
    /// rejected.
    pub fn new(bytes: Vec<u8>) -> (r: Result<Antenna, IeError>)
        ensures
            bytes@.len() == 1 ==> (r matches Ok(a) && a@ == bytes@),
            bytes@.len() != 1 ==> (r matches Err(e) && is_invalid_length(
                e,
                "Antenna"@,
                1,
                bytes@.len() as int,
            )),
    {
        if bytes.len() == 1 {
            Ok(Antenna { bytes })
        } else {
            let actual_length = bytes.len();
            Err(
                IeError::InvalidLength {
                    ie_name: "Antenna",
                    expected_length: 1,
                    actual_length,
                },
            )
        }
    }

    /// The antenna ID byte. 0 means unknown, 255 means multiple antennas.
    pub fn antenna_id(&self) -> (r: u8)
        ensures
            r == self@[0],
    {
        proof {
            use_type_invariant(self);
        }
        self.bytes[0]
    }
}

impl View for Antenna {
    type V = Seq<u8>;

    closed spec fn view(&self) -> Seq<u8> {
        self.bytes@
    }
}

impl InformationElement for Antenna {
    open spec fn spec_name(&self) -> Seq<char> {
        "Antenna"@
    }

    open spec fn spec_id(&self) -> u8 {
        64
    }

    open spec fn spec_id_ext(&self) -> Option<u8> {
        None
    }

    open spec fn payload(&self) -> Seq<u8> {
        self@
    }

    fn name(&self) -> (r: &'static str) {
        "Antenna"
    }

    fn id(&self) -> (r: u8) {
        64
    }

    fn id_ext(&self) -> (r: Option<u8>) {
        None
    }

    fn bytes(&self) -> (r: &[u8]) {
        proof {
            use_type_invariant(self);
        }
        self.bytes.as_slice()
    }
}

} // verus!
