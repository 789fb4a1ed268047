//! DS Parameter Set element: the current operating channel number.

use vstd::prelude::*;

use crate::ies::{is_invalid_length, IeError, InformationElement};

verus! {

/// DS Parameter Set element (ID 3): exactly one byte, the channel number of
/// the direct-sequence PHY the network operates on.
#[derive(Debug, PartialEq, Eq)]
pub struct DsParameterSet {
    bytes: Vec<u8>,
}

impl DsParameterSet {
    pub const ID: u8 = 3;

    pub const LENGTH: usize = 1;

    #[verifier::type_invariant]
    closed spec fn len_contract(self) -> bool {
        self.bytes@.len() == 1
    }

    /// Builds the element from its payload; any length other than one byte is
    /// rejected.
    pub fn new(bytes: Vec<u8>) -> (r: Result<DsParameterSet, IeError>)
        ensures
            bytes@.len() == 1 ==> (r matches Ok(a) && a@ == bytes@),
            bytes@.len() != 1 ==> (r matches Err(e) && is_invalid_length(
                e,
                "DS Parameter Set"@,
                1,
                bytes@.len() as int,
            )),
    {
        if bytes.len() == 1 {
            Ok(DsParameterSet { bytes })
        } else {
            let actual_length = bytes.len();
            Err(
                IeError::InvalidLength {
                    ie_name: "DS Parameter Set",
                    expected_length: 1,
                    actual_length,
                },
            )
        }
    }

    /// The operating channel number.
    pub fn channel_number(&self) -> (r: u8)
        ensures
            r == self@[0],
    {
        proof {
            use_type_invariant(self);
        }
        self.bytes[0]
    }
}

impl View for DsParameterSet {
    type V = Seq<u8>;

    closed spec fn view(&self) -> Seq<u8> {
        self.bytes@
    }
}

impl InformationElement for DsParameterSet {
    open spec fn spec_name(&self) -> Seq<char> {
        "DS Parameter Set"@
    }

    open spec fn spec_id(&self) -> u8 {
        3
    }

    open spec fn spec_id_ext(&self) -> Option<u8> {
        None
    }

    open spec fn payload(&self) -> Seq<u8> {
        self@
    }

    fn name(&self) -> (r: &'static str) {
        "DS Parameter Set"
    }

    fn id(&self) -> (r: u8) {
        3
    }

    fn id_ext(&self) -> (r: Option<u8>) {
        None
    }

    fn bytes(&self) -> (r: &[u8]) {
        proof {
            use_type_invariant(self);
        }
        self.bytes.as_slice()
    }
}

} // verus!
