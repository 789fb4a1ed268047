//! IBSS Parameter Set element: the ATIM window of an independent BSS.

use vstd::prelude::*;

use crate::ies::{is_invalid_length, IeError, InformationElement};

verus! {

/// IBSS Parameter Set element (ID 6): exactly two bytes, the ATIM window in time units.
#[derive(Debug, PartialEq, Eq)]
pub struct IbssParameterSet {
    bytes: Vec<u8>,
}

impl IbssParameterSet {
    pub const ID: u8 = 6;

    pub const LENGTH: usize = 2;

    #[verifier::type_invariant]
    closed spec fn len_contract(self) -> bool {
        self.bytes@.len() == 2
    }

    /// Builds the element from its payload; any length other than
    /// 2 bytes is rejected.
    pub fn new(bytes: Vec<u8>) -> (r: Result<IbssParameterSet, IeError>)
        ensures
            bytes@.len() == 2 ==> (r matches Ok(a) && a@ == bytes@),
            bytes@.len() != 2 ==> (r matches Err(e) && is_invalid_length(
                e,
                "IBSS Parameter Set"@,
                2,
                bytes@.len() as int,
            )),
    {
        if bytes.len() == 2 {
            Ok(IbssParameterSet { bytes })
        } else {
            let actual_length = bytes.len();
            Err(
                IeError::InvalidLength {
                    ie_name: "IBSS Parameter Set",
                    expected_length: 2,
                    actual_length,
                },
            )
        }
    }

    /// The ATIM window length in time units, read little-endian from the two
    /// payload bytes.
    pub fn atim_window_tu(&self) -> (r: u16)
        ensures
            r == self@[0] + 0x100 * self@[1],
    {
        proof {
            use_type_invariant(self);
        }
        self.bytes[0] as u16 + 0x100 * self.bytes[1] as u16
    }
}

impl View for IbssParameterSet {
    type V = Seq<u8>;

    closed spec fn view(&self) -> Seq<u8> {
        self.bytes@
    }
}

impl InformationElement for IbssParameterSet {
    open spec fn spec_name(&self) -> Seq<char> {
        "IBSS Parameter Set"@
    }

    open spec fn spec_id(&self) -> u8 {
        6
    }

    open spec fn spec_id_ext(&self) -> Option<u8> {
        None
    }

    open spec fn payload(&self) -> Seq<u8> {
        self@
    }

    fn name(&self) -> (r: &'static str) {
        "IBSS Parameter Set"
    }

    fn id(&self) -> (r: u8) {
        6
    }

    fn id_ext(&self) -> (r: Option<u8>) {
        None
    }

    fn bytes(&self) -> (r: &[u8]) {
        proof {
            use_type_invariant(self);
        }
        self.bytes.as_slice()
    }
}

} // verus!
