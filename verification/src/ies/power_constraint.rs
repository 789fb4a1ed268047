//! Power Constraint element: a local limit below the regulatory power maximum.

use vstd::prelude::*;

use crate::ies::{is_invalid_length, IeError, InformationElement};

verus! {

/// Power Constraint element (ID 32): exactly one byte, the constraint in dB.
#[derive(Debug, PartialEq, Eq)]
pub struct PowerConstraint {
    bytes: Vec<u8>,
}

impl PowerConstraint {
    pub const ID: u8 = 32;

    pub const LENGTH: usize = 1;

    #[verifier::type_invariant]
    closed spec fn len_contract(self) -> bool {
        self.bytes@.len() == 1
    }

    /// Builds the element from its payload; any length other than
    /// 1 byte is rejected.
    pub fn new(bytes: Vec<u8>) -> (r: Result<PowerConstraint, IeError>)
        ensures
            bytes@.len() == 1 ==> (r matches Ok(a) && a@ == bytes@),
            bytes@.len() != 1 ==> (r matches Err(e) && is_invalid_length(
                e,
                "Power Constraint"@,
                1,
                bytes@.len() as int,
            )),
    {
        if bytes.len() == 1 {
            Ok(PowerConstraint { bytes })
        } else {
            let actual_length = bytes.len();
            Err(
                IeError::InvalidLength {
                    ie_name: "Power Constraint",
                    expected_length: 1,
                    actual_length,
                },
            )
        }
    }

    /// The local power constraint, in dB, to subtract from the regulatory
    /// maximum transmit power.
    pub fn power_constraint_db(&self) -> (r: u8)
        ensures
            r == self@[0],
    {
        proof {
            use_type_invariant(self);
        }
        self.bytes[0]
    }
}

impl View for PowerConstraint {
    type V = Seq<u8>;

    closed spec fn view(&self) -> Seq<u8> {
        self.bytes@
    }
}

impl InformationElement for PowerConstraint {
    open spec fn spec_name(&self) -> Seq<char> {
        "Power Constraint"@
    }

    open spec fn spec_id(&self) -> u8 {
        32
    }

    open spec fn spec_id_ext(&self) -> Option<u8> {
        None
    }

    open spec fn payload(&self) -> Seq<u8> {
        self@
    }

    fn name(&self) -> (r: &'static str) {
        "Power Constraint"
    }

    fn id(&self) -> (r: u8) {
        32
    }

    fn id_ext(&self) -> (r: Option<u8>) {
        None
    }

    fn bytes(&self) -> (r: &[u8]) {
        proof {
            use_type_invariant(self);
        }
        self.bytes.as_slice()
    }
}

} // verus!
