//! AP Channel Report element: channels where access points of the same
//! operating class were observed.

use vstd::prelude::*;

use crate::ies::{is_invalid_length, IeError, InformationElement};

verus! {

/// AP Channel Report element (ID 51): at least one byte, the operating
/// class, followed by a list of channel numbers.
#[derive(Debug, PartialEq, Eq)]
pub struct ApChannelReport {
    bytes: Vec<u8>,
}

impl ApChannelReport {
    pub const ID: u8 = 51;

    pub const MIN_LENGTH: usize = 1;

    #[verifier::type_invariant]
    closed spec fn len_contract(self) -> bool {
        self.bytes@.len() >= 1
    }

    /// Builds the element from its payload; fewer than 1 byte is rejected,
    /// the trailing bytes are the channel list.
    pub fn new(bytes: Vec<u8>) -> (r: Result<ApChannelReport, IeError>)
        ensures
            bytes@.len() >= 1 ==> (r matches Ok(a) && a@ == bytes@),
            bytes@.len() < 1 ==> (r matches Err(e) && is_invalid_length(
                e,
                "AP Channel Report"@,
                1,
                bytes@.len() as int,
            )),
    {
        if bytes.len() >= 1 {
            Ok(ApChannelReport { bytes })
        } else {
            let actual_length = bytes.len();
            Err(
                IeError::InvalidLength {
                    ie_name: "AP Channel Report",
                    expected_length: 1,
                    actual_length,
                },
            )
        }
    }

    /// The operating class the reported channels belong to.
    pub fn operating_class(&self) -> (r: u8)
        ensures
            r == self@[0],
    {
        proof {
            use_type_invariant(self);
        }
        self.bytes[0]
    }

    /// The reported channel numbers: every payload byte after the operating
    /// class.
    pub fn channel_list(&self) -> (r: &[u8])
        ensures
            r@ == self@.subrange(1, self@.len() as int),
    {
        proof {
            use_type_invariant(self);
        }
        self.bytes.as_slice().split_at(1).1
    }
}

impl View for ApChannelReport {
    type V = Seq<u8>;

    closed spec fn view(&self) -> Seq<u8> {
        self.bytes@
    }
}

impl InformationElement for ApChannelReport {
    open spec fn spec_name(&self) -> Seq<char> {
        "AP Channel Report"@
    }

    open spec fn spec_id(&self) -> u8 {
        51
    }

    open spec fn spec_id_ext(&self) -> Option<u8> {
        None
    }

    open spec fn payload(&self) -> Seq<u8> {
        self@
    }

    fn name(&self) -> (r: &'static str) {
        "AP Channel Report"
    }

    fn id(&self) -> (r: u8) {
        51
    }

    fn id_ext(&self) -> (r: Option<u8>) {
        None
    }

    fn bytes(&self) -> (r: &[u8]) {
        proof {
            use_type_invariant(self);
        }
        self.bytes.as_slice()
    }
}

} // verus!
