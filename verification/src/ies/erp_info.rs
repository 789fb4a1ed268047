//! ERP Info element: protection flags for mixed 802.11b/g networks.

use vstd::prelude::*;

use crate::bits::{bit_at, read_bit};
use crate::ies::{is_invalid_length, IeError, InformationElement};

verus! {

/// ERP Info element (ID 42): exactly one byte of protection flags.
#[derive(Debug, PartialEq, Eq)]
pub struct ErpInfo {
    bytes: Vec<u8>,
}

impl ErpInfo {
    pub const ID: u8 = 42;

    pub const LENGTH: usize = 1;

    #[verifier::type_invariant]
    closed spec fn len_contract(self) -> bool {
        self.bytes@.len() == 1
    }

    /// Builds the element from its payload; any length other than
    /// 1 byte is rejected.
    pub fn new(bytes: Vec<u8>) -> (r: Result<ErpInfo, IeError>)
        ensures
            bytes@.len() == 1 ==> (r matches Ok(a) && a@ == bytes@),
            bytes@.len() != 1 ==> (r matches Err(e) && is_invalid_length(
                e,
                "ERP Info"@,
                1,
                bytes@.len() as int,
            )),
    {
        if bytes.len() == 1 {
            Ok(ErpInfo { bytes })
        } else {
            let actual_length = bytes.len();
            Err(
                IeError::InvalidLength {
                    ie_name: "ERP Info",
                    expected_length: 1,
                    actual_length,
                },
            )
        }
    }

    /// Whether a station unable to receive ERP rates is present.
    pub fn non_erp_present(&self) -> (r: bool)
        ensures
            r == bit_at(self@, 0),
    {
        proof {
            use_type_invariant(self);
        }
        read_bit(self.bytes.as_slice(), 0)
    }

    /// Whether protection of ERP transmissions is in use.
    pub fn use_protection(&self) -> (r: bool)
        ensures
            r == bit_at(self@, 1),
    {
        proof {
            use_type_invariant(self);
        }
        read_bit(self.bytes.as_slice(), 1)
    }

    /// Whether at least one associated station cannot receive short
    /// preambles.
    pub fn barker_preamble_mode(&self) -> (r: bool)
        ensures
            r == bit_at(self@, 2),
    {
        proof {
            use_type_invariant(self);
        }
        read_bit(self.bytes.as_slice(), 2)
    }
}

impl View for ErpInfo {
    type V = Seq<u8>;

    closed spec fn view(&self) -> Seq<u8> {
        self.bytes@
    }
}

impl InformationElement for ErpInfo {
    open spec fn spec_name(&self) -> Seq<char> {
        "ERP Info"@
    }

    open spec fn spec_id(&self) -> u8 {
        42
    }

    open spec fn spec_id_ext(&self) -> Option<u8> {
        None
    }

    open spec fn payload(&self) -> Seq<u8> {
        self@
    }

    fn name(&self) -> (r: &'static str) {
        "ERP Info"
    }

    fn id(&self) -> (r: u8) {
        42
    }

    fn id_ext(&self) -> (r: Option<u8>) {
        None
    }

    fn bytes(&self) -> (r: &[u8]) {
        proof {
            use_type_invariant(self);
        }
        self.bytes.as_slice()
    }
}

} // verus!
