//! 20/40 BSS Coexistence element: requests and grants around 40 MHz use
//! in the 2.4 GHz band.

use vstd::prelude::*;

use crate::bits::bit_at;
use crate::bits::read_bit;
use crate::ies::{is_invalid_length, IeError, InformationElement};

verus! {

/// 20/40 BSS Coexistence element (ID 72): at least one byte of flags.
#[derive(Debug, PartialEq, Eq)]
pub struct TwentyFortyBssCoexistence {
    bytes: Vec<u8>,
}

impl TwentyFortyBssCoexistence {
    pub const ID: u8 = 72;

    pub const MIN_LENGTH: usize = 1;

    #[verifier::type_invariant]
    closed spec fn len_contract(self) -> bool {
        self.bytes@.len() >= 1
    }

    /// Builds the element from its payload; fewer than 1 byte is rejected,
    /// extra trailing bytes are kept.
    pub fn new(bytes: Vec<u8>) -> (r: Result<TwentyFortyBssCoexistence, IeError>)
        ensures
            bytes@.len() >= 1 ==> (r matches Ok(a) && a@ == bytes@),
            bytes@.len() < 1 ==> (r matches Err(e) && is_invalid_length(
                e,
                "20/40 BSS Coexistence"@,
                1,
                bytes@.len() as int,
            )),
    {
        if bytes.len() >= 1 {
            Ok(TwentyFortyBssCoexistence { bytes })
        } else {
            let actual_length = bytes.len();
            Err(
                IeError::InvalidLength {
                    ie_name: "20/40 BSS Coexistence",
                    expected_length: 1,
                    actual_length,
                },
            )
        }
    }

    /// Whether the sender asks its peers for a 20/40 BSS coexistence response.
    pub fn information_request(&self) -> (r: bool)
        ensures
            r == bit_at(self@, 0),
    {
        proof {
            use_type_invariant(self);
        }
        read_bit(self.bytes.as_slice(), 0)
    }

    /// Whether the sender forbids 40 MHz transmissions around it.
    pub fn forty_mhz_intolerant(&self) -> (r: bool)
        ensures
            r == bit_at(self@, 1),
    {
        proof {
            use_type_invariant(self);
        }
        read_bit(self.bytes.as_slice(), 1)
    }

    /// Whether the sender asks the receiving BSS to stay at 20 MHz.
    pub fn twenty_mhz_bss_width_request(&self) -> (r: bool)
        ensures
            r == bit_at(self@, 2),
    {
        proof {
            use_type_invariant(self);
        }
        read_bit(self.bytes.as_slice(), 2)
    }

    /// Whether the sender asks to be exempted from overlapping-BSS scanning.
    pub fn obss_scanning_exemption_request(&self) -> (r: bool)
        ensures
            r == bit_at(self@, 3),
    {
        proof {
            use_type_invariant(self);
        }
        read_bit(self.bytes.as_slice(), 3)
    }

    /// Whether the receiver is granted an overlapping-BSS scanning exemption.
    pub fn obss_scanning_exemption_grant(&self) -> (r: bool)
        ensures
            r == bit_at(self@, 4),
    {
        proof {
            use_type_invariant(self);
        }
        read_bit(self.bytes.as_slice(), 4)
    }
}

impl View for TwentyFortyBssCoexistence {
    type V = Seq<u8>;

    closed spec fn view(&self) -> Seq<u8> {
        self.bytes@
    }
}

impl InformationElement for TwentyFortyBssCoexistence {
    open spec fn spec_name(&self) -> Seq<char> {
        "20/40 BSS Coexistence"@
    }

    open spec fn spec_id(&self) -> u8 {
        72
    }

    open spec fn spec_id_ext(&self) -> Option<u8> {
        None
    }

    open spec fn payload(&self) -> Seq<u8> {
        self@
    }

    fn name(&self) -> (r: &'static str) {
        "20/40 BSS Coexistence"
    }

    fn id(&self) -> (r: u8) {
        72
    }

    fn id_ext(&self) -> (r: Option<u8>) {
        None
    }

    fn bytes(&self) -> (r: &[u8]) {
        proof {
            use_type_invariant(self);
        }
        self.bytes.as_slice()
    }
}

} // verus!
