//! Transmit Power Envelope element: local maximum transmit powers per
//! channel width.

use vstd::prelude::*;

use crate::bits::as_signed_byte;
use crate::bits::bits_at;
use crate::bits::read_bits_u8;
use crate::bits::signed_byte;
use crate::ies::{is_invalid_length, IeError, InformationElement};

verus! {

/// How the transmit power values are to be interpreted: code 0 means EIRP,
/// every other code is unrecognized and kept as is.
#[derive(Debug, Copy, Clone, PartialEq, Eq, Structural)]
pub enum UnitInterpretation {
    Eirp,
    Unknown(u8),
}

impl UnitInterpretation {
    /// The raw unit interpretation code.
    pub fn value(&self) -> (r: u8)
        ensures
            r == match *self {
                UnitInterpretation::Eirp => 0u8,
                UnitInterpretation::Unknown(v) => v,
            },
    {
        match self {
            UnitInterpretation::Eirp => 0,
            UnitInterpretation::Unknown(v) => *v,
        }
    }
}

/// The unit interpretation selected by a three-bit code.
pub open spec fn spec_unit_interpretation(v: nat) -> UnitInterpretation {
    if v == 0 {
        UnitInterpretation::Eirp
    } else {
        UnitInterpretation::Unknown(v as u8)
    }
}

/// Transmit Power Envelope element (ID 195): at least two bytes. Byte 0
/// packs a three-bit count and a three-bit unit interpretation; byte 1 is
/// the signed maximum power for 20 MHz; bytes 2, 3 and 4, each present only
/// if the payload is long enough, are the signed maximum powers for 40 MHz,
/// 80 MHz and 160/80+80 MHz.
#[derive(Debug, PartialEq, Eq)]
pub struct TransmitPowerEnvelope {
    bytes: Vec<u8>,
}

impl TransmitPowerEnvelope {
    pub const ID: u8 = 195;

    pub const MIN_LENGTH: usize = 2;

    #[verifier::type_invariant]
    closed spec fn len_contract(self) -> bool {
        self.bytes@.len() >= 2
    }

    /// Builds the element from its payload; fewer than 2 bytes are rejected,
    /// extra trailing bytes carry the wider-channel powers.
    pub fn new(bytes: Vec<u8>) -> (r: Result<TransmitPowerEnvelope, IeError>)
        ensures
            bytes@.len() >= 2 ==> (r matches Ok(a) && a@ == bytes@),
            bytes@.len() < 2 ==> (r matches Err(e) && is_invalid_length(
                e,
                "Transmit Power Envelope"@,
                2,
                bytes@.len() as int,
            )),
    {
        if bytes.len() >= 2 {
            Ok(TransmitPowerEnvelope { bytes })
        } else {
            let actual_length = bytes.len();
            Err(
                IeError::InvalidLength {
                    ie_name: "Transmit Power Envelope",
                    expected_length: 2,
                    actual_length,
                },
            )
        }
    }

    /// The number of power values that follow byte 1, from bits 0-2.
    pub fn local_maximum_transmit_power_count(&self) -> (r: u8)
        ensures
            r == bits_at(self@, 0, 3),
    {
        proof {
            use_type_invariant(self);
        }
        read_bits_u8(self.bytes.as_slice(), 0, 3)
    }

    /// The unit interpretation of the power values, from bits 3-5.
    pub fn local_maximum_transmit_power_unit_interpretation(&self) -> (r: UnitInterpretation)
        ensures
            r == spec_unit_interpretation(bits_at(self@, 3, 3)),
    {
        proof {
            use_type_invariant(self);
        }
        let v = read_bits_u8(self.bytes.as_slice(), 3, 3);
        if v == 0 {
            UnitInterpretation::Eirp
        } else {
            UnitInterpretation::Unknown(v)
        }
    }

    /// The signed maximum transmit power for 20 MHz transmissions, in dBm.
    pub fn local_maximum_transmit_power_twenty_mhz_dbm(&self) -> (r: i8)
        ensures
            r as int == as_signed_byte(self@[1]),
    {
        proof {
            use_type_invariant(self);
        }
        signed_byte(self.bytes[1])
    }

    /// The signed maximum transmit power for 40 MHz transmissions, in dBm;
    /// absent when the payload does not reach byte 2.
    pub fn local_maximum_transmit_power_forty_mhz_dbm(&self) -> (r: Option<i8>)
        ensures
            self@.len() > 2 ==> (r matches Some(v) && v as int == as_signed_byte(self@[2])),
            self@.len() <= 2 ==> r is None,
    {
        if self.bytes.len() > 2 {
            Some(signed_byte(self.bytes[2]))
        } else {
            None
        }
    }

    /// The signed maximum transmit power for 80 MHz transmissions, in dBm;
    /// absent when the payload does not reach byte 3.
    pub fn local_maximum_transmit_power_eighty_mhz_dbm(&self) -> (r: Option<i8>)
        ensures
            self@.len() > 3 ==> (r matches Some(v) && v as int == as_signed_byte(self@[3])),
            self@.len() <= 3 ==> r is None,
    {
        if self.bytes.len() > 3 {
            Some(signed_byte(self.bytes[3]))
        } else {
            None
        }
    }

    /// The signed maximum transmit power for 160 and 80+80 MHz
    /// transmissions, in dBm; absent when the payload does not reach byte 4.
    pub fn local_maximum_transmit_power_one_sixty_mhz_dbm(&self) -> (r: Option<i8>)
        ensures
            self@.len() > 4 ==> (r matches Some(v) && v as int == as_signed_byte(self@[4])),
            self@.len() <= 4 ==> r is None,
    {
        if self.bytes.len() > 4 {
            Some(signed_byte(self.bytes[4]))
        } else {
            None
        }
    }
}

impl View for TransmitPowerEnvelope {
    type V = Seq<u8>;

    closed spec fn view(&self) -> Seq<u8> {
        self.bytes@
    }
}

impl InformationElement for TransmitPowerEnvelope {
    open spec fn spec_name(&self) -> Seq<char> {
        "Transmit Power Envelope"@
    }

    open spec fn spec_id(&self) -> u8 {
        195
    }

    open spec fn spec_id_ext(&self) -> Option<u8> {
        None
    }

    open spec fn payload(&self) -> Seq<u8> {
        self@
    }

    fn name(&self) -> (r: &'static str) {
        "Transmit Power Envelope"
    }

    fn id(&self) -> (r: u8) {
        195
    }

    fn id_ext(&self) -> (r: Option<u8>) {
        None
    }

    fn bytes(&self) -> (r: &[u8]) {
        proof {
            use_type_invariant(self);
        }
        self.bytes.as_slice()
    }
}

} // verus!
