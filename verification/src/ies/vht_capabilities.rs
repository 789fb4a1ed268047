//! VHT Capabilities element: what an 802.11ac station can do.
//!
//! Field offsets follow IEEE Std 802.11-2016, 9.4.2.158: bytes 0-3 are the
//! VHT Capabilities Information, bytes 4-11 the supported VHT-MCS and NSS
//! set. Bit numbers below count from bit 0 of the payload.

use vstd::arithmetic::power2::lemma2_to64;
use vstd::arithmetic::power2::pow2;
use vstd::prelude::*;

use crate::bits::bit_at;
use crate::bits::bits_at;
use crate::bits::lemma_bits_at_bound;
use crate::bits::read_bit;
use crate::bits::read_bits_u8;
use crate::ies::{is_invalid_length, IeError, InformationElement};

verus! {

/// The maximum MPDU length selected by the two-bit code in bits 0-1:
/// 0 selects 3895 bytes, 1 selects 7991, 2 selects 11454; 3 is reserved.
pub open spec fn spec_max_mpdu_length(bytes: Seq<u8>) -> Option<u32> {
    let v = bits_at(bytes, 0, 2);
    if v == 0 {
        Some(3895u32)
    } else if v == 1 {
        Some(7991u32)
    } else if v == 2 {
        Some(11454u32)
    } else {
        None
    }
}

/// VHT Capabilities element (ID 191): exactly 12 bytes.
#[derive(Debug, PartialEq, Eq)]
pub struct VhtCapabilities {
    bytes: Vec<u8>,
}

impl VhtCapabilities {
    pub const ID: u8 = 191;

    pub const LENGTH: usize = 12;

    #[verifier::type_invariant]
    closed spec fn len_contract(self) -> bool {
        self.bytes@.len() == 12
    }

    /// Builds the element from its payload; any length other than 12 bytes
    /// is rejected.
    pub fn new(bytes: Vec<u8>) -> (r: Result<VhtCapabilities, IeError>)
        ensures
            bytes@.len() == 12 ==> (r matches Ok(a) && a@ == bytes@),
            bytes@.len() != 12 ==> (r matches Err(e) && is_invalid_length(
                e,
                "VHT Capabilities"@,
                12,
                bytes@.len() as int,
            )),
    {
        if bytes.len() == 12 {
            Ok(VhtCapabilities { bytes })
        } else {
            let actual_length = bytes.len();
            Err(
                IeError::InvalidLength {
                    ie_name: "VHT Capabilities",
                    expected_length: 12,
                    actual_length,
                },
            )
        }
    }

    /// Whether LDPC coded packets can be received.
    pub fn rx_ldpc(&self) -> (r: bool)
        ensures
            r == bit_at(self@, 4),
    {
        proof {
            use_type_invariant(self);
        }
        read_bit(self.bytes.as_slice(), 4)
    }

    /// Whether the short guard interval is supported at 80 MHz.
    pub fn short_gi_eighty_mhz(&self) -> (r: bool)
        ensures
            r == bit_at(self@, 5),
    {
        proof {
            use_type_invariant(self);
        }
        read_bit(self.bytes.as_slice(), 5)
    }

    /// Whether the short guard interval is supported at 160 and 80+80 MHz.
    pub fn short_gi_one_sixty_mhz(&self) -> (r: bool)
        ensures
            r == bit_at(self@, 6),
    {
        proof {
            use_type_invariant(self);
        }
        read_bit(self.bytes.as_slice(), 6)
    }

    /// Whether PPDUs can be transmitted with space-time block coding.
    pub fn tx_stbc(&self) -> (r: bool)
        ensures
            r == bit_at(self@, 7),
    {
        proof {
            use_type_invariant(self);
        }
        read_bit(self.bytes.as_slice(), 7)
    }

    /// Whether the station can act as a single-user beamformer.
    pub fn su_beamformer_capable(&self) -> (r: bool)
        ensures
            r == bit_at(self@, 11),
    {
        proof {
            use_type_invariant(self);
        }
        read_bit(self.bytes.as_slice(), 11)
    }

    /// Whether the station can act as a single-user beamformee.
    pub fn su_beamformee_capable(&self) -> (r: bool)
        ensures
            r == bit_at(self@, 12),
    {
        proof {
            use_type_invariant(self);
        }
        read_bit(self.bytes.as_slice(), 12)
    }

    /// Whether the station can act as a multi-user beamformer.
    pub fn mu_beamformer_capable(&self) -> (r: bool)
        ensures
            r == bit_at(self@, 19),
    {
        proof {
            use_type_invariant(self);
        }
        read_bit(self.bytes.as_slice(), 19)
    }

    /// Whether the station can act as a multi-user beamformee.
    pub fn mu_beamformee_capable(&self) -> (r: bool)
        ensures
            r == bit_at(self@, 20),
    {
        proof {
            use_type_invariant(self);
        }
        read_bit(self.bytes.as_slice(), 20)
    }

    /// Whether VHT TXOP power save is supported.
    pub fn vht_txop_ps(&self) -> (r: bool)
        ensures
            r == bit_at(self@, 21),
    {
        proof {
            use_type_invariant(self);
        }
        read_bit(self.bytes.as_slice(), 21)
    }

    /// Whether the HT Control field in its VHT form can be received.
    pub fn htc_vht_capable(&self) -> (r: bool)
        ensures
            r == bit_at(self@, 22),
    {
        proof {
            use_type_invariant(self);
        }
        read_bit(self.bytes.as_slice(), 22)
    }

    /// Whether the receive antenna pattern stays fixed.
    pub fn rx_antenna_pattern_consistency(&self) -> (r: bool)
        ensures
            r == bit_at(self@, 28),
    {
        proof {
            use_type_invariant(self);
        }
        read_bit(self.bytes.as_slice(), 28)
    }

    /// Whether the transmit antenna pattern stays fixed.
    pub fn tx_antenna_pattern_consistency(&self) -> (r: bool)
        ensures
            r == bit_at(self@, 29),
    {
        proof {
            use_type_invariant(self);
        }
        read_bit(self.bytes.as_slice(), 29)
    }

    /// The channel width support code from bits 2-3: 0 means neither 160 nor 80+80 MHz, 1 means 160 MHz, 2 means both, 3 is reserved.
    pub fn supported_channel_width_set(&self) -> (r: u8)
        ensures
            r == bits_at(self@, 2, 2),
    {
        proof {
            use_type_invariant(self);
        }
        read_bits_u8(self.bytes.as_slice(), 2, 2)
    }

    /// How many spatial streams can be received with space-time block coding, from bits 8-10; codes above 4 are reserved.
    pub fn rx_stbc(&self) -> (r: u8)
        ensures
            r == bits_at(self@, 8, 3),
    {
        proof {
            use_type_invariant(self);
        }
        read_bits_u8(self.bytes.as_slice(), 8, 3)
    }

    /// The beamformee STS capability from bits 13-15: one less than the maximum number of space-time streams the beamformee can receive.
    pub fn beamformee_sts_capability(&self) -> (r: u8)
        ensures
            r == bits_at(self@, 13, 3),
    {
        proof {
            use_type_invariant(self);
        }
        read_bits_u8(self.bytes.as_slice(), 13, 3)
    }

    /// The number of sounding dimensions from bits 16-18: one less than the maximum the beamformer supports.
    pub fn sounding_dimensions(&self) -> (r: u8)
        ensures
            r == bits_at(self@, 16, 3),
    {
        proof {
            use_type_invariant(self);
        }
        read_bits_u8(self.bytes.as_slice(), 16, 3)
    }

    /// The maximum A-MPDU length exponent, from bits 23-25.
    pub fn max_ampdu_length_exponent(&self) -> (r: u8)
        ensures
            r == bits_at(self@, 23, 3),
    {
        proof {
            use_type_invariant(self);
        }
        read_bits_u8(self.bytes.as_slice(), 23, 3)
    }

    /// The VHT link adaptation code from bits 26-27: 0 none, 2 unsolicited, 3 both; 1 is reserved.
    pub fn link_adaptation(&self) -> (r: u8)
        ensures
            r == bits_at(self@, 26, 2),
    {
        proof {
            use_type_invariant(self);
        }
        read_bits_u8(self.bytes.as_slice(), 26, 2)
    }

    /// The extended NSS bandwidth support code, from bits 30-31.
    pub fn extended_nss_bw(&self) -> (r: u8)
        ensures
            r == bits_at(self@, 30, 2),
    {
        proof {
            use_type_invariant(self);
        }
        read_bits_u8(self.bytes.as_slice(), 30, 2)
    }

    /// The maximum MPDU length in bytes selected by bits 0-1; code 3 is
    /// reserved and yields nothing.
    pub fn max_mpdu_length(&self) -> (r: Option<u32>)
        ensures
            r == spec_max_mpdu_length(self@),
    {
        proof {
            use_type_invariant(self);
        }
        let v = read_bits_u8(self.bytes.as_slice(), 0, 2);
        if v == 0 {
            Some(3895)
        } else if v == 1 {
            Some(7991)
        } else if v == 2 {
            Some(11454)
        } else {
            None
        }
    }

    /// The maximum A-MPDU length in bytes, computed from the three-bit
    /// exponent field as 2^(13 + exponent) - 1.
    pub fn max_ampdu_length(&self) -> (r: u32)
        ensures
            r == pow2((13 + bits_at(self@, 23, 3)) as nat) - 1,
    {
        proof {
            use_type_invariant(self);
            lemma_bits_at_bound(self@, 23, 3);
            assert((1u32 << 3u32) == 8) by (bit_vector);
            lemma2_to64();
        }
        let e = read_bits_u8(self.bytes.as_slice(), 23, 3);
        if e == 0 {
            8191
        } else if e == 1 {
            16383
        } else if e == 2 {
            32767
        } else if e == 3 {
            65535
        } else if e == 4 {
            131071
        } else if e == 5 {
            262143
        } else if e == 6 {
            524287
        } else {
            1048575
        }
    }

    /// The receive VHT-MCS map, read little-endian from bytes 4-5.
    pub fn rx_vht_mcs_map(&self) -> (r: u16)
        ensures
            r == self@[4] + 0x100 * self@[5],
    {
        proof {
            use_type_invariant(self);
        }
        self.bytes[4] as u16 + 0x100 * self.bytes[5] as u16
    }

    /// The raw receive highest supported long GI data rate field, read little-endian from bytes 6-7.
    pub fn rx_highest_supported_rate(&self) -> (r: u16)
        ensures
            r == self@[6] + 0x100 * self@[7],
    {
        proof {
            use_type_invariant(self);
        }
        self.bytes[6] as u16 + 0x100 * self.bytes[7] as u16
    }

    /// The transmit VHT-MCS map, read little-endian from bytes 8-9.
    pub fn tx_vht_mcs_map(&self) -> (r: u16)
        ensures
            r == self@[8] + 0x100 * self@[9],
    {
        proof {
            use_type_invariant(self);
        }
        self.bytes[8] as u16 + 0x100 * self.bytes[9] as u16
    }

    /// The raw transmit highest supported long GI data rate field, read little-endian from bytes 10-11.
    pub fn tx_highest_supported_rate(&self) -> (r: u16)
        ensures
            r == self@[10] + 0x100 * self@[11],
    {
        proof {
            use_type_invariant(self);
        }
        self.bytes[10] as u16 + 0x100 * self.bytes[11] as u16
    }
}

impl View for VhtCapabilities {
    type V = Seq<u8>;

    closed spec fn view(&self) -> Seq<u8> {
        self.bytes@
    }
}

impl InformationElement for VhtCapabilities {
    open spec fn spec_name(&self) -> Seq<char> {
        "VHT Capabilities"@
    }

    open spec fn spec_id(&self) -> u8 {
        191
    }

    open spec fn spec_id_ext(&self) -> Option<u8> {
        None
    }

    open spec fn payload(&self) -> Seq<u8> {
        self@
    }

    fn name(&self) -> (r: &'static str) {
        "VHT Capabilities"
    }

    fn id(&self) -> (r: u8) {
        191
    }

    fn id_ext(&self) -> (r: Option<u8>) {
        None
    }

    fn bytes(&self) -> (r: &[u8]) {
        proof {
            use_type_invariant(self);
        }
        self.bytes.as_slice()
    }
}

} // verus!
