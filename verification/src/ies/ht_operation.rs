//! HT Operation element: how an 802.11n BSS occupies its channel.
//!
//! Field offsets follow IEEE Std 802.11-2016, 9.4.2.57: byte 0 is the
//! primary channel; bytes 1-5 are the HT Operation Information field, whose
//! bits are numbered here from bit 8 of the payload; bytes 6-21 are the
//! basic HT-MCS set.

use vstd::prelude::*;

use crate::bits::bit_at;
use crate::bits::bits_at;
use crate::bits::read_bit;
use crate::bits::read_bits_u8;
use crate::channel_width::ChannelWidth;
use crate::channel_width::ChannelWidths;
use crate::channel_width::spec_single_width;
use crate::channel_width::spec_width_inserted;
use crate::ies::{is_invalid_length, IeError, InformationElement};

verus! {

/// Position of the secondary channel relative to the primary channel.
#[derive(Debug, Copy, Clone, PartialEq, Eq, Structural)]
pub enum SecondaryChannelOffset {
    NotPresent,
    Above,
    Reserved,
    Below,
}

/// Protection mode imposed on HT transmissions.
#[derive(Debug, Copy, Clone, PartialEq, Eq, Structural)]
pub enum HtProtection {
    NoProtection,
    Nonmember,
    TwentyMhz,
    NonHtMixed,
}

/// The secondary channel offset encoded in bits 8-9: 0 means no secondary
/// channel, 1 above, 3 below; code 2 is reserved.
pub open spec fn spec_secondary_channel_offset(bytes: Seq<u8>) -> SecondaryChannelOffset {
    let v = bits_at(bytes, 8, 2);
    if v == 0 {
        SecondaryChannelOffset::NotPresent
    } else if v == 1 {
        SecondaryChannelOffset::Above
    } else if v == 2 {
        SecondaryChannelOffset::Reserved
    } else {
        SecondaryChannelOffset::Below
    }
}

/// The channel widths the BSS allows, from the STA Channel Width flag at
/// bit 10: clear means 20 MHz only, set means any width the capabilities
/// allow, rendered as the pair {20, 40}.
pub open spec fn spec_sta_channel_width(bytes: Seq<u8>) -> ChannelWidths {
    if bit_at(bytes, 10) {
        spec_width_inserted(spec_single_width(ChannelWidth::TwentyMhz), ChannelWidth::FortyMhz)
    } else {
        spec_single_width(ChannelWidth::TwentyMhz)
    }
}

/// The HT protection mode encoded in bits 16-17: 0 none, 1 nonmember,
/// 2 20 MHz, 3 non-HT mixed.
pub open spec fn spec_ht_protection(bytes: Seq<u8>) -> HtProtection {
    let v = bits_at(bytes, 16, 2);
    if v == 0 {
        HtProtection::NoProtection
    } else if v == 1 {
        HtProtection::Nonmember
    } else if v == 2 {
        HtProtection::TwentyMhz
    } else {
        HtProtection::NonHtMixed
    }
}

/// HT Operation element (ID 61): exactly 22 bytes.
#[derive(Debug, PartialEq, Eq)]
pub struct HtOperation {
    bytes: Vec<u8>,
}

impl HtOperation {
    pub const ID: u8 = 61;

    pub const LENGTH: usize = 22;

    #[verifier::type_invariant]
    closed spec fn len_contract(self) -> bool {
        self.bytes@.len() == 22
    }

    /// Builds the element from its payload; any length other than 22 bytes
    /// is rejected.
    pub fn new(bytes: Vec<u8>) -> (r: Result<HtOperation, IeError>)
        ensures
            bytes@.len() == 22 ==> (r matches Ok(a) && a@ == bytes@),
            bytes@.len() != 22 ==> (r matches Err(e) && is_invalid_length(
                e,
                "HT Operation"@,
                22,
                bytes@.len() as int,
            )),
    {
        if bytes.len() == 22 {
            Ok(HtOperation { bytes })
        } else {
            let actual_length = bytes.len();
            Err(
                IeError::InvalidLength {
                    ie_name: "HT Operation",
                    expected_length: 22,
                    actual_length,
                },
            )
        }
    }

    /// The primary channel number.
    pub fn primary_channel(&self) -> (r: u8)
        ensures
            r == self@[0],
    {
        proof {
            use_type_invariant(self);
        }
        self.bytes[0]
    }

    /// Where the secondary channel lies relative to the primary channel.
    pub fn secondary_channel_offset(&self) -> (r: SecondaryChannelOffset)
        ensures
            r == spec_secondary_channel_offset(self@),
    {
        proof {
            use_type_invariant(self);
        }
        let v = read_bits_u8(self.bytes.as_slice(), 8, 2);
        if v == 0 {
            SecondaryChannelOffset::NotPresent
        } else if v == 1 {
            SecondaryChannelOffset::Above
        } else if v == 2 {
            SecondaryChannelOffset::Reserved
        } else {
            SecondaryChannelOffset::Below
        }
    }

    /// The channel widths the BSS allows: {20} when the STA Channel Width
    /// flag is clear, {20, 40} when it is set.
    pub fn sta_channel_width(&self) -> (r: ChannelWidths)
        ensures
            r == spec_sta_channel_width(self@),
    {
        proof {
            use_type_invariant(self);
        }
        if read_bit(self.bytes.as_slice(), 10) {
            let mut w = ChannelWidths::single(ChannelWidth::TwentyMhz);
            w.insert(ChannelWidth::FortyMhz);
            w
        } else {
            ChannelWidths::single(ChannelWidth::TwentyMhz)
        }
    }

    /// Whether reduced interframe spacing is permitted.
    pub fn rifs_mode(&self) -> (r: bool)
        ensures
            r == bit_at(self@, 11),
    {
        proof {
            use_type_invariant(self);
        }
        read_bit(self.bytes.as_slice(), 11)
    }

    /// The protection mode imposed on HT transmissions.
    pub fn ht_protection(&self) -> (r: HtProtection)
        ensures
            r == spec_ht_protection(self@),
    {
        proof {
            use_type_invariant(self);
        }
        let v = read_bits_u8(self.bytes.as_slice(), 16, 2);
        if v == 0 {
            HtProtection::NoProtection
        } else if v == 1 {
            HtProtection::Nonmember
        } else if v == 2 {
            HtProtection::TwentyMhz
        } else {
            HtProtection::NonHtMixed
        }
    }

    /// Whether HT stations that cannot receive HT-greenfield transmissions
    /// are associated.
    pub fn nongreenfield_ht_stas_present(&self) -> (r: bool)
        ensures
            r == bit_at(self@, 18),
    {
        proof {
            use_type_invariant(self);
        }
        read_bit(self.bytes.as_slice(), 18)
    }

    /// Whether non-HT stations may use the primary or secondary channel.
    pub fn obss_non_ht_stas_present(&self) -> (r: bool)
        ensures
            r == bit_at(self@, 20),
    {
        proof {
            use_type_invariant(self);
        }
        read_bit(self.bytes.as_slice(), 20)
    }

    /// Whether a dual beacon, with an STBC copy, is transmitted.
    pub fn dual_beacon(&self) -> (r: bool)
        ensures
            r == bit_at(self@, 38),
    {
        proof {
            use_type_invariant(self);
        }
        read_bit(self.bytes.as_slice(), 38)
    }

    /// Whether dual CTS protection is required.
    pub fn dual_cts_protection(&self) -> (r: bool)
        ensures
            r == bit_at(self@, 39),
    {
        proof {
            use_type_invariant(self);
        }
        read_bit(self.bytes.as_slice(), 39)
    }

    /// Whether the beacon being received is the STBC beacon.
    pub fn stbc_beacon(&self) -> (r: bool)
        ensures
            r == bit_at(self@, 40),
    {
        proof {
            use_type_invariant(self);
        }
        read_bit(self.bytes.as_slice(), 40)
    }

    /// Whether L-SIG TXOP protection is used by all HT stations of the BSS.
    pub fn lsig_txop_protection_full_support(&self) -> (r: bool)
        ensures
            r == bit_at(self@, 41),
    {
        proof {
            use_type_invariant(self);
        }
        read_bit(self.bytes.as_slice(), 41)
    }

    /// Whether a phased-coexistence operation phase is active.
    pub fn pco_active(&self) -> (r: bool)
        ensures
            r == bit_at(self@, 42),
    {
        proof {
            use_type_invariant(self);
        }
        read_bit(self.bytes.as_slice(), 42)
    }

    /// The phased-coexistence operation phase: set means 40 MHz.
    pub fn pco_phase(&self) -> (r: bool)
        ensures
            r == bit_at(self@, 43),
    {
        proof {
            use_type_invariant(self);
        }
        read_bit(self.bytes.as_slice(), 43)
    }

    /// The basic HT-MCS set: the 16 trailing bytes of the payload.
    pub fn basic_ht_mcs_set(&self) -> (r: &[u8])
        ensures
            r@ == self@.subrange(6, 22),
    {
        proof {
            use_type_invariant(self);
        }
        self.bytes.as_slice().split_at(6).1
    }
}

impl View for HtOperation {
    type V = Seq<u8>;

    closed spec fn view(&self) -> Seq<u8> {
        self.bytes@
    }
}

impl InformationElement for HtOperation {
    open spec fn spec_name(&self) -> Seq<char> {
        "HT Operation"@
    }

    open spec fn spec_id(&self) -> u8 {
        61
    }

    open spec fn spec_id_ext(&self) -> Option<u8> {
        None
    }

    open spec fn payload(&self) -> Seq<u8> {
        self@
    }

    fn name(&self) -> (r: &'static str) {
        "HT Operation"
    }

    fn id(&self) -> (r: u8) {
        61
    }

    fn id_ext(&self) -> (r: Option<u8>) {
        None
    }

    fn bytes(&self) -> (r: &[u8]) {
        proof {
            use_type_invariant(self);
        }
        self.bytes.as_slice()
    }
}

} // verus!
