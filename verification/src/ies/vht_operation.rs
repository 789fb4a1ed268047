//! VHT Operation element: how an 802.11ac BSS occupies its channel.
//!
//! Field offsets follow IEEE Std 802.11-2016, 9.4.2.159: byte 0 is the
//! channel width code, bytes 1 and 2 the two channel center frequency
//! segments, bytes 3-4 the basic VHT-MCS and NSS set.

use vstd::prelude::*;

use crate::channel_width::ChannelWidth;
use crate::channel_width::ChannelWidths;
use crate::channel_width::spec_single_width;
use crate::channel_width::spec_width_inserted;
use crate::ies::{is_invalid_length, IeError, InformationElement};

verus! {

/// The set of channel widths selected by the channel width code in byte 0:
/// code 0 selects {20, 40}; code 1 selects {80, 80+80, 160}, the wide
/// union a segment comparison then narrows; the deprecated codes 2 and 3
/// select {160} and {80+80} alone; other codes are reserved and select
/// nothing.
pub open spec fn spec_vht_channel_width(bytes: Seq<u8>) -> ChannelWidths {
    let v = bytes[0];
    if v == 0 {
        spec_width_inserted(spec_single_width(ChannelWidth::TwentyMhz), ChannelWidth::FortyMhz)
    } else if v == 1 {
        spec_width_inserted(
            spec_width_inserted(
                spec_single_width(ChannelWidth::EightyMhz),
                ChannelWidth::EightyPlusEightyMhz,
            ),
            ChannelWidth::OneSixtyMhz,
        )
    } else if v == 2 {
        spec_single_width(ChannelWidth::OneSixtyMhz)
    } else if v == 3 {
        spec_single_width(ChannelWidth::EightyPlusEightyMhz)
    } else {
        ChannelWidths {
            twenty: false,
            twenty_two: false,
            forty: false,
            eighty: false,
            eighty_plus_eighty: false,
            one_sixty: false,
        }
    }
}

/// VHT Operation element (ID 192): exactly 5 bytes.
#[derive(Debug, PartialEq, Eq)]
pub struct VhtOperation {
    bytes: Vec<u8>,
}

impl VhtOperation {
    pub const ID: u8 = 192;

    pub const LENGTH: usize = 5;

    #[verifier::type_invariant]
    closed spec fn len_contract(self) -> bool {
        self.bytes@.len() == 5
    }

    /// Builds the element from its payload; any length other than 5 bytes
    /// is rejected.
    pub fn new(bytes: Vec<u8>) -> (r: Result<VhtOperation, IeError>)
        ensures
            bytes@.len() == 5 ==> (r matches Ok(a) && a@ == bytes@),
            bytes@.len() != 5 ==> (r matches Err(e) && is_invalid_length(
                e,
                "VHT Operation"@,
                5,
                bytes@.len() as int,
            )),
    {
        if bytes.len() == 5 {
            Ok(VhtOperation { bytes })
        } else {
            let actual_length = bytes.len();
            Err(
                IeError::InvalidLength {
                    ie_name: "VHT Operation",
                    expected_length: 5,
                    actual_length,
                },
            )
        }
    }

    /// The raw channel width code from byte 0.
    pub fn channel_width_field(&self) -> (r: u8)
        ensures
            r == self@[0],
    {
        proof {
            use_type_invariant(self);
        }
        self.bytes[0]
    }

    /// The set of channel widths the channel width code selects.
    pub fn channel_width(&self) -> (r: ChannelWidths)
        ensures
            r == spec_vht_channel_width(self@),
    {
        proof {
            use_type_invariant(self);
        }
        let v = self.bytes[0];
        if v == 0 {
            let mut w = ChannelWidths::single(ChannelWidth::TwentyMhz);
            w.insert(ChannelWidth::FortyMhz);
            w
        } else if v == 1 {
            let mut w = ChannelWidths::single(ChannelWidth::EightyMhz);
            w.insert(ChannelWidth::EightyPlusEightyMhz);
            w.insert(ChannelWidth::OneSixtyMhz);
            w
        } else if v == 2 {
            ChannelWidths::single(ChannelWidth::OneSixtyMhz)
        } else if v == 3 {
            ChannelWidths::single(ChannelWidth::EightyPlusEightyMhz)
        } else {
            ChannelWidths::empty()
        }
    }

    /// The channel center frequency segment 0: the center channel number of
    /// the 20/40/80/160 MHz channel, or of the lower 80 MHz frequency
    /// segment of an 80+80 MHz channel.
    pub fn channel_center_freq_segment_zero(&self) -> (r: u8)
        ensures
            r == self@[1],
    {
        proof {
            use_type_invariant(self);
        }
        self.bytes[1]
    }

    /// The channel center frequency segment 1: zero unless the channel is
    /// 160 MHz wide (then the center of the whole channel) or 80+80 MHz
    /// wide (then the center of the upper frequency segment).
    pub fn channel_center_freq_segment_one(&self) -> (r: u8)
        ensures
            r == self@[2],
    {
        proof {
            use_type_invariant(self);
        }
        self.bytes[2]
    }

    /// The basic VHT-MCS and NSS set, read little-endian from bytes 3-4.
    pub fn basic_vht_mcs_set(&self) -> (r: u16)
        ensures
            r == self@[3] + 0x100 * self@[4],
    {
        proof {
            use_type_invariant(self);
        }
        self.bytes[3] as u16 + 0x100 * self.bytes[4] as u16
    }
}

impl View for VhtOperation {
    type V = Seq<u8>;

    closed spec fn view(&self) -> Seq<u8> {
        self.bytes@
    }
}

impl InformationElement for VhtOperation {
    open spec fn spec_name(&self) -> Seq<char> {
        "VHT Operation"@
    }

    open spec fn spec_id(&self) -> u8 {
        192
    }

    open spec fn spec_id_ext(&self) -> Option<u8> {
        None
    }

    open spec fn payload(&self) -> Seq<u8> {
        self@
    }

    fn name(&self) -> (r: &'static str) {
        "VHT Operation"
    }

    fn id(&self) -> (r: u8) {
        192
    }

    fn id_ext(&self) -> (r: Option<u8>) {
        None
    }

    fn bytes(&self) -> (r: &[u8]) {
        proof {
            use_type_invariant(self);
        }
        self.bytes.as_slice()
    }
}

} // verus!
