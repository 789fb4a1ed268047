//! HT Capabilities element: what an 802.11n station can do.
//!
//! Field offsets follow IEEE Std 802.11-2016, 9.4.2.56: bytes 0-1 are the
//! HT Capability Information, byte 2 the A-MPDU parameters, bytes 3-18 the
//! supported MCS set, bytes 19-20 the HT extended capabilities, bytes 21-24
//! the transmit beamforming capabilities, byte 25 the ASEL capabilities.
//! Bit numbers below count from bit 0 of the payload.

use vstd::arithmetic::power2::lemma2_to64;
use vstd::arithmetic::power2::pow2;
use vstd::prelude::*;

use crate::bits::bit_at;
use crate::bits::bits_at;
use crate::bits::lemma_bits_at_bound;
use crate::bits::read_bit;
use crate::bits::read_bits_u8;
use crate::channel_width::ChannelWidth;
use crate::channel_width::ChannelWidths;
use crate::channel_width::spec_single_width;
use crate::channel_width::spec_width_inserted;
use crate::ies::{is_invalid_length, IeError, InformationElement};

verus! {

/// Spatial multiplexing power save mode.
#[derive(Debug, Copy, Clone, PartialEq, Eq, Structural)]
pub enum SmPowerSave {
    Static,
    Dynamic,
    Disabled,
}

/// How many spatial streams can be received with space-time block coding.
#[derive(Debug, Copy, Clone, PartialEq, Eq, Structural)]
pub enum RxStbc {
    NotSupported,
    OneSpatialStream,
    OneAndTwoSpatialStreams,
    OneTwoAndThreeSpatialStreams,
}

/// Minimum time between the starts of adjacent MPDUs in an A-MPDU.
#[derive(Debug, Copy, Clone, PartialEq, Eq, Structural)]
pub enum MpduStartSpacing {
    NoRestriction,
    QuarterMicrosecond,
    HalfMicrosecond,
    OneMicrosecond,
    TwoMicroseconds,
    FourMicroseconds,
    EightMicroseconds,
    SixteenMicroseconds,
}

/// Time needed to switch between 20 MHz and 40 MHz operation.
#[derive(Debug, Copy, Clone, PartialEq, Eq, Structural)]
pub enum PcoTransitionTime {
    NoTransition,
    FourHundredMicroseconds,
    OneAndAHalfMilliseconds,
    FiveMilliseconds,
}

/// Which MCS feedback the station can provide.
#[derive(Debug, Copy, Clone, PartialEq, Eq, Structural)]
pub enum McsFeedback {
    NoMfb,
    UnsolicitedMfb,
    ResponseOrUnsolicitedMfb,
}

/// Which calibration exchanges the station supports.
#[derive(Debug, Copy, Clone, PartialEq, Eq, Structural)]
pub enum Calibration {
    NotSupported,
    Respond,
    InitiateAndRespond,
}

/// Which beamforming feedback forms the station can return.
#[derive(Debug, Copy, Clone, PartialEq, Eq, Structural)]
pub enum BeamformingFeedback {
    NotSupported,
    Delayed,
    Immediate,
    DelayedAndImmediate,
}

/// The smallest grouping the station supports for explicit feedback.
#[derive(Debug, Copy, Clone, PartialEq, Eq, Structural)]
pub enum MinimalGrouping {
    One,
    OneOrTwo,
    OneOrFour,
    OneOrTwoOrFour,
}

/// The spatial multiplexing power save mode selected by bits 2-3; unrecognized codes fall
/// back to `Disabled`.
pub open spec fn spec_sm_power_save(bytes: Seq<u8>) -> SmPowerSave {
    let v = bits_at(bytes, 2, 2);
    if v == 0 {
        SmPowerSave::Static
    } else if v == 1 {
        SmPowerSave::Dynamic
    } else {
        SmPowerSave::Disabled
    }
}

/// The receive STBC support selected by bits 8-9.
pub open spec fn spec_rx_stbc(bytes: Seq<u8>) -> RxStbc {
    let v = bits_at(bytes, 8, 2);
    if v == 0 {
        RxStbc::NotSupported
    } else if v == 1 {
        RxStbc::OneSpatialStream
    } else if v == 2 {
        RxStbc::OneAndTwoSpatialStreams
    } else {
        RxStbc::OneTwoAndThreeSpatialStreams
    }
}

/// The minimum MPDU start spacing selected by bits 18-20; unrecognized codes fall
/// back to `SixteenMicroseconds`.
pub open spec fn spec_min_mpdu_start_spacing(bytes: Seq<u8>) -> MpduStartSpacing {
    let v = bits_at(bytes, 18, 3);
    if v == 0 {
        MpduStartSpacing::NoRestriction
    } else if v == 1 {
        MpduStartSpacing::QuarterMicrosecond
    } else if v == 2 {
        MpduStartSpacing::HalfMicrosecond
    } else if v == 3 {
        MpduStartSpacing::OneMicrosecond
    } else if v == 4 {
        MpduStartSpacing::TwoMicroseconds
    } else if v == 5 {
        MpduStartSpacing::FourMicroseconds
    } else if v == 6 {
        MpduStartSpacing::EightMicroseconds
    } else {
        MpduStartSpacing::SixteenMicroseconds
    }
}

/// The phased-coexistence transition time selected by bits 153-154.
pub open spec fn spec_pco_transition_time(bytes: Seq<u8>) -> PcoTransitionTime {
    let v = bits_at(bytes, 153, 2);
    if v == 0 {
        PcoTransitionTime::NoTransition
    } else if v == 1 {
        PcoTransitionTime::FourHundredMicroseconds
    } else if v == 2 {
        PcoTransitionTime::OneAndAHalfMilliseconds
    } else {
        PcoTransitionTime::FiveMilliseconds
    }
}

/// The MCS feedback capability selected by bits 160-161; unrecognized codes fall
/// back to `NoMfb`.
pub open spec fn spec_mcs_feedback(bytes: Seq<u8>) -> McsFeedback {
    let v = bits_at(bytes, 160, 2);
    if v == 2 {
        McsFeedback::UnsolicitedMfb
    } else if v == 3 {
        McsFeedback::ResponseOrUnsolicitedMfb
    } else {
        McsFeedback::NoMfb
    }
}

/// The calibration capability selected by bits 174-175; unrecognized codes fall
/// back to `NotSupported`.
pub open spec fn spec_calibration(bytes: Seq<u8>) -> Calibration {
    let v = bits_at(bytes, 174, 2);
    if v == 1 {
        Calibration::Respond
    } else if v == 3 {
        Calibration::InitiateAndRespond
    } else {
        Calibration::NotSupported
    }
}

/// The explicit transmit beamforming CSI feedback capability selected by bits 179-180.
pub open spec fn spec_explicit_tx_beamforming_csi_feedback(bytes: Seq<u8>) -> BeamformingFeedback {
    let v = bits_at(bytes, 179, 2);
    if v == 0 {
        BeamformingFeedback::NotSupported
    } else if v == 1 {
        BeamformingFeedback::Delayed
    } else if v == 2 {
        BeamformingFeedback::Immediate
    } else {
        BeamformingFeedback::DelayedAndImmediate
    }
}

/// The explicit noncompressed beamforming feedback capability selected by bits 181-182.
pub open spec fn spec_explicit_noncompressed_beamforming_feedback_capable(bytes: Seq<u8>) -> BeamformingFeedback {
    let v = bits_at(bytes, 181, 2);
    if v == 0 {
        BeamformingFeedback::NotSupported
    } else if v == 1 {
        BeamformingFeedback::Delayed
    } else if v == 2 {
        BeamformingFeedback::Immediate
    } else {
        BeamformingFeedback::DelayedAndImmediate
    }
}

/// The explicit compressed beamforming feedback capability selected by bits 183-184.
pub open spec fn spec_explicit_compressed_beamforming_feedback_capable(bytes: Seq<u8>) -> BeamformingFeedback {
    let v = bits_at(bytes, 183, 2);
    if v == 0 {
        BeamformingFeedback::NotSupported
    } else if v == 1 {
        BeamformingFeedback::Delayed
    } else if v == 2 {
        BeamformingFeedback::Immediate
    } else {
        BeamformingFeedback::DelayedAndImmediate
    }
}

/// The minimal grouping for explicit feedback selected by bits 185-186.
pub open spec fn spec_minimal_grouping(bytes: Seq<u8>) -> MinimalGrouping {
    let v = bits_at(bytes, 185, 2);
    if v == 0 {
        MinimalGrouping::One
    } else if v == 1 {
        MinimalGrouping::OneOrTwo
    } else if v == 2 {
        MinimalGrouping::OneOrFour
    } else {
        MinimalGrouping::OneOrTwoOrFour
    }
}

/// The channel widths selected by the supported channel width set flag at
/// bit 1: clear means 20 MHz only, set means both 20 and 40 MHz.
pub open spec fn spec_supported_channel_width_set(bytes: Seq<u8>) -> ChannelWidths {
    if bit_at(bytes, 1) {
        spec_width_inserted(spec_single_width(ChannelWidth::TwentyMhz), ChannelWidth::FortyMhz)
    } else {
        spec_single_width(ChannelWidth::TwentyMhz)
    }
}

/// HT Capabilities element (ID 45): at least 26 bytes.
#[derive(Debug, PartialEq, Eq)]
pub struct HtCapabilities {
    bytes: Vec<u8>,
}

impl HtCapabilities {
    pub const ID: u8 = 45;

    pub const MIN_LENGTH: usize = 26;

    #[verifier::type_invariant]
    closed spec fn len_contract(self) -> bool {
        self.bytes@.len() >= 26
    }

    /// Builds the element from its payload; fewer than 26 bytes are
    /// rejected, extra trailing bytes are kept.
    pub fn new(bytes: Vec<u8>) -> (r: Result<HtCapabilities, IeError>)
        ensures
            bytes@.len() >= 26 ==> (r matches Ok(a) && a@ == bytes@),
            bytes@.len() < 26 ==> (r matches Err(e) && is_invalid_length(
                e,
                "HT Capabilities"@,
                26,
                bytes@.len() as int,
            )),
    {
        if bytes.len() >= 26 {
            Ok(HtCapabilities { bytes })
        } else {
            let actual_length = bytes.len();
            Err(
                IeError::InvalidLength {
                    ie_name: "HT Capabilities",
                    expected_length: 26,
                    actual_length,
                },
            )
        }
    }

    /// Whether LDPC coded packets can be received.
    pub fn ldpc_coding_capability(&self) -> (r: bool)
        ensures
            r == bit_at(self@, 0),
    {
        proof {
            use_type_invariant(self);
        }
        read_bit(self.bytes.as_slice(), 0)
    }

    /// Whether HT-greenfield PPDUs can be received.
    pub fn ht_greenfield(&self) -> (r: bool)
        ensures
            r == bit_at(self@, 4),
    {
        proof {
            use_type_invariant(self);
        }
        read_bit(self.bytes.as_slice(), 4)
    }

    /// Whether the short guard interval is supported at 20 MHz.
    pub fn short_gi_twenty_mhz(&self) -> (r: bool)
        ensures
            r == bit_at(self@, 5),
    {
        proof {
            use_type_invariant(self);
        }
        read_bit(self.bytes.as_slice(), 5)
    }

    /// Whether the short guard interval is supported at 40 MHz.
    pub fn short_gi_forty_mhz(&self) -> (r: bool)
        ensures
            r == bit_at(self@, 6),
    {
        proof {
            use_type_invariant(self);
        }
        read_bit(self.bytes.as_slice(), 6)
    }

    /// Whether PPDUs can be transmitted with space-time block coding.
    pub fn tx_stbc(&self) -> (r: bool)
        ensures
            r == bit_at(self@, 7),
    {
        proof {
            use_type_invariant(self);
        }
        read_bit(self.bytes.as_slice(), 7)
    }

    /// Whether HT-delayed block ack is supported.
    pub fn ht_delayed_block_ack(&self) -> (r: bool)
        ensures
            r == bit_at(self@, 10),
    {
        proof {
            use_type_invariant(self);
        }
        read_bit(self.bytes.as_slice(), 10)
    }

    /// Whether DSSS/CCK may be used in 40 MHz operation.
    pub fn dsss_cck_mode_forty_mhz(&self) -> (r: bool)
        ensures
            r == bit_at(self@, 12),
    {
        proof {
            use_type_invariant(self);
        }
        read_bit(self.bytes.as_slice(), 12)
    }

    /// Whether surrounding BSSs are asked to refrain from 40 MHz use.
    pub fn forty_mhz_intolerant(&self) -> (r: bool)
        ensures
            r == bit_at(self@, 14),
    {
        proof {
            use_type_invariant(self);
        }
        read_bit(self.bytes.as_slice(), 14)
    }

    /// Whether L-SIG TXOP protection is supported.
    pub fn lsig_txop_protection_support(&self) -> (r: bool)
        ensures
            r == bit_at(self@, 15),
    {
        proof {
            use_type_invariant(self);
        }
        read_bit(self.bytes.as_slice(), 15)
    }

    /// Whether phased coexistence operation is supported.
    pub fn pco(&self) -> (r: bool)
        ensures
            r == bit_at(self@, 152),
    {
        proof {
            use_type_invariant(self);
        }
        read_bit(self.bytes.as_slice(), 152)
    }

    /// Whether the HT Control field can be received.
    pub fn htc_ht_support(&self) -> (r: bool)
        ensures
            r == bit_at(self@, 162),
    {
        proof {
            use_type_invariant(self);
        }
        read_bit(self.bytes.as_slice(), 162)
    }

    /// Whether the station can act as a reverse direction responder.
    pub fn rd_responder(&self) -> (r: bool)
        ensures
            r == bit_at(self@, 163),
    {
        proof {
            use_type_invariant(self);
        }
        read_bit(self.bytes.as_slice(), 163)
    }

    /// Whether implicit beamforming steered frames can be received.
    pub fn implicit_tx_beamforming_rx_capable(&self) -> (r: bool)
        ensures
            r == bit_at(self@, 168),
    {
        proof {
            use_type_invariant(self);
        }
        read_bit(self.bytes.as_slice(), 168)
    }

    /// Whether staggered sounding frames can be received.
    pub fn rx_staggered_sounding_capable(&self) -> (r: bool)
        ensures
            r == bit_at(self@, 169),
    {
        proof {
            use_type_invariant(self);
        }
        read_bit(self.bytes.as_slice(), 169)
    }

    /// Whether staggered sounding frames can be transmitted.
    pub fn tx_staggered_sounding_capable(&self) -> (r: bool)
        ensures
            r == bit_at(self@, 170),
    {
        proof {
            use_type_invariant(self);
        }
        read_bit(self.bytes.as_slice(), 170)
    }

    /// Whether null data packet soundings can be received.
    pub fn rx_ndp_capable(&self) -> (r: bool)
        ensures
            r == bit_at(self@, 171),
    {
        proof {
            use_type_invariant(self);
        }
        read_bit(self.bytes.as_slice(), 171)
    }

    /// Whether null data packet soundings can be transmitted.
    pub fn tx_ndp_capable(&self) -> (r: bool)
        ensures
            r == bit_at(self@, 172),
    {
        proof {
            use_type_invariant(self);
        }
        read_bit(self.bytes.as_slice(), 172)
    }

    /// Whether implicit transmit beamforming is supported.
    pub fn implicit_tx_beamforming_capable(&self) -> (r: bool)
        ensures
            r == bit_at(self@, 173),
    {
        proof {
            use_type_invariant(self);
        }
        read_bit(self.bytes.as_slice(), 173)
    }

    /// Whether beamforming from explicit CSI feedback is supported.
    pub fn explicit_csi_tx_beamforming_capable(&self) -> (r: bool)
        ensures
            r == bit_at(self@, 176),
    {
        proof {
            use_type_invariant(self);
        }
        read_bit(self.bytes.as_slice(), 176)
    }

    /// Whether noncompressed steering matrices can be returned.
    pub fn explicit_noncompressed_steering_capable(&self) -> (r: bool)
        ensures
            r == bit_at(self@, 177),
    {
        proof {
            use_type_invariant(self);
        }
        read_bit(self.bytes.as_slice(), 177)
    }

    /// Whether compressed steering matrices can be returned.
    pub fn explicit_compressed_steering_capable(&self) -> (r: bool)
        ensures
            r == bit_at(self@, 178),
    {
        proof {
            use_type_invariant(self);
        }
        read_bit(self.bytes.as_slice(), 178)
    }

    /// Whether antenna selection is supported.
    pub fn antenna_selection_capable(&self) -> (r: bool)
        ensures
            r == bit_at(self@, 200),
    {
        proof {
            use_type_invariant(self);
        }
        read_bit(self.bytes.as_slice(), 200)
    }

    /// Whether transmit antenna selection from explicit CSI feedback is supported.
    pub fn explicit_csi_feedback_based_tx_asel_capable(&self) -> (r: bool)
        ensures
            r == bit_at(self@, 201),
    {
        proof {
            use_type_invariant(self);
        }
        read_bit(self.bytes.as_slice(), 201)
    }

    /// Whether transmit antenna selection from antenna indices feedback is supported.
    pub fn antenna_indices_feedback_based_tx_asel_capable(&self) -> (r: bool)
        ensures
            r == bit_at(self@, 202),
    {
        proof {
            use_type_invariant(self);
        }
        read_bit(self.bytes.as_slice(), 202)
    }

    /// Whether explicit CSI feedback can be computed and returned.
    pub fn explicit_csi_feedback_capable(&self) -> (r: bool)
        ensures
            r == bit_at(self@, 203),
    {
        proof {
            use_type_invariant(self);
        }
        read_bit(self.bytes.as_slice(), 203)
    }

    /// Whether antenna indices feedback can be computed and returned.
    pub fn antenna_indices_feedback_capable(&self) -> (r: bool)
        ensures
            r == bit_at(self@, 204),
    {
        proof {
            use_type_invariant(self);
        }
        read_bit(self.bytes.as_slice(), 204)
    }

    /// Whether receive antenna selection is supported.
    pub fn rx_asel_capable(&self) -> (r: bool)
        ensures
            r == bit_at(self@, 205),
    {
        proof {
            use_type_invariant(self);
        }
        read_bit(self.bytes.as_slice(), 205)
    }

    /// Whether sounding PPDUs can be transmitted on request.
    pub fn tx_sounding_ppdus_capable(&self) -> (r: bool)
        ensures
            r == bit_at(self@, 206),
    {
        proof {
            use_type_invariant(self);
        }
        read_bit(self.bytes.as_slice(), 206)
    }

    /// The channel widths the station can receive: {20} when the supported
    /// channel width set flag is clear, {20, 40} when it is set.
    pub fn supported_channel_width_set(&self) -> (r: ChannelWidths)
        ensures
            r == spec_supported_channel_width_set(self@),
    {
        proof {
            use_type_invariant(self);
        }
        if read_bit(self.bytes.as_slice(), 1) {
            let mut w = ChannelWidths::single(ChannelWidth::TwentyMhz);
            w.insert(ChannelWidth::FortyMhz);
            w
        } else {
            ChannelWidths::single(ChannelWidth::TwentyMhz)
        }
    }

    /// The maximum A-MSDU length in bytes: 7935 when bit 11 is set, else
    /// 3839.
    pub fn max_amsdu_length(&self) -> (r: usize)
        ensures
            r == if bit_at(self@, 11) {
                7935int
            } else {
                3839int
            },
    {
        proof {
            use_type_invariant(self);
        }
        if read_bit(self.bytes.as_slice(), 11) {
            7935
        } else {
            3839
        }
    }

    /// The spatial multiplexing power save mode.
    pub fn sm_power_save(&self) -> (r: SmPowerSave)
        ensures
            r == spec_sm_power_save(self@),
    {
        proof {
            use_type_invariant(self);
        }
        let v = read_bits_u8(self.bytes.as_slice(), 2, 2);
        if v == 0 {
            SmPowerSave::Static
        } else if v == 1 {
            SmPowerSave::Dynamic
        } else {
            SmPowerSave::Disabled
        }
    }

    /// The receive STBC support.
    pub fn rx_stbc(&self) -> (r: RxStbc)
        ensures
            r == spec_rx_stbc(self@),
    {
        proof {
            use_type_invariant(self);
        }
        let v = read_bits_u8(self.bytes.as_slice(), 8, 2);
        if v == 0 {
            RxStbc::NotSupported
        } else if v == 1 {
            RxStbc::OneSpatialStream
        } else if v == 2 {
            RxStbc::OneAndTwoSpatialStreams
        } else {
            RxStbc::OneTwoAndThreeSpatialStreams
        }
    }

    /// The maximum A-MPDU length exponent, from bits 16-17.
    pub fn max_ampdu_length_exponent(&self) -> (r: u8)
        ensures
            r == bits_at(self@, 16, 2),
    {
        proof {
            use_type_invariant(self);
        }
        read_bits_u8(self.bytes.as_slice(), 16, 2)
    }

    /// The maximum A-MPDU length in bytes, computed from the two-bit
    /// exponent field as 2^(13 + exponent) - 1.
    pub fn max_ampdu_length(&self) -> (r: u32)
        ensures
            r == pow2((13 + bits_at(self@, 16, 2)) as nat) - 1,
    {
        proof {
            use_type_invariant(self);
            lemma_bits_at_bound(self@, 16, 2);
            assert((1u32 << 2u32) == 4) by (bit_vector);
            lemma2_to64();
        }
        let e = read_bits_u8(self.bytes.as_slice(), 16, 2);
        if e == 0 {
            8191
        } else if e == 1 {
            16383
        } else if e == 2 {
            32767
        } else {
            65535
        }
    }

    /// The minimum MPDU start spacing.
    pub fn min_mpdu_start_spacing(&self) -> (r: MpduStartSpacing)
        ensures
            r == spec_min_mpdu_start_spacing(self@),
    {
        proof {
            use_type_invariant(self);
        }
        let v = read_bits_u8(self.bytes.as_slice(), 18, 3);
        if v == 0 {
            MpduStartSpacing::NoRestriction
        } else if v == 1 {
            MpduStartSpacing::QuarterMicrosecond
        } else if v == 2 {
            MpduStartSpacing::HalfMicrosecond
        } else if v == 3 {
            MpduStartSpacing::OneMicrosecond
        } else if v == 4 {
            MpduStartSpacing::TwoMicroseconds
        } else if v == 5 {
            MpduStartSpacing::FourMicroseconds
        } else if v == 6 {
            MpduStartSpacing::EightMicroseconds
        } else {
            MpduStartSpacing::SixteenMicroseconds
        }
    }

    /// The supported MCS set field: payload bytes 3 to 18.
    pub fn supported_mcs_set(&self) -> (r: &[u8])
        ensures
            r@ == self@.subrange(3, 19),
    {
        proof {
            use_type_invariant(self);
        }
        let tail = self.bytes.as_slice().split_at(3).1;
        let head = tail.split_at(16).0;
        proof {
            assert(head@ =~= self@.subrange(3, 19));
        }
        head
    }

    /// The phased-coexistence transition time.
    pub fn pco_transition_time(&self) -> (r: PcoTransitionTime)
        ensures
            r == spec_pco_transition_time(self@),
    {
        proof {
            use_type_invariant(self);
        }
        let v = read_bits_u8(self.bytes.as_slice(), 153, 2);
        if v == 0 {
            PcoTransitionTime::NoTransition
        } else if v == 1 {
            PcoTransitionTime::FourHundredMicroseconds
        } else if v == 2 {
            PcoTransitionTime::OneAndAHalfMilliseconds
        } else {
            PcoTransitionTime::FiveMilliseconds
        }
    }

    /// The MCS feedback capability.
    pub fn mcs_feedback(&self) -> (r: McsFeedback)
        ensures
            r == spec_mcs_feedback(self@),
    {
        proof {
            use_type_invariant(self);
        }
        let v = read_bits_u8(self.bytes.as_slice(), 160, 2);
        if v == 2 {
            McsFeedback::UnsolicitedMfb
        } else if v == 3 {
            McsFeedback::ResponseOrUnsolicitedMfb
        } else {
            McsFeedback::NoMfb
        }
    }

    /// The calibration capability.
    pub fn calibration(&self) -> (r: Calibration)
        ensures
            r == spec_calibration(self@),
    {
        proof {
            use_type_invariant(self);
        }
        let v = read_bits_u8(self.bytes.as_slice(), 174, 2);
        if v == 1 {
            Calibration::Respond
        } else if v == 3 {
            Calibration::InitiateAndRespond
        } else {
            Calibration::NotSupported
        }
    }

    /// The explicit transmit beamforming CSI feedback capability.
    pub fn explicit_tx_beamforming_csi_feedback(&self) -> (r: BeamformingFeedback)
        ensures
            r == spec_explicit_tx_beamforming_csi_feedback(self@),
    {
        proof {
            use_type_invariant(self);
        }
        let v = read_bits_u8(self.bytes.as_slice(), 179, 2);
        if v == 0 {
            BeamformingFeedback::NotSupported
        } else if v == 1 {
            BeamformingFeedback::Delayed
        } else if v == 2 {
            BeamformingFeedback::Immediate
        } else {
            BeamformingFeedback::DelayedAndImmediate
        }
    }

    /// The explicit noncompressed beamforming feedback capability.
    pub fn explicit_noncompressed_beamforming_feedback_capable(&self) -> (r: BeamformingFeedback)
        ensures
            r == spec_explicit_noncompressed_beamforming_feedback_capable(self@),
    {
        proof {
            use_type_invariant(self);
        }
        let v = read_bits_u8(self.bytes.as_slice(), 181, 2);
        if v == 0 {
            BeamformingFeedback::NotSupported
        } else if v == 1 {
            BeamformingFeedback::Delayed
        } else if v == 2 {
            BeamformingFeedback::Immediate
        } else {
            BeamformingFeedback::DelayedAndImmediate
        }
    }

    /// The explicit compressed beamforming feedback capability.
    pub fn explicit_compressed_beamforming_feedback_capable(&self) -> (r: BeamformingFeedback)
        ensures
            r == spec_explicit_compressed_beamforming_feedback_capable(self@),
    {
        proof {
            use_type_invariant(self);
        }
        let v = read_bits_u8(self.bytes.as_slice(), 183, 2);
        if v == 0 {
            BeamformingFeedback::NotSupported
        } else if v == 1 {
            BeamformingFeedback::Delayed
        } else if v == 2 {
            BeamformingFeedback::Immediate
        } else {
            BeamformingFeedback::DelayedAndImmediate
        }
    }

    /// The minimal grouping for explicit feedback.
    pub fn minimal_grouping(&self) -> (r: MinimalGrouping)
        ensures
            r == spec_minimal_grouping(self@),
    {
        proof {
            use_type_invariant(self);
        }
        let v = read_bits_u8(self.bytes.as_slice(), 185, 2);
        if v == 0 {
            MinimalGrouping::One
        } else if v == 1 {
            MinimalGrouping::OneOrTwo
        } else if v == 2 {
            MinimalGrouping::OneOrFour
        } else {
            MinimalGrouping::OneOrTwoOrFour
        }
    }

    /// How many beamformer antennas CSI feedback supports, from bits 187-188 plus one.
    pub fn csi_number_of_beamformer_antennas_supported(&self) -> (r: u8)
        ensures
            r == bits_at(self@, 187, 2) + 1,
    {
        proof {
            use_type_invariant(self);
            lemma_bits_at_bound(self@, 187, 2);
            assert((1u32 << 2u32) == 4) by (bit_vector);
        }
        read_bits_u8(self.bytes.as_slice(), 187, 2) + 1
    }

    /// How many beamformer antennas noncompressed steering supports, from bits 189-190 plus one.
    pub fn noncompressed_steering_number_of_beamformer_antennas_supported(&self) -> (r: u8)
        ensures
            r == bits_at(self@, 189, 2) + 1,
    {
        proof {
            use_type_invariant(self);
            lemma_bits_at_bound(self@, 189, 2);
            assert((1u32 << 2u32) == 4) by (bit_vector);
        }
        read_bits_u8(self.bytes.as_slice(), 189, 2) + 1
    }

    /// How many beamformer antennas compressed steering supports, from bits 191-192 plus one.
    pub fn compressed_steering_number_of_beamformer_antennas_supported(&self) -> (r: u8)
        ensures
            r == bits_at(self@, 191, 2) + 1,
    {
        proof {
            use_type_invariant(self);
            lemma_bits_at_bound(self@, 191, 2);
            assert((1u32 << 2u32) == 4) by (bit_vector);
        }
        read_bits_u8(self.bytes.as_slice(), 191, 2) + 1
    }

    /// The maximum number of CSI rows the beamformer supports, from bits 193-194 plus one.
    pub fn csi_max_number_of_rows_beamformer_supported(&self) -> (r: u8)
        ensures
            r == bits_at(self@, 193, 2) + 1,
    {
        proof {
            use_type_invariant(self);
            lemma_bits_at_bound(self@, 193, 2);
            assert((1u32 << 2u32) == 4) by (bit_vector);
        }
        read_bits_u8(self.bytes.as_slice(), 193, 2) + 1
    }

    /// How many space-time streams channel estimation supports, from bits 195-196 plus one.
    pub fn channel_estimation_capability(&self) -> (r: u8)
        ensures
            r == bits_at(self@, 195, 2) + 1,
    {
        proof {
            use_type_invariant(self);
            lemma_bits_at_bound(self@, 195, 2);
            assert((1u32 << 2u32) == 4) by (bit_vector);
        }
        read_bits_u8(self.bytes.as_slice(), 195, 2) + 1
    }
}

impl View for HtCapabilities {
    type V = Seq<u8>;

    closed spec fn view(&self) -> Seq<u8> {
        self.bytes@
    }
}

impl InformationElement for HtCapabilities {
    open spec fn spec_name(&self) -> Seq<char> {
        "HT Capabilities"@
    }

    open spec fn spec_id(&self) -> u8 {
        45
    }

    open spec fn spec_id_ext(&self) -> Option<u8> {
        None
    }

    open spec fn payload(&self) -> Seq<u8> {
        self@
    }

    fn name(&self) -> (r: &'static str) {
        "HT Capabilities"
    }

    fn id(&self) -> (r: u8) {
        45
    }

    fn id_ext(&self) -> (r: Option<u8>) {
        None
    }

    fn bytes(&self) -> (r: &[u8]) {
        proof {
            use_type_invariant(self);
        }
        self.bytes.as_slice()
    }
}

} // verus!
