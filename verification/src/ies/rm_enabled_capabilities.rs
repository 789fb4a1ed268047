//! RM Enabled Capabilities element: the radio measurements a station can
//! perform.

use vstd::prelude::*;

use crate::bits::bit_at;
use crate::bits::bits_at;
use crate::bits::read_bit;
use crate::bits::read_bits_u8;
use crate::ies::{is_invalid_length, IeError, InformationElement};

verus! {

/// RM Enabled Capabilities element (ID 70): at least five bytes of radio
/// measurement capability flags.
#[derive(Debug, PartialEq, Eq)]
pub struct RmEnabledCapabilities {
    bytes: Vec<u8>,
}

impl RmEnabledCapabilities {
    pub const ID: u8 = 70;

    pub const MIN_LENGTH: usize = 5;

    #[verifier::type_invariant]
    closed spec fn len_contract(self) -> bool {
        self.bytes@.len() >= 5
    }

    /// Builds the element from its payload; fewer than 5 bytes are rejected,
    /// extra trailing bytes are kept.
    pub fn new(bytes: Vec<u8>) -> (r: Result<RmEnabledCapabilities, IeError>)
        ensures
            bytes@.len() >= 5 ==> (r matches Ok(a) && a@ == bytes@),
            bytes@.len() < 5 ==> (r matches Err(e) && is_invalid_length(
                e,
                "RM Enabled Capabilities"@,
                5,
                bytes@.len() as int,
            )),
    {
        if bytes.len() >= 5 {
            Ok(RmEnabledCapabilities { bytes })
        } else {
            let actual_length = bytes.len();
            Err(
                IeError::InvalidLength {
                    ie_name: "RM Enabled Capabilities",
                    expected_length: 5,
                    actual_length,
                },
            )
        }
    }

    /// Radio measurement capability bit 0: Link measurement.
    pub fn link_measurement_capability(&self) -> (r: bool)
        ensures
            r == bit_at(self@, 0),
    {
        proof {
            use_type_invariant(self);
        }
        read_bit(self.bytes.as_slice(), 0)
    }

    /// Radio measurement capability bit 1: Neighbor report.
    pub fn neighbor_report_capability(&self) -> (r: bool)
        ensures
            r == bit_at(self@, 1),
    {
        proof {
            use_type_invariant(self);
        }
        read_bit(self.bytes.as_slice(), 1)
    }

    /// Radio measurement capability bit 2: Parallel measurements.
    pub fn parallel_measurements_capability(&self) -> (r: bool)
        ensures
            r == bit_at(self@, 2),
    {
        proof {
            use_type_invariant(self);
        }
        read_bit(self.bytes.as_slice(), 2)
    }

    /// Radio measurement capability bit 3: Repeated measurements.
    pub fn repeated_measurements_capability(&self) -> (r: bool)
        ensures
            r == bit_at(self@, 3),
    {
        proof {
            use_type_invariant(self);
        }
        read_bit(self.bytes.as_slice(), 3)
    }

    /// Radio measurement capability bit 4: Beacon passive measurement.
    pub fn beacon_passive_measurement_capability(&self) -> (r: bool)
        ensures
            r == bit_at(self@, 4),
    {
        proof {
            use_type_invariant(self);
        }
        read_bit(self.bytes.as_slice(), 4)
    }

    /// Radio measurement capability bit 5: Beacon active measurement.
    pub fn beacon_active_measurement_capability(&self) -> (r: bool)
        ensures
            r == bit_at(self@, 5),
    {
        proof {
            use_type_invariant(self);
        }
        read_bit(self.bytes.as_slice(), 5)
    }

    /// Radio measurement capability bit 6: Beacon table measurement.
    pub fn beacon_table_measurement_capability(&self) -> (r: bool)
        ensures
            r == bit_at(self@, 6),
    {
        proof {
            use_type_invariant(self);
        }
        read_bit(self.bytes.as_slice(), 6)
    }

    /// Radio measurement capability bit 7: Beacon measurement reporting conditions.
    pub fn beacon_measurement_reporting_conditions_capability(&self) -> (r: bool)
        ensures
            r == bit_at(self@, 7),
    {
        proof {
            use_type_invariant(self);
        }
        read_bit(self.bytes.as_slice(), 7)
    }

    /// Radio measurement capability bit 8: Frame measurement.
    pub fn frame_measurement_capability(&self) -> (r: bool)
        ensures
            r == bit_at(self@, 8),
    {
        proof {
            use_type_invariant(self);
        }
        read_bit(self.bytes.as_slice(), 8)
    }

    /// Radio measurement capability bit 9: Channel load measurement.
    pub fn channel_load_measurement_capability(&self) -> (r: bool)
        ensures
            r == bit_at(self@, 9),
    {
        proof {
            use_type_invariant(self);
        }
        read_bit(self.bytes.as_slice(), 9)
    }

    /// Radio measurement capability bit 10: Noise histogram measurement.
    pub fn noise_histogram_measurement_capability(&self) -> (r: bool)
        ensures
            r == bit_at(self@, 10),
    {
        proof {
            use_type_invariant(self);
        }
        read_bit(self.bytes.as_slice(), 10)
    }

    /// Radio measurement capability bit 11: Statistics measurement.
    pub fn statistics_measurement_capability(&self) -> (r: bool)
        ensures
            r == bit_at(self@, 11),
    {
        proof {
            use_type_invariant(self);
        }
        read_bit(self.bytes.as_slice(), 11)
    }

    /// Radio measurement capability bit 12: Lci measurement.
    pub fn lci_measurement_capability(&self) -> (r: bool)
        ensures
            r == bit_at(self@, 12),
    {
        proof {
            use_type_invariant(self);
        }
        read_bit(self.bytes.as_slice(), 12)
    }

    /// Radio measurement capability bit 13: Lci azimuth.
    pub fn lci_azimuth_capability(&self) -> (r: bool)
        ensures
            r == bit_at(self@, 13),
    {
        proof {
            use_type_invariant(self);
        }
        read_bit(self.bytes.as_slice(), 13)
    }

    /// Radio measurement capability bit 14: Transmit stream category measurement.
    pub fn transmit_stream_category_measurement_capability(&self) -> (r: bool)
        ensures
            r == bit_at(self@, 14),
    {
        proof {
            use_type_invariant(self);
        }
        read_bit(self.bytes.as_slice(), 14)
    }

    /// Radio measurement capability bit 15: Triggered transmit stream category measurement.
    pub fn triggered_transmit_stream_category_measurement_capability(&self) -> (r: bool)
        ensures
            r == bit_at(self@, 15),
    {
        proof {
            use_type_invariant(self);
        }
        read_bit(self.bytes.as_slice(), 15)
    }

    /// Radio measurement capability bit 16: Ap channel report.
    pub fn ap_channel_report_capability(&self) -> (r: bool)
        ensures
            r == bit_at(self@, 16),
    {
        proof {
            use_type_invariant(self);
        }
        read_bit(self.bytes.as_slice(), 16)
    }

    /// Radio measurement capability bit 17: Rm mib.
    pub fn rm_mib_capability(&self) -> (r: bool)
        ensures
            r == bit_at(self@, 17),
    {
        proof {
            use_type_invariant(self);
        }
        read_bit(self.bytes.as_slice(), 17)
    }

    /// Maximum duration of measurements on the operating channel, as a power-of-two fraction of the beacon interval, from bits 18-20.
    pub fn operating_channel_max_measurement_duration(&self) -> (r: u8)
        ensures
            r == bits_at(self@, 18, 3),
    {
        proof {
            use_type_invariant(self);
        }
        read_bits_u8(self.bytes.as_slice(), 18, 3)
    }

    /// Maximum duration of measurements off the operating channel, as a power-of-two fraction of the beacon interval, from bits 21-23.
    pub fn nonoperating_channel_max_measurement_duration(&self) -> (r: u8)
        ensures
            r == bits_at(self@, 21, 3),
    {
        proof {
            use_type_invariant(self);
        }
        read_bits_u8(self.bytes.as_slice(), 21, 3)
    }

    /// Measurement pilot interval capability, from bits 24-26.
    pub fn measurement_pilot_capability(&self) -> (r: u8)
        ensures
            r == bits_at(self@, 24, 3),
    {
        proof {
            use_type_invariant(self);
        }
        read_bits_u8(self.bytes.as_slice(), 24, 3)
    }

    /// Radio measurement capability bit 27: Measurement pilot transmission information capability.
    pub fn measurement_pilot_transmission_information_capability(&self) -> (r: bool)
        ensures
            r == bit_at(self@, 27),
    {
        proof {
            use_type_invariant(self);
        }
        read_bit(self.bytes.as_slice(), 27)
    }

    /// Radio measurement capability bit 28: Neighbor report tsf offset capability.
    pub fn neighbor_report_tsf_offset_capability(&self) -> (r: bool)
        ensures
            r == bit_at(self@, 28),
    {
        proof {
            use_type_invariant(self);
        }
        read_bit(self.bytes.as_slice(), 28)
    }

    /// Radio measurement capability bit 29: Rcpi measurement capability.
    pub fn rcpi_measurement_capability(&self) -> (r: bool)
        ensures
            r == bit_at(self@, 29),
    {
        proof {
            use_type_invariant(self);
        }
        read_bit(self.bytes.as_slice(), 29)
    }

    /// Radio measurement capability bit 30: Rsni measurement capability.
    pub fn rsni_measurement_capability(&self) -> (r: bool)
        ensures
            r == bit_at(self@, 30),
    {
        proof {
            use_type_invariant(self);
        }
        read_bit(self.bytes.as_slice(), 30)
    }

    /// Radio measurement capability bit 31: Bss average access delay capability.
    pub fn bss_average_access_delay_capability(&self) -> (r: bool)
        ensures
            r == bit_at(self@, 31),
    {
        proof {
            use_type_invariant(self);
        }
        read_bit(self.bytes.as_slice(), 31)
    }

    /// Radio measurement capability bit 32: Bss available admission capacity capacity.
    pub fn bss_available_admission_capacity_capacity(&self) -> (r: bool)
        ensures
            r == bit_at(self@, 32),
    {
        proof {
            use_type_invariant(self);
        }
        read_bit(self.bytes.as_slice(), 32)
    }

    /// Radio measurement capability bit 33: Antenna capability.
    pub fn antenna_capability(&self) -> (r: bool)
        ensures
            r == bit_at(self@, 33),
    {
        proof {
            use_type_invariant(self);
        }
        read_bit(self.bytes.as_slice(), 33)
    }

    /// Radio measurement capability bit 34: Ftm range report capability.
    pub fn ftm_range_report_capability(&self) -> (r: bool)
        ensures
            r == bit_at(self@, 34),
    {
        proof {
            use_type_invariant(self);
        }
        read_bit(self.bytes.as_slice(), 34)
    }

    /// Radio measurement capability bit 35: Civic location measurement capability.
    pub fn civic_location_measurement_capability(&self) -> (r: bool)
        ensures
            r == bit_at(self@, 35),
    {
        proof {
            use_type_invariant(self);
        }
        read_bit(self.bytes.as_slice(), 35)
    }
}

impl View for RmEnabledCapabilities {
    type V = Seq<u8>;

    closed spec fn view(&self) -> Seq<u8> {
        self.bytes@
    }
}

impl InformationElement for RmEnabledCapabilities {
    open spec fn spec_name(&self) -> Seq<char> {
        "RM Enabled Capabilities"@
    }

    open spec fn spec_id(&self) -> u8 {
        70
    }

    open spec fn spec_id_ext(&self) -> Option<u8> {
        None
    }

    open spec fn payload(&self) -> Seq<u8> {
        self@
    }

    fn name(&self) -> (r: &'static str) {
        "RM Enabled Capabilities"
    }

    fn id(&self) -> (r: u8) {
        70
    }

    fn id_ext(&self) -> (r: Option<u8>) {
        None
    }

    fn bytes(&self) -> (r: &[u8]) {
        proof {
            use_type_invariant(self);
        }
        self.bytes.as_slice()
    }
}

} // verus!
