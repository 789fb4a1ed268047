//! Overlapping BSS Scan Parameters element: dwell times and thresholds for coexistence scanning.

use vstd::prelude::*;

use crate::ies::{is_invalid_length, IeError, InformationElement};

verus! {

/// Overlapping BSS Scan Parameters element (ID 74): exactly fourteen bytes, seven little-endian 16-bit fields.
#[derive(Debug, PartialEq, Eq)]
pub struct OverlappingBssScanParams {
    bytes: Vec<u8>,
}

impl OverlappingBssScanParams {
    pub const ID: u8 = 74;

    pub const LENGTH: usize = 14;

    #[verifier::type_invariant]
    closed spec fn len_contract(self) -> bool {
        self.bytes@.len() == 14
    }

    /// Builds the element from its payload; any length other than
    /// 14 bytes is rejected.
    pub fn new(bytes: Vec<u8>) -> (r: Result<OverlappingBssScanParams, IeError>)
        ensures
            bytes@.len() == 14 ==> (r matches Ok(a) && a@ == bytes@),
            bytes@.len() != 14 ==> (r matches Err(e) && is_invalid_length(
                e,
                "Overlapping BSS Scan Parameters"@,
                14,
                bytes@.len() as int,
            )),
    {
        if bytes.len() == 14 {
            Ok(OverlappingBssScanParams { bytes })
        } else {
            let actual_length = bytes.len();
            Err(
                IeError::InvalidLength {
                    ie_name: "Overlapping BSS Scan Parameters",
                    expected_length: 14,
                    actual_length,
                },
            )
        }
    }

    /// The passive dwell per channel, in time units, read little-endian from bytes 0-1.
    pub fn obss_scan_passive_dwell_tu(&self) -> (r: u16)
        ensures
            r == self@[0] + 0x100 * self@[1],
    {
        proof {
            use_type_invariant(self);
        }
        self.bytes[0] as u16 + 0x100 * self.bytes[1] as u16
    }

    /// The active dwell per channel, in time units, read little-endian from bytes 2-3.
    pub fn obss_scan_active_dwell_tu(&self) -> (r: u16)
        ensures
            r == self@[2] + 0x100 * self@[3],
    {
        proof {
            use_type_invariant(self);
        }
        self.bytes[2] as u16 + 0x100 * self.bytes[3] as u16
    }

    /// The interval between width-trigger scans, in seconds, read little-endian from bytes 4-5.
    pub fn bss_channel_width_trigger_scan_interval_secs(&self) -> (r: u16)
        ensures
            r == self@[4] + 0x100 * self@[5],
    {
        proof {
            use_type_invariant(self);
        }
        self.bytes[4] as u16 + 0x100 * self.bytes[5] as u16
    }

    /// The total passive scan time per channel, in time units, read little-endian from bytes 6-7.
    pub fn obss_scan_passive_total_per_channel_tu(&self) -> (r: u16)
        ensures
            r == self@[6] + 0x100 * self@[7],
    {
        proof {
            use_type_invariant(self);
        }
        self.bytes[6] as u16 + 0x100 * self.bytes[7] as u16
    }

    /// The total active scan time per channel, in time units, read little-endian from bytes 8-9.
    pub fn obss_scan_active_total_per_channel_tu(&self) -> (r: u16)
        ensures
            r == self@[8] + 0x100 * self@[9],
    {
        proof {
            use_type_invariant(self);
        }
        self.bytes[8] as u16 + 0x100 * self.bytes[9] as u16
    }

    /// The width channel transition delay factor, read little-endian from bytes 10-11.
    pub fn bss_width_channel_transition_delay_factor(&self) -> (r: u16)
        ensures
            r == self@[10] + 0x100 * self@[11],
    {
        proof {
            use_type_invariant(self);
        }
        self.bytes[10] as u16 + 0x100 * self.bytes[11] as u16
    }

    /// The scan activity threshold, in hundredths of a percent, read little-endian from bytes 12-13.
    pub fn obss_scan_activity_threshold(&self) -> (r: u16)
        ensures
            r == self@[12] + 0x100 * self@[13],
    {
        proof {
            use_type_invariant(self);
        }
        self.bytes[12] as u16 + 0x100 * self.bytes[13] as u16
    }
}

impl View for OverlappingBssScanParams {
    type V = Seq<u8>;

    closed spec fn view(&self) -> Seq<u8> {
        self.bytes@
    }
}

impl InformationElement for OverlappingBssScanParams {
    open spec fn spec_name(&self) -> Seq<char> {
        "Overlapping BSS Scan Parameters"@
    }

    open spec fn spec_id(&self) -> u8 {
        74
    }

    open spec fn spec_id_ext(&self) -> Option<u8> {
        None
    }

    open spec fn payload(&self) -> Seq<u8> {
        self@
    }

    fn name(&self) -> (r: &'static str) {
        "Overlapping BSS Scan Parameters"
    }

    fn id(&self) -> (r: u8) {
        74
    }

    fn id_ext(&self) -> (r: Option<u8>) {
        None
    }

    fn bytes(&self) -> (r: &[u8]) {
        proof {
            use_type_invariant(self);
        }
        self.bytes.as_slice()
    }
}

} // verus!
