//! Capability information: the 16-bit capability bitmap of a beacon or
//! probe response, which travels beside the information elements.

use vstd::prelude::*;

use crate::bits::bit_at;

verus! {

/// The 16-bit capability bitmap: thirteen named flags at fixed bit
/// offsets; bits 6, 7 and 13 are reserved. Bit numbering follows the
/// little-endian convention of the field reader.
#[derive(Debug, Copy, Clone, PartialEq, Eq)]
pub struct CapabilityInfo {
    bytes: [u8; 2],
}

impl CapabilityInfo {
    pub const LENGTH: usize = 2;

    /// Builds the bitmap from its two raw bytes.
    pub fn new(capability_info: [u8; 2]) -> (r: CapabilityInfo)
        ensures
            r@ == capability_info@,
    {
        CapabilityInfo { bytes: capability_info }
    }

    /// Whether the network is an infrastructure BSS.
    pub fn ess(&self) -> (r: bool)
        ensures
            r == bit_at(self@, 0),
    {
        ((self.bytes[0] as u32) >> 0u32) & 1u32 == 1u32
    }

    /// Whether the network is an independent (ad hoc) BSS.
    pub fn ibss(&self) -> (r: bool)
        ensures
            r == bit_at(self@, 1),
    {
        ((self.bytes[0] as u32) >> 1u32) & 1u32 == 1u32
    }

    /// The CF-pollable flag of contention-free polling.
    pub fn cf_pollable(&self) -> (r: bool)
        ensures
            r == bit_at(self@, 2),
    {
        ((self.bytes[0] as u32) >> 2u32) & 1u32 == 1u32
    }

    /// The CF-poll-request flag of contention-free polling.
    pub fn cf_poll_request(&self) -> (r: bool)
        ensures
            r == bit_at(self@, 3),
    {
        ((self.bytes[0] as u32) >> 3u32) & 1u32 == 1u32
    }

    /// Whether data frames are encrypted.
    pub fn privacy(&self) -> (r: bool)
        ensures
            r == bit_at(self@, 4),
    {
        ((self.bytes[0] as u32) >> 4u32) & 1u32 == 1u32
    }

    /// Whether short preambles are in use.
    pub fn short_preamble(&self) -> (r: bool)
        ensures
            r == bit_at(self@, 5),
    {
        ((self.bytes[0] as u32) >> 5u32) & 1u32 == 1u32
    }

    /// Whether spectrum management is required.
    pub fn spectrum_management(&self) -> (r: bool)
        ensures
            r == bit_at(self@, 8),
    {
        ((self.bytes[1] as u32) >> 0u32) & 1u32 == 1u32
    }

    /// Whether QoS facilities are supported.
    pub fn qos(&self) -> (r: bool)
        ensures
            r == bit_at(self@, 9),
    {
        ((self.bytes[1] as u32) >> 1u32) & 1u32 == 1u32
    }

    /// Whether the short slot time is in use.
    pub fn short_slot_time(&self) -> (r: bool)
        ensures
            r == bit_at(self@, 10),
    {
        ((self.bytes[1] as u32) >> 2u32) & 1u32 == 1u32
    }

    /// Whether automatic power save delivery is supported.
    pub fn apsd(&self) -> (r: bool)
        ensures
            r == bit_at(self@, 11),
    {
        ((self.bytes[1] as u32) >> 3u32) & 1u32 == 1u32
    }

    /// Whether radio measurement is active.
    pub fn radio_measurement(&self) -> (r: bool)
        ensures
            r == bit_at(self@, 12),
    {
        ((self.bytes[1] as u32) >> 4u32) & 1u32 == 1u32
    }

    /// Whether delayed block ack is supported.
    pub fn delayed_block_ack(&self) -> (r: bool)
        ensures
            r == bit_at(self@, 14),
    {
        ((self.bytes[1] as u32) >> 6u32) & 1u32 == 1u32
    }

    /// Whether immediate block ack is supported.
    pub fn immediate_block_ack(&self) -> (r: bool)
        ensures
            r == bit_at(self@, 15),
    {
        ((self.bytes[1] as u32) >> 7u32) & 1u32 == 1u32
    }
}

impl View for CapabilityInfo {
    type V = Seq<u8>;

    closed spec fn view(&self) -> Seq<u8> {
        self.bytes@
    }
}

} // verus!
