//! Extended Capabilities element: a long, open-ended run of single-bit
//! capability flags; each flag is exposed only when the payload reaches its
//! byte.

use vstd::prelude::*;

use crate::bits::bit_at;
use crate::bits::bits_at;
use crate::bits::read_bit;
use crate::bits::read_bits_u8;
use crate::ies::InformationElement;

verus! {

/// Maximum number of MSDUs in an A-MSDU.
#[derive(Debug, Copy, Clone, PartialEq, Eq, Structural)]
pub enum MaxMsdus {
    NoLimit,
    ThirtyTwo,
    Sixteen,
    Eight,
}

/// The A-MSDU limit selected by the two-bit code in bits 63-64.
pub open spec fn spec_max_msdus(v: nat) -> MaxMsdus {
    if v == 0 {
        MaxMsdus::NoLimit
    } else if v == 1 {
        MaxMsdus::ThirtyTwo
    } else if v == 2 {
        MaxMsdus::Sixteen
    } else {
        MaxMsdus::Eight
    }
}

/// Extended Capabilities element (ID 127): any byte count; flags beyond the
/// payload's end are simply absent.
#[derive(Debug, PartialEq, Eq)]
pub struct ExtendedCapabilities {
    bytes: Vec<u8>,
}

impl ExtendedCapabilities {
    pub const ID: u8 = 127;

    /// Builds the element from its payload; any byte count, including zero,
    /// is accepted.
    pub fn new(bytes: Vec<u8>) -> (r: ExtendedCapabilities)
        ensures
            r@ == bytes@,
    {
        ExtendedCapabilities { bytes }
    }

    /// Extended capability bit 0 (Twenty forty bss coexistence management support); absent when the payload does not reach it.
    pub fn twenty_forty_bss_coexistence_management_support(&self) -> (r: Option<bool>)
        ensures
            r == if self@.len() * 8 > 0 {
                Some(bit_at(self@, 0))
            } else {
                None::<bool>
            },
    {
        if self.bytes.len() > 0 / 8 {
            Some(read_bit(self.bytes.as_slice(), 0))
        } else {
            None
        }
    }

    /// Extended capability bit 2 (Extended channel switching); absent when the payload does not reach it.
    pub fn extended_channel_switching(&self) -> (r: Option<bool>)
        ensures
            r == if self@.len() * 8 > 2 {
                Some(bit_at(self@, 2))
            } else {
                None::<bool>
            },
    {
        if self.bytes.len() > 2 / 8 {
            Some(read_bit(self.bytes.as_slice(), 2))
        } else {
            None
        }
    }

    /// Extended capability bit 4 (Psmp capability); absent when the payload does not reach it.
    pub fn psmp_capability(&self) -> (r: Option<bool>)
        ensures
            r == if self@.len() * 8 > 4 {
                Some(bit_at(self@, 4))
            } else {
                None::<bool>
            },
    {
        if self.bytes.len() > 4 / 8 {
            Some(read_bit(self.bytes.as_slice(), 4))
        } else {
            None
        }
    }

    /// Extended capability bit 6 (Spsmp support); absent when the payload does not reach it.
    pub fn spsmp_support(&self) -> (r: Option<bool>)
        ensures
            r == if self@.len() * 8 > 6 {
                Some(bit_at(self@, 6))
            } else {
                None::<bool>
            },
    {
        if self.bytes.len() > 6 / 8 {
            Some(read_bit(self.bytes.as_slice(), 6))
        } else {
            None
        }
    }

    /// Extended capability bit 7 (Event); absent when the payload does not reach it.
    pub fn event(&self) -> (r: Option<bool>)
        ensures
            r == if self@.len() * 8 > 7 {
                Some(bit_at(self@, 7))
            } else {
                None::<bool>
            },
    {
        if self.bytes.len() > 7 / 8 {
            Some(read_bit(self.bytes.as_slice(), 7))
        } else {
            None
        }
    }

    /// Extended capability bit 8 (Diagnostics); absent when the payload does not reach it.
    pub fn diagnostics(&self) -> (r: Option<bool>)
        ensures
            r == if self@.len() * 8 > 8 {
                Some(bit_at(self@, 8))
            } else {
                None::<bool>
            },
    {
        if self.bytes.len() > 8 / 8 {
            Some(read_bit(self.bytes.as_slice(), 8))
        } else {
            None
        }
    }

    /// Extended capability bit 9 (Multicast diagnostics); absent when the payload does not reach it.
    pub fn multicast_diagnostics(&self) -> (r: Option<bool>)
        ensures
            r == if self@.len() * 8 > 9 {
                Some(bit_at(self@, 9))
            } else {
                None::<bool>
            },
    {
        if self.bytes.len() > 9 / 8 {
            Some(read_bit(self.bytes.as_slice(), 9))
        } else {
            None
        }
    }

    /// Extended capability bit 10 (Location tracking); absent when the payload does not reach it.
    pub fn location_tracking(&self) -> (r: Option<bool>)
        ensures
            r == if self@.len() * 8 > 10 {
                Some(bit_at(self@, 10))
            } else {
                None::<bool>
            },
    {
        if self.bytes.len() > 10 / 8 {
            Some(read_bit(self.bytes.as_slice(), 10))
        } else {
            None
        }
    }

    /// Extended capability bit 11 (Fms); absent when the payload does not reach it.
    pub fn fms(&self) -> (r: Option<bool>)
        ensures
            r == if self@.len() * 8 > 11 {
                Some(bit_at(self@, 11))
            } else {
                None::<bool>
            },
    {
        if self.bytes.len() > 11 / 8 {
            Some(read_bit(self.bytes.as_slice(), 11))
        } else {
            None
        }
    }

    /// Extended capability bit 12 (Proxy arp service); absent when the payload does not reach it.
    pub fn proxy_arp_service(&self) -> (r: Option<bool>)
        ensures
            r == if self@.len() * 8 > 12 {
                Some(bit_at(self@, 12))
            } else {
                None::<bool>
            },
    {
        if self.bytes.len() > 12 / 8 {
            Some(read_bit(self.bytes.as_slice(), 12))
        } else {
            None
        }
    }

    /// Extended capability bit 13 (Collocated interference reporting); absent when the payload does not reach it.
    pub fn collocated_interference_reporting(&self) -> (r: Option<bool>)
        ensures
            r == if self@.len() * 8 > 13 {
                Some(bit_at(self@, 13))
            } else {
                None::<bool>
            },
    {
        if self.bytes.len() > 13 / 8 {
            Some(read_bit(self.bytes.as_slice(), 13))
        } else {
            None
        }
    }

    /// Extended capability bit 14 (Civic location); absent when the payload does not reach it.
    pub fn civic_location(&self) -> (r: Option<bool>)
        ensures
            r == if self@.len() * 8 > 14 {
                Some(bit_at(self@, 14))
            } else {
                None::<bool>
            },
    {
        if self.bytes.len() > 14 / 8 {
            Some(read_bit(self.bytes.as_slice(), 14))
        } else {
            None
        }
    }

    /// Extended capability bit 15 (Geospatial location); absent when the payload does not reach it.
    pub fn geospatial_location(&self) -> (r: Option<bool>)
        ensures
            r == if self@.len() * 8 > 15 {
                Some(bit_at(self@, 15))
            } else {
                None::<bool>
            },
    {
        if self.bytes.len() > 15 / 8 {
            Some(read_bit(self.bytes.as_slice(), 15))
        } else {
            None
        }
    }

    /// Extended capability bit 16 (Tfs); absent when the payload does not reach it.
    pub fn tfs(&self) -> (r: Option<bool>)
        ensures
            r == if self@.len() * 8 > 16 {
                Some(bit_at(self@, 16))
            } else {
                None::<bool>
            },
    {
        if self.bytes.len() > 16 / 8 {
            Some(read_bit(self.bytes.as_slice(), 16))
        } else {
            None
        }
    }

    /// Extended capability bit 17 (Wnm sleep mode); absent when the payload does not reach it.
    pub fn wnm_sleep_mode(&self) -> (r: Option<bool>)
        ensures
            r == if self@.len() * 8 > 17 {
                Some(bit_at(self@, 17))
            } else {
                None::<bool>
            },
    {
        if self.bytes.len() > 17 / 8 {
            Some(read_bit(self.bytes.as_slice(), 17))
        } else {
            None
        }
    }

    /// Extended capability bit 18 (Tim broadcast); absent when the payload does not reach it.
    pub fn tim_broadcast(&self) -> (r: Option<bool>)
        ensures
            r == if self@.len() * 8 > 18 {
                Some(bit_at(self@, 18))
            } else {
                None::<bool>
            },
    {
        if self.bytes.len() > 18 / 8 {
            Some(read_bit(self.bytes.as_slice(), 18))
        } else {
            None
        }
    }

    /// Extended capability bit 19 (Bss transition); absent when the payload does not reach it.
    pub fn bss_transition(&self) -> (r: Option<bool>)
        ensures
            r == if self@.len() * 8 > 19 {
                Some(bit_at(self@, 19))
            } else {
                None::<bool>
            },
    {
        if self.bytes.len() > 19 / 8 {
            Some(read_bit(self.bytes.as_slice(), 19))
        } else {
            None
        }
    }

    /// Extended capability bit 20 (Qos traffic capability); absent when the payload does not reach it.
    pub fn qos_traffic_capability(&self) -> (r: Option<bool>)
        ensures
            r == if self@.len() * 8 > 20 {
                Some(bit_at(self@, 20))
            } else {
                None::<bool>
            },
    {
        if self.bytes.len() > 20 / 8 {
            Some(read_bit(self.bytes.as_slice(), 20))
        } else {
            None
        }
    }

    /// Extended capability bit 21 (Ac station count); absent when the payload does not reach it.
    pub fn ac_station_count(&self) -> (r: Option<bool>)
        ensures
            r == if self@.len() * 8 > 21 {
                Some(bit_at(self@, 21))
            } else {
                None::<bool>
            },
    {
        if self.bytes.len() > 21 / 8 {
            Some(read_bit(self.bytes.as_slice(), 21))
        } else {
            None
        }
    }

    /// Extended capability bit 22 (Multiple bssid); absent when the payload does not reach it.
    pub fn multiple_bssid(&self) -> (r: Option<bool>)
        ensures
            r == if self@.len() * 8 > 22 {
                Some(bit_at(self@, 22))
            } else {
                None::<bool>
            },
    {
        if self.bytes.len() > 22 / 8 {
            Some(read_bit(self.bytes.as_slice(), 22))
        } else {
            None
        }
    }

    /// Extended capability bit 23 (Timing measurement); absent when the payload does not reach it.
    pub fn timing_measurement(&self) -> (r: Option<bool>)
        ensures
            r == if self@.len() * 8 > 23 {
                Some(bit_at(self@, 23))
            } else {
                None::<bool>
            },
    {
        if self.bytes.len() > 23 / 8 {
            Some(read_bit(self.bytes.as_slice(), 23))
        } else {
            None
        }
    }

    /// Extended capability bit 24 (Channel usage); absent when the payload does not reach it.
    pub fn channel_usage(&self) -> (r: Option<bool>)
        ensures
            r == if self@.len() * 8 > 24 {
                Some(bit_at(self@, 24))
            } else {
                None::<bool>
            },
    {
        if self.bytes.len() > 24 / 8 {
            Some(read_bit(self.bytes.as_slice(), 24))
        } else {
            None
        }
    }

    /// Extended capability bit 25 (Ssid list); absent when the payload does not reach it.
    pub fn ssid_list(&self) -> (r: Option<bool>)
        ensures
            r == if self@.len() * 8 > 25 {
                Some(bit_at(self@, 25))
            } else {
                None::<bool>
            },
    {
        if self.bytes.len() > 25 / 8 {
            Some(read_bit(self.bytes.as_slice(), 25))
        } else {
            None
        }
    }

    /// Extended capability bit 26 (Dms); absent when the payload does not reach it.
    pub fn dms(&self) -> (r: Option<bool>)
        ensures
            r == if self@.len() * 8 > 26 {
                Some(bit_at(self@, 26))
            } else {
                None::<bool>
            },
    {
        if self.bytes.len() > 26 / 8 {
            Some(read_bit(self.bytes.as_slice(), 26))
        } else {
            None
        }
    }

    /// Extended capability bit 27 (Utc tsf offset); absent when the payload does not reach it.
    pub fn utc_tsf_offset(&self) -> (r: Option<bool>)
        ensures
            r == if self@.len() * 8 > 27 {
                Some(bit_at(self@, 27))
            } else {
                None::<bool>
            },
    {
        if self.bytes.len() > 27 / 8 {
            Some(read_bit(self.bytes.as_slice(), 27))
        } else {
            None
        }
    }

    /// Extended capability bit 28 (Tpu buffer sta support); absent when the payload does not reach it.
    pub fn tpu_buffer_sta_support(&self) -> (r: Option<bool>)
        ensures
            r == if self@.len() * 8 > 28 {
                Some(bit_at(self@, 28))
            } else {
                None::<bool>
            },
    {
        if self.bytes.len() > 28 / 8 {
            Some(read_bit(self.bytes.as_slice(), 28))
        } else {
            None
        }
    }

    /// Extended capability bit 29 (Tdls peer psm support); absent when the payload does not reach it.
    pub fn tdls_peer_psm_support(&self) -> (r: Option<bool>)
        ensures
            r == if self@.len() * 8 > 29 {
                Some(bit_at(self@, 29))
            } else {
                None::<bool>
            },
    {
        if self.bytes.len() > 29 / 8 {
            Some(read_bit(self.bytes.as_slice(), 29))
        } else {
            None
        }
    }

    /// Extended capability bit 30 (Tdls channel switching); absent when the payload does not reach it.
    pub fn tdls_channel_switching(&self) -> (r: Option<bool>)
        ensures
            r == if self@.len() * 8 > 30 {
                Some(bit_at(self@, 30))
            } else {
                None::<bool>
            },
    {
        if self.bytes.len() > 30 / 8 {
            Some(read_bit(self.bytes.as_slice(), 30))
        } else {
            None
        }
    }

    /// Extended capability bit 31 (Interworking); absent when the payload does not reach it.
    pub fn interworking(&self) -> (r: Option<bool>)
        ensures
            r == if self@.len() * 8 > 31 {
                Some(bit_at(self@, 31))
            } else {
                None::<bool>
            },
    {
        if self.bytes.len() > 31 / 8 {
            Some(read_bit(self.bytes.as_slice(), 31))
        } else {
            None
        }
    }

    /// Extended capability bit 32 (Qos map); absent when the payload does not reach it.
    pub fn qos_map(&self) -> (r: Option<bool>)
        ensures
            r == if self@.len() * 8 > 32 {
                Some(bit_at(self@, 32))
            } else {
                None::<bool>
            },
    {
        if self.bytes.len() > 32 / 8 {
            Some(read_bit(self.bytes.as_slice(), 32))
        } else {
            None
        }
    }

    /// Extended capability bit 33 (Ebr); absent when the payload does not reach it.
    pub fn ebr(&self) -> (r: Option<bool>)
        ensures
            r == if self@.len() * 8 > 33 {
                Some(bit_at(self@, 33))
            } else {
                None::<bool>
            },
    {
        if self.bytes.len() > 33 / 8 {
            Some(read_bit(self.bytes.as_slice(), 33))
        } else {
            None
        }
    }

    /// Extended capability bit 34 (Sspn interface); absent when the payload does not reach it.
    pub fn sspn_interface(&self) -> (r: Option<bool>)
        ensures
            r == if self@.len() * 8 > 34 {
                Some(bit_at(self@, 34))
            } else {
                None::<bool>
            },
    {
        if self.bytes.len() > 34 / 8 {
            Some(read_bit(self.bytes.as_slice(), 34))
        } else {
            None
        }
    }

    /// Extended capability bit 36 (Msgcf capability); absent when the payload does not reach it.
    pub fn msgcf_capability(&self) -> (r: Option<bool>)
        ensures
            r == if self@.len() * 8 > 36 {
                Some(bit_at(self@, 36))
            } else {
                None::<bool>
            },
    {
        if self.bytes.len() > 36 / 8 {
            Some(read_bit(self.bytes.as_slice(), 36))
        } else {
            None
        }
    }

    /// Extended capability bit 37 (Tdls support); absent when the payload does not reach it.
    pub fn tdls_support(&self) -> (r: Option<bool>)
        ensures
            r == if self@.len() * 8 > 37 {
                Some(bit_at(self@, 37))
            } else {
                None::<bool>
            },
    {
        if self.bytes.len() > 37 / 8 {
            Some(read_bit(self.bytes.as_slice(), 37))
        } else {
            None
        }
    }

    /// Extended capability bit 38 (Tdls prohibited); absent when the payload does not reach it.
    pub fn tdls_prohibited(&self) -> (r: Option<bool>)
        ensures
            r == if self@.len() * 8 > 38 {
                Some(bit_at(self@, 38))
            } else {
                None::<bool>
            },
    {
        if self.bytes.len() > 38 / 8 {
            Some(read_bit(self.bytes.as_slice(), 38))
        } else {
            None
        }
    }

    /// Extended capability bit 39 (Tdls channel switching prohibited); absent when the payload does not reach it.
    pub fn tdls_channel_switching_prohibited(&self) -> (r: Option<bool>)
        ensures
            r == if self@.len() * 8 > 39 {
                Some(bit_at(self@, 39))
            } else {
                None::<bool>
            },
    {
        if self.bytes.len() > 39 / 8 {
            Some(read_bit(self.bytes.as_slice(), 39))
        } else {
            None
        }
    }

    /// Extended capability bit 40 (Reject unadmitted frame); absent when the payload does not reach it.
    pub fn reject_unadmitted_frame(&self) -> (r: Option<bool>)
        ensures
            r == if self@.len() * 8 > 40 {
                Some(bit_at(self@, 40))
            } else {
                None::<bool>
            },
    {
        if self.bytes.len() > 40 / 8 {
            Some(read_bit(self.bytes.as_slice(), 40))
        } else {
            None
        }
    }

    /// Extended capability bit 44 (Identifier location); absent when the payload does not reach it.
    pub fn identifier_location(&self) -> (r: Option<bool>)
        ensures
            r == if self@.len() * 8 > 44 {
                Some(bit_at(self@, 44))
            } else {
                None::<bool>
            },
    {
        if self.bytes.len() > 44 / 8 {
            Some(read_bit(self.bytes.as_slice(), 44))
        } else {
            None
        }
    }

    /// Extended capability bit 45 (Uapsd coexistence); absent when the payload does not reach it.
    pub fn uapsd_coexistence(&self) -> (r: Option<bool>)
        ensures
            r == if self@.len() * 8 > 45 {
                Some(bit_at(self@, 45))
            } else {
                None::<bool>
            },
    {
        if self.bytes.len() > 45 / 8 {
            Some(read_bit(self.bytes.as_slice(), 45))
        } else {
            None
        }
    }

    /// Extended capability bit 46 (Wnm notification); absent when the payload does not reach it.
    pub fn wnm_notification(&self) -> (r: Option<bool>)
        ensures
            r == if self@.len() * 8 > 46 {
                Some(bit_at(self@, 46))
            } else {
                None::<bool>
            },
    {
        if self.bytes.len() > 46 / 8 {
            Some(read_bit(self.bytes.as_slice(), 46))
        } else {
            None
        }
    }

    /// Extended capability bit 47 (Qab capability); absent when the payload does not reach it.
    pub fn qab_capability(&self) -> (r: Option<bool>)
        ensures
            r == if self@.len() * 8 > 47 {
                Some(bit_at(self@, 47))
            } else {
                None::<bool>
            },
    {
        if self.bytes.len() > 47 / 8 {
            Some(read_bit(self.bytes.as_slice(), 47))
        } else {
            None
        }
    }

    /// Extended capability bit 48 (Utf8 ssid); absent when the payload does not reach it.
    pub fn utf8_ssid(&self) -> (r: Option<bool>)
        ensures
            r == if self@.len() * 8 > 48 {
                Some(bit_at(self@, 48))
            } else {
                None::<bool>
            },
    {
        if self.bytes.len() > 48 / 8 {
            Some(read_bit(self.bytes.as_slice(), 48))
        } else {
            None
        }
    }

    /// Extended capability bit 49 (Qmf activated); absent when the payload does not reach it.
    pub fn qmf_activated(&self) -> (r: Option<bool>)
        ensures
            r == if self@.len() * 8 > 49 {
                Some(bit_at(self@, 49))
            } else {
                None::<bool>
            },
    {
        if self.bytes.len() > 49 / 8 {
            Some(read_bit(self.bytes.as_slice(), 49))
        } else {
            None
        }
    }

    /// Extended capability bit 50 (Qmf reconfiguration activated); absent when the payload does not reach it.
    pub fn qmf_reconfiguration_activated(&self) -> (r: Option<bool>)
        ensures
            r == if self@.len() * 8 > 50 {
                Some(bit_at(self@, 50))
            } else {
                None::<bool>
            },
    {
        if self.bytes.len() > 50 / 8 {
            Some(read_bit(self.bytes.as_slice(), 50))
        } else {
            None
        }
    }

    /// Extended capability bit 51 (Robust av streaming); absent when the payload does not reach it.
    pub fn robust_av_streaming(&self) -> (r: Option<bool>)
        ensures
            r == if self@.len() * 8 > 51 {
                Some(bit_at(self@, 51))
            } else {
                None::<bool>
            },
    {
        if self.bytes.len() > 51 / 8 {
            Some(read_bit(self.bytes.as_slice(), 51))
        } else {
            None
        }
    }

    /// Extended capability bit 52 (Advanced gcr); absent when the payload does not reach it.
    pub fn advanced_gcr(&self) -> (r: Option<bool>)
        ensures
            r == if self@.len() * 8 > 52 {
                Some(bit_at(self@, 52))
            } else {
                None::<bool>
            },
    {
        if self.bytes.len() > 52 / 8 {
            Some(read_bit(self.bytes.as_slice(), 52))
        } else {
            None
        }
    }

    /// Extended capability bit 53 (Mesh gcr); absent when the payload does not reach it.
    pub fn mesh_gcr(&self) -> (r: Option<bool>)
        ensures
            r == if self@.len() * 8 > 53 {
                Some(bit_at(self@, 53))
            } else {
                None::<bool>
            },
    {
        if self.bytes.len() > 53 / 8 {
            Some(read_bit(self.bytes.as_slice(), 53))
        } else {
            None
        }
    }

    /// Extended capability bit 54 (Scs); absent when the payload does not reach it.
    pub fn scs(&self) -> (r: Option<bool>)
        ensures
            r == if self@.len() * 8 > 54 {
                Some(bit_at(self@, 54))
            } else {
                None::<bool>
            },
    {
        if self.bytes.len() > 54 / 8 {
            Some(read_bit(self.bytes.as_slice(), 54))
        } else {
            None
        }
    }

    /// Extended capability bit 55 (Qload report); absent when the payload does not reach it.
    pub fn qload_report(&self) -> (r: Option<bool>)
        ensures
            r == if self@.len() * 8 > 55 {
                Some(bit_at(self@, 55))
            } else {
                None::<bool>
            },
    {
        if self.bytes.len() > 55 / 8 {
            Some(read_bit(self.bytes.as_slice(), 55))
        } else {
            None
        }
    }

    /// Extended capability bit 56 (Alternate edca); absent when the payload does not reach it.
    pub fn alternate_edca(&self) -> (r: Option<bool>)
        ensures
            r == if self@.len() * 8 > 56 {
                Some(bit_at(self@, 56))
            } else {
                None::<bool>
            },
    {
        if self.bytes.len() > 56 / 8 {
            Some(read_bit(self.bytes.as_slice(), 56))
        } else {
            None
        }
    }

    /// Extended capability bit 57 (Unprotected txop negotiation); absent when the payload does not reach it.
    pub fn unprotected_txop_negotiation(&self) -> (r: Option<bool>)
        ensures
            r == if self@.len() * 8 > 57 {
                Some(bit_at(self@, 57))
            } else {
                None::<bool>
            },
    {
        if self.bytes.len() > 57 / 8 {
            Some(read_bit(self.bytes.as_slice(), 57))
        } else {
            None
        }
    }

    /// Extended capability bit 58 (Protected txop negotiation); absent when the payload does not reach it.
    pub fn protected_txop_negotiation(&self) -> (r: Option<bool>)
        ensures
            r == if self@.len() * 8 > 58 {
                Some(bit_at(self@, 58))
            } else {
                None::<bool>
            },
    {
        if self.bytes.len() > 58 / 8 {
            Some(read_bit(self.bytes.as_slice(), 58))
        } else {
            None
        }
    }

    /// Extended capability bit 60 (Protected qload report); absent when the payload does not reach it.
    pub fn protected_qload_report(&self) -> (r: Option<bool>)
        ensures
            r == if self@.len() * 8 > 60 {
                Some(bit_at(self@, 60))
            } else {
                None::<bool>
            },
    {
        if self.bytes.len() > 60 / 8 {
            Some(read_bit(self.bytes.as_slice(), 60))
        } else {
            None
        }
    }

    /// Extended capability bit 61 (Tdls wider bandwidth); absent when the payload does not reach it.
    pub fn tdls_wider_bandwidth(&self) -> (r: Option<bool>)
        ensures
            r == if self@.len() * 8 > 61 {
                Some(bit_at(self@, 61))
            } else {
                None::<bool>
            },
    {
        if self.bytes.len() > 61 / 8 {
            Some(read_bit(self.bytes.as_slice(), 61))
        } else {
            None
        }
    }

    /// Extended capability bit 62 (Operating mode notification); absent when the payload does not reach it.
    pub fn operating_mode_notification(&self) -> (r: Option<bool>)
        ensures
            r == if self@.len() * 8 > 62 {
                Some(bit_at(self@, 62))
            } else {
                None::<bool>
            },
    {
        if self.bytes.len() > 62 / 8 {
            Some(read_bit(self.bytes.as_slice(), 62))
        } else {
            None
        }
    }

    /// Extended capability bit 65 (Channel schedule management); absent when the payload does not reach it.
    pub fn channel_schedule_management(&self) -> (r: Option<bool>)
        ensures
            r == if self@.len() * 8 > 65 {
                Some(bit_at(self@, 65))
            } else {
                None::<bool>
            },
    {
        if self.bytes.len() > 65 / 8 {
            Some(read_bit(self.bytes.as_slice(), 65))
        } else {
            None
        }
    }

    /// Extended capability bit 66 (Geodatabase inband enabling signal); absent when the payload does not reach it.
    pub fn geodatabase_inband_enabling_signal(&self) -> (r: Option<bool>)
        ensures
            r == if self@.len() * 8 > 66 {
                Some(bit_at(self@, 66))
            } else {
                None::<bool>
            },
    {
        if self.bytes.len() > 66 / 8 {
            Some(read_bit(self.bytes.as_slice(), 66))
        } else {
            None
        }
    }

    /// Extended capability bit 67 (Network channel control); absent when the payload does not reach it.
    pub fn network_channel_control(&self) -> (r: Option<bool>)
        ensures
            r == if self@.len() * 8 > 67 {
                Some(bit_at(self@, 67))
            } else {
                None::<bool>
            },
    {
        if self.bytes.len() > 67 / 8 {
            Some(read_bit(self.bytes.as_slice(), 67))
        } else {
            None
        }
    }

    /// Extended capability bit 68 (White space map); absent when the payload does not reach it.
    pub fn white_space_map(&self) -> (r: Option<bool>)
        ensures
            r == if self@.len() * 8 > 68 {
                Some(bit_at(self@, 68))
            } else {
                None::<bool>
            },
    {
        if self.bytes.len() > 68 / 8 {
            Some(read_bit(self.bytes.as_slice(), 68))
        } else {
            None
        }
    }

    /// Extended capability bit 69 (Channel availability query); absent when the payload does not reach it.
    pub fn channel_availability_query(&self) -> (r: Option<bool>)
        ensures
            r == if self@.len() * 8 > 69 {
                Some(bit_at(self@, 69))
            } else {
                None::<bool>
            },
    {
        if self.bytes.len() > 69 / 8 {
            Some(read_bit(self.bytes.as_slice(), 69))
        } else {
            None
        }
    }

    /// Extended capability bit 70 (Fine timing measurement responder); absent when the payload does not reach it.
    pub fn fine_timing_measurement_responder(&self) -> (r: Option<bool>)
        ensures
            r == if self@.len() * 8 > 70 {
                Some(bit_at(self@, 70))
            } else {
                None::<bool>
            },
    {
        if self.bytes.len() > 70 / 8 {
            Some(read_bit(self.bytes.as_slice(), 70))
        } else {
            None
        }
    }

    /// Extended capability bit 71 (Fine timing measurement initiator); absent when the payload does not reach it.
    pub fn fine_timing_measurement_initiator(&self) -> (r: Option<bool>)
        ensures
            r == if self@.len() * 8 > 71 {
                Some(bit_at(self@, 71))
            } else {
                None::<bool>
            },
    {
        if self.bytes.len() > 71 / 8 {
            Some(read_bit(self.bytes.as_slice(), 71))
        } else {
            None
        }
    }

    /// Extended capability bit 73 (Extended spectrum management capable); absent when the payload does not reach it.
    pub fn extended_spectrum_management_capable(&self) -> (r: Option<bool>)
        ensures
            r == if self@.len() * 8 > 73 {
                Some(bit_at(self@, 73))
            } else {
                None::<bool>
            },
    {
        if self.bytes.len() > 73 / 8 {
            Some(read_bit(self.bytes.as_slice(), 73))
        } else {
            None
        }
    }

    /// Extended capability bit 74 (Future channel guidance); absent when the payload does not reach it.
    pub fn future_channel_guidance(&self) -> (r: Option<bool>)
        ensures
            r == if self@.len() * 8 > 74 {
                Some(bit_at(self@, 74))
            } else {
                None::<bool>
            },
    {
        if self.bytes.len() > 74 / 8 {
            Some(read_bit(self.bytes.as_slice(), 74))
        } else {
            None
        }
    }

    /// The minimum service interval granularity, in milliseconds, encoded
    /// in bits 41-43 as (code + 1) * 5 ms; absent when the payload does not
    /// reach bit 43.
    pub fn service_interval_granularity_ms(&self) -> (r: Option<u8>)
        ensures
            r == if self@.len() * 8 >= 44 {
                Some((5 * (bits_at(self@, 41, 3) + 1)) as u8)
            } else {
                None::<u8>
            },
    {
        if self.bytes.len() >= 6 {
            let v = read_bits_u8(self.bytes.as_slice(), 41, 3);
            proof {
                crate::bits::lemma_bits_at_bound(self@, 41, 3);
                assert((1u32 << 3u32) == 8) by (bit_vector);
            }
            Some(5 * (v + 1))
        } else {
            None
        }
    }

    /// The maximum number of MSDUs in an A-MSDU, encoded in bits 63-64;
    /// absent when the payload does not reach bit 64.
    pub fn max_msdus_in_amsdu(&self) -> (r: Option<MaxMsdus>)
        ensures
            r == if self@.len() * 8 >= 65 {
                Some(spec_max_msdus(bits_at(self@, 63, 2)))
            } else {
                None::<MaxMsdus>
            },
    {
        if self.bytes.len() >= 9 {
            let v = read_bits_u8(self.bytes.as_slice(), 63, 2);
            if v == 0 {
                Some(MaxMsdus::NoLimit)
            } else if v == 1 {
                Some(MaxMsdus::ThirtyTwo)
            } else if v == 2 {
                Some(MaxMsdus::Sixteen)
            } else {
                Some(MaxMsdus::Eight)
            }
        } else {
            None
        }
    }
}

impl View for ExtendedCapabilities {
    type V = Seq<u8>;

    closed spec fn view(&self) -> Seq<u8> {
        self.bytes@
    }
}

impl InformationElement for ExtendedCapabilities {
    open spec fn spec_name(&self) -> Seq<char> {
        "Extended Capabilities"@
    }

    open spec fn spec_id(&self) -> u8 {
        127
    }

    open spec fn spec_id_ext(&self) -> Option<u8> {
        None
    }

    open spec fn payload(&self) -> Seq<u8> {
        self@
    }

    fn name(&self) -> (r: &'static str) {
        "Extended Capabilities"
    }

    fn id(&self) -> (r: u8) {
        127
    }

    fn id_ext(&self) -> (r: Option<u8>) {
        None
    }

    fn bytes(&self) -> (r: &[u8]) {
        self.bytes.as_slice()
    }
}

} // verus!
