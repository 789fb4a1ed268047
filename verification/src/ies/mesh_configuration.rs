//! Mesh Configuration element: the active protocols and capabilities of a
//! mesh BSS.

use vstd::prelude::*;

use crate::bits::bit_at;
use crate::bits::bits_at;
use crate::bits::read_bit;
use crate::bits::read_bits_u8;
use crate::ies::{is_invalid_length, IeError, InformationElement};

verus! {

/// The active path selection protocol; the hybrid wireless mesh protocol is
/// the fallback for every unrecognized code.
#[derive(Debug, Copy, Clone, PartialEq, Eq, Structural)]
pub enum ActivePathSelectionProtocol {
    Hybrid,
    VendorSpecific,
}

/// The active path selection metric; the airtime link metric is the
/// fallback for every unrecognized code.
#[derive(Debug, Copy, Clone, PartialEq, Eq, Structural)]
pub enum ActivePathSelectionMetric {
    AirtimeLink,
    VendorSpecific,
}

/// The congestion control mode in use.
#[derive(Debug, Copy, Clone, PartialEq, Eq, Structural)]
pub enum CongestionControlMode {
    NotActivated,
    CongestionControlSignaling,
    VendorSpecific,
}

/// The synchronization method in use; the neighbor offset method is the
/// fallback for every unrecognized code.
#[derive(Debug, Copy, Clone, PartialEq, Eq, Structural)]
pub enum SynchronizationMethod {
    NeighborOffset,
    VendorSpecific,
}

/// The authentication protocol required to join the mesh.
#[derive(Debug, Copy, Clone, PartialEq, Eq, Structural)]
pub enum AuthenticationProtocol {
    NotRequired,
    Sae,
    Ieee8021X,
    VendorSpecific,
}

/// The path selection protocol selected by byte 0: 255 is vendor specific,
/// everything else falls back to hybrid.
pub open spec fn spec_path_selection_protocol(b: u8) -> ActivePathSelectionProtocol {
    if b == 255 {
        ActivePathSelectionProtocol::VendorSpecific
    } else {
        ActivePathSelectionProtocol::Hybrid
    }
}

/// The path selection metric selected by byte 1: 255 is vendor specific,
/// everything else falls back to the airtime link metric.
pub open spec fn spec_path_selection_metric(b: u8) -> ActivePathSelectionMetric {
    if b == 255 {
        ActivePathSelectionMetric::VendorSpecific
    } else {
        ActivePathSelectionMetric::AirtimeLink
    }
}

/// The congestion control mode selected by byte 2: 1 is signaling, 255 is
/// vendor specific, everything else falls back to not activated.
pub open spec fn spec_congestion_control_mode(b: u8) -> CongestionControlMode {
    if b == 1 {
        CongestionControlMode::CongestionControlSignaling
    } else if b == 255 {
        CongestionControlMode::VendorSpecific
    } else {
        CongestionControlMode::NotActivated
    }
}

/// The synchronization method selected by byte 3: 255 is vendor specific,
/// everything else falls back to the neighbor offset method.
pub open spec fn spec_synchronization_method(b: u8) -> SynchronizationMethod {
    if b == 255 {
        SynchronizationMethod::VendorSpecific
    } else {
        SynchronizationMethod::NeighborOffset
    }
}

/// The authentication protocol selected by byte 4: 1 is SAE, 2 is IEEE
/// 802.1X, 255 is vendor specific, everything else falls back to none.
pub open spec fn spec_authentication_protocol(b: u8) -> AuthenticationProtocol {
    if b == 1 {
        AuthenticationProtocol::Sae
    } else if b == 2 {
        AuthenticationProtocol::Ieee8021X
    } else if b == 255 {
        AuthenticationProtocol::VendorSpecific
    } else {
        AuthenticationProtocol::NotRequired
    }
}

/// Mesh Configuration element (ID 113): at least seven bytes. Bytes 0-4
/// name the active protocols, byte 5 is the mesh formation info, byte 6 the
/// mesh capability.
#[derive(Debug, PartialEq, Eq)]
pub struct MeshConfiguration {
    bytes: Vec<u8>,
}

impl MeshConfiguration {
    pub const ID: u8 = 113;

    pub const MIN_LENGTH: usize = 7;

    #[verifier::type_invariant]
    closed spec fn len_contract(self) -> bool {
        self.bytes@.len() >= 7
    }

    /// Builds the element from its payload; fewer than 7 bytes are rejected,
    /// extra trailing bytes are kept.
    pub fn new(bytes: Vec<u8>) -> (r: Result<MeshConfiguration, IeError>)
        ensures
            bytes@.len() >= 7 ==> (r matches Ok(a) && a@ == bytes@),
            bytes@.len() < 7 ==> (r matches Err(e) && is_invalid_length(
                e,
                "Mesh Configuration"@,
                7,
                bytes@.len() as int,
            )),
    {
        if bytes.len() >= 7 {
            Ok(MeshConfiguration { bytes })
        } else {
            let actual_length = bytes.len();
            Err(
                IeError::InvalidLength {
                    ie_name: "Mesh Configuration",
                    expected_length: 7,
                    actual_length,
                },
            )
        }
    }

    /// The active path selection protocol, from byte 0.
    pub fn active_path_selection_protocol(&self) -> (r: ActivePathSelectionProtocol)
        ensures
            r == spec_path_selection_protocol(self@[0]),
    {
        proof {
            use_type_invariant(self);
        }
        if self.bytes[0] == 255 {
            ActivePathSelectionProtocol::VendorSpecific
        } else {
            ActivePathSelectionProtocol::Hybrid
        }
    }

    /// The active path selection metric, from byte 1.
    pub fn active_path_selection_metric(&self) -> (r: ActivePathSelectionMetric)
        ensures
            r == spec_path_selection_metric(self@[1]),
    {
        proof {
            use_type_invariant(self);
        }
        if self.bytes[1] == 255 {
            ActivePathSelectionMetric::VendorSpecific
        } else {
            ActivePathSelectionMetric::AirtimeLink
        }
    }

    /// The congestion control mode, from byte 2.
    pub fn congestion_control_mode(&self) -> (r: CongestionControlMode)
        ensures
            r == spec_congestion_control_mode(self@[2]),
    {
        proof {
            use_type_invariant(self);
        }
        if self.bytes[2] == 1 {
            CongestionControlMode::CongestionControlSignaling
        } else if self.bytes[2] == 255 {
            CongestionControlMode::VendorSpecific
        } else {
            CongestionControlMode::NotActivated
        }
    }

    /// The synchronization method, from byte 3.
    pub fn synchronization_method(&self) -> (r: SynchronizationMethod)
        ensures
            r == spec_synchronization_method(self@[3]),
    {
        proof {
            use_type_invariant(self);
        }
        if self.bytes[3] == 255 {
            SynchronizationMethod::VendorSpecific
        } else {
            SynchronizationMethod::NeighborOffset
        }
    }

    /// The authentication protocol required to join, from byte 4.
    pub fn authentication_protocol(&self) -> (r: AuthenticationProtocol)
        ensures
            r == spec_authentication_protocol(self@[4]),
    {
        proof {
            use_type_invariant(self);
        }
        if self.bytes[4] == 1 {
            AuthenticationProtocol::Sae
        } else if self.bytes[4] == 2 {
            AuthenticationProtocol::Ieee8021X
        } else if self.bytes[4] == 255 {
            AuthenticationProtocol::VendorSpecific
        } else {
            AuthenticationProtocol::NotRequired
        }
    }

    /// Whether the station is connected to a mesh gate, from bit 40.
    pub fn connected_to_mesh_gate(&self) -> (r: bool)
        ensures
            r == bit_at(self@, 40),
    {
        proof {
            use_type_invariant(self);
        }
        read_bit(self.bytes.as_slice(), 40)
    }

    /// The number of active mesh peerings, from bits 41-46.
    pub fn number_of_peerings(&self) -> (r: u8)
        ensures
            r == bits_at(self@, 41, 6),
    {
        proof {
            use_type_invariant(self);
        }
        read_bits_u8(self.bytes.as_slice(), 41, 6)
    }

    /// Whether the station is connected to an authentication server, from
    /// bit 47.
    pub fn connected_to_as(&self) -> (r: bool)
        ensures
            r == bit_at(self@, 47),
    {
        proof {
            use_type_invariant(self);
        }
        read_bit(self.bytes.as_slice(), 47)
    }

    /// Whether additional mesh peerings are accepted, from bit 48.
    pub fn accepting_additional_mesh_peerings(&self) -> (r: bool)
        ensures
            r == bit_at(self@, 48),
    {
        proof {
            use_type_invariant(self);
        }
        read_bit(self.bytes.as_slice(), 48)
    }

    /// Whether MCCA is supported, from bit 49.
    pub fn mcca_supported(&self) -> (r: bool)
        ensures
            r == bit_at(self@, 49),
    {
        proof {
            use_type_invariant(self);
        }
        read_bit(self.bytes.as_slice(), 49)
    }

    /// Whether MCCA is enabled, from bit 50.
    pub fn mcca_enabled(&self) -> (r: bool)
        ensures
            r == bit_at(self@, 50),
    {
        proof {
            use_type_invariant(self);
        }
        read_bit(self.bytes.as_slice(), 50)
    }

    /// Whether the station forwards frames for its peers, from bit 51.
    pub fn forwarding(&self) -> (r: bool)
        ensures
            r == bit_at(self@, 51),
    {
        proof {
            use_type_invariant(self);
        }
        read_bit(self.bytes.as_slice(), 51)
    }

    /// Whether mesh beacon collision avoidance is enabled, from bit 52.
    pub fn mbca_enabled(&self) -> (r: bool)
        ensures
            r == bit_at(self@, 52),
    {
        proof {
            use_type_invariant(self);
        }
        read_bit(self.bytes.as_slice(), 52)
    }

    /// Whether the beacon timing is being adjusted, from bit 53.
    pub fn tbtt_adjusting(&self) -> (r: bool)
        ensures
            r == bit_at(self@, 53),
    {
        proof {
            use_type_invariant(self);
        }
        read_bit(self.bytes.as_slice(), 53)
    }

    /// The mesh power save level, from bit 54.
    pub fn mesh_power_save_level(&self) -> (r: bool)
        ensures
            r == bit_at(self@, 54),
    {
        proof {
            use_type_invariant(self);
        }
        read_bit(self.bytes.as_slice(), 54)
    }
}

impl View for MeshConfiguration {
    type V = Seq<u8>;

    closed spec fn view(&self) -> Seq<u8> {
        self.bytes@
    }
}

impl InformationElement for MeshConfiguration {
    open spec fn spec_name(&self) -> Seq<char> {
        "Mesh Configuration"@
    }

    open spec fn spec_id(&self) -> u8 {
        113
    }

    open spec fn spec_id_ext(&self) -> Option<u8> {
        None
    }

    open spec fn payload(&self) -> Seq<u8> {
        self@
    }

    fn name(&self) -> (r: &'static str) {
        "Mesh Configuration"
    }

    fn id(&self) -> (r: u8) {
        113
    }

    fn id_ext(&self) -> (r: Option<u8>) {
        None
    }

    fn bytes(&self) -> (r: &[u8]) {
        proof {
            use_type_invariant(self);
        }
        self.bytes.as_slice()
    }
}

} // verus!
