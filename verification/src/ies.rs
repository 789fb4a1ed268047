//! Information elements: the tag-length-value scanner, the per-element
//! decoders, and the dispatch that turns a raw byte blob into a sequence of
//! typed elements.

use vstd::prelude::*;
use vstd::slice::slice_to_vec;

pub mod antenna;
pub mod ap_channel_report;
pub mod bss_load;
pub mod country;
pub mod ds_parameter_set;
pub mod erp_info;
pub mod extended_capabilities;
pub mod he;
pub mod ht_capabilities;
pub mod ht_operation;
pub mod ibss_parameter_set;
pub mod measurement_pilot_transmission;
pub mod mesh_configuration;
pub mod mesh_id;
pub mod overlapping_bss_scan_params;
pub mod power_constraint;
pub mod rm_enabled_capabilities;
pub mod rsn;
pub mod ssid;
pub mod supported_rates;
pub mod tim;
pub mod transmit_power_envelope;
pub mod twenty_forty_bss_coexistence;
pub mod unknown;
pub mod vendor_specific;
pub mod vht_capabilities;
pub mod vht_operation;
pub mod wpa;

pub use antenna::Antenna;
pub use ap_channel_report::ApChannelReport;
pub use bss_load::BssLoad;
pub use country::Country;
pub use ds_parameter_set::DsParameterSet;
pub use erp_info::ErpInfo;
pub use extended_capabilities::ExtendedCapabilities;
pub use he::HeCapabilities;
pub use he::HeOperation;
pub use ht_capabilities::HtCapabilities;
pub use ht_operation::HtOperation;
pub use ibss_parameter_set::IbssParameterSet;
pub use measurement_pilot_transmission::MeasurementPilotTransmission;
pub use mesh_configuration::MeshConfiguration;
pub use mesh_id::MeshId;
pub use overlapping_bss_scan_params::OverlappingBssScanParams;
pub use power_constraint::PowerConstraint;
pub use rm_enabled_capabilities::RmEnabledCapabilities;
pub use rsn::Rsn;
pub use rsn::SuiteSelector;
pub use ssid::Ssid;
pub use supported_rates::DataRate;
pub use supported_rates::ExtendedSupportedRates;
pub use supported_rates::SupportedRates;
pub use tim::Tim;
pub use transmit_power_envelope::TransmitPowerEnvelope;
pub use twenty_forty_bss_coexistence::TwentyFortyBssCoexistence;
pub use unknown::Unknown;
pub use vendor_specific::VendorSpecific;
pub use vht_capabilities::VhtCapabilities;
pub use vht_operation::VhtOperation;
pub use wpa::Wpa;
pub use wpa::has_wpa_oui;
use wpa::starts_with_wpa_oui;

verus! {

/// Relies on core::str::from_utf8: it succeeds exactly on valid UTF-8, and
/// the returned str reads those bytes.
#[verifier::external_body]
pub(crate) fn utf8_from(b: &[u8]) -> (r: Option<&str>)
    ensures
        r is Some <==> vstd::utf8::valid_utf8(b@),
        r matches Some(s) ==> s@ == vstd::utf8::decode_utf8(b@),
{
    core::str::from_utf8(b).ok()
}

/// The one fatal decode error: an element's payload violated its length
/// contract (an exact byte count, or a minimum byte count, depending on the
/// element). Raised only at element construction, and fatal to the whole
/// enclosing buffer's decode.
#[derive(Debug, PartialEq, Eq)]
pub enum IeError {
    InvalidLength { ie_name: &'static str, expected_length: usize, actual_length: usize },
}

/// Holds exactly when `e` is the `InvalidLength` error for an element called
/// `name` whose contract asks for `expected` bytes (or at least `expected`
/// bytes) while `actual` were given.
pub open spec fn is_invalid_length(e: IeError, name: Seq<char>, expected: int, actual: int) -> bool {
    &&& e matches IeError::InvalidLength { ie_name, expected_length, actual_length }
    &&& ie_name@ == name
    &&& expected_length == expected
    &&& actual_length == actual
}

/// Common face of every element decoder: a display name, the one-byte element
/// ID, the ID extension (present only for elements under the reserved
/// sentinel ID 255), and the raw payload the element was built from.
pub trait InformationElement {
    /// The element's display name.
    spec fn spec_name(&self) -> Seq<char>;

    /// The element's one-byte ID.
    spec fn spec_id(&self) -> u8;

    /// The one-byte ID extension, for elements under the sentinel ID 255.
    spec fn spec_id_ext(&self) -> Option<u8>;

    /// The payload bytes the element owns.
    spec fn payload(&self) -> Seq<u8>;

    fn name(&self) -> (r: &'static str)
        ensures
            r@ == self.spec_name(),
    ;

    fn id(&self) -> (r: u8)
        ensures
            r == self.spec_id(),
    ;

    fn id_ext(&self) -> (r: Option<u8>)
        ensures
            r == self.spec_id_ext(),
    ;

    fn bytes(&self) -> (r: &[u8])
        ensures
            r@ == self.payload(),
    ;
}

/// One decoded information element: a closed variant over the supported
/// element kinds, with `Unknown` as the always-succeeding fallback.
#[derive(Debug, PartialEq, Eq)]
pub enum Ie {
    Antenna(Antenna),
    BssLoad(BssLoad),
    Country(Country),
    DsParameterSet(DsParameterSet),
    ErpInfo(ErpInfo),
    ExtendedCapabilities(ExtendedCapabilities),
    ExtendedSupportedRates(ExtendedSupportedRates),
    HeCapabilities(HeCapabilities),
    HeOperation(HeOperation),
    HtCapabilities(HtCapabilities),
    HtOperation(HtOperation),
    IbssParameterSet(IbssParameterSet),
    MeasurementPilotTransmission(MeasurementPilotTransmission),
    MeshConfiguration(MeshConfiguration),
    MeshId(MeshId),
    OverlappingBssScanParams(OverlappingBssScanParams),
    PowerConstraint(PowerConstraint),
    RmEnabledCapabilities(RmEnabledCapabilities),
    Rsn(Rsn),
    Ssid(Ssid),
    SupportedRates(SupportedRates),
    Tim(Tim),
    TransmitPowerEnvelope(TransmitPowerEnvelope),
    TwentyFortyBssCoexistence(TwentyFortyBssCoexistence),
    Unknown(Unknown),
    VendorSpecific(VendorSpecific),
    VhtCapabilities(VhtCapabilities),
    VhtOperation(VhtOperation),
    Wpa(Wpa),
}

/// Whether a payload of length `payload_len` satisfies the length contract
/// of the decoder that element ID `id` (with extension `ext`) dispatches to;
/// IDs without a hard length contract always do.
pub open spec fn spec_construct_ok(id: u8, ext: Option<u8>, payload_len: int) -> bool {
    if id == 3 {
        payload_len == 1
    } else if id == 6 {
        payload_len == 2
    } else if id == 7 {
        payload_len >= 6
    } else if id == 11 {
        payload_len == 5
    } else if id == 32 {
        payload_len == 1
    } else if id == 42 {
        payload_len == 1
    } else if id == 45 {
        payload_len >= 26
    } else if id == 61 {
        payload_len == 22
    } else if id == 64 {
        payload_len == 1
    } else if id == 66 {
        payload_len >= 1
    } else if id == 70 {
        payload_len >= 5
    } else if id == 72 {
        payload_len >= 1
    } else if id == 74 {
        payload_len == 14
    } else if id == 113 {
        payload_len >= 7
    } else if id == 191 {
        payload_len == 12
    } else if id == 192 {
        payload_len == 5
    } else if id == 195 {
        payload_len >= 2
    } else {
        true
    }
}

/// The display name under which the decoder for element ID `id` reports a
/// length-contract violation.
pub open spec fn spec_length_error_name(id: u8) -> Seq<char> {
    if id == 3 {
        "DS Parameter Set"@
    } else if id == 6 {
        "IBSS Parameter Set"@
    } else if id == 7 {
        "Country"@
    } else if id == 11 {
        "Bss Load"@
    } else if id == 32 {
        "Power Constraint"@
    } else if id == 42 {
        "ERP Info"@
    } else if id == 45 {
        "HT Capabilities"@
    } else if id == 61 {
        "HT Operation"@
    } else if id == 64 {
        "Antenna"@
    } else if id == 66 {
        "Measurement Pilot Transmission"@
    } else if id == 70 {
        "RM Enabled Capabilities"@
    } else if id == 72 {
        "20/40 BSS Coexistence"@
    } else if id == 74 {
        "Overlapping BSS Scan Parameters"@
    } else if id == 113 {
        "Mesh Configuration"@
    } else if id == 191 {
        "VHT Capabilities"@
    } else if id == 192 {
        "VHT Operation"@
    } else if id == 195 {
        "Transmit Power Envelope"@
    } else {
        ""@
    }
}

/// The exact or minimum byte count that the decoder for element ID `id`
/// demands of its payload.
pub open spec fn spec_expected_len(id: u8) -> int {
    if id == 3 {
        1
    } else if id == 6 {
        2
    } else if id == 7 {
        6
    } else if id == 11 {
        5
    } else if id == 32 {
        1
    } else if id == 42 {
        1
    } else if id == 45 {
        26
    } else if id == 61 {
        22
    } else if id == 64 {
        1
    } else if id == 66 {
        1
    } else if id == 70 {
        5
    } else if id == 72 {
        1
    } else if id == 74 {
        14
    } else if id == 113 {
        7
    } else if id == 191 {
        12
    } else if id == 192 {
        5
    } else if id == 195 {
        2
    } else {
        0
    }
}

/// Whether `ie` is the element that dispatching `(id, ext)` over payload
/// `payload` must produce: the matching variant holding exactly the payload,
/// with the WPA OUI prefix singling the WPA element out of ID 221, the
/// recognized ID extensions singling the HE elements out of ID 255, and
/// `Unknown` (which keeps id and extension) for everything else.
pub open spec fn spec_ie_matches(ie: Ie, id: u8, ext: Option<u8>, payload: Seq<u8>) -> bool {
    if id == 0 {
        ie matches Ie::Ssid(e) && e@ == payload
    } else if id == 1 {
        ie matches Ie::SupportedRates(e) && e@ == payload
    } else if id == 3 {
        ie matches Ie::DsParameterSet(e) && e@ == payload
    } else if id == 5 {
        ie matches Ie::Tim(e) && e@ == payload
    } else if id == 6 {
        ie matches Ie::IbssParameterSet(e) && e@ == payload
    } else if id == 7 {
        ie matches Ie::Country(e) && e@ == payload
    } else if id == 11 {
        ie matches Ie::BssLoad(e) && e@ == payload
    } else if id == 32 {
        ie matches Ie::PowerConstraint(e) && e@ == payload
    } else if id == 42 {
        ie matches Ie::ErpInfo(e) && e@ == payload
    } else if id == 45 {
        ie matches Ie::HtCapabilities(e) && e@ == payload
    } else if id == 48 {
        ie matches Ie::Rsn(e) && e@ == payload
    } else if id == 50 {
        ie matches Ie::ExtendedSupportedRates(e) && e@ == payload
    } else if id == 61 {
        ie matches Ie::HtOperation(e) && e@ == payload
    } else if id == 64 {
        ie matches Ie::Antenna(e) && e@ == payload
    } else if id == 66 {
        ie matches Ie::MeasurementPilotTransmission(e) && e@ == payload
    } else if id == 70 {
        ie matches Ie::RmEnabledCapabilities(e) && e@ == payload
    } else if id == 72 {
        ie matches Ie::TwentyFortyBssCoexistence(e) && e@ == payload
    } else if id == 74 {
        ie matches Ie::OverlappingBssScanParams(e) && e@ == payload
    } else if id == 113 {
        ie matches Ie::MeshConfiguration(e) && e@ == payload
    } else if id == 114 {
        ie matches Ie::MeshId(e) && e@ == payload
    } else if id == 127 {
        ie matches Ie::ExtendedCapabilities(e) && e@ == payload
    } else if id == 191 {
        ie matches Ie::VhtCapabilities(e) && e@ == payload
    } else if id == 192 {
        ie matches Ie::VhtOperation(e) && e@ == payload
    } else if id == 195 {
        ie matches Ie::TransmitPowerEnvelope(e) && e@ == payload
    } else if id == 221 {
        if has_wpa_oui(payload) {
            ie matches Ie::Wpa(e) && e@ == payload
        } else {
            ie matches Ie::VendorSpecific(e) && e@ == payload
        }
    } else if id == 255 && ext == Some(35u8) {
        ie matches Ie::HeCapabilities(e) && e@ == payload
    } else if id == 255 && ext == Some(36u8) {
        ie matches Ie::HeOperation(e) && e@ == payload
    } else {
        ie matches Ie::Unknown(e) && e@ == payload && e.spec_id() == id && e.spec_id_ext() == ext
    }
}

impl Ie {
    pub open spec fn spec_name(&self) -> Seq<char> {
        match self {
            Ie::Antenna(e) => e.spec_name(),
            Ie::BssLoad(e) => e.spec_name(),
            Ie::Country(e) => e.spec_name(),
            Ie::DsParameterSet(e) => e.spec_name(),
            Ie::ErpInfo(e) => e.spec_name(),
            Ie::ExtendedCapabilities(e) => e.spec_name(),
            Ie::ExtendedSupportedRates(e) => e.spec_name(),
            Ie::HeCapabilities(e) => e.spec_name(),
            Ie::HeOperation(e) => e.spec_name(),
            Ie::HtCapabilities(e) => e.spec_name(),
            Ie::HtOperation(e) => e.spec_name(),
            Ie::IbssParameterSet(e) => e.spec_name(),
            Ie::MeasurementPilotTransmission(e) => e.spec_name(),
            Ie::MeshConfiguration(e) => e.spec_name(),
            Ie::MeshId(e) => e.spec_name(),
            Ie::OverlappingBssScanParams(e) => e.spec_name(),
            Ie::PowerConstraint(e) => e.spec_name(),
            Ie::RmEnabledCapabilities(e) => e.spec_name(),
            Ie::Rsn(e) => e.spec_name(),
            Ie::Ssid(e) => e.spec_name(),
            Ie::SupportedRates(e) => e.spec_name(),
            Ie::Tim(e) => e.spec_name(),
            Ie::TransmitPowerEnvelope(e) => e.spec_name(),
            Ie::TwentyFortyBssCoexistence(e) => e.spec_name(),
            Ie::Unknown(e) => e.spec_name(),
            Ie::VendorSpecific(e) => e.spec_name(),
            Ie::VhtCapabilities(e) => e.spec_name(),
            Ie::VhtOperation(e) => e.spec_name(),
            Ie::Wpa(e) => e.spec_name(),
        }
    }

    pub open spec fn spec_id(&self) -> u8 {
        match self {
            Ie::Antenna(e) => e.spec_id(),
            Ie::BssLoad(e) => e.spec_id(),
            Ie::Country(e) => e.spec_id(),
            Ie::DsParameterSet(e) => e.spec_id(),
            Ie::ErpInfo(e) => e.spec_id(),
            Ie::ExtendedCapabilities(e) => e.spec_id(),
            Ie::ExtendedSupportedRates(e) => e.spec_id(),
            Ie::HeCapabilities(e) => e.spec_id(),
            Ie::HeOperation(e) => e.spec_id(),
            Ie::HtCapabilities(e) => e.spec_id(),
            Ie::HtOperation(e) => e.spec_id(),
            Ie::IbssParameterSet(e) => e.spec_id(),
            Ie::MeasurementPilotTransmission(e) => e.spec_id(),
            Ie::MeshConfiguration(e) => e.spec_id(),
            Ie::MeshId(e) => e.spec_id(),
            Ie::OverlappingBssScanParams(e) => e.spec_id(),
            Ie::PowerConstraint(e) => e.spec_id(),
            Ie::RmEnabledCapabilities(e) => e.spec_id(),
            Ie::Rsn(e) => e.spec_id(),
            Ie::Ssid(e) => e.spec_id(),
            Ie::SupportedRates(e) => e.spec_id(),
            Ie::Tim(e) => e.spec_id(),
            Ie::TransmitPowerEnvelope(e) => e.spec_id(),
            Ie::TwentyFortyBssCoexistence(e) => e.spec_id(),
            Ie::Unknown(e) => e.spec_id(),
            Ie::VendorSpecific(e) => e.spec_id(),
            Ie::VhtCapabilities(e) => e.spec_id(),
            Ie::VhtOperation(e) => e.spec_id(),
            Ie::Wpa(e) => e.spec_id(),
        }
    }

    pub open spec fn spec_id_ext(&self) -> Option<u8> {
        match self {
            Ie::Antenna(e) => e.spec_id_ext(),
            Ie::BssLoad(e) => e.spec_id_ext(),
            Ie::Country(e) => e.spec_id_ext(),
            Ie::DsParameterSet(e) => e.spec_id_ext(),
            Ie::ErpInfo(e) => e.spec_id_ext(),
            Ie::ExtendedCapabilities(e) => e.spec_id_ext(),
            Ie::ExtendedSupportedRates(e) => e.spec_id_ext(),
            Ie::HeCapabilities(e) => e.spec_id_ext(),
            Ie::HeOperation(e) => e.spec_id_ext(),
            Ie::HtCapabilities(e) => e.spec_id_ext(),
            Ie::HtOperation(e) => e.spec_id_ext(),
            Ie::IbssParameterSet(e) => e.spec_id_ext(),
            Ie::MeasurementPilotTransmission(e) => e.spec_id_ext(),
            Ie::MeshConfiguration(e) => e.spec_id_ext(),
            Ie::MeshId(e) => e.spec_id_ext(),
            Ie::OverlappingBssScanParams(e) => e.spec_id_ext(),
            Ie::PowerConstraint(e) => e.spec_id_ext(),
            Ie::RmEnabledCapabilities(e) => e.spec_id_ext(),
            Ie::Rsn(e) => e.spec_id_ext(),
            Ie::Ssid(e) => e.spec_id_ext(),
            Ie::SupportedRates(e) => e.spec_id_ext(),
            Ie::Tim(e) => e.spec_id_ext(),
            Ie::TransmitPowerEnvelope(e) => e.spec_id_ext(),
            Ie::TwentyFortyBssCoexistence(e) => e.spec_id_ext(),
            Ie::Unknown(e) => e.spec_id_ext(),
            Ie::VendorSpecific(e) => e.spec_id_ext(),
            Ie::VhtCapabilities(e) => e.spec_id_ext(),
            Ie::VhtOperation(e) => e.spec_id_ext(),
            Ie::Wpa(e) => e.spec_id_ext(),
        }
    }

    pub open spec fn payload(&self) -> Seq<u8> {
        match self {
            Ie::Antenna(e) => e.payload(),
            Ie::BssLoad(e) => e.payload(),
            Ie::Country(e) => e.payload(),
            Ie::DsParameterSet(e) => e.payload(),
            Ie::ErpInfo(e) => e.payload(),
            Ie::ExtendedCapabilities(e) => e.payload(),
            Ie::ExtendedSupportedRates(e) => e.payload(),
            Ie::HeCapabilities(e) => e.payload(),
            Ie::HeOperation(e) => e.payload(),
            Ie::HtCapabilities(e) => e.payload(),
            Ie::HtOperation(e) => e.payload(),
            Ie::IbssParameterSet(e) => e.payload(),
            Ie::MeasurementPilotTransmission(e) => e.payload(),
            Ie::MeshConfiguration(e) => e.payload(),
            Ie::MeshId(e) => e.payload(),
            Ie::OverlappingBssScanParams(e) => e.payload(),
            Ie::PowerConstraint(e) => e.payload(),
            Ie::RmEnabledCapabilities(e) => e.payload(),
            Ie::Rsn(e) => e.payload(),
            Ie::Ssid(e) => e.payload(),
            Ie::SupportedRates(e) => e.payload(),
            Ie::Tim(e) => e.payload(),
            Ie::TransmitPowerEnvelope(e) => e.payload(),
            Ie::TwentyFortyBssCoexistence(e) => e.payload(),
            Ie::Unknown(e) => e.payload(),
            Ie::VendorSpecific(e) => e.payload(),
            Ie::VhtCapabilities(e) => e.payload(),
            Ie::VhtOperation(e) => e.payload(),
            Ie::Wpa(e) => e.payload(),
        }
    }

    /// The element's display name.
    pub fn name(&self) -> (r: &'static str)
        ensures
            r@ == self.spec_name(),
    {
        match self {
            Ie::Antenna(e) => e.name(),
            Ie::BssLoad(e) => e.name(),
            Ie::Country(e) => e.name(),
            Ie::DsParameterSet(e) => e.name(),
            Ie::ErpInfo(e) => e.name(),
            Ie::ExtendedCapabilities(e) => e.name(),
            Ie::ExtendedSupportedRates(e) => e.name(),
            Ie::HeCapabilities(e) => e.name(),
            Ie::HeOperation(e) => e.name(),
            Ie::HtCapabilities(e) => e.name(),
            Ie::HtOperation(e) => e.name(),
            Ie::IbssParameterSet(e) => e.name(),
            Ie::MeasurementPilotTransmission(e) => e.name(),
            Ie::MeshConfiguration(e) => e.name(),
            Ie::MeshId(e) => e.name(),
            Ie::OverlappingBssScanParams(e) => e.name(),
            Ie::PowerConstraint(e) => e.name(),
            Ie::RmEnabledCapabilities(e) => e.name(),
            Ie::Rsn(e) => e.name(),
            Ie::Ssid(e) => e.name(),
            Ie::SupportedRates(e) => e.name(),
            Ie::Tim(e) => e.name(),
            Ie::TransmitPowerEnvelope(e) => e.name(),
            Ie::TwentyFortyBssCoexistence(e) => e.name(),
            Ie::Unknown(e) => e.name(),
            Ie::VendorSpecific(e) => e.name(),
            Ie::VhtCapabilities(e) => e.name(),
            Ie::VhtOperation(e) => e.name(),
            Ie::Wpa(e) => e.name(),
        }
    }

    /// The element's one-byte ID.
    pub fn id(&self) -> (r: u8)
        ensures
            r == self.spec_id(),
    {
        match self {
            Ie::Antenna(e) => e.id(),
            Ie::BssLoad(e) => e.id(),
            Ie::Country(e) => e.id(),
            Ie::DsParameterSet(e) => e.id(),
            Ie::ErpInfo(e) => e.id(),
            Ie::ExtendedCapabilities(e) => e.id(),
            Ie::ExtendedSupportedRates(e) => e.id(),
            Ie::HeCapabilities(e) => e.id(),
            Ie::HeOperation(e) => e.id(),
            Ie::HtCapabilities(e) => e.id(),
            Ie::HtOperation(e) => e.id(),
            Ie::IbssParameterSet(e) => e.id(),
            Ie::MeasurementPilotTransmission(e) => e.id(),
            Ie::MeshConfiguration(e) => e.id(),
            Ie::MeshId(e) => e.id(),
            Ie::OverlappingBssScanParams(e) => e.id(),
            Ie::PowerConstraint(e) => e.id(),
            Ie::RmEnabledCapabilities(e) => e.id(),
            Ie::Rsn(e) => e.id(),
            Ie::Ssid(e) => e.id(),
            Ie::SupportedRates(e) => e.id(),
            Ie::Tim(e) => e.id(),
            Ie::TransmitPowerEnvelope(e) => e.id(),
            Ie::TwentyFortyBssCoexistence(e) => e.id(),
            Ie::Unknown(e) => e.id(),
            Ie::VendorSpecific(e) => e.id(),
            Ie::VhtCapabilities(e) => e.id(),
            Ie::VhtOperation(e) => e.id(),
            Ie::Wpa(e) => e.id(),
        }
    }

    /// The element's ID extension, present only under the sentinel ID 255.
    pub fn id_ext(&self) -> (r: Option<u8>)
        ensures
            r == self.spec_id_ext(),
    {
        match self {
            Ie::Antenna(e) => e.id_ext(),
            Ie::BssLoad(e) => e.id_ext(),
            Ie::Country(e) => e.id_ext(),
            Ie::DsParameterSet(e) => e.id_ext(),
            Ie::ErpInfo(e) => e.id_ext(),
            Ie::ExtendedCapabilities(e) => e.id_ext(),
            Ie::ExtendedSupportedRates(e) => e.id_ext(),
            Ie::HeCapabilities(e) => e.id_ext(),
            Ie::HeOperation(e) => e.id_ext(),
            Ie::HtCapabilities(e) => e.id_ext(),
            Ie::HtOperation(e) => e.id_ext(),
            Ie::IbssParameterSet(e) => e.id_ext(),
            Ie::MeasurementPilotTransmission(e) => e.id_ext(),
            Ie::MeshConfiguration(e) => e.id_ext(),
            Ie::MeshId(e) => e.id_ext(),
            Ie::OverlappingBssScanParams(e) => e.id_ext(),
            Ie::PowerConstraint(e) => e.id_ext(),
            Ie::RmEnabledCapabilities(e) => e.id_ext(),
            Ie::Rsn(e) => e.id_ext(),
            Ie::Ssid(e) => e.id_ext(),
            Ie::SupportedRates(e) => e.id_ext(),
            Ie::Tim(e) => e.id_ext(),
            Ie::TransmitPowerEnvelope(e) => e.id_ext(),
            Ie::TwentyFortyBssCoexistence(e) => e.id_ext(),
            Ie::Unknown(e) => e.id_ext(),
            Ie::VendorSpecific(e) => e.id_ext(),
            Ie::VhtCapabilities(e) => e.id_ext(),
            Ie::VhtOperation(e) => e.id_ext(),
            Ie::Wpa(e) => e.id_ext(),
        }
    }

    /// The payload bytes the element owns.
    pub fn bytes(&self) -> (r: &[u8])
        ensures
            r@ == self.payload(),
    {
        match self {
            Ie::Antenna(e) => e.bytes(),
            Ie::BssLoad(e) => e.bytes(),
            Ie::Country(e) => e.bytes(),
            Ie::DsParameterSet(e) => e.bytes(),
            Ie::ErpInfo(e) => e.bytes(),
            Ie::ExtendedCapabilities(e) => e.bytes(),
            Ie::ExtendedSupportedRates(e) => e.bytes(),
            Ie::HeCapabilities(e) => e.bytes(),
            Ie::HeOperation(e) => e.bytes(),
            Ie::HtCapabilities(e) => e.bytes(),
            Ie::HtOperation(e) => e.bytes(),
            Ie::IbssParameterSet(e) => e.bytes(),
            Ie::MeasurementPilotTransmission(e) => e.bytes(),
            Ie::MeshConfiguration(e) => e.bytes(),
            Ie::MeshId(e) => e.bytes(),
            Ie::OverlappingBssScanParams(e) => e.bytes(),
            Ie::PowerConstraint(e) => e.bytes(),
            Ie::RmEnabledCapabilities(e) => e.bytes(),
            Ie::Rsn(e) => e.bytes(),
            Ie::Ssid(e) => e.bytes(),
            Ie::SupportedRates(e) => e.bytes(),
            Ie::Tim(e) => e.bytes(),
            Ie::TransmitPowerEnvelope(e) => e.bytes(),
            Ie::TwentyFortyBssCoexistence(e) => e.bytes(),
            Ie::Unknown(e) => e.bytes(),
            Ie::VendorSpecific(e) => e.bytes(),
            Ie::VhtCapabilities(e) => e.bytes(),
            Ie::VhtOperation(e) => e.bytes(),
            Ie::Wpa(e) => e.bytes(),
        }
    }

    /// Dispatches one `(id, extension, payload)` triple to its decoder:
    /// the matching variant on success, the decoder's `InvalidLength` error
    /// where the payload violates that decoder's length contract.
    pub fn new(ie_data: Vec<u8>, ie_id: u8, ie_id_ext: Option<u8>) -> (r: Result<Ie, IeError>)
        ensures
            spec_construct_ok(ie_id, ie_id_ext, ie_data@.len() as int) ==> (r matches Ok(ie)
                && spec_ie_matches(ie, ie_id, ie_id_ext, ie_data@)),
            !spec_construct_ok(ie_id, ie_id_ext, ie_data@.len() as int) ==> (r matches Err(e)
                && is_invalid_length(
                e,
                spec_length_error_name(ie_id),
                spec_expected_len(ie_id),
                ie_data@.len() as int,
            )),
    {
        Ok(
            match ie_id {
                0 => Ie::Ssid(Ssid::new(ie_data)),
                1 => Ie::SupportedRates(SupportedRates::new(ie_data)),
                3 => Ie::DsParameterSet(DsParameterSet::new(ie_data)?),
                5 => Ie::Tim(Tim::new(ie_data)),
                6 => Ie::IbssParameterSet(IbssParameterSet::new(ie_data)?),
                7 => Ie::Country(Country::new(ie_data)?),
                11 => Ie::BssLoad(BssLoad::new(ie_data)?),
                32 => Ie::PowerConstraint(PowerConstraint::new(ie_data)?),
                42 => Ie::ErpInfo(ErpInfo::new(ie_data)?),
                45 => Ie::HtCapabilities(HtCapabilities::new(ie_data)?),
                48 => Ie::Rsn(Rsn::new(ie_data)),
                50 => Ie::ExtendedSupportedRates(ExtendedSupportedRates::new(ie_data)),
                61 => Ie::HtOperation(HtOperation::new(ie_data)?),
                64 => Ie::Antenna(Antenna::new(ie_data)?),
                66 => Ie::MeasurementPilotTransmission(MeasurementPilotTransmission::new(ie_data)?),
                70 => Ie::RmEnabledCapabilities(RmEnabledCapabilities::new(ie_data)?),
                72 => Ie::TwentyFortyBssCoexistence(TwentyFortyBssCoexistence::new(ie_data)?),
                74 => Ie::OverlappingBssScanParams(OverlappingBssScanParams::new(ie_data)?),
                113 => Ie::MeshConfiguration(MeshConfiguration::new(ie_data)?),
                114 => Ie::MeshId(MeshId::new(ie_data)),
                127 => Ie::ExtendedCapabilities(ExtendedCapabilities::new(ie_data)),
                191 => Ie::VhtCapabilities(VhtCapabilities::new(ie_data)?),
                192 => Ie::VhtOperation(VhtOperation::new(ie_data)?),
                195 => Ie::TransmitPowerEnvelope(TransmitPowerEnvelope::new(ie_data)?),
                221 => {
                    if starts_with_wpa_oui(&ie_data) {
                        Ie::Wpa(Wpa::new(ie_data))
                    } else {
                        Ie::VendorSpecific(VendorSpecific::new(ie_data))
                    }
                },
                255 => {
                    match ie_id_ext {
                        Some(35) => Ie::HeCapabilities(HeCapabilities::new(ie_data)),
                        Some(36) => Ie::HeOperation(HeOperation::new(ie_data)),
                        _ => Ie::Unknown(Unknown::new(ie_data, ie_id, ie_id_ext)),
                    }
                },
                _ => Ie::Unknown(Unknown::new(ie_data, ie_id, ie_id_ext)),
            },
        )
    }
}

/// The identity round trip of decoding: whatever variant the dispatch
/// produced for an entry, the element owns exactly the entry's payload,
/// and answers to the entry's element ID. Together with the contract of
/// `from_bytes` this pins every decoded element's bytes to the slice of
/// the raw buffer it came from.
pub proof fn lemma_ie_matches_identity(ie: Ie, id: u8, ext: Option<u8>, payload: Seq<u8>)
    requires
        spec_ie_matches(ie, id, ext, payload),
    ensures
        ie.payload() == payload,
        ie.spec_id() == id,
{
}

/// Every decoded element's payload satisfies its decoder's length
/// contract: when the dispatch accepts an entry, the element it produces
/// carries a payload of the exact or minimum byte count its kind demands.
/// The contract is checked once, at construction, and the element is
/// immutable thereafter.
pub proof fn lemma_ie_matches_length_contract(ie: Ie, id: u8, ext: Option<u8>, payload: Seq<u8>)
    requires
        spec_ie_matches(ie, id, ext, payload),
        spec_construct_ok(id, ext, payload.len() as int),
    ensures
        ie matches Ie::DsParameterSet(e) ==> e@.len() == 1,
        ie matches Ie::IbssParameterSet(e) ==> e@.len() == 2,
        ie matches Ie::Country(e) ==> e@.len() >= 6,
        ie matches Ie::BssLoad(e) ==> e@.len() == 5,
        ie matches Ie::PowerConstraint(e) ==> e@.len() == 1,
        ie matches Ie::ErpInfo(e) ==> e@.len() == 1,
        ie matches Ie::HtCapabilities(e) ==> e@.len() >= 26,
        ie matches Ie::HtOperation(e) ==> e@.len() == 22,
        ie matches Ie::Antenna(e) ==> e@.len() == 1,
        ie matches Ie::MeasurementPilotTransmission(e) ==> e@.len() >= 1,
        ie matches Ie::RmEnabledCapabilities(e) ==> e@.len() >= 5,
        ie matches Ie::TwentyFortyBssCoexistence(e) ==> e@.len() >= 1,
        ie matches Ie::OverlappingBssScanParams(e) ==> e@.len() == 14,
        ie matches Ie::MeshConfiguration(e) ==> e@.len() >= 7,
        ie matches Ie::VhtCapabilities(e) ==> e@.len() == 12,
        ie matches Ie::VhtOperation(e) ==> e@.len() == 5,
        ie matches Ie::TransmitPowerEnvelope(e) ==> e@.len() >= 2,
{
}

/// The `(id, extension, payload)` entries a raw buffer splits into: an
/// entry consumes `2 + length` bytes, or `3 + length` bytes under the
/// extension sentinel ID 255; the scan stops, keeping what came before,
/// where an identity byte, a length byte, an extension byte or a full
/// payload is no longer available.
pub open spec fn spec_entries(bytes: Seq<u8>) -> Seq<(u8, Option<u8>, Seq<u8>)>
    decreases bytes.len(),
{
    if bytes.len() < 2 {
        Seq::empty()
    } else {
        let id = bytes[0];
        let n = bytes[1] as int;
        if id == 255 {
            if bytes.len() < 3 || bytes.len() < 3 + n {
                Seq::empty()
            } else {
                seq![(id, Some(bytes[2]), bytes.subrange(3, 3 + n))] + spec_entries(
                    bytes.skip(3 + n),
                )
            }
        } else {
            if bytes.len() < 2 + n {
                Seq::empty()
            } else {
                seq![(id, None, bytes.subrange(2, 2 + n))] + spec_entries(bytes.skip(2 + n))
            }
        }
    }
}

/// Whether an entry's payload satisfies its decoder's length contract.
pub open spec fn spec_entry_ok(e: (u8, Option<u8>, Seq<u8>)) -> bool {
    spec_construct_ok(e.0, e.1, e.2.len() as int)
}

/// Whether every entry of a buffer satisfies its decoder's length contract,
/// so that decoding the buffer succeeds.
pub open spec fn spec_scan_ok(bytes: Seq<u8>) -> bool {
    forall|i: int|
        0 <= i < spec_entries(bytes).len() ==> spec_entry_ok(#[trigger] spec_entries(bytes)[i])
}

/// Decodes a raw information-element buffer into its elements, in encounter
/// order.
///
/// Exactly one element is produced per entry that precedes the buffer's
/// truncation point, so a buffer whose trailing entry is cut short still
/// decodes, without error, to everything before it. A length-contract
/// violation is fatal instead: the scan aborts and returns that entry's
/// `InvalidLength` error, discarding every element decoded so far.
pub fn from_bytes(bytes: &[u8]) -> (r: Result<Vec<Ie>, IeError>)
    ensures
        spec_scan_ok(bytes@) ==> (r matches Ok(ies) && ies@.len() == spec_entries(bytes@).len()
            && (forall|i: int|
            0 <= i < ies@.len() ==> spec_ie_matches(
                #[trigger] ies@[i],
                spec_entries(bytes@)[i].0,
                spec_entries(bytes@)[i].1,
                spec_entries(bytes@)[i].2,
            ))),
        !spec_scan_ok(bytes@) ==> (r matches Err(e) && exists|k: int|
            0 <= k < spec_entries(bytes@).len() && !spec_entry_ok(#[trigger] spec_entries(bytes@)[k])
                && (forall|i: int| 0 <= i < k ==> spec_entry_ok(#[trigger] spec_entries(bytes@)[i]))
                && is_invalid_length(
                e,
                spec_length_error_name(spec_entries(bytes@)[k].0),
                spec_expected_len(spec_entries(bytes@)[k].0),
                spec_entries(bytes@)[k].2.len() as int,
            )),
{
    let ghost entries = spec_entries(bytes@);
    let mut ies: Vec<Ie> = Vec::new();
    let n = bytes.len();
    let mut pos: usize = 0;
    proof {
        assert(bytes@.skip(0) =~= bytes@);
        assert(entries.skip(0) =~= entries);
    }
    loop
        invariant_except_break
            pos <= n,
            n == bytes@.len(),
            ies@.len() <= entries.len(),
            entries == spec_entries(bytes@),
            entries.skip(ies@.len() as int) =~= spec_entries(bytes@.skip(pos as int)),
            forall|i: int|
                0 <= i < ies@.len() ==> spec_entry_ok(#[trigger] entries[i]) && spec_ie_matches(
                    ies@[i],
                    entries[i].0,
                    entries[i].1,
                    entries[i].2,
                ),
        ensures
            pos <= n,
            n == bytes@.len(),
            ies@.len() == entries.len(),
            entries == spec_entries(bytes@),
            forall|i: int|
                0 <= i < ies@.len() ==> spec_entry_ok(#[trigger] entries[i]) && spec_ie_matches(
                    ies@[i],
                    entries[i].0,
                    entries[i].1,
                    entries[i].2,
                ),
        decreases n - pos,
    {
        let ghost k = ies@.len() as int;
        let ghost tail = bytes@.skip(pos as int);
        if n - pos < 2 {
            proof {
                assert(spec_entries(tail) =~= Seq::empty());
                assert(entries.len() - k == 0);
            }
            break ;
        }
        proof {
            assert(tail[0] == bytes@[pos as int]);
            assert(tail[1] == bytes@[pos as int + 1]);
        }
        let ie_id = bytes[pos];
        let ie_len = bytes[pos + 1] as usize;
        let ie_id_ext: Option<u8>;
        let header: usize;
        if ie_id == 255 {
            if n - pos < 3 {
                proof {
                    assert(spec_entries(tail) =~= Seq::empty());
                    assert(entries.len() - k == 0);
                }
                break ;
            }
            proof {
                assert(tail[2] == bytes@[pos as int + 2]);
            }
            ie_id_ext = Some(bytes[pos + 2]);
            header = 3;
        } else {
            ie_id_ext = None;
            header = 2;
        }
        if ie_len > n - pos - header {
            proof {
                assert(spec_entries(tail) =~= Seq::empty());
                assert(entries.len() - k == 0);
            }
            break ;
        }
        let ie_data = slice_to_vec(
            bytes.split_at(pos + header).1.split_at(ie_len).0,
        );
        proof {
            assert(ie_data@ =~= tail.subrange(header as int, header + ie_len));
            assert(tail.skip(header + ie_len) =~= bytes@.skip(pos + header + ie_len));
            assert(spec_entries(tail) =~= seq![(ie_id, ie_id_ext, ie_data@)] + spec_entries(
                bytes@.skip(pos + header + ie_len),
            ));
            assert(entries.skip(k) =~= spec_entries(tail));
            assert(entries[k] == entries.skip(k)[0]);
            assert(entries[k] == (ie_id, ie_id_ext, ie_data@));
            assert(k < entries.len());
        }
        match Ie::new(ie_data, ie_id, ie_id_ext) {
            Ok(ie) => {
                ies.push(ie);
                proof {
                    assert(entries.skip(k + 1) =~= entries.skip(k).skip(1));
                    assert(entries.skip(k).skip(1) =~= spec_entries(
                        bytes@.skip(pos + header + ie_len),
                    ));
                }
            },
            Err(e) => {
                proof {
                    assert(!spec_entry_ok(entries[k]));
                    assert(!spec_scan_ok(bytes@));
                }
                return Err(e);
            },
        }
        pos = pos + header + ie_len;
    }
    proof {
        assert forall|i: int|
            0 <= i < spec_entries(bytes@).len() implies spec_entry_ok(
            #[trigger] spec_entries(bytes@)[i],
        ) by {
            assert(spec_entry_ok(entries[i]));
        }
    }
    Ok(ies)
}

} // verus!
