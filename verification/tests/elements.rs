//! Per-element decoder behaviour: length contracts, accessors, and the
//! values they extract.

use wifi_ies::CapabilityInfo;
use wifi_ies::ies::ap_channel_report::ApChannelReport;
use wifi_ies::ies::bss_load::BssLoad;
use wifi_ies::ies::country::Country;
use wifi_ies::ies::country::Environment;
use wifi_ies::ies::ds_parameter_set::DsParameterSet;
use wifi_ies::ies::erp_info::ErpInfo;
use wifi_ies::ies::extended_capabilities::ExtendedCapabilities;
use wifi_ies::ies::ht_capabilities::HtCapabilities;
use wifi_ies::ies::ht_capabilities::MpduStartSpacing;
use wifi_ies::ies::ht_capabilities::RxStbc;
use wifi_ies::ies::ht_capabilities::SmPowerSave;
use wifi_ies::ies::ht_operation::HtOperation;
use wifi_ies::ies::ht_operation::HtProtection;
use wifi_ies::ies::ibss_parameter_set::IbssParameterSet;
use wifi_ies::ies::measurement_pilot_transmission::MeasurementPilotTransmission;
use wifi_ies::ies::mesh_configuration::AuthenticationProtocol;
use wifi_ies::ies::mesh_configuration::MeshConfiguration;
use wifi_ies::ies::rm_enabled_capabilities::RmEnabledCapabilities;
use wifi_ies::ies::rsn::Rsn;
use wifi_ies::ies::ssid::Ssid;
use wifi_ies::ies::supported_rates::DataRate;
use wifi_ies::ies::supported_rates::SupportedRates;
use wifi_ies::ies::tim::Tim;
use wifi_ies::ies::transmit_power_envelope::TransmitPowerEnvelope;
use wifi_ies::ies::transmit_power_envelope::UnitInterpretation;
use wifi_ies::ies::vht_capabilities::VhtCapabilities;
use wifi_ies::ies::vht_operation::VhtOperation;
use wifi_ies::ies::IeError;
use wifi_ies::ies::InformationElement;

#[test]
fn ds_parameter_set_rejects_two_bytes() {
    let e = DsParameterSet::new(vec![0x01, 0x02]).unwrap_err();
    assert_eq!(
        e,
        IeError::InvalidLength {
            ie_name: "DS Parameter Set",
            expected_length: 1,
            actual_length: 2,
        }
    );
}

#[test]
fn ds_parameter_set_channel_number() {
    let ds = DsParameterSet::new(vec![11]).unwrap();
    assert_eq!(ds.channel_number(), 11);
    assert_eq!(ds.bytes(), &[11_u8][..]);
}

#[test]
fn capability_info_ess_only() {
    let cap = CapabilityInfo::new([0b0000_0001, 0x00]);
    assert!(cap.ess());
    assert!(!cap.ibss());
    assert!(!cap.cf_pollable());
    assert!(!cap.cf_poll_request());
    assert!(!cap.privacy());
    assert!(!cap.short_preamble());
    assert!(!cap.spectrum_management());
    assert!(!cap.qos());
    assert!(!cap.short_slot_time());
    assert!(!cap.apsd());
    assert!(!cap.radio_measurement());
    assert!(!cap.delayed_block_ack());
    assert!(!cap.immediate_block_ack());
}

#[test]
fn capability_info_second_byte_flags() {
    let cap = CapabilityInfo::new([0x00, 0b1100_0001]);
    assert!(cap.spectrum_management());
    assert!(cap.delayed_block_ack());
    assert!(cap.immediate_block_ack());
    assert!(!cap.ess());
    assert!(!cap.qos());
}

#[test]
fn erp_info_flags() {
    let erp = ErpInfo::new(vec![0b0000_0101]).unwrap();
    assert!(erp.non_erp_present());
    assert!(!erp.use_protection());
    assert!(erp.barker_preamble_mode());
    assert!(ErpInfo::new(vec![]).is_err());
}

#[test]
fn ibss_parameter_set_little_endian() {
    let ibss = IbssParameterSet::new(vec![0x34, 0x12]).unwrap();
    assert_eq!(ibss.atim_window_tu(), 0x1234);
    let e = IbssParameterSet::new(vec![1, 2, 3]).unwrap_err();
    assert_eq!(
        e,
        IeError::InvalidLength {
            ie_name: "IBSS Parameter Set",
            expected_length: 2,
            actual_length: 3,
        }
    );
}

#[test]
fn bss_load_fields() {
    let load = BssLoad::new(vec![0x02, 0x01, 200, 0x10, 0x00]).unwrap();
    assert_eq!(load.station_count(), 0x0102);
    assert_eq!(load.channel_utilization(), 200);
    assert_eq!(load.available_admission_capacity(), 0x0010);
}

#[test]
fn country_subbands_carry_operating_info() {
    let mut payload = b"US ".to_vec();
    payload.extend_from_slice(&[1, 11, 20]);
    payload.extend_from_slice(&[201, 12, 5]);
    payload.extend_from_slice(&[36, 4, 23]);
    let country = Country::new(payload).unwrap();
    assert_eq!(country.country_code().unwrap(), "US");
    assert_eq!(country.country_string().unwrap(), "US ");
    assert_eq!(country.environment(), Some(Environment::Any));
    let subbands = country.subband_info();
    assert_eq!(subbands.len(), 2);
    assert_eq!(subbands[0].first_channel_number().value(), 1);
    assert_eq!(subbands[0].number_of_channels(), 11);
    assert_eq!(subbands[0].max_transmit_power_level_dbm(), 20);
    assert!(subbands[0].operating_class().is_none());
    assert_eq!(subbands[1].first_channel_number().value(), 36);
    assert_eq!(subbands[1].number_of_channels(), 4);
    assert_eq!(subbands[1].max_transmit_power_level_dbm(), 23);
    let info = subbands[1].operating_class().unwrap();
    assert_eq!(info.operating_extension_id(), 201);
    assert_eq!(info.operating_class(), 12);
    assert_eq!(info.coverage_class(), 5);
    assert_eq!(info.air_propagation_time_us(), Some(15));
}

#[test]
fn country_rejects_short_payload() {
    let e = Country::new(b"US".to_vec()).unwrap_err();
    assert_eq!(
        e,
        IeError::InvalidLength {
            ie_name: "Country",
            expected_length: 6,
            actual_length: 2,
        }
    );
}

#[test]
fn country_environment_codes() {
    let outdoor = Country::new(b"DEO\x01\x02\x03".to_vec()).unwrap();
    assert_eq!(outdoor.environment(), Some(Environment::Outdoor));
    let indoor = Country::new(b"DEI\x01\x02\x03".to_vec()).unwrap();
    assert_eq!(indoor.environment(), Some(Environment::Indoor));
    let unknown = Country::new(b"DEX\x01\x02\x03".to_vec()).unwrap();
    assert_eq!(unknown.environment(), None);
}

#[test]
fn data_rate_decoding() {
    assert_eq!(DataRate::try_from(0x82), Some(DataRate::OneMbps(true)));
    assert_eq!(DataRate::try_from(0x0c), Some(DataRate::SixMbps(false)));
    assert_eq!(DataRate::try_from(0x6c), Some(DataRate::FiftyFourMbps(false)));
    assert_eq!(DataRate::try_from(0x7f), None);
    assert!(DataRate::OneMbps(true).is_basic());
    assert!(!DataRate::SixMbps(false).is_basic());
    assert_eq!(DataRate::FivePointFiveMbps(false).value_half_mbps(), 11);
    assert_eq!(DataRate::FiftyFourMbps(true).value_half_mbps(), 108);
}

#[test]
fn supported_rates_collapse_duplicates() {
    let rates = SupportedRates::new(vec![0x82, 0x82, 0x0c, 0xff]).rates();
    assert_eq!(rates.len(), 2);
    assert!(rates.contains(&DataRate::OneMbps(true)));
    assert!(rates.contains(&DataRate::SixMbps(false)));
}

#[test]
fn supported_rates_distinguish_basic_flag() {
    let rates = SupportedRates::new(vec![0x82, 0x02]).rates();
    assert_eq!(rates.len(), 2);
    assert!(rates.contains(&DataRate::OneMbps(true)));
    assert!(rates.contains(&DataRate::OneMbps(false)));
}

#[test]
fn ssid_utf8() {
    let ssid = Ssid::new(b"HomeNet".to_vec());
    assert_eq!(ssid.as_str(), Some("HomeNet"));
    let bad = Ssid::new(vec![0xff, 0xfe]);
    assert_eq!(bad.as_str(), None);
    let empty = Ssid::new(vec![]);
    assert_eq!(empty.as_str(), Some(""));
}

#[test]
fn tim_fields_guarded_by_length() {
    let tim = Tim::new(vec![2, 3, 0b0000_0001, 0xaa, 0xbb]);
    assert_eq!(tim.dtim_count(), Some(2));
    assert_eq!(tim.dtim_period(), Some(3));
    assert_eq!(tim.bitmap_control(), Some(1));
    assert_eq!(tim.partial_virtual_bitmap(), &[0xaa_u8, 0xbb][..]);
    let short = Tim::new(vec![7]);
    assert_eq!(short.dtim_count(), Some(7));
    assert_eq!(short.dtim_period(), None);
    assert_eq!(short.bitmap_control(), None);
    assert!(short.partial_virtual_bitmap().is_empty());
}

#[test]
fn transmit_power_envelope_optional_powers() {
    let tpe = TransmitPowerEnvelope::new(vec![0b0000_1011, 250, 16]).unwrap();
    assert_eq!(tpe.local_maximum_transmit_power_count(), 3);
    assert_eq!(
        tpe.local_maximum_transmit_power_unit_interpretation(),
        UnitInterpretation::Unknown(1)
    );
    assert_eq!(tpe.local_maximum_transmit_power_unit_interpretation().value(), 1);
    assert_eq!(tpe.local_maximum_transmit_power_twenty_mhz_dbm(), -6);
    assert_eq!(tpe.local_maximum_transmit_power_forty_mhz_dbm(), Some(16));
    assert_eq!(tpe.local_maximum_transmit_power_eighty_mhz_dbm(), None);
    assert_eq!(tpe.local_maximum_transmit_power_one_sixty_mhz_dbm(), None);
    let eirp = TransmitPowerEnvelope::new(vec![0x00, 20]).unwrap();
    assert_eq!(
        eirp.local_maximum_transmit_power_unit_interpretation(),
        UnitInterpretation::Eirp
    );
    assert!(TransmitPowerEnvelope::new(vec![0]).is_err());
}

#[test]
fn ht_capabilities_fields() {
    let mut payload = vec![0u8; 26];
    payload[0] = 0b0000_0010;
    payload[2] = 0b0000_0110;
    let ht = HtCapabilities::new(payload).unwrap();
    assert!(ht.supported_channel_width_set().forty);
    assert!(ht.supported_channel_width_set().twenty);
    assert!(!ht.ldpc_coding_capability());
    assert_eq!(ht.max_ampdu_length_exponent(), 2);
    assert_eq!(ht.max_ampdu_length(), 32767);
    assert_eq!(ht.min_mpdu_start_spacing(), MpduStartSpacing::QuarterMicrosecond);
    assert_eq!(ht.sm_power_save(), SmPowerSave::Static);
    assert_eq!(ht.rx_stbc(), RxStbc::NotSupported);
    assert_eq!(ht.max_amsdu_length(), 3839);
    assert_eq!(ht.supported_mcs_set().len(), 16);
    assert!(HtCapabilities::new(vec![0; 25]).is_err());
}

#[test]
fn ht_capabilities_ampdu_formula() {
    for (exponent, max_len) in [(0u8, 8191u32), (1, 16383), (2, 32767), (3, 65535)] {
        let mut payload = vec![0u8; 26];
        payload[2] = exponent;
        let ht = HtCapabilities::new(payload).unwrap();
        assert_eq!(ht.max_ampdu_length_exponent(), exponent);
        assert_eq!(ht.max_ampdu_length(), max_len);
    }
}

#[test]
fn ht_operation_fields() {
    let mut payload = vec![0u8; 22];
    payload[0] = 36;
    payload[1] = 0b0000_0101;
    payload[2] = 0b0000_0110;
    let ht = HtOperation::new(payload).unwrap();
    assert_eq!(ht.primary_channel(), 36);
    assert!(ht.sta_channel_width().forty);
    assert!(!ht.rifs_mode());
    assert_eq!(ht.ht_protection(), HtProtection::TwentyMhz);
    assert!(ht.nongreenfield_ht_stas_present());
    assert_eq!(ht.basic_ht_mcs_set().len(), 16);
    assert!(HtOperation::new(vec![0; 21]).is_err());
    assert!(HtOperation::new(vec![0; 23]).is_err());
}

#[test]
fn vht_operation_fields() {
    let vht = VhtOperation::new(vec![1, 42, 0, 0x34, 0x12]).unwrap();
    assert_eq!(vht.channel_width_field(), 1);
    let widths = vht.channel_width();
    assert!(widths.eighty && widths.eighty_plus_eighty && widths.one_sixty);
    assert!(!widths.twenty && !widths.forty);
    assert_eq!(vht.channel_center_freq_segment_zero(), 42);
    assert_eq!(vht.channel_center_freq_segment_one(), 0);
    assert_eq!(vht.basic_vht_mcs_set(), 0x1234);
    let narrow = VhtOperation::new(vec![0, 0, 0, 0, 0]).unwrap();
    assert!(narrow.channel_width().twenty && narrow.channel_width().forty);
    assert!(VhtOperation::new(vec![1, 2, 3, 4]).is_err());
}

#[test]
fn vht_capabilities_fields() {
    let mut payload = vec![0u8; 12];
    payload[0] = 0b1011_0001;
    payload[4] = 0xaa;
    payload[5] = 0x55;
    let vht = VhtCapabilities::new(payload).unwrap();
    assert_eq!(vht.max_mpdu_length(), Some(7991));
    assert_eq!(vht.supported_channel_width_set(), 0);
    assert!(vht.rx_ldpc());
    assert!(vht.short_gi_eighty_mhz());
    assert!(vht.tx_stbc());
    assert_eq!(vht.rx_vht_mcs_map(), 0x55aa);
    assert_eq!(vht.max_ampdu_length(), 8191);
    assert!(VhtCapabilities::new(vec![0; 11]).is_err());
}

#[test]
fn rm_enabled_capabilities_bits() {
    let rm = RmEnabledCapabilities::new(vec![0b0000_0011, 0, 0b0001_1100, 0, 0]).unwrap();
    assert!(rm.link_measurement_capability());
    assert!(rm.neighbor_report_capability());
    assert!(!rm.parallel_measurements_capability());
    assert_eq!(rm.operating_channel_max_measurement_duration(), 7);
    assert_eq!(rm.nonoperating_channel_max_measurement_duration(), 0);
    assert!(RmEnabledCapabilities::new(vec![0; 4]).is_err());
}

#[test]
fn extended_capabilities_optional_bits() {
    let ext = ExtendedCapabilities::new(vec![0b0000_0001]);
    assert_eq!(ext.twenty_forty_bss_coexistence_management_support(), Some(true));
    assert_eq!(ext.extended_channel_switching(), Some(false));
    assert_eq!(ext.diagnostics(), None);
    assert_eq!(ext.bss_transition(), None);
    let longer = ExtendedCapabilities::new(vec![0, 0, 0b0000_1000]);
    assert_eq!(longer.bss_transition(), Some(true));
    assert_eq!(longer.service_interval_granularity_ms(), None);
    let six = ExtendedCapabilities::new(vec![0, 0, 0, 0, 0, 0b0000_0110]);
    assert_eq!(six.service_interval_granularity_ms(), Some(20));
}

#[test]
fn mesh_configuration_fields() {
    let mesh = MeshConfiguration::new(vec![1, 1, 0, 1, 1, 0b1000_0011, 0b0000_1001]).unwrap();
    assert_eq!(mesh.authentication_protocol(), AuthenticationProtocol::Sae);
    assert!(mesh.connected_to_mesh_gate());
    assert_eq!(mesh.number_of_peerings(), 1);
    assert!(mesh.connected_to_as());
    assert!(mesh.accepting_additional_mesh_peerings());
    assert!(mesh.forwarding());
    assert!(!mesh.mcca_supported());
    assert!(MeshConfiguration::new(vec![0; 6]).is_err());
}

#[test]
fn measurement_pilot_subelements() {
    let mpt = MeasurementPilotTransmission::new(vec![25, 1, 2, 0xaa, 0xbb, 9, 1, 0xcc]).unwrap();
    assert_eq!(mpt.measurement_pilot_interval_tu(), 25);
    let subs = mpt.subelements();
    assert_eq!(subs.len(), 2);
    assert_eq!(subs[0], (1, 2, vec![0xaa, 0xbb]));
    assert_eq!(subs[1], (9, 1, vec![0xcc]));
}

#[test]
fn measurement_pilot_stops_on_short_subelement() {
    let mpt = MeasurementPilotTransmission::new(vec![25, 1, 2, 0xaa, 3, 5, 0x01]).unwrap();
    let subs = mpt.subelements();
    assert_eq!(subs.len(), 1);
    assert_eq!(subs[0], (1, 2, vec![0xaa, 3]));
    assert!(MeasurementPilotTransmission::new(vec![]).is_err());
}

#[test]
fn ap_channel_report_fields() {
    let report = ApChannelReport::new(vec![81, 1, 6, 11]).unwrap();
    assert_eq!(report.operating_class(), 81);
    assert_eq!(report.channel_list(), &[1_u8, 6, 11][..]);
    let bare = ApChannelReport::new(vec![115]).unwrap();
    assert!(bare.channel_list().is_empty());
    assert!(ApChannelReport::new(vec![]).is_err());
}

#[test]
fn rsn_suite_parsing() {
    // version 1, group CCMP, one pairwise (CCMP), two AKMs (PSK, SAE),
    // capabilities 0x000c.
    let rsn = Rsn::new(vec![
        0x01, 0x00, 0x00, 0x0f, 0xac, 0x04, 0x01, 0x00, 0x00, 0x0f, 0xac, 0x04, 0x02, 0x00,
        0x00, 0x0f, 0xac, 0x02, 0x00, 0x0f, 0xac, 0x08, 0x0c, 0x00,
    ]);
    assert_eq!(rsn.version(), Some(1));
    let group = rsn.group_cipher_suite().unwrap();
    assert!(group.is_standard());
    assert_eq!(group.suite_type, 4);
    let pairwise = rsn.pairwise_cipher_suites();
    assert_eq!(pairwise.len(), 1);
    assert_eq!(pairwise[0].suite_type, 4);
    let akms = rsn.akm_suites();
    assert_eq!(akms.len(), 2);
    assert_eq!(akms[0].suite_type, 2);
    assert_eq!(akms[1].suite_type, 8);
    assert_eq!(rsn.rsn_capabilities(), Some(0x000c));
}

#[test]
fn rsn_truncated_payload() {
    let rsn = Rsn::new(vec![0x01, 0x00, 0x00, 0x0f]);
    assert_eq!(rsn.version(), Some(1));
    assert!(rsn.group_cipher_suite().is_none());
    assert!(rsn.pairwise_cipher_suites().is_empty());
    assert!(rsn.akm_suites().is_empty());
    assert!(rsn.rsn_capabilities().is_none());
}

#[test]
fn element_names_and_ids() {
    let ds = DsParameterSet::new(vec![6]).unwrap();
    assert_eq!(ds.name(), "DS Parameter Set");
    assert_eq!(ds.id(), 3);
    assert_eq!(ds.id_ext(), None);
    let ssid = Ssid::new(vec![]);
    assert_eq!(ssid.name(), "SSID");
    assert_eq!(ssid.id(), 0);
}
