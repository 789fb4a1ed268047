//! Derived attributes over a decoded element sequence: channel number and
//! width resolution, protocol classification, and the maximum rate.

use wifi_ies::channel::resolve_number;
use wifi_ies::channel::Channel;
use wifi_ies::channel::ChannelBand;
use wifi_ies::channel::ChannelNumber;
use wifi_ies::channel_width::resolve_width;
use wifi_ies::channel_width::ChannelWidth;
use wifi_ies::ies::ds_parameter_set::DsParameterSet;
use wifi_ies::ies::ht_capabilities::HtCapabilities;
use wifi_ies::ies::ht_operation::HtOperation;
use wifi_ies::ies::rsn::Rsn;
use wifi_ies::ies::ssid::Ssid;
use wifi_ies::ies::supported_rates::max_rate_half_mbps;
use wifi_ies::ies::supported_rates::ExtendedSupportedRates;
use wifi_ies::ies::supported_rates::SupportedRates;
use wifi_ies::ies::vht_capabilities::VhtCapabilities;
use wifi_ies::ies::vht_operation::VhtOperation;
use wifi_ies::ies::wpa::Wpa;
use wifi_ies::ies::Ie;
use wifi_ies::security_protocol::security_protocols;
use wifi_ies::wifi_protocol::wifi_protocols;

#[test]
fn channel_from_channel_number() {
    assert_eq!(ChannelNumber::try_from(1).unwrap(), ChannelNumber { number: 1 });
    assert_eq!(ChannelNumber::try_from(6).unwrap(), ChannelNumber { number: 6 });
    assert_eq!(ChannelNumber::try_from(11).unwrap(), ChannelNumber { number: 11 });
    assert_eq!(ChannelNumber::try_from(14).unwrap(), ChannelNumber { number: 14 });
}

#[test]
#[should_panic]
fn invalid_channel_number() {
    ChannelNumber::try_from(15).unwrap();
}

fn ds(channel: u8) -> Ie {
    Ie::DsParameterSet(DsParameterSet::new(vec![channel]).unwrap())
}

fn vht_op(width: u8, seg0: u8, seg1: u8) -> Ie {
    Ie::VhtOperation(VhtOperation::new(vec![width, seg0, seg1, 0, 0]).unwrap())
}

fn ht_op_narrow() -> Ie {
    // STA channel width flag clear: 20 MHz only.
    Ie::HtOperation(HtOperation::new(vec![0; 22]).unwrap())
}

fn ht_op_wide() -> Ie {
    let mut payload = vec![0u8; 22];
    payload[1] = 0b0000_0100;
    Ie::HtOperation(HtOperation::new(payload).unwrap())
}

#[test]
fn width_defaults_to_twenty_with_only_ds_parameter_set() {
    let ies = vec![ds(6)];
    assert_eq!(resolve_width(&ies), ChannelWidth::TwentyMhz);
}

#[test]
fn width_from_vht_segments() {
    // The {80, 80+80, 160} union with segment 1 eight channels above
    // segment 0 resolves to 160 MHz.
    let ies = vec![vht_op(1, 36, 44)];
    assert_eq!(resolve_width(&ies), ChannelWidth::OneSixtyMhz);

    // More than sixteen channels apart: 80+80 MHz.
    let ies = vec![vht_op(1, 36, 60)];
    assert_eq!(resolve_width(&ies), ChannelWidth::EightyPlusEightyMhz);

    // Segment 1 zero: 80 MHz.
    let ies = vec![vht_op(1, 36, 0)];
    assert_eq!(resolve_width(&ies), ChannelWidth::EightyMhz);
}

#[test]
fn width_narrow_ht_operation_wins_over_vht() {
    let ies = vec![ht_op_narrow(), vht_op(1, 36, 44)];
    assert_eq!(resolve_width(&ies), ChannelWidth::TwentyMhz);
}

#[test]
fn width_forty_from_vht_twenty_forty() {
    let ies = vec![ht_op_wide(), vht_op(0, 0, 0)];
    assert_eq!(resolve_width(&ies), ChannelWidth::FortyMhz);
}

#[test]
fn width_deprecated_vht_codes() {
    let ies = vec![vht_op(2, 36, 0)];
    assert_eq!(resolve_width(&ies), ChannelWidth::OneSixtyMhz);
    let ies = vec![vht_op(3, 36, 0)];
    assert_eq!(resolve_width(&ies), ChannelWidth::EightyPlusEightyMhz);
}

#[test]
fn channel_number_from_ds_parameter_set() {
    let ies = vec![ds(11)];
    assert_eq!(resolve_number(&ies).value(), 11);

    // No DS parameter set: channel 1.
    let none: Vec<Ie> = vec![Ie::Ssid(Ssid::new(vec![]))];
    assert_eq!(resolve_number(&none).value(), 1);

    // A byte outside the channel table: channel 1.
    let bad = vec![ds(15)];
    assert_eq!(resolve_number(&bad).value(), 1);
}

#[test]
fn channel_resolution_and_frequencies() {
    let ies = vec![ds(36), vht_op(1, 42, 0)];
    let channel = Channel::resolve(&ies);
    assert_eq!(channel.number().value(), 36);
    assert_eq!(channel.width(), ChannelWidth::EightyMhz);
    assert_eq!(channel.band(), ChannelBand::FiveGhz);
    assert_eq!(channel.center_freq_mhz(), 5180);

    let two_ghz = Channel::resolve(&vec![ds(6)]);
    assert_eq!(two_ghz.band(), ChannelBand::TwoPointFourGhz);
    assert_eq!(two_ghz.center_freq_mhz(), 2437);

    let fourteen = Channel::resolve(&vec![ds(14)]);
    assert_eq!(fourteen.center_freq_mhz(), 2484);
}

#[test]
fn wifi_protocol_classification() {
    let rates_b = Ie::SupportedRates(SupportedRates::new(vec![0x82, 0x84, 0x8b, 0x96]));
    let protocols = wifi_protocols(&vec![rates_b]);
    assert!(protocols.b);
    assert!(!protocols.g);
    assert!(!protocols.n && !protocols.ac && !protocols.ax && !protocols.a);

    let rates_bg = Ie::SupportedRates(SupportedRates::new(vec![0x82, 0x0c, 0x6c]));
    let protocols = wifi_protocols(&vec![rates_bg]);
    assert!(protocols.b);
    assert!(protocols.g);

    let extended_g = Ie::ExtendedSupportedRates(ExtendedSupportedRates::new(vec![0x30]));
    let protocols = wifi_protocols(&vec![extended_g]);
    assert!(protocols.g);
    assert!(!protocols.b);
}

#[test]
fn wifi_protocol_capability_elements() {
    let ht = Ie::HtCapabilities(HtCapabilities::new(vec![0; 26]).unwrap());
    let vht = Ie::VhtCapabilities(VhtCapabilities::new(vec![0; 12]).unwrap());
    let protocols = wifi_protocols(&vec![ht, vht]);
    assert!(protocols.n);
    assert!(protocols.ac);
    assert!(!protocols.ax);
}

fn rsn_with_akm(suite_type: u8) -> Ie {
    Ie::Rsn(Rsn::new(vec![
        0x01, 0x00, 0x00, 0x0f, 0xac, 0x04, 0x01, 0x00, 0x00, 0x0f, 0xac, 0x04, 0x01, 0x00,
        0x00, 0x0f, 0xac, suite_type,
    ]))
}

#[test]
fn security_protocol_classification() {
    let none = security_protocols(&vec![Ie::Ssid(Ssid::new(vec![]))]);
    assert!(!none.wep && !none.wpa && !none.wpa2 && !none.wpa3);

    let wpa1 = security_protocols(&vec![Ie::Wpa(Wpa::new(vec![0x00, 0x50, 0xf2, 0x01]))]);
    assert!(wpa1.wpa);
    assert!(!wpa1.wpa2 && !wpa1.wpa3);

    let psk = security_protocols(&vec![rsn_with_akm(2)]);
    assert!(psk.wpa2);
    assert!(!psk.wpa3 && !psk.wpa);

    let sae = security_protocols(&vec![rsn_with_akm(8)]);
    assert!(sae.wpa3);
    assert!(!sae.wpa2);

    let mixed = security_protocols(&vec![rsn_with_akm(2), rsn_with_akm(8)]);
    assert!(mixed.wpa2 && mixed.wpa3);

    // An RSN whose AKM list cannot be read still implies WPA2.
    let bare = security_protocols(&vec![Ie::Rsn(Rsn::new(vec![0x01, 0x00]))]);
    assert!(bare.wpa2);
    assert!(!bare.wpa3);
}

#[test]
fn maximum_rate_over_all_rate_elements() {
    let rates = Ie::SupportedRates(SupportedRates::new(vec![0x82, 0x84, 0x8b, 0x96]));
    let extended = Ie::ExtendedSupportedRates(ExtendedSupportedRates::new(vec![0x30, 0x6c]));
    // 11 Mbps from the plain element, 54 Mbps from the extended one.
    assert_eq!(max_rate_half_mbps(&vec![rates]), Some(22));
    let rates = Ie::SupportedRates(SupportedRates::new(vec![0x82, 0x84, 0x8b, 0x96]));
    assert_eq!(max_rate_half_mbps(&vec![rates, extended]), Some(108));

    // No recognized rate byte: no maximum.
    let unrecognized = Ie::SupportedRates(SupportedRates::new(vec![0x7f]));
    assert_eq!(max_rate_half_mbps(&vec![unrecognized]), None);
    assert_eq!(max_rate_half_mbps(&vec![]), None);
}
