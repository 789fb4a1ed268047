//! The TLV scanner and dispatch: encounter order, truncation, fatal length
//! errors, and the identity round trip between payloads and elements.

use wifi_ies::ies::from_bytes;
use wifi_ies::ies::Ie;
use wifi_ies::ies::IeError;

#[test]
fn decode_keeps_encounter_order() {
    // SSID "ab", supported rates, DS parameter set.
    let buffer = [0, 2, 0x61, 0x62, 1, 2, 0x82, 0x0c, 3, 1, 6];
    let ies = from_bytes(&buffer).unwrap();
    assert_eq!(ies.len(), 3);
    assert!(matches!(ies[0], Ie::Ssid(_)));
    assert!(matches!(ies[1], Ie::SupportedRates(_)));
    assert!(matches!(ies[2], Ie::DsParameterSet(_)));
}

#[test]
fn decode_empty_buffer() {
    assert_eq!(from_bytes(&[]).unwrap().len(), 0);
}

#[test]
fn bytes_round_trip_through_decode() {
    let buffer = [0, 2, 0x61, 0x62, 3, 1, 11, 48, 2, 0x01, 0x00, 221, 3, 1, 2, 3];
    let ies = from_bytes(&buffer).unwrap();
    assert_eq!(ies.len(), 4);
    assert_eq!(ies[0].bytes(), &[0x61_u8, 0x62][..]);
    assert_eq!(ies[1].bytes(), &[11_u8][..]);
    assert_eq!(ies[2].bytes(), &[0x01_u8, 0x00][..]);
    assert_eq!(ies[3].bytes(), &[1_u8, 2, 3][..]);
    assert_eq!(ies[0].id(), 0);
    assert_eq!(ies[1].id(), 3);
    assert_eq!(ies[2].id(), 48);
    assert_eq!(ies[3].id(), 221);
}

#[test]
fn truncated_payload_keeps_earlier_elements() {
    // A complete DS parameter set, then an element declaring 10 bytes with
    // only 3 remaining: the scan stops without error.
    let buffer = [3, 1, 6, 0, 10, 1, 2, 3];
    let ies = from_bytes(&buffer).unwrap();
    assert_eq!(ies.len(), 1);
    assert!(matches!(ies[0], Ie::DsParameterSet(_)));
}

#[test]
fn truncated_header_keeps_earlier_elements() {
    // A complete SSID, then a lone identity byte without a length byte.
    let buffer = [0, 1, 0x78, 42];
    let ies = from_bytes(&buffer).unwrap();
    assert_eq!(ies.len(), 1);
}

#[test]
fn length_error_in_third_element_is_fatal() {
    // Two well-formed elements, then a DS parameter set with two bytes.
    let buffer = [0, 1, 0x78, 3, 1, 6, 3, 2, 1, 2];
    let e = from_bytes(&buffer).unwrap_err();
    assert_eq!(
        e,
        IeError::InvalidLength {
            ie_name: "DS Parameter Set",
            expected_length: 1,
            actual_length: 2,
        }
    );
}

#[test]
fn length_error_reports_minimum_for_min_length_elements() {
    let buffer = [7, 3, 0x55, 0x53, 0x20];
    let e = from_bytes(&buffer).unwrap_err();
    assert_eq!(
        e,
        IeError::InvalidLength {
            ie_name: "Country",
            expected_length: 6,
            actual_length: 3,
        }
    );
}

#[test]
fn vendor_specific_wpa_disambiguation() {
    // OUI 00:50:F2:01 selects the WPA element.
    let wpa_buffer = [221, 6, 0x00, 0x50, 0xf2, 0x01, 0x01, 0x00];
    let ies = from_bytes(&wpa_buffer).unwrap();
    assert!(matches!(ies[0], Ie::Wpa(_)));

    // Any other prefix stays vendor specific.
    let vendor_buffer = [221, 4, 0x00, 0x50, 0xf2, 0x02];
    let ies = from_bytes(&vendor_buffer).unwrap();
    assert!(matches!(ies[0], Ie::VendorSpecific(_)));

    // A payload shorter than the OUI prefix stays vendor specific.
    let short_buffer = [221, 3, 0x00, 0x50, 0xf2];
    let ies = from_bytes(&short_buffer).unwrap();
    assert!(matches!(ies[0], Ie::VendorSpecific(_)));
}

#[test]
fn extension_ids_dispatch_he_elements() {
    let buffer = [255, 2, 35, 1, 2, 255, 1, 36, 9];
    let ies = from_bytes(&buffer).unwrap();
    assert_eq!(ies.len(), 2);
    assert!(matches!(ies[0], Ie::HeCapabilities(_)));
    assert!(matches!(ies[1], Ie::HeOperation(_)));
    assert_eq!(ies[0].id(), 255);
    assert_eq!(ies[0].id_ext(), Some(35));
    assert_eq!(ies[0].bytes(), &[1_u8, 2][..]);
    assert_eq!(ies[1].id_ext(), Some(36));
}

#[test]
fn unknown_extension_id_becomes_unknown() {
    let buffer = [255, 1, 99, 7];
    let ies = from_bytes(&buffer).unwrap();
    assert!(matches!(ies[0], Ie::Unknown(_)));
    assert_eq!(ies[0].id(), 255);
    assert_eq!(ies[0].id_ext(), Some(99));
    assert_eq!(ies[0].bytes(), &[7_u8][..]);
    assert_eq!(ies[0].name(), "Unknown");
}

#[test]
fn unknown_id_preserves_identity_and_bytes() {
    let buffer = [200, 2, 0xde, 0xad];
    let ies = from_bytes(&buffer).unwrap();
    assert!(matches!(ies[0], Ie::Unknown(_)));
    assert_eq!(ies[0].id(), 200);
    assert_eq!(ies[0].id_ext(), None);
    assert_eq!(ies[0].bytes(), &[0xde_u8, 0xad][..]);
}

#[test]
fn sentinel_id_without_extension_byte_stops_scan() {
    // A complete element, then the sentinel ID with a length byte but no
    // extension byte left.
    let buffer = [3, 1, 6, 255, 0];
    let ies = from_bytes(&buffer).unwrap();
    assert_eq!(ies.len(), 1);
}

#[test]
fn zero_length_elements_decode() {
    let buffer = [0, 0, 5, 0];
    let ies = from_bytes(&buffer).unwrap();
    assert_eq!(ies.len(), 2);
    assert!(matches!(ies[0], Ie::Ssid(_)));
    assert!(matches!(ies[1], Ie::Tim(_)));
    assert!(ies[0].bytes().is_empty());
}

#[test]
fn element_display_names() {
    let mut buffer = vec![42u8, 1, 0, 61, 22];
    buffer.extend_from_slice(&[0u8; 22]);
    let ies = from_bytes(&buffer).unwrap();
    assert_eq!(ies[0].name(), "ERP Info");
    assert_eq!(ies[1].name(), "HT Operation");
}
