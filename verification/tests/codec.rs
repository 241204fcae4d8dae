use nusb::descriptors::{decode_languages_descriptor, decode_string_descriptor, validate_string_descriptor};
use nusb::errors::{errno_to_transfer_error, os_error_to_error, urb_status, Error, TransferError};
use nusb::enumeration::{
    list_devices, map_speed, probe_device, service_by_registry_id, DeviceProperties,
    InterfaceProperties, Speed,
};
use nusb::setup::{decode_setup_packet, Control, ControlIn, ControlOut, ControlType, Direction, Recipient};
use nusb::utf16::decode_utf16_lossy;

fn vendor_in_request() -> ControlIn {
    ControlIn {
        control_type: ControlType::Vendor,
        recipient: Recipient::Device,
        request: 0x30,
        value: 0,
        index: 0,
        length: 64,
    }
}

#[test]
fn setup_packet_vendor_in_bytes() {
    let packet = vendor_in_request().setup_packet();
    assert_eq!(packet, [0xC0, 0x30, 0x00, 0x00, 0x00, 0x00, 0x40, 0x00]);
}

#[test]
fn setup_packet_standard_out_bytes() {
    let control = Control {
        control_type: ControlType::Standard,
        recipient: Recipient::Endpoint,
        request: 0x01,
        value: 0x0000,
        index: 0x0081,
    };
    let packet = control.setup_packet(Direction::Out, 0);
    assert_eq!(packet, [0x02, 0x01, 0x00, 0x00, 0x81, 0x00, 0x00, 0x00]);
}

#[test]
fn setup_packet_roundtrip() {
    let control = Control {
        control_type: ControlType::Class,
        recipient: Recipient::Interface,
        request: 0xA1,
        value: 0x1234,
        index: 0xBEEF,
    };
    let packet = control.setup_packet(Direction::In, 0x8001);
    let (direction, decoded, length) = decode_setup_packet(&packet);
    assert_eq!(direction, Direction::In);
    assert_eq!(decoded, control);
    assert_eq!(length, 0x8001);
}

#[test]
fn setup_packet_out_carries_data_length() {
    let out = ControlOut {
        control_type: ControlType::Vendor,
        recipient: Recipient::Device,
        request: 0x32,
        value: 0,
        index: 0,
        data: vec![0x01, 0x02, 0x03, 0x04],
    };
    let packet = out.setup_packet().unwrap();
    assert_eq!(packet, [0x40, 0x32, 0x00, 0x00, 0x00, 0x00, 0x04, 0x00]);
}

#[test]
fn supported_languages_list() {
    let data = vec![0x04, 0x03, 0x09, 0x04];
    let langs = decode_languages_descriptor(&data).unwrap();
    assert_eq!(langs, vec![0x0409]);
}

#[test]
fn string_descriptor_hello() {
    let data = vec![
        0x0C, 0x03, b'H', 0, b'e', 0, b'l', 0, b'l', 0, b'o', 0,
    ];
    let s = decode_string_descriptor(&data).unwrap();
    assert_eq!(s, "Hello");
}

#[test]
fn string_descriptor_shorter_than_declared_is_invalid() {
    // Header declares 12 bytes but only 4 arrived.
    let data = vec![0x0C, 0x03, b'H', 0];
    assert!(!validate_string_descriptor(&data));
    assert_eq!(decode_string_descriptor(&data), Err(Error::InvalidData));
}

#[test]
fn string_descriptor_wrong_type_is_invalid() {
    let data = vec![0x04, 0x02, 0x09, 0x04];
    assert_eq!(decode_languages_descriptor(&data), Err(Error::InvalidData));
}

#[test]
fn unpaired_surrogate_is_replaced() {
    // One lone high surrogate, then 'A'.
    let units = vec![0xD800, 0x0041];
    let chars = decode_utf16_lossy(&units);
    assert_eq!(chars, vec!['\u{FFFD}', 'A']);
}

#[test]
fn surrogate_pair_is_combined() {
    // U+1F600 as the pair 0xD83D 0xDE00.
    let units = vec![0xD83D, 0xDE00];
    let chars = decode_utf16_lossy(&units);
    assert_eq!(chars, vec!['\u{1F600}']);
}

#[test]
fn errno_mapping() {
    assert_eq!(errno_to_transfer_error(19), TransferError::Disconnected);
    assert_eq!(errno_to_transfer_error(108), TransferError::Disconnected);
    assert_eq!(errno_to_transfer_error(32), TransferError::Stall);
    assert_eq!(errno_to_transfer_error(2), TransferError::Cancelled);
    assert_eq!(errno_to_transfer_error(104), TransferError::Cancelled);
    assert_eq!(errno_to_transfer_error(110), TransferError::Cancelled);
    assert_eq!(errno_to_transfer_error(71), TransferError::Fault);
    assert_eq!(errno_to_transfer_error(84), TransferError::Fault);
    assert_eq!(errno_to_transfer_error(75), TransferError::Fault);
    assert_eq!(errno_to_transfer_error(70), TransferError::Fault);
    assert_eq!(errno_to_transfer_error(62), TransferError::Fault);
    assert_eq!(errno_to_transfer_error(5), TransferError::Unknown);
}

#[test]
fn urb_status_reads_sign_both_ways() {
    assert_eq!(urb_status(0), Ok(()));
    assert_eq!(urb_status(32), Err(TransferError::Stall));
    assert_eq!(urb_status(-32), Err(TransferError::Stall));
}

#[test]
fn speed_codes() {
    assert_eq!(map_speed(0), Some(Speed::Low));
    assert_eq!(map_speed(1), Some(Speed::Full));
    assert_eq!(map_speed(2), Some(Speed::High));
    assert_eq!(map_speed(3), Some(Speed::Super));
    assert_eq!(map_speed(4), Some(Speed::SuperPlus));
    assert_eq!(map_speed(5), Some(Speed::SuperPlus));
    assert_eq!(map_speed(6), None);
    assert_eq!(map_speed(-1), None);
}

fn sample_props() -> DeviceProperties {
    DeviceProperties {
        registry_id: Some(0x1000_0001),
        location_id: Some(0x1_1234_5678),
        device_address: Some(7),
        vendor_id: Some(0xAAAA),
        product_id: Some(0xBBBB),
        device_version: Some(0x0102),
        class: Some(0),
        subclass: Some(0),
        protocol: Some(0),
        speed: Some(2),
        manufacturer_string: Some("Maker".to_string()),
        product_string: None,
        serial_number: None,
        interfaces: vec![
            InterfaceProperties {
                interface_number: Some(0),
                class: Some(255),
                subclass: Some(1),
                protocol: Some(2),
                interface_string: None,
            },
            InterfaceProperties {
                interface_number: Some(1),
                class: None,
                subclass: Some(0),
                protocol: Some(0),
                interface_string: None,
            },
        ],
    }
}

#[test]
fn probe_device_assembles_summary() {
    let d = probe_device(sample_props()).unwrap();
    assert_eq!(d.registry_id, 0x1000_0001);
    // The location property is narrowed to 32 bits.
    assert_eq!(d.location_id, 0x1234_5678);
    assert_eq!(d.bus_number, 0);
    assert_eq!(d.device_address, 7);
    assert_eq!(d.vendor_id, 0xAAAA);
    assert_eq!(d.product_id, 0xBBBB);
    assert_eq!(d.device_version, 0x0102);
    assert_eq!(d.speed, Some(Speed::High));
    assert_eq!(d.manufacturer_string.as_deref(), Some("Maker"));
    // The child entry missing its class property is skipped.
    assert_eq!(d.interfaces.len(), 1);
    assert_eq!(d.interfaces[0].class, 255);
}

#[test]
fn probe_device_missing_required_property() {
    let mut props = sample_props();
    props.vendor_id = None;
    assert_eq!(probe_device(props), None);
}

#[test]
fn probe_device_undocumented_speed_code() {
    let mut props = sample_props();
    props.speed = Some(9);
    let d = probe_device(props).unwrap();
    assert_eq!(d.speed, None);
}

#[test]
fn list_devices_skips_incomplete_entries() {
    let mut bad = sample_props();
    bad.registry_id = None;
    let mut second = sample_props();
    second.registry_id = Some(0x2000_0002);
    let all = vec![bad, sample_props(), second];
    let devices = list_devices(all);
    assert_eq!(devices.len(), 2);
    assert_eq!(devices[0].registry_id, 0x1000_0001);
    assert_eq!(devices[1].registry_id, 0x2000_0002);
}

#[test]
fn find_service_by_registry_id() {
    let ids = vec![Some(5u64), None, Some(9u64), Some(9u64)];
    assert_eq!(service_by_registry_id(&ids, 9), Ok(2));
    assert_eq!(service_by_registry_id(&ids, 5), Ok(0));
    assert_eq!(service_by_registry_id(&ids, 7), Err(Error::NotFound));
}

#[test]
fn os_error_mapping() {
    assert_eq!(os_error_to_error(2), Error::NotFound);
    assert_eq!(os_error_to_error(19), Error::NotFound);
    assert_eq!(os_error_to_error(1), Error::PermissionDenied);
    assert_eq!(os_error_to_error(13), Error::PermissionDenied);
    assert_eq!(os_error_to_error(95), Error::Unsupported);
    assert_eq!(os_error_to_error(22), Error::Io(22));
}
