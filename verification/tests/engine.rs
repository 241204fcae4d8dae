use nusb::buffers::{RequestBuffer, RequestIsochronousBuffer};
use nusb::descriptors::{
    ConfigurationDescriptor, DeviceDescriptor, EndpointDescriptor, InterfaceDescriptor,
};
use nusb::device::{Device, UsbAction};
use nusb::errors::TransferError;
use nusb::queue::QueuePayload;
use nusb::transfer::{TransferState, TransferType};

const EPIPE: i32 = 32;

fn sample_device() -> Device {
    let endpoints = vec![
        EndpointDescriptor {
            address: 0x81,
            transfer_type: TransferType::Bulk,
            max_packet_size: 64,
        },
        EndpointDescriptor {
            address: 0x02,
            transfer_type: TransferType::Bulk,
            max_packet_size: 64,
        },
    ];
    let alt0 = InterfaceDescriptor {
        interface_number: 0,
        alternate_setting: 0,
        class: 0,
        subclass: 0,
        protocol: 0,
        string_index: 0,
        endpoints,
    };
    let alt1 = InterfaceDescriptor {
        interface_number: 0,
        alternate_setting: 1,
        class: 0,
        subclass: 0,
        protocol: 0,
        string_index: 0,
        endpoints: Vec::new(),
    };
    let other = InterfaceDescriptor {
        interface_number: 1,
        alternate_setting: 0,
        class: 3,
        subclass: 0,
        protocol: 0,
        string_index: 0,
        endpoints: Vec::new(),
    };
    let config = ConfigurationDescriptor {
        configuration_value: 1,
        attributes: 0x80,
        max_power: 50,
        string_index: 0,
        interfaces: vec![alt0, alt1, other],
    };
    let descriptor = DeviceDescriptor {
        usb_version: 0x0200,
        class: 0x00,
        subclass: 0,
        protocol: 0,
        max_packet_size_0: 64,
        vendor_id: 0xAAAA,
        product_id: 0xBBBB,
        device_version: 0x0100,
        num_configurations: 1,
    };
    Device::new(descriptor, vec![config], 1, None)
}

#[test]
fn open_claim_bulk_loop() {
    // Enumerate-by-class, open, claim, bulk OUT then bulk IN.
    let device = sample_device();
    assert_eq!(device.device_descriptor().class, 0x00);
    let interface = device.claim_interface(0).unwrap();

    let mut fut = interface.bulk_out(0x02, vec![0xDE, 0xAD, 0xBE, 0xEF]);
    assert!(!fut.poll_complete());
    fut.transfer.complete_out(0, 4);
    assert!(fut.poll_complete());
    let completion = fut.transfer.take_completed_response();
    assert_eq!(completion.status, Ok(()));
    assert_eq!(completion.data.actual_length, 4);
    assert_eq!(completion.data.capacity, 4);

    let mut fut = interface.bulk_in(0x81, RequestBuffer::new(512));
    let received = vec![0x55; 17];
    fut.transfer.complete_in(0, received.clone());
    let completion = fut.transfer.take_completed_in();
    assert_eq!(completion.status, Ok(()));
    assert!(completion.data.len() <= 512);
    assert_eq!(completion.data, received);
}

#[test]
fn vendor_control_in_strips_setup() {
    let device = sample_device();
    let request = nusb::setup::ControlIn {
        control_type: nusb::setup::ControlType::Vendor,
        recipient: nusb::setup::Recipient::Device,
        request: 0x30,
        value: 0,
        index: 0,
        length: 64,
    };
    let mut fut = device.control_in(request);
    // The control block carries the setup packet before the data region.
    assert_eq!(fut.transfer.urb.buffer, vec![0xC0, 0x30, 0, 0, 0, 0, 64, 0]);
    assert_eq!(fut.transfer.urb.buffer_length, 8 + 64);

    let payload = vec![0x11, 0x22, 0x33];
    fut.transfer.complete_control_in(0, payload.clone());
    let completion = fut.transfer.take_completed_control_in();
    assert_eq!(completion.status, Ok(()));
    assert!(completion.data.len() <= 64);
    // The returned payload is the data phase alone: no setup bytes.
    assert_eq!(completion.data, payload);
}

#[test]
fn zero_length_bulk_out() {
    let device = sample_device();
    let interface = device.claim_interface(0).unwrap();
    let mut fut = interface.bulk_out(0x02, Vec::new());
    fut.transfer.complete_out(0, 0);
    let completion = fut.transfer.take_completed_response();
    assert_eq!(completion.status, Ok(()));
    assert_eq!(completion.data.actual_length, 0);
}

#[test]
fn stall_recovery() {
    let device = sample_device();
    let interface = device.claim_interface(0).unwrap();

    let mut fut = interface.bulk_in(0x81, RequestBuffer::new(64));
    fut.transfer.complete_in(-EPIPE, Vec::new());
    let completion = fut.transfer.take_completed_in();
    assert_eq!(completion.status, Err(TransferError::Stall));

    assert_eq!(interface.clear_halt(0x81), UsbAction::ClearHalt(0x81));

    // Resubmit the same buffer allocation.
    let buf = RequestBuffer::reuse(completion.data, 64);
    let mut fut = interface.bulk_in(0x81, buf);
    fut.transfer.complete_in(0, vec![1, 2, 3]);
    let completion = fut.transfer.take_completed_in();
    assert_eq!(completion.status, Ok(()));
    assert_eq!(completion.data, vec![1, 2, 3]);
}

#[test]
fn queue_orders_out_of_order_completions() {
    let device = sample_device();
    let interface = device.claim_interface(0).unwrap();
    let mut queue = interface.bulk_in_queue(0x81);

    queue.submit_request(RequestBuffer::new(64));
    queue.submit_request(RequestBuffer::new(64));
    queue.submit_request(RequestBuffer::new(64));
    assert_eq!(queue.pending_len(), 3);

    let a = vec![0xAA; 8];
    let b = vec![0xBB; 8];
    let c = vec![0xCC; 8];

    // The OS completes B first; the queue parks it.
    queue.complete_request(1, 0, b.clone());
    assert!(queue.poll_complete().is_none());

    queue.complete_request(0, 0, a.clone());
    let first = queue.poll_complete().unwrap();
    assert_eq!(first.data, QueuePayload::Bytes(a));
    let second = queue.poll_complete().unwrap();
    assert_eq!(second.data, QueuePayload::Bytes(b));
    assert!(queue.poll_complete().is_none());

    queue.complete_request(0, 0, c.clone());
    let third = queue.poll_complete().unwrap();
    assert_eq!(third.data, QueuePayload::Bytes(c));
    assert!(queue.is_empty());
}

#[test]
fn queue_with_nothing_submitted_never_resolves() {
    let device = sample_device();
    let interface = device.claim_interface(0).unwrap();
    let mut queue = interface.bulk_in_queue(0x81);
    assert!(queue.poll_complete().is_none());
    assert!(queue.poll_complete().is_none());
    assert_eq!(queue.pending_len(), 0);
}

#[test]
fn queue_cancel_all_surfaces_cancelled_status() {
    const ENOENT: i32 = 2;
    let device = sample_device();
    let interface = device.claim_interface(0).unwrap();
    let mut queue = interface.bulk_in_queue(0x81);
    queue.submit_request(RequestBuffer::new(64));
    queue.submit_request(RequestBuffer::new(64));
    queue.cancel_all();
    // The OS reaps both as cancelled.
    queue.complete_request(0, -ENOENT, Vec::new());
    queue.complete_request(1, -ENOENT, Vec::new());
    let first = queue.poll_complete().unwrap();
    assert_eq!(first.status, Err(TransferError::Cancelled));
    let second = queue.poll_complete().unwrap();
    assert_eq!(second.status, Err(TransferError::Cancelled));
    assert!(queue.is_empty());
}

#[test]
fn queue_recycles_out_buffers() {
    let device = sample_device();
    let interface = device.claim_interface(0).unwrap();
    let mut queue = interface.bulk_out_queue(0x02);
    queue.submit_out(vec![1, 2, 3, 4, 5]);
    queue.complete_out(0, 0, 5);
    let completion = queue.poll_complete().unwrap();
    match completion.data {
        QueuePayload::Recycled(rb) => {
            assert_eq!(rb.capacity, 5);
            assert_eq!(rb.actual_length, 5);
        }
        other => panic!("unexpected payload {:?}", other),
    }
}

#[test]
fn cancel_on_drop_keeps_buffer_until_reaped() {
    let device = sample_device();
    let interface = device.claim_interface(0).unwrap();
    let fut = interface.bulk_in(0x81, RequestBuffer::new(64));

    // Dropping the future requests cancellation and detaches; the
    // transfer and its buffer region stay alive for the dispatcher.
    let mut detached = fut.drop_pending();
    assert_eq!(detached.state, TransferState::Pending);
    assert_eq!(detached.urb.buffer_length, 64);

    // The dispatcher later observes the completion and reaps it.
    detached.complete_in(-2, Vec::new());
    let completion = detached.take_completed_in();
    assert_eq!(completion.status, Err(TransferError::Cancelled));
    assert_eq!(detached.state, TransferState::Idle);
}

#[test]
fn isochronous_packets_are_sliced_and_bad_ones_omitted() {
    let device = sample_device();
    let interface = device.claim_interface(0).unwrap();
    let buf = RequestIsochronousBuffer::new(4, 3);
    assert_eq!(buf.capacity, 12);
    let mut fut = interface.isochronous_in(0x83, buf);

    let region: Vec<u8> = (0u8..12).collect();
    // Packet lengths 4 each; the middle packet failed.
    let packets = vec![(4u32, 0u32), (2, 1), (3, 0)];
    fut.transfer.complete_iso(0, &packets, region);
    let completion = fut.transfer.take_completed_iso();
    assert_eq!(completion.status, Ok(()));
    assert!(completion.data.len() <= 3);
    assert_eq!(completion.data, vec![vec![0, 1, 2, 3], vec![8, 9, 10]]);
}

#[test]
fn isochronous_buffer_reuse_keeps_allocation() {
    let buf = RequestIsochronousBuffer::new(8, 4);
    assert_eq!(buf.capacity, 32);
    assert_eq!(buf.requested, 8);
    assert_eq!(buf.number_of_packets, 4);
    let recycled = RequestIsochronousBuffer::reuse(vec![0; 32], 4, 2);
    // The existing 32-byte allocation suffices for 4 * 2 and is kept.
    assert_eq!(recycled.capacity, 32);
    assert_eq!(recycled.requested, 4);
    assert_eq!(recycled.number_of_packets, 2);
}

#[test]
fn response_buffer_reuse_preserves_capacity() {
    let device = sample_device();
    let interface = device.claim_interface(0).unwrap();
    let mut fut = interface.bulk_out(0x02, vec![9; 256]);
    fut.transfer.complete_out(0, 256);
    let completion = fut.transfer.take_completed_response();
    let before = completion.data.capacity;
    let reused = completion.data.reuse(64);
    assert_eq!(reused.capacity, before);
    assert_eq!(reused.requested, 64);
}

#[test]
fn active_configuration_lookup() {
    let device = sample_device();
    let config = device.active_configuration().unwrap();
    assert_eq!(config.configuration_value, 1);

    let mut other = sample_device();
    other.on_configuration_changed(4);
    let err = other.active_configuration().unwrap_err();
    assert_eq!(err.configuration_value, 4);
    assert_eq!(err.to_error(), nusb::errors::Error::NoActiveConfiguration);
}

#[test]
fn claimed_interface_sees_its_alt_settings() {
    let device = sample_device();
    let mut interface = device.claim_interface(0).unwrap();
    assert_eq!(interface.interface_number(), 0);
    assert_eq!(interface.descriptors().len(), 2);
    assert_eq!(interface.get_alt_setting(), 0);
    assert_eq!(interface.descriptor().unwrap().alternate_setting, 0);
    assert_eq!(interface.descriptor().unwrap().endpoints.len(), 2);

    let action = interface.set_alt_setting(1);
    assert_eq!(action, UsbAction::SetAltSetting(0, 1));
    assert_eq!(interface.get_alt_setting(), 1);
    assert_eq!(interface.descriptor().unwrap().alternate_setting, 1);
}

#[test]
fn device_actions_name_the_operation() {
    let device = sample_device();
    assert_eq!(device.set_configuration(2), UsbAction::SetConfiguration(2));
    assert_eq!(device.reset(), UsbAction::Reset);
    assert_eq!(device.detach_kernel_driver(0), UsbAction::DetachKernelDriver(0));
    assert_eq!(device.attach_kernel_driver(0), UsbAction::AttachKernelDriver(0));
}

#[test]
fn get_descriptor_request_encoding() {
    let device = sample_device();
    let action = device.get_descriptor(0x03, 1, 0x0409, 100);
    match action {
        UsbAction::ControlInBlocking { setup, timeout_millis } => {
            // Standard IN request to the device: GET_DESCRIPTOR, string
            // descriptor index 1, language 0x0409, 4096-byte buffer.
            assert_eq!(setup, [0x80, 0x06, 0x01, 0x03, 0x09, 0x04, 0x00, 0x10]);
            assert_eq!(timeout_millis, 100);
        }
        other => panic!("unexpected action {:?}", other),
    }
}

#[test]
fn control_out_blocking_frames_setup_and_data() {
    let device = sample_device();
    let control = nusb::setup::Control {
        control_type: nusb::setup::ControlType::Vendor,
        recipient: nusb::setup::Recipient::Device,
        request: 0x32,
        value: 0,
        index: 0,
    };
    let action = device.control_out_blocking(control, &vec![0x01, 0x02], 50);
    match action {
        UsbAction::ControlOutBlocking { data, timeout_millis } => {
            assert_eq!(data, vec![0x40, 0x32, 0, 0, 0, 0, 2, 0, 0x01, 0x02]);
            assert_eq!(timeout_millis, 50);
        }
        other => panic!("unexpected action {:?}", other),
    }
}

#[test]
fn string_descriptor_via_device() {
    let device = sample_device();
    let data = vec![0x0C, 0x03, b'H', 0, b'e', 0, b'l', 0, b'l', 0, b'o', 0];
    assert_eq!(device.get_string_descriptor(&data).unwrap(), "Hello");
    let langs = vec![0x04, 0x03, 0x09, 0x04];
    assert_eq!(
        device
            .get_string_descriptor_supported_languages(&langs)
            .unwrap(),
        vec![0x0409]
    );
}

fn require_send_sync<T: Send + Sync>() {}

#[test]
fn assert_send_sync() {
    require_send_sync::<nusb::device::Interface>();
    require_send_sync::<nusb::device::Device>();
}

#[test]
fn queue_reuses_freed_transfers() {
    let device = sample_device();
    let interface = device.claim_interface(0).unwrap();
    let mut queue = interface.bulk_out_queue(0x02);
    queue.submit_out(vec![1, 2, 3]);
    queue.complete_out(0, 0, 3);
    queue.poll_complete().unwrap();
    assert!(queue.is_empty());
    // The reaped transfer's storage backs the next submission.
    queue.submit_out(vec![4, 5]);
    assert_eq!(queue.pending_len(), 1);
    queue.complete_out(0, 0, 2);
    let completion = queue.poll_complete().unwrap();
    assert_eq!(completion.status, Ok(()));
}
