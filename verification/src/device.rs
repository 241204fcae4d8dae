//! The device and interface handles layered over the transfer engine.
//!
//! A handle holds the cached descriptors and mints work: a single
//! transfer wrapped in a future, a queue over an endpoint, or a
//! [`UsbAction`] naming an operation only the platform can perform. The
//! platform layer carries each action out and hands the OS's reply back
//! as plain values; everything decided here — which request goes on the
//! wire, which descriptor is active, which alt settings belong to an
//! interface — is stated in the contracts.

use vstd::prelude::*;
use crate::descriptors::{
    decode_languages_descriptor, decode_string_descriptor, is_valid_string_descriptor, le_words,
    ConfigurationDescriptor, DeviceDescriptor, InterfaceDescriptor,
};
use crate::buffers::{RequestBuffer, RequestIsochronousBuffer};
use crate::enumeration::Speed;
use crate::errors::Error;
use crate::future::TransferFuture;
use crate::queue::Queue;
use crate::setup::{
    setup_bytes, Control, ControlIn, ControlOut, ControlType, Direction, Recipient,
    SETUP_PACKET_SIZE,
};
use crate::transfer::{PayloadKind, TransferData, TransferState, TransferType};
use crate::utf16::utf16_scalars;

verus! {

/// Standard request code of `GET_DESCRIPTOR`.
pub const STANDARD_REQUEST_GET_DESCRIPTOR: u8 = 0x06;

/// Length of the buffer a descriptor is requested into.
pub const DESCRIPTOR_REQUEST_LENGTH: u16 = 4096;

/// An operation that only the platform can perform, named by the core
/// and carried out by the platform layer.
#[derive(Debug, PartialEq, Eq)]
pub enum UsbAction {
    /// Detach kernel drivers from an interface, where the platform
    /// supports it.
    DetachKernelDriver(u8),
    /// Attach kernel drivers to an interface, where the platform
    /// supports it.
    AttachKernelDriver(u8),
    /// Set the device configuration to the given value.
    SetConfiguration(u8),
    /// Reset the device, forcing it to re-enumerate.
    Reset,
    /// Clear an endpoint's halt condition and reset its data toggle.
    ClearHalt(u8),
    /// Select an alternate setting of an interface: `(interface, alt)`.
    SetAltSetting(u8, u8),
    /// A blocking IN transfer on the default control endpoint: the setup
    /// packet to send, and the timeout to apply.
    ControlInBlocking { setup: [u8; 8], timeout_millis: u64 },
    /// A blocking OUT transfer on the default control endpoint: the
    /// setup packet followed by the data to send, and the timeout.
    ControlOutBlocking { data: Vec<u8>, timeout_millis: u64 },
}

/// The alt settings among the first `j` interface descriptors that
/// belong to interface `num`, in order.
pub open spec fn alt_settings_upto(s: Seq<InterfaceDescriptor>, num: u8, j: int) -> Seq<
    InterfaceDescriptor,
>
    decreases j,
{
    if j <= 0 {
        Seq::empty()
    } else {
        alt_settings_upto(s, num, j - 1) + (if s[j - 1].interface_number == num {
            seq![s[j - 1]]
        } else {
            Seq::empty()
        })
    }
}

/// Whether two interface descriptors hold the same contents, the
/// endpoint list compared element by element.
pub open spec fn iface_like(a: InterfaceDescriptor, b: InterfaceDescriptor) -> bool {
    &&& a.interface_number == b.interface_number
    &&& a.alternate_setting == b.alternate_setting
    &&& a.class == b.class
    &&& a.subclass == b.subclass
    &&& a.protocol == b.protocol
    &&& a.string_index == b.string_index
    &&& a.endpoints@ == b.endpoints@
}

/// Copy an interface descriptor, contents for contents.
fn copy_interface_descriptor(d: &InterfaceDescriptor) -> (r: InterfaceDescriptor)
    ensures
        iface_like(r, *d),
{
    let mut endpoints = Vec::new();
    let mut k: usize = 0;
    while k < d.endpoints.len()
        invariant
            k <= d.endpoints@.len(),
            endpoints@ == d.endpoints@.take(k as int),
        decreases d.endpoints@.len() - k,
    {
        endpoints.push(d.endpoints[k]);
        proof {
            assert(endpoints@ =~= d.endpoints@.take(k as int + 1));
        }
        k += 1;
    }
    proof {
        assert(endpoints@ =~= d.endpoints@);
    }
    InterfaceDescriptor {
        interface_number: d.interface_number,
        alternate_setting: d.alternate_setting,
        class: d.class,
        subclass: d.subclass,
        protocol: d.protocol,
        string_index: d.string_index,
        endpoints,
    }
}

/// An opened USB device: the cached descriptors and the active
/// configuration value the OS reported at open.
pub struct Device {
    pub device_descriptor: DeviceDescriptor,
    pub configurations: Vec<ConfigurationDescriptor>,
    pub active_configuration_value: u8,
    pub speed: Option<Speed>,
}

impl Device {
    /// Whether the `i`-th configuration is the first one carrying the
    /// active configuration value.
    pub open spec fn is_first_active_config(self, i: int) -> bool {
        &&& 0 <= i < self.configurations@.len()
        &&& self.configurations@[i].configuration_value == self.active_configuration_value
        &&& forall|k: int|
            0 <= k < i ==> self.configurations@[k].configuration_value
                != self.active_configuration_value
    }

    /// Whether a configuration descriptor matching the active value is
    /// cached.
    pub open spec fn has_active_config(self) -> bool {
        exists|i: int|
            0 <= i < self.configurations@.len()
                && self.configurations@[i].configuration_value == self.active_configuration_value
    }

    /// Wrap the data an opened device hands over.
    pub fn new(
        device_descriptor: DeviceDescriptor,
        configurations: Vec<ConfigurationDescriptor>,
        active_configuration_value: u8,
        speed: Option<Speed>,
    ) -> (r: Device)
        ensures
            r.device_descriptor == device_descriptor,
            r.configurations == configurations,
            r.active_configuration_value == active_configuration_value,
            r.speed == speed,
    {
        Device { device_descriptor, configurations, active_configuration_value, speed }
    }

    /// The cached device descriptor. No I/O is performed.
    pub fn device_descriptor(&self) -> (r: DeviceDescriptor)
        ensures
            r == self.device_descriptor,
    {
        self.device_descriptor
    }

    /// The device speed the OS reported, where it reported one.
    pub fn speed(&self) -> (r: Option<Speed>)
        ensures
            r == self.speed,
    {
        self.speed
    }

    /// The cached configuration descriptors. No I/O is performed.
    pub fn configurations(&self) -> (r: &Vec<ConfigurationDescriptor>)
        ensures
            r == &self.configurations,
    {
        &self.configurations
    }

    /// The configuration descriptor whose value the OS reported as
    /// active: the first cached one carrying that value. Fails exactly
    /// when no cached descriptor carries it, naming the value.
    pub fn active_configuration(&self) -> (r: Result<
        &ConfigurationDescriptor,
        crate::errors::ActiveConfigurationError,
    >)
        ensures
            r is Ok <==> self.has_active_config(),
            r matches Ok(c) ==> exists|i: int|
                #[trigger] self.is_first_active_config(i) && c == &self.configurations@[i],
            r matches Err(e) ==> e.configuration_value == self.active_configuration_value,
    {
        let mut i: usize = 0;
        while i < self.configurations.len()
            invariant
                i <= self.configurations@.len(),
                forall|k: int|
                    0 <= k < i ==> self.configurations@[k].configuration_value
                        != self.active_configuration_value,
            decreases self.configurations@.len() - i,
        {
            if self.configurations[i].configuration_value == self.active_configuration_value {
                proof {
                    assert(self.is_first_active_config(i as int));
                }
                return Ok(&self.configurations[i]);
            }
            i += 1;
        }
        Err(crate::errors::ActiveConfigurationError {
            configuration_value: self.active_configuration_value,
        })
    }

    /// Name the operation that sets the device configuration.
    pub fn set_configuration(&self, configuration: u8) -> (r: UsbAction)
        ensures
            r == UsbAction::SetConfiguration(configuration),
    {
        UsbAction::SetConfiguration(configuration)
    }

    /// Record the configuration value the OS reports after a
    /// configuration change.
    pub fn on_configuration_changed(&mut self, value: u8)
        ensures
            final(self).active_configuration_value == value,
            final(self).device_descriptor == old(self).device_descriptor,
            final(self).configurations == old(self).configurations,
            final(self).speed == old(self).speed,
    {
        self.active_configuration_value = value;
    }

    /// Name the operation that resets the device. The handle should be
    /// dropped afterwards and the device re-enumerated.
    pub fn reset(&self) -> (r: UsbAction)
        ensures
            r == UsbAction::Reset,
    {
        UsbAction::Reset
    }

    /// Name the operation that detaches kernel drivers from an
    /// interface; a no-op on platforms without the operation.
    pub fn detach_kernel_driver(&self, interface: u8) -> (r: UsbAction)
        ensures
            r == UsbAction::DetachKernelDriver(interface),
    {
        UsbAction::DetachKernelDriver(interface)
    }

    /// Name the operation that re-attaches kernel drivers to an
    /// interface; a no-op on platforms without the operation.
    pub fn attach_kernel_driver(&self, interface: u8) -> (r: UsbAction)
        ensures
            r == UsbAction::AttachKernelDriver(interface),
    {
        UsbAction::AttachKernelDriver(interface)
    }

    /// Claim an interface: snapshot its alt settings from the active
    /// configuration into a handle. The OS-side claim is the platform
    /// layer's to perform before transfers are submitted.
    pub fn claim_interface(&self, interface: u8) -> (r: Result<Interface, Error>)
        ensures
            r is Ok,
            r matches Ok(i) ==> {
                &&& i.interface_number == interface
                &&& i.alt_setting == 0
                &&& i.active_configuration_value == self.active_configuration_value
                &&& self.has_active_config() ==> exists|ci: int|
                    #[trigger] self.is_first_active_config(ci) && {
                        let alts = alt_settings_upto(
                            self.configurations@[ci].interfaces@,
                            interface,
                            self.configurations@[ci].interfaces@.len() as int,
                        );
                        &&& i.interfaces@.len() == alts.len()
                        &&& forall|j: int|
                            0 <= j < alts.len() ==> iface_like(#[trigger] i.interfaces@[j], alts[j])
                    }
                &&& !self.has_active_config() ==> i.interfaces@.len() == 0
            },
    {
        let mut alts: Vec<InterfaceDescriptor> = Vec::new();
        let cfg = match self.active_configuration() {
            Ok(c) => Some(c),
            Err(_) => None,
        };
        match cfg {
            Some(c) => {
                let mut j: usize = 0;
                while j < c.interfaces.len()
                    invariant
                        j <= c.interfaces@.len(),
                        alts@.len() == alt_settings_upto(c.interfaces@, interface, j as int).len(),
                        forall|k: int|
                            0 <= k < alts@.len() ==> iface_like(
                                #[trigger] alts@[k],
                                alt_settings_upto(c.interfaces@, interface, j as int)[k],
                            ),
                    decreases c.interfaces@.len() - j,
                {
                    if c.interfaces[j].interface_number == interface {
                        alts.push(copy_interface_descriptor(&c.interfaces[j]));
                    }
                    j += 1;
                }
            },
            None => {},
        }
        Ok(
            Interface {
                interface_number: interface,
                alt_setting: 0,
                active_configuration_value: self.active_configuration_value,
                interfaces: alts,
            },
        )
    }

    /// Detach kernel drivers, then claim the interface. The detaching is
    /// the platform layer's work; the handle is the same as
    /// [`Device::claim_interface`] yields.
    pub fn detach_and_claim_interface(&self, interface: u8) -> (r: Result<Interface, Error>)
        ensures
            r is Ok,
            r matches Ok(i) ==> {
                &&& i.interface_number == interface
                &&& i.alt_setting == 0
                &&& i.active_configuration_value == self.active_configuration_value
                &&& self.has_active_config() ==> exists|ci: int|
                    #[trigger] self.is_first_active_config(ci) && {
                        let alts = alt_settings_upto(
                            self.configurations@[ci].interfaces@,
                            interface,
                            self.configurations@[ci].interfaces@.len() as int,
                        );
                        &&& i.interfaces@.len() == alts.len()
                        &&& forall|j: int|
                            0 <= j < alts.len() ==> iface_like(#[trigger] i.interfaces@[j], alts[j])
                    }
                &&& !self.has_active_config() ==> i.interfaces@.len() == 0
            },
    {
        self.claim_interface(interface)
    }

    /// Name the standard `GET_DESCRIPTOR` control request for a
    /// descriptor: type and index in the value field, the language ID in
    /// the index field.
    pub fn get_descriptor(
        &self,
        desc_type: u8,
        desc_index: u8,
        language_id: u16,
        timeout_millis: u64,
    ) -> (r: UsbAction)
        ensures
            r matches UsbAction::ControlInBlocking { setup, timeout_millis: t } && setup@
                == setup_bytes(
                Direction::In,
                (Control {
                    control_type: ControlType::Standard,
                    recipient: Recipient::Device,
                    request: STANDARD_REQUEST_GET_DESCRIPTOR,
                    value: (desc_type as u16 * 256 + desc_index as u16) as u16,
                    index: language_id,
                }),
                DESCRIPTOR_REQUEST_LENGTH,
            ) && t == timeout_millis,
    {
        let control = Control {
            control_type: ControlType::Standard,
            recipient: Recipient::Device,
            request: STANDARD_REQUEST_GET_DESCRIPTOR,
            value: desc_type as u16 * 256 + desc_index as u16,
            index: language_id,
        };
        self.control_in_blocking(control, DESCRIPTOR_REQUEST_LENGTH, timeout_millis)
    }

    /// Decode the reply to a string-descriptor request for index 0: the
    /// list of language IDs the device supports. Fails exactly when the
    /// returned bytes are not a conforming string descriptor.
    pub fn get_string_descriptor_supported_languages(&self, data: &Vec<u8>) -> (r: Result<
        Vec<u16>,
        Error,
    >)
        ensures
            r is Ok <==> is_valid_string_descriptor(data@),
            r matches Ok(langs) ==> langs@ == le_words(data@.skip(2)),
            r is Err ==> r == Result::<Vec<u16>, Error>::Err(Error::InvalidData),
    {
        decode_languages_descriptor(data)
    }

    /// Decode the reply to a string-descriptor request: its UTF-16 body,
    /// unpaired surrogates replaced with U+FFFD. Fails exactly when the
    /// returned bytes are not a conforming string descriptor.
    pub fn get_string_descriptor(&self, data: &Vec<u8>) -> (r: Result<String, Error>)
        ensures
            r is Ok <==> is_valid_string_descriptor(data@),
            r matches Ok(s) ==> s@.map_values(|c: char| c as u32) == utf16_scalars(
                le_words(data@.skip(2)),
            ),
            r is Err ==> r == Result::<String, Error>::Err(Error::InvalidData),
    {
        decode_string_descriptor(data)
    }

    /// Name a blocking IN transfer on the default control endpoint
    /// requesting up to `length` bytes.
    pub fn control_in_blocking(&self, control: Control, length: u16, timeout_millis: u64) -> (r:
        UsbAction)
        ensures
            r matches UsbAction::ControlInBlocking { setup, timeout_millis: t } && setup@
                == setup_bytes(Direction::In, control, length) && t == timeout_millis,
    {
        UsbAction::ControlInBlocking { setup: control.setup_packet(Direction::In, length), timeout_millis }
    }

    /// Name a blocking OUT transfer on the default control endpoint:
    /// the setup packet followed by the data to send.
    pub fn control_out_blocking(&self, control: Control, data: &Vec<u8>, timeout_millis: u64) -> (r:
        UsbAction)
        requires
            data@.len() <= u16::MAX,
        ensures
            r matches UsbAction::ControlOutBlocking { data: d, timeout_millis: t } && d@
                == setup_bytes(Direction::Out, control, data@.len() as u16) + data@ && t
                == timeout_millis,
    {
        let setup = control.setup_packet(Direction::Out, data.len() as u16);
        let mut buf: Vec<u8> = Vec::new();
        let mut k: usize = 0;
        while k < 8
            invariant
                k <= 8,
                buf@ == setup@.take(k as int),
            decreases 8 - k,
        {
            buf.push(setup[k]);
            proof {
                assert(buf@ =~= setup@.take(k as int + 1));
            }
            k += 1;
        }
        proof {
            assert(buf@ =~= setup@);
        }
        let mut k: usize = 0;
        while k < data.len()
            invariant
                k <= data@.len(),
                buf@ == setup@ + data@.take(k as int),
            decreases data@.len() - k,
        {
            buf.push(data[k]);
            proof {
                assert(buf@ =~= setup@ + data@.take(k as int + 1));
            }
            k += 1;
        }
        proof {
            assert(buf@ =~= setup@ + data@);
        }
        UsbAction::ControlOutBlocking { data: buf, timeout_millis }
    }

    /// Submit an IN transfer on the default control endpoint: a fresh
    /// transfer with the setup packet installed, wrapped in a future.
    /// The platform layer hands the pending control block to the kernel.
    pub fn control_in(&self, data: ControlIn) -> (r: TransferFuture)
        ensures
            r.transfer.wf(),
            r.transfer.state == TransferState::Pending,
            r.transfer.kind == PayloadKind::ControlIn,
            r.transfer.urb.endpoint == 0,
            r.transfer.urb.ep_type == TransferType::Control,
            r.transfer.urb.buffer@ == setup_bytes(Direction::In, data.spec_control(), data.length),
            r.transfer.urb.buffer_length == SETUP_PACKET_SIZE + data.length,
            r.transfer.cancel_requests@ == 0,
    {
        let mut t = TransferData::new(0, TransferType::Control);
        t.submit_control_in(&data);
        TransferFuture::new(t)
    }

    /// Submit an OUT transfer on the default control endpoint: a fresh
    /// transfer with the setup packet and data installed, wrapped in a
    /// future.
    pub fn control_out(&self, data: &ControlOut) -> (r: TransferFuture)
        requires
            data.data@.len() <= u16::MAX,
        ensures
            r.transfer.wf(),
            r.transfer.state == TransferState::Pending,
            r.transfer.kind == PayloadKind::ControlOut,
            r.transfer.urb.endpoint == 0,
            r.transfer.urb.ep_type == TransferType::Control,
            r.transfer.urb.buffer@ == setup_bytes(
                Direction::Out,
                data.spec_control(),
                data.data@.len() as u16,
            ) + data.data@,
            r.transfer.urb.buffer_length == SETUP_PACKET_SIZE + data.data@.len(),
            r.transfer.cancel_requests@ == 0,
    {
        let mut t = TransferData::new(0, TransferType::Control);
        t.submit_control_out(data);
        TransferFuture::new(t)
    }
}

/// A claimed interface of an opened device: its number, the alternate
/// setting in use, and the snapshot of its alt-setting descriptors from
/// the active configuration.
pub struct Interface {
    pub interface_number: u8,
    pub alt_setting: u8,
    pub active_configuration_value: u8,
    pub interfaces: Vec<InterfaceDescriptor>,
}

impl Interface {
    /// Select an alternate setting: record it and name the platform
    /// operation that applies it.
    pub fn set_alt_setting(&mut self, alt_setting: u8) -> (r: UsbAction)
        ensures
            final(self).alt_setting == alt_setting,
            final(self).interface_number == old(self).interface_number,
            final(self).active_configuration_value == old(self).active_configuration_value,
            final(self).interfaces == old(self).interfaces,
            r == UsbAction::SetAltSetting(old(self).interface_number, alt_setting),
    {
        self.alt_setting = alt_setting;
        UsbAction::SetAltSetting(self.interface_number, alt_setting)
    }

    /// The alternate setting in use.
    pub fn get_alt_setting(&self) -> (r: u8)
        ensures
            r == self.alt_setting,
    {
        self.alt_setting
    }

    /// Name a blocking IN transfer on the default control endpoint
    /// requesting up to `length` bytes.
    pub fn control_in_blocking(&self, control: Control, length: u16, timeout_millis: u64) -> (r:
        UsbAction)
        ensures
            r matches UsbAction::ControlInBlocking { setup, timeout_millis: t } && setup@
                == setup_bytes(Direction::In, control, length) && t == timeout_millis,
    {
        UsbAction::ControlInBlocking { setup: control.setup_packet(Direction::In, length), timeout_millis }
    }

    /// Name a blocking OUT transfer on the default control endpoint:
    /// the setup packet followed by the data to send.
    pub fn control_out_blocking(&self, control: Control, data: &Vec<u8>, timeout_millis: u64) -> (r:
        UsbAction)
        requires
            data@.len() <= u16::MAX,
        ensures
            r matches UsbAction::ControlOutBlocking { data: d, timeout_millis: t } && d@
                == setup_bytes(Direction::Out, control, data@.len() as u16) + data@ && t
                == timeout_millis,
    {
        let setup = control.setup_packet(Direction::Out, data.len() as u16);
        let mut buf: Vec<u8> = Vec::new();
        let mut k: usize = 0;
        while k < 8
            invariant
                k <= 8,
                buf@ == setup@.take(k as int),
            decreases 8 - k,
        {
            buf.push(setup[k]);
            proof {
                assert(buf@ =~= setup@.take(k as int + 1));
            }
            k += 1;
        }
        proof {
            assert(buf@ =~= setup@);
        }
        let mut k: usize = 0;
        while k < data.len()
            invariant
                k <= data@.len(),
                buf@ == setup@ + data@.take(k as int),
            decreases data@.len() - k,
        {
            buf.push(data[k]);
            proof {
                assert(buf@ =~= setup@ + data@.take(k as int + 1));
            }
            k += 1;
        }
        proof {
            assert(buf@ =~= setup@ + data@);
        }
        UsbAction::ControlOutBlocking { data: buf, timeout_millis }
    }

    /// Submit an IN transfer on the default control endpoint, wrapped in
    /// a future.
    pub fn control_in(&self, data: ControlIn) -> (r: TransferFuture)
        ensures
            r.transfer.wf(),
            r.transfer.state == TransferState::Pending,
            r.transfer.kind == PayloadKind::ControlIn,
            r.transfer.urb.endpoint == 0,
            r.transfer.urb.ep_type == TransferType::Control,
            r.transfer.urb.buffer@ == setup_bytes(Direction::In, data.spec_control(), data.length),
            r.transfer.urb.buffer_length == SETUP_PACKET_SIZE + data.length,
            r.transfer.cancel_requests@ == 0,
    {
        let mut t = TransferData::new(0, TransferType::Control);
        t.submit_control_in(&data);
        TransferFuture::new(t)
    }

    /// Submit an OUT transfer on the default control endpoint, wrapped
    /// in a future.
    pub fn control_out(&self, data: &ControlOut) -> (r: TransferFuture)
        requires
            data.data@.len() <= u16::MAX,
        ensures
            r.transfer.wf(),
            r.transfer.state == TransferState::Pending,
            r.transfer.kind == PayloadKind::ControlOut,
            r.transfer.urb.endpoint == 0,
            r.transfer.urb.ep_type == TransferType::Control,
            r.transfer.urb.buffer@ == setup_bytes(
                Direction::Out,
                data.spec_control(),
                data.data@.len() as u16,
            ) + data.data@,
            r.transfer.urb.buffer_length == SETUP_PACKET_SIZE + data.data@.len(),
            r.transfer.cancel_requests@ == 0,
    {
        let mut t = TransferData::new(0, TransferType::Control);
        t.submit_control_out(data);
        TransferFuture::new(t)
    }

    /// Submit a single IN transfer on a bulk endpoint. The endpoint
    /// address must have its direction bit set, and the requested length
    /// should be a multiple of the endpoint's maximum packet size.
    pub fn bulk_in(&self, endpoint: u8, buf: RequestBuffer) -> (r: TransferFuture)
        requires
            endpoint & 0x80 == 0x80,
            buf.wf(),
            buf.requested <= 0x7fff_ffff,
        ensures
            r.transfer.wf(),
            r.transfer.state == TransferState::Pending,
            r.transfer.kind == PayloadKind::Request,
            r.transfer.urb.endpoint == endpoint,
            r.transfer.urb.ep_type == TransferType::Bulk,
            r.transfer.urb.buffer_length == buf.requested,
            r.transfer.capacity == buf.capacity,
            r.transfer.cancel_requests@ == 0,
    {
        let mut t = TransferData::new(endpoint, TransferType::Bulk);
        t.submit_request(buf);
        TransferFuture::new(t)
    }

    /// Submit a single OUT transfer on a bulk endpoint, sending the
    /// whole vector. The endpoint address must have its direction bit
    /// clear.
    pub fn bulk_out(&self, endpoint: u8, buf: Vec<u8>) -> (r: TransferFuture)
        requires
            endpoint & 0x80 == 0,
            buf@.len() <= 0x7fff_ffff,
        ensures
            r.transfer.wf(),
            r.transfer.state == TransferState::Pending,
            r.transfer.kind == PayloadKind::OutBytes,
            r.transfer.urb.endpoint == endpoint,
            r.transfer.urb.ep_type == TransferType::Bulk,
            r.transfer.urb.buffer@ == buf@,
            r.transfer.urb.buffer_length == buf@.len(),
            r.transfer.capacity == buf@.len(),
            r.transfer.cancel_requests@ == 0,
    {
        let mut t = TransferData::new(endpoint, TransferType::Bulk);
        t.submit_out(buf);
        TransferFuture::new(t)
    }

    /// Create a queue for multiple IN transfers on a bulk endpoint.
    pub fn bulk_in_queue(&self, endpoint: u8) -> (r: Queue)
        requires
            endpoint & 0x80 == 0x80,
        ensures
            r.wf(),
            r.endpoint == endpoint,
            r.ep_type == TransferType::Bulk,
            r.kind == PayloadKind::Request,
            r.pending@.len() == 0,
            r.submitted@ == 0,
            r.reaped@ == 0,
    {
        Queue::new(endpoint, TransferType::Bulk, PayloadKind::Request)
    }

    /// Create a queue for multiple OUT transfers on a bulk endpoint.
    pub fn bulk_out_queue(&self, endpoint: u8) -> (r: Queue)
        requires
            endpoint & 0x80 == 0,
        ensures
            r.wf(),
            r.endpoint == endpoint,
            r.ep_type == TransferType::Bulk,
            r.kind == PayloadKind::OutBytes,
            r.pending@.len() == 0,
            r.submitted@ == 0,
            r.reaped@ == 0,
    {
        Queue::new(endpoint, TransferType::Bulk, PayloadKind::OutBytes)
    }

    /// Submit a single IN transfer on an isochronous endpoint. The
    /// per-packet length should be a multiple of the endpoint's maximum
    /// packet size.
    pub fn isochronous_in(&self, endpoint: u8, buf: RequestIsochronousBuffer) -> (r: TransferFuture)
        requires
            endpoint & 0x80 == 0x80,
            buf.wf(),
            buf.requested <= u32::MAX,
            buf.requested * buf.number_of_packets <= 0x7fff_ffff,
        ensures
            r.transfer.wf(),
            r.transfer.state == TransferState::Pending,
            r.transfer.kind == PayloadKind::Isochronous,
            r.transfer.urb.endpoint == endpoint,
            r.transfer.urb.ep_type == TransferType::Isochronous,
            r.transfer.urb.buffer_length == buf.requested * buf.number_of_packets,
            r.transfer.urb.iso_frame_desc@.len() == buf.number_of_packets,
            r.transfer.capacity == buf.capacity,
            r.transfer.cancel_requests@ == 0,
    {
        let mut t = TransferData::new(endpoint, TransferType::Isochronous);
        t.submit_iso(buf);
        TransferFuture::new(t)
    }

    /// Create a queue for multiple IN transfers on an isochronous
    /// endpoint.
    pub fn isochronous_in_queue(&self, endpoint: u8) -> (r: Queue)
        requires
            endpoint & 0x80 == 0x80,
        ensures
            r.wf(),
            r.endpoint == endpoint,
            r.ep_type == TransferType::Isochronous,
            r.kind == PayloadKind::Isochronous,
            r.pending@.len() == 0,
            r.submitted@ == 0,
            r.reaped@ == 0,
    {
        Queue::new(endpoint, TransferType::Isochronous, PayloadKind::Isochronous)
    }

    /// Submit a single IN transfer on an interrupt endpoint. The
    /// requested length should be a multiple of the endpoint's maximum
    /// packet size.
    pub fn interrupt_in(&self, endpoint: u8, buf: RequestBuffer) -> (r: TransferFuture)
        requires
            endpoint & 0x80 == 0x80,
            buf.wf(),
            buf.requested <= 0x7fff_ffff,
        ensures
            r.transfer.wf(),
            r.transfer.state == TransferState::Pending,
            r.transfer.kind == PayloadKind::Request,
            r.transfer.urb.endpoint == endpoint,
            r.transfer.urb.ep_type == TransferType::Interrupt,
            r.transfer.urb.buffer_length == buf.requested,
            r.transfer.capacity == buf.capacity,
            r.transfer.cancel_requests@ == 0,
    {
        let mut t = TransferData::new(endpoint, TransferType::Interrupt);
        t.submit_request(buf);
        TransferFuture::new(t)
    }

    /// Submit a single OUT transfer on an interrupt endpoint, sending
    /// the whole vector.
    pub fn interrupt_out(&self, endpoint: u8, buf: Vec<u8>) -> (r: TransferFuture)
        requires
            endpoint & 0x80 == 0,
            buf@.len() <= 0x7fff_ffff,
        ensures
            r.transfer.wf(),
            r.transfer.state == TransferState::Pending,
            r.transfer.kind == PayloadKind::OutBytes,
            r.transfer.urb.endpoint == endpoint,
            r.transfer.urb.ep_type == TransferType::Interrupt,
            r.transfer.urb.buffer@ == buf@,
            r.transfer.urb.buffer_length == buf@.len(),
            r.transfer.capacity == buf@.len(),
            r.transfer.cancel_requests@ == 0,
    {
        let mut t = TransferData::new(endpoint, TransferType::Interrupt);
        t.submit_out(buf);
        TransferFuture::new(t)
    }

    /// Create a queue for multiple IN transfers on an interrupt
    /// endpoint.
    pub fn interrupt_in_queue(&self, endpoint: u8) -> (r: Queue)
        requires
            endpoint & 0x80 == 0x80,
        ensures
            r.wf(),
            r.endpoint == endpoint,
            r.ep_type == TransferType::Interrupt,
            r.kind == PayloadKind::Request,
            r.pending@.len() == 0,
            r.submitted@ == 0,
            r.reaped@ == 0,
    {
        Queue::new(endpoint, TransferType::Interrupt, PayloadKind::Request)
    }

    /// Create a queue for multiple OUT transfers on an interrupt
    /// endpoint.
    pub fn interrupt_out_queue(&self, endpoint: u8) -> (r: Queue)
        requires
            endpoint & 0x80 == 0,
        ensures
            r.wf(),
            r.endpoint == endpoint,
            r.ep_type == TransferType::Interrupt,
            r.kind == PayloadKind::OutBytes,
            r.pending@.len() == 0,
            r.submitted@ == 0,
            r.reaped@ == 0,
    {
        Queue::new(endpoint, TransferType::Interrupt, PayloadKind::OutBytes)
    }

    /// Name the operation that clears an endpoint's halt condition. Use
    /// it after a `Stall` before submitting on the endpoint again.
    pub fn clear_halt(&self, endpoint: u8) -> (r: UsbAction)
        ensures
            r == UsbAction::ClearHalt(endpoint),
    {
        UsbAction::ClearHalt(endpoint)
    }

    /// The interface number.
    pub fn interface_number(&self) -> (r: u8)
        ensures
            r == self.interface_number,
    {
        self.interface_number
    }

    /// The interface descriptors of this interface's alternate settings
    /// in the active configuration. No I/O is performed.
    pub fn descriptors(&self) -> (r: &Vec<InterfaceDescriptor>)
        ensures
            r == &self.interfaces,
    {
        &self.interfaces
    }

    /// The interface descriptor of the alternate setting in use: the
    /// first snapshot entry carrying that setting, or nothing when none
    /// does.
    pub fn descriptor(&self) -> (r: Option<&InterfaceDescriptor>)
        ensures
            r is Some <==> exists|j: int|
                0 <= j < self.interfaces@.len() && self.interfaces@[j].alternate_setting
                    == self.alt_setting,
            r matches Some(d) ==> exists|j: int|
                {
                    &&& 0 <= j < self.interfaces@.len()
                    &&& self.interfaces@[j].alternate_setting == self.alt_setting
                    &&& forall|k: int|
                        0 <= k < j ==> self.interfaces@[k].alternate_setting != self.alt_setting
                    &&& d == &self.interfaces@[j]
                },
    {
        let mut j: usize = 0;
        while j < self.interfaces.len()
            invariant
                j <= self.interfaces@.len(),
                forall|k: int|
                    0 <= k < j ==> self.interfaces@[k].alternate_setting != self.alt_setting,
            decreases self.interfaces@.len() - j,
        {
            if self.interfaces[j].alternate_setting == self.alt_setting {
                return Some(&self.interfaces[j]);
            }
            j += 1;
        }
        None
    }
}

} // verus!
