//! Control-transfer setup packets: the 8-byte wire format that prefixes
//! every control transfer, its encoder, its decoder, and the proof that
//! the two are inverse.

use vstd::prelude::*;
use vstd::arithmetic::div_mod::{lemma_fundamental_div_mod, lemma_mod_bound, lemma_div_is_ordered};

verus! {

/// Length in bytes of a control-transfer setup packet.
pub const SETUP_PACKET_SIZE: usize = 8;

/// Direction of the data phase of a transfer.
#[derive(Clone, Copy, Debug, PartialEq, Eq, Structural)]
pub enum Direction {
    /// Host to device.
    Out,
    /// Device to host.
    In,
}

/// The class of a control request, bits 6..5 of `bmRequestType`.
#[derive(Clone, Copy, Debug, PartialEq, Eq, Structural)]
pub enum ControlType {
    Standard,
    Class,
    Vendor,
    Reserved,
}

/// The recipient of a control request, bits 4..0 of `bmRequestType`.
#[derive(Clone, Copy, Debug, PartialEq, Eq, Structural)]
pub enum Recipient {
    Device,
    Interface,
    Endpoint,
    Other,
}

/// The fields of a control request other than its data phase.
#[derive(Clone, Copy, Debug, PartialEq, Eq, Structural)]
pub struct Control {
    pub control_type: ControlType,
    pub recipient: Recipient,
    pub request: u8,
    pub value: u16,
    pub index: u16,
}

pub open spec fn direction_value(d: Direction) -> u8 {
    match d {
        Direction::Out => 0,
        Direction::In => 1,
    }
}

pub open spec fn control_type_value(t: ControlType) -> u8 {
    match t {
        ControlType::Standard => 0,
        ControlType::Class => 1,
        ControlType::Vendor => 2,
        ControlType::Reserved => 3,
    }
}

pub open spec fn recipient_value(r: Recipient) -> u8 {
    match r {
        Recipient::Device => 0,
        Recipient::Interface => 1,
        Recipient::Endpoint => 2,
        Recipient::Other => 3,
    }
}

/// The `bmRequestType` byte: direction in bit 7, control type in bits 6..5,
/// recipient in bits 4..0.
pub open spec fn spec_request_type(d: Direction, t: ControlType, r: Recipient) -> u8 {
    (direction_value(d) * 128 + control_type_value(t) * 32 + recipient_value(r)) as u8
}

/// Low byte of a 16-bit value on the wire (little endian).
pub open spec fn lo_byte(v: u16) -> u8 {
    (v % 256) as u8
}

/// High byte of a 16-bit value on the wire (little endian).
pub open spec fn hi_byte(v: u16) -> u8 {
    (v / 256) as u8
}

/// The 8 bytes of a setup packet for the given direction, request fields
/// and data-phase length.
pub open spec fn setup_bytes(d: Direction, c: Control, length: u16) -> Seq<u8> {
    seq![
        spec_request_type(d, c.control_type, c.recipient),
        c.request,
        lo_byte(c.value),
        hi_byte(c.value),
        lo_byte(c.index),
        hi_byte(c.index),
        lo_byte(length),
        hi_byte(length),
    ]
}

/// The direction a `bmRequestType` byte encodes.
pub open spec fn decode_direction(b: u8) -> Direction {
    if b / 128 == 1 {
        Direction::In
    } else {
        Direction::Out
    }
}

/// The control type a `bmRequestType` byte encodes.
pub open spec fn decode_control_type(b: u8) -> ControlType {
    if (b / 32) % 4 == 0 {
        ControlType::Standard
    } else if (b / 32) % 4 == 1 {
        ControlType::Class
    } else if (b / 32) % 4 == 2 {
        ControlType::Vendor
    } else {
        ControlType::Reserved
    }
}

/// The recipient a `bmRequestType` byte encodes. Recipient codes above 3
/// are reserved and read as `Other`.
pub open spec fn decode_recipient(b: u8) -> Recipient {
    if b % 32 == 0 {
        Recipient::Device
    } else if b % 32 == 1 {
        Recipient::Interface
    } else if b % 32 == 2 {
        Recipient::Endpoint
    } else {
        Recipient::Other
    }
}

/// The 16-bit value two wire bytes hold, little endian.
pub open spec fn word_of(lo: u8, hi: u8) -> u16 {
    (lo + hi * 256) as u16
}

/// The `(direction, control, length)` triple a setup packet holds.
pub open spec fn decode_setup(p: Seq<u8>) -> (Direction, Control, u16)
    recommends
        p.len() == 8,
{
    (
        decode_direction(p[0]),
        Control {
            control_type: decode_control_type(p[0]),
            recipient: decode_recipient(p[0]),
            request: p[1],
            value: word_of(p[2], p[3]),
            index: word_of(p[4], p[5]),
        },
        word_of(p[6], p[7]),
    )
}

/// A 16-bit value is recovered from its two wire bytes.
proof fn lemma_word_roundtrip(v: u16)
    ensures
        word_of(lo_byte(v), hi_byte(v)) == v,
        lo_byte(v) < 256,
        hi_byte(v) < 256,
{
    lemma_fundamental_div_mod(v as int, 256);
    lemma_mod_bound(v as int, 256);
    lemma_div_is_ordered(v as int, 65535, 256);
}

/// Encoding a setup packet and decoding it yields the original
/// direction, request fields and length.
pub proof fn lemma_setup_roundtrip(d: Direction, c: Control, length: u16)
    ensures
        decode_setup(setup_bytes(d, c, length)) == (d, c, length),
{
    lemma_word_roundtrip(c.value);
    lemma_word_roundtrip(c.index);
    lemma_word_roundtrip(length);
    let b = spec_request_type(d, c.control_type, c.recipient);
    assert(decode_direction(b) == d && decode_control_type(b) == c.control_type
        && decode_recipient(b) == c.recipient) by {
        match d {
            Direction::Out => {}
            Direction::In => {}
        }
    }
}

impl Control {
    /// Encode this request as a setup packet with the given direction and
    /// data-phase length.
    pub fn setup_packet(&self, direction: Direction, length: u16) -> (r: [u8; 8])
        ensures
            r@ == setup_bytes(direction, *self, length),
    {
        proof {
            lemma_word_roundtrip(self.value);
            lemma_word_roundtrip(self.index);
            lemma_word_roundtrip(length);
        }
        let dv: u8 = match direction {
            Direction::Out => 0,
            Direction::In => 1,
        };
        let tv: u8 = match self.control_type {
            ControlType::Standard => 0,
            ControlType::Class => 1,
            ControlType::Vendor => 2,
            ControlType::Reserved => 3,
        };
        let rv: u8 = match self.recipient {
            Recipient::Device => 0,
            Recipient::Interface => 1,
            Recipient::Endpoint => 2,
            Recipient::Other => 3,
        };
        let r: [u8; 8] = [
            dv * 128 + tv * 32 + rv,
            self.request,
            (self.value % 256) as u8,
            (self.value / 256) as u8,
            (self.index % 256) as u8,
            (self.index / 256) as u8,
            (length % 256) as u8,
            (length / 256) as u8,
        ];
        assert(r@ =~= setup_bytes(direction, *self, length));
        r
    }
}

/// Decode a setup packet into its direction, request fields and
/// data-phase length.
pub fn decode_setup_packet(p: &[u8; 8]) -> (r: (Direction, Control, u16))
    ensures
        r == decode_setup(p@),
{
    let b0 = p[0];
    let direction = if b0 / 128 == 1 {
        Direction::In
    } else {
        Direction::Out
    };
    let control_type = if (b0 / 32) % 4 == 0 {
        ControlType::Standard
    } else if (b0 / 32) % 4 == 1 {
        ControlType::Class
    } else if (b0 / 32) % 4 == 2 {
        ControlType::Vendor
    } else {
        ControlType::Reserved
    };
    let recipient = if b0 % 32 == 0 {
        Recipient::Device
    } else if b0 % 32 == 1 {
        Recipient::Interface
    } else if b0 % 32 == 2 {
        Recipient::Endpoint
    } else {
        Recipient::Other
    };
    let control = Control {
        control_type,
        recipient,
        request: p[1],
        value: p[2] as u16 + (p[3] as u16) * 256,
        index: p[4] as u16 + (p[5] as u16) * 256,
    };
    (direction, control, p[6] as u16 + (p[7] as u16) * 256)
}

/// An IN control request: the fields of the request and the number of
/// bytes of data requested from the device.
#[derive(Clone, Copy, Debug, PartialEq, Eq, Structural)]
pub struct ControlIn {
    pub control_type: ControlType,
    pub recipient: Recipient,
    pub request: u8,
    pub value: u16,
    pub index: u16,
    pub length: u16,
}

/// An OUT control request: the fields of the request and the data to send.
#[derive(Clone, Debug, PartialEq, Eq)]
pub struct ControlOut {
    pub control_type: ControlType,
    pub recipient: Recipient,
    pub request: u8,
    pub value: u16,
    pub index: u16,
    pub data: Vec<u8>,
}

impl ControlIn {
    /// The request fields of this IN request.
    pub open spec fn spec_control(self) -> Control {
        Control {
            control_type: self.control_type,
            recipient: self.recipient,
            request: self.request,
            value: self.value,
            index: self.index,
        }
    }

    /// The request fields of this IN request.
    pub fn control(&self) -> (r: Control)
        ensures
            r == self.spec_control(),
    {
        Control {
            control_type: self.control_type,
            recipient: self.recipient,
            request: self.request,
            value: self.value,
            index: self.index,
        }
    }

    /// Encode this request as a setup packet.
    pub fn setup_packet(&self) -> (r: [u8; 8])
        ensures
            r@ == setup_bytes(Direction::In, self.spec_control(), self.length),
    {
        self.control().setup_packet(Direction::In, self.length)
    }
}

impl ControlOut {
    /// The request fields of this OUT request.
    pub open spec fn spec_control(self) -> Control {
        Control {
            control_type: self.control_type,
            recipient: self.recipient,
            request: self.request,
            value: self.value,
            index: self.index,
        }
    }

    /// The request fields of this OUT request.
    pub fn control(&self) -> (r: Control)
        ensures
            r == self.spec_control(),
    {
        Control {
            control_type: self.control_type,
            recipient: self.recipient,
            request: self.request,
            value: self.value,
            index: self.index,
        }
    }

    /// Encode this request as a setup packet carrying the length of the
    /// data to send. `None` exactly when that length does not fit in the
    /// packet's 16-bit length field.
    pub fn setup_packet(&self) -> (r: Option<[u8; 8]>)
        ensures
            r is Some <==> self.data@.len() <= u16::MAX,
            r matches Some(p) ==> p@ == setup_bytes(
                Direction::Out,
                self.spec_control(),
                self.data@.len() as u16,
            ),
    {
        if self.data.len() <= u16::MAX as usize {
            Some(self.control().setup_packet(Direction::Out, self.data.len() as u16))
        } else {
            None
        }
    }
}

} // verus!
