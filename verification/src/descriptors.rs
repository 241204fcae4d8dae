//! Parsed descriptor views the core consumes, and the byte-level rules
//! for string descriptors.

use vstd::prelude::*;
use crate::errors::Error;
use crate::setup::word_of;
use crate::transfer::TransferType;
use crate::utf16::{chars_to_string, decode_utf16_lossy, utf16_scalars};

verus! {

/// Descriptor type code of a string descriptor.
pub const DESCRIPTOR_TYPE_STRING: u8 = 0x03;

/// Parsed view of a device descriptor.
#[derive(Clone, Copy, Debug, PartialEq, Eq, Structural)]
pub struct DeviceDescriptor {
    pub usb_version: u16,
    pub class: u8,
    pub subclass: u8,
    pub protocol: u8,
    pub max_packet_size_0: u8,
    pub vendor_id: u16,
    pub product_id: u16,
    pub device_version: u16,
    pub num_configurations: u8,
}

/// Parsed view of an endpoint descriptor.
#[derive(Clone, Copy, Debug, PartialEq, Eq, Structural)]
pub struct EndpointDescriptor {
    /// Endpoint address: bit 7 is the direction (set for IN), bits 3..0
    /// the endpoint number.
    pub address: u8,
    pub transfer_type: TransferType,
    pub max_packet_size: u16,
}

/// Parsed view of one alternate setting of an interface.
#[derive(Clone, Debug, PartialEq, Eq)]
pub struct InterfaceDescriptor {
    pub interface_number: u8,
    pub alternate_setting: u8,
    pub class: u8,
    pub subclass: u8,
    pub protocol: u8,
    pub string_index: u8,
    pub endpoints: Vec<EndpointDescriptor>,
}

/// Parsed view of a configuration descriptor, with the interface
/// descriptors of every alternate setting of every interface.
#[derive(Clone, Debug, PartialEq, Eq)]
pub struct ConfigurationDescriptor {
    pub configuration_value: u8,
    pub attributes: u8,
    pub max_power: u8,
    pub string_index: u8,
    pub interfaces: Vec<InterfaceDescriptor>,
}

/// Whether bytes form a conforming string descriptor: at least the
/// two-byte header, a length byte that matches the actual length, and the
/// string descriptor type code.
pub open spec fn is_valid_string_descriptor(data: Seq<u8>) -> bool {
    &&& data.len() >= 2
    &&& data[0] == data.len()
    &&& data[1] == DESCRIPTOR_TYPE_STRING
}

/// Check that bytes form a conforming string descriptor.
pub fn validate_string_descriptor(data: &Vec<u8>) -> (r: bool)
    ensures
        r == is_valid_string_descriptor(data@),
{
    data.len() >= 2 && data.len() <= 255 && data[0] as usize == data.len() && data[1]
        == DESCRIPTOR_TYPE_STRING
}

/// The 16-bit words a descriptor body holds, little endian; a trailing
/// odd byte is ignored.
pub open spec fn le_words(bytes: Seq<u8>) -> Seq<u16> {
    Seq::new((bytes.len() / 2) as nat, |j: int| word_of(bytes[2 * j], bytes[2 * j + 1]))
}

/// Read the 16-bit words of a descriptor body, little endian.
pub fn read_le_words(bytes: &Vec<u8>, offset: usize) -> (r: Vec<u16>)
    requires
        offset <= bytes@.len(),
    ensures
        r@ == le_words(bytes@.skip(offset as int)),
{
    let mut out: Vec<u16> = Vec::new();
    let mut j: usize = 0;
    let blen = bytes.len();
    let n = (blen - offset) / 2;
    while j < n
        invariant
            blen == bytes@.len(),
            offset <= blen,
            n == (blen - offset) / 2,
            j <= n,
            out@ == le_words(bytes@.skip(offset as int)).take(j as int),
        decreases n - j,
    {
        proof {
            assert(2 * (j as int) + 1 < blen - offset) by (nonlinear_arith)
                requires
                    j < n,
                    n == (blen - offset) / 2,
                    offset <= blen,
            ;
            assert(offset + 2 * (j as int) + 1 < blen);
        }
        let lo = bytes[offset + 2 * j];
        let hi = bytes[offset + 2 * j + 1];
        out.push(lo as u16 + (hi as u16) * 256);
        proof {
            assert(bytes@.skip(offset as int)[2 * j as int] == lo);
            assert(bytes@.skip(offset as int)[2 * j as int + 1] == hi);
            assert(out@ =~= le_words(bytes@.skip(offset as int)).take(j as int + 1));
        }
        j += 1;
    }
    proof {
        assert(out@ =~= le_words(bytes@.skip(offset as int)));
    }
    out
}

/// Decode the body of a supported-languages string descriptor (index 0)
/// into its list of 16-bit language IDs. Fails exactly when the bytes are
/// not a conforming string descriptor.
pub fn decode_languages_descriptor(data: &Vec<u8>) -> (r: Result<Vec<u16>, Error>)
    ensures
        r is Ok <==> is_valid_string_descriptor(data@),
        r matches Ok(langs) ==> langs@ == le_words(data@.skip(2)),
        r is Err ==> r == Result::<Vec<u16>, Error>::Err(Error::InvalidData),
{
    if !validate_string_descriptor(data) {
        return Err(Error::InvalidData);
    }
    Ok(read_le_words(data, 2))
}

/// Decode a string descriptor's body as UTF-16, replacing unpaired
/// surrogates with U+FFFD. Fails exactly when the bytes are not a
/// conforming string descriptor.
pub fn decode_string_descriptor(data: &Vec<u8>) -> (r: Result<String, Error>)
    ensures
        r is Ok <==> is_valid_string_descriptor(data@),
        r matches Ok(s) ==> s@.map_values(|c: char| c as u32) == utf16_scalars(
            le_words(data@.skip(2)),
        ),
        r is Err ==> r == Result::<String, Error>::Err(Error::InvalidData),
{
    if !validate_string_descriptor(data) {
        return Err(Error::InvalidData);
    }
    let units = read_le_words(data, 2);
    let chars = decode_utf16_lossy(&units);
    Ok(chars_to_string(&chars))
}

} // verus!
