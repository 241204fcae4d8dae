//! Assembling device records from the properties the OS registry
//! reports.
//!
//! Reading the registry is platform work; the platform layer hands over,
//! for each device, the raw property values it found — present or absent
//! — and the functions here decide what they describe: which devices are
//! listed, how each property is narrowed to its descriptor field, and
//! which registry entry an already-known device corresponds to.

use vstd::prelude::*;
use crate::errors::Error;

verus! {

/// Connection speed of a device.
#[derive(Clone, Copy, Debug, PartialEq, Eq, Structural)]
pub enum Speed {
    Low,
    Full,
    High,
    Super,
    SuperPlus,
}

/// Summary of one interface of a discovered device.
#[derive(Debug, PartialEq, Eq)]
pub struct InterfaceInfo {
    pub interface_number: u8,
    pub class: u8,
    pub subclass: u8,
    pub protocol: u8,
    pub interface_string: Option<String>,
}

/// Summary of a discovered device, before it is opened.
#[derive(Debug, PartialEq, Eq)]
pub struct DeviceInfo {
    pub registry_id: u64,
    pub location_id: u32,
    pub bus_number: u8,
    pub device_address: u8,
    pub vendor_id: u16,
    pub product_id: u16,
    pub device_version: u16,
    pub class: u8,
    pub subclass: u8,
    pub protocol: u8,
    pub speed: Option<Speed>,
    pub manufacturer_string: Option<String>,
    pub product_string: Option<String>,
    pub serial_number: Option<String>,
    pub interfaces: Vec<InterfaceInfo>,
}

/// The raw registry properties of one interface entry, each absent when
/// the registry does not hold it.
#[derive(Debug, PartialEq, Eq)]
pub struct InterfaceProperties {
    pub interface_number: Option<i64>,
    pub class: Option<i64>,
    pub subclass: Option<i64>,
    pub protocol: Option<i64>,
    pub interface_string: Option<String>,
}

/// The raw registry properties of one device entry, each absent when the
/// registry does not hold it.
#[derive(Debug, PartialEq, Eq)]
pub struct DeviceProperties {
    pub registry_id: Option<u64>,
    pub location_id: Option<i64>,
    pub device_address: Option<i64>,
    pub vendor_id: Option<i64>,
    pub product_id: Option<i64>,
    pub device_version: Option<i64>,
    pub class: Option<i64>,
    pub subclass: Option<i64>,
    pub protocol: Option<i64>,
    pub speed: Option<i64>,
    pub manufacturer_string: Option<String>,
    pub product_string: Option<String>,
    pub serial_number: Option<String>,
    pub interfaces: Vec<InterfaceProperties>,
}

/// The speed a registry speed code stands for; codes beyond the
/// documented range stand for no speed.
pub open spec fn spec_map_speed(speed: i64) -> Option<Speed> {
    if speed == 0 {
        Some(Speed::Low)
    } else if speed == 1 {
        Some(Speed::Full)
    } else if speed == 2 {
        Some(Speed::High)
    } else if speed == 3 {
        Some(Speed::Super)
    } else if speed == 4 || speed == 5 {
        Some(Speed::SuperPlus)
    } else {
        None
    }
}

/// Map a registry speed code to a speed.
pub fn map_speed(speed: i64) -> (r: Option<Speed>)
    ensures
        r == spec_map_speed(speed),
{
    if speed == 0 {
        Some(Speed::Low)
    } else if speed == 1 {
        Some(Speed::Full)
    } else if speed == 2 {
        Some(Speed::High)
    } else if speed == 3 {
        Some(Speed::Super)
    } else if speed == 4 || speed == 5 {
        Some(Speed::SuperPlus)
    } else {
        None
    }
}

/// The low 8 bits of a registry integer, as descriptor fields are 8-bit.
pub open spec fn low_u8(v: i64) -> u8 {
    v as u8
}

/// The low 16 bits of a registry integer.
pub open spec fn low_u16(v: i64) -> u16 {
    v as u16
}

/// The low 32 bits of a registry integer.
pub open spec fn low_u32(v: i64) -> u32 {
    v as u32
}

/// Whether an interface entry holds every property an interface summary
/// needs.
pub open spec fn interface_props_complete(p: InterfaceProperties) -> bool {
    &&& p.interface_number is Some
    &&& p.class is Some
    &&& p.subclass is Some
    &&& p.protocol is Some
}

/// The interface summary an interface entry describes.
pub open spec fn spec_interface_info(p: InterfaceProperties) -> InterfaceInfo
    recommends
        interface_props_complete(p),
{
    InterfaceInfo {
        interface_number: low_u8(p.interface_number.unwrap()),
        class: low_u8(p.class.unwrap()),
        subclass: low_u8(p.subclass.unwrap()),
        protocol: low_u8(p.protocol.unwrap()),
        interface_string: p.interface_string,
    }
}

/// The interface summaries of the first `j` interface entries; an entry
/// missing a required property is skipped.
pub open spec fn spec_probe_interfaces_upto(s: Seq<InterfaceProperties>, j: int) -> Seq<
    InterfaceInfo,
>
    decreases j,
{
    if j <= 0 {
        Seq::empty()
    } else {
        spec_probe_interfaces_upto(s, j - 1) + (if interface_props_complete(s[j - 1]) {
            seq![spec_interface_info(s[j - 1])]
        } else {
            Seq::empty()
        })
    }
}

/// Whether a device entry holds every property a device summary needs;
/// the speed and the strings stay optional.
pub open spec fn device_props_complete(p: DeviceProperties) -> bool {
    &&& p.registry_id is Some
    &&& p.location_id is Some
    &&& p.device_address is Some
    &&& p.vendor_id is Some
    &&& p.product_id is Some
    &&& p.device_version is Some
    &&& p.class is Some
    &&& p.subclass is Some
    &&& p.protocol is Some
}

/// Assemble the device summary a registry entry describes. `None`
/// exactly when a required property is absent; the speed code is mapped
/// and an undocumented code drops the speed; interface entries missing a
/// required property are skipped.
pub fn probe_device(props: DeviceProperties) -> (r: Option<DeviceInfo>)
    ensures
        r is Some <==> device_props_complete(props),
        r matches Some(d) ==> {
            &&& d.registry_id == props.registry_id.unwrap()
            &&& d.location_id == low_u32(props.location_id.unwrap())
            &&& d.bus_number == 0
            &&& d.device_address == low_u8(props.device_address.unwrap())
            &&& d.vendor_id == low_u16(props.vendor_id.unwrap())
            &&& d.product_id == low_u16(props.product_id.unwrap())
            &&& d.device_version == low_u16(props.device_version.unwrap())
            &&& d.class == low_u8(props.class.unwrap())
            &&& d.subclass == low_u8(props.subclass.unwrap())
            &&& d.protocol == low_u8(props.protocol.unwrap())
            &&& d.speed == (match props.speed {
                Some(code) => spec_map_speed(code),
                None => None,
            })
            &&& d.manufacturer_string == props.manufacturer_string
            &&& d.product_string == props.product_string
            &&& d.serial_number == props.serial_number
            &&& d.interfaces@ == spec_probe_interfaces_upto(
                props.interfaces@,
                props.interfaces@.len() as int,
            )
        },
{
    let DeviceProperties {
        registry_id,
        location_id,
        device_address,
        vendor_id,
        product_id,
        device_version,
        class,
        subclass,
        protocol,
        speed,
        manufacturer_string,
        product_string,
        serial_number,
        interfaces,
    } = props;
    let registry_id = match registry_id {
        Some(v) => v,
        None => {
            return None;
        },
    };
    let location_id = match location_id {
        Some(v) => v,
        None => {
            return None;
        },
    };
    let device_address = match device_address {
        Some(v) => v,
        None => {
            return None;
        },
    };
    let vendor_id = match vendor_id {
        Some(v) => v,
        None => {
            return None;
        },
    };
    let product_id = match product_id {
        Some(v) => v,
        None => {
            return None;
        },
    };
    let device_version = match device_version {
        Some(v) => v,
        None => {
            return None;
        },
    };
    let class = match class {
        Some(v) => v,
        None => {
            return None;
        },
    };
    let subclass = match subclass {
        Some(v) => v,
        None => {
            return None;
        },
    };
    let protocol = match protocol {
        Some(v) => v,
        None => {
            return None;
        },
    };
    let speed = match speed {
        Some(code) => map_speed(code),
        None => None,
    };
    let mut iface_infos: Vec<InterfaceInfo> = Vec::new();
    let ghost iface_props = interfaces@;
    let mut rest = interfaces;
    let total = rest.len();
    let mut j: usize = 0;
    while rest.len() > 0
        invariant
            total == iface_props.len(),
            j + rest@.len() == total,
            rest@ == iface_props.skip(j as int),
            iface_infos@ == spec_probe_interfaces_upto(iface_props, j as int),
        decreases rest@.len(),
    {
        let p = rest.remove(0);
        proof {
            assert(p == iface_props[j as int]);
            assert(rest@ =~= iface_props.skip(j as int + 1));
        }
        let complete = p.interface_number.is_some() && p.class.is_some() && p.subclass.is_some()
            && p.protocol.is_some();
        if complete {
            let info = InterfaceInfo {
                interface_number: #[verifier::truncate] (p.interface_number.unwrap() as u8),
                class: #[verifier::truncate] (p.class.unwrap() as u8),
                subclass: #[verifier::truncate] (p.subclass.unwrap() as u8),
                protocol: #[verifier::truncate] (p.protocol.unwrap() as u8),
                interface_string: p.interface_string,
            };
            iface_infos.push(info);
        }
        j += 1;
    }
    proof {
        assert(iface_props.skip(iface_props.len() as int) =~= Seq::<InterfaceProperties>::empty());
    }
    Some(
        DeviceInfo {
            registry_id,
            location_id: #[verifier::truncate] (location_id as u32),
            bus_number: 0,
            device_address: #[verifier::truncate] (device_address as u8),
            vendor_id: #[verifier::truncate] (vendor_id as u16),
            product_id: #[verifier::truncate] (product_id as u16),
            device_version: #[verifier::truncate] (device_version as u16),
            class: #[verifier::truncate] (class as u8),
            subclass: #[verifier::truncate] (subclass as u8),
            protocol: #[verifier::truncate] (protocol as u8),
            speed,
            manufacturer_string,
            product_string,
            serial_number,
            interfaces: iface_infos,
        },
    )
}

/// Whether a summary matches an entry, the interface list compared by
/// contents.
pub open spec fn device_info_like(d: DeviceInfo, p: DeviceProperties) -> bool {
    &&& device_props_complete(p)
    &&& d.registry_id == p.registry_id.unwrap()
    &&& d.location_id == low_u32(p.location_id.unwrap())
    &&& d.bus_number == 0
    &&& d.device_address == low_u8(p.device_address.unwrap())
    &&& d.vendor_id == low_u16(p.vendor_id.unwrap())
    &&& d.product_id == low_u16(p.product_id.unwrap())
    &&& d.device_version == low_u16(p.device_version.unwrap())
    &&& d.class == low_u8(p.class.unwrap())
    &&& d.subclass == low_u8(p.subclass.unwrap())
    &&& d.protocol == low_u8(p.protocol.unwrap())
    &&& d.speed == (match p.speed {
        Some(code) => spec_map_speed(code),
        None => None,
    })
    &&& d.manufacturer_string == p.manufacturer_string
    &&& d.product_string == p.product_string
    &&& d.serial_number == p.serial_number
    &&& d.interfaces@ == spec_probe_interfaces_upto(p.interfaces@, p.interfaces@.len() as int)
}

/// Number of registry entries among the first `j` that hold every
/// required property.
pub open spec fn complete_count_upto(s: Seq<DeviceProperties>, j: int) -> int
    decreases j,
{
    if j <= 0 {
        0
    } else {
        complete_count_upto(s, j - 1) + (if device_props_complete(s[j - 1]) {
            1int
        } else {
            0int
        })
    }
}

/// Which entry among the first `j` the `k`-th listed device comes from.
pub open spec fn source_entry(s: Seq<DeviceProperties>, j: int, k: int) -> int
    decreases j,
{
    if j <= 0 {
        -1
    } else if device_props_complete(s[j - 1]) && k == complete_count_upto(s, j - 1) {
        j - 1
    } else {
        source_entry(s, j - 1, k)
    }
}

/// List the devices the registry entries describe, in registry order: one
/// summary for each entry that holds every required property, entries
/// missing one skipped.
pub fn list_devices(all: Vec<DeviceProperties>) -> (r: Vec<DeviceInfo>)
    ensures
        r@.len() == complete_count_upto(all@, all@.len() as int),
        forall|k: int|
            0 <= k < r@.len() ==> {
                &&& 0 <= #[trigger] source_entry(all@, all@.len() as int, k) < all@.len()
                &&& device_info_like(r@[k], all@[source_entry(all@, all@.len() as int, k)])
            },
{
    let ghost entries = all@;
    let mut out: Vec<DeviceInfo> = Vec::new();
    let mut rest = all;
    let total = rest.len();
    let mut j: usize = 0;
    while rest.len() > 0
        invariant
            total == entries.len(),
            j + rest@.len() == total,
            rest@ == entries.skip(j as int),
            out@.len() == complete_count_upto(entries, j as int),
            forall|k: int|
                0 <= k < out@.len() ==> {
                    &&& 0 <= #[trigger] source_entry(entries, j as int, k) < j
                    &&& device_info_like(out@[k], entries[source_entry(entries, j as int, k)])
                },
        decreases rest@.len(),
    {
        let p = rest.remove(0);
        proof {
            assert(p == entries[j as int]);
            assert(rest@ =~= entries.skip(j as int + 1));
        }
        match probe_device(p) {
            Some(info) => {
                out.push(info);
            },
            None => {},
        }
        proof {
            assert(forall|k: int|
                0 <= k < complete_count_upto(entries, j as int) ==> #[trigger] source_entry(
                    entries,
                    j as int + 1,
                    k,
                ) == source_entry(entries, j as int, k));
        }
        j += 1;
    }
    out
}

/// Find the registry entry whose ID matches an already-known device:
/// the first entry reporting that registry ID. Fails exactly when no
/// entry reports it.
pub fn service_by_registry_id(registry_ids: &Vec<Option<u64>>, registry_id: u64) -> (r: Result<
    usize,
    Error,
>)
    ensures
        r matches Ok(i) ==> i < registry_ids@.len() && registry_ids@[i as int] == Some(registry_id)
            && (forall|k: int|
            0 <= k < i ==> registry_ids@[k] != Some(registry_id)),
        r is Err <==> (forall|k: int|
            0 <= k < registry_ids@.len() ==> registry_ids@[k] != Some(registry_id)),
        r is Err ==> r == Result::<usize, Error>::Err(Error::NotFound),
{
    let mut i: usize = 0;
    while i < registry_ids.len()
        invariant
            i <= registry_ids@.len(),
            forall|k: int| 0 <= k < i ==> registry_ids@[k] != Some(registry_id),
        decreases registry_ids@.len() - i,
    {
        let matches_id = match registry_ids[i] {
            Some(v) => v == registry_id,
            None => false,
        };
        if matches_id {
            return Ok(i);
        }
        i += 1;
    }
    Err(Error::NotFound)
}

} // verus!
