//! Buffer models for IN requests and recycled allocations.
//!
//! A buffer here is `(capacity, intended use)`: the capacity stands for
//! the size of the underlying allocation, carried separately from any
//! logical length so an allocation can be recycled intact across
//! transfers. Contents of an IN request are uninitialized and so not
//! modelled.

use vstd::prelude::*;

verus! {

/// The larger of two sizes.
pub open spec fn size_max(a: int, b: int) -> int {
    if a >= b {
        a
    } else {
        b
    }
}

/// A buffer for requesting an IN transfer on a bulk or interrupt
/// endpoint: an allocation of `capacity` bytes of which `requested` are
/// asked of the device.
#[derive(Debug, PartialEq, Eq, Structural)]
pub struct RequestBuffer {
    pub capacity: usize,
    pub requested: usize,
}

impl RequestBuffer {
    /// The requested length never exceeds the allocation.
    pub open spec fn wf(self) -> bool {
        self.requested <= self.capacity
    }

    /// Create a buffer that requests `len` bytes from a fresh allocation.
    pub fn new(len: usize) -> (r: RequestBuffer)
        ensures
            r.capacity == len,
            r.requested == len,
            r.wf(),
    {
        RequestBuffer { capacity: len, requested: len }
    }

    /// Re-use the allocation of a returned vector for a new request of
    /// `len` bytes, growing it only if it is too small.
    pub fn reuse(v: Vec<u8>, len: usize) -> (r: RequestBuffer)
        ensures
            r.capacity == size_max(v@.len() as int, len as int),
            r.requested == len,
            r.wf(),
    {
        let cap = if v.len() >= len {
            v.len()
        } else {
            len
        };
        RequestBuffer { capacity: cap, requested: len }
    }
}

/// The allocation returned from an OUT transfer, kept so it can be
/// recycled; `actual_length` records how many bytes the OS reported sent
/// and is informational only.
#[derive(Debug, PartialEq, Eq, Structural)]
pub struct ResponseBuffer {
    pub capacity: usize,
    pub actual_length: usize,
}

impl ResponseBuffer {
    /// Re-use this allocation for a new IN request of `len` bytes. The
    /// capacity is preserved whenever it already suffices.
    pub fn reuse(self, len: usize) -> (r: RequestBuffer)
        ensures
            r.capacity == size_max(self.capacity as int, len as int),
            r.requested == len,
            r.wf(),
    {
        let cap = if self.capacity >= len {
            self.capacity
        } else {
            len
        };
        RequestBuffer { capacity: cap, requested: len }
    }
}

/// A buffer for requesting an isochronous IN transfer: an allocation of
/// `capacity` bytes partitioned into `number_of_packets` packets of
/// `requested` bytes each.
#[derive(Debug, PartialEq, Eq, Structural)]
pub struct RequestIsochronousBuffer {
    pub capacity: usize,
    pub requested: usize,
    pub number_of_packets: usize,
}

impl RequestIsochronousBuffer {
    /// The packets fit in the allocation.
    pub open spec fn wf(self) -> bool {
        self.requested * self.number_of_packets <= self.capacity
    }

    /// Create a buffer for `number_of_packets` packets of `len` bytes
    /// each, from a fresh allocation.
    pub fn new(len: usize, number_of_packets: usize) -> (r: RequestIsochronousBuffer)
        requires
            len * number_of_packets <= usize::MAX,
        ensures
            r.capacity == len * number_of_packets,
            r.requested == len,
            r.number_of_packets == number_of_packets,
            r.wf(),
    {
        proof {
            mul_le_usize_max(len as int, number_of_packets as int);
        }
        RequestIsochronousBuffer {
            capacity: len * number_of_packets,
            requested: len,
            number_of_packets,
        }
    }

    /// Re-use the allocation of a returned vector for a new isochronous
    /// request, growing it only if it is too small.
    pub fn reuse(v: Vec<u8>, len: usize, number_of_packets: usize) -> (r: RequestIsochronousBuffer)
        requires
            len * number_of_packets <= usize::MAX,
        ensures
            r.capacity == size_max(v@.len() as int, len * number_of_packets),
            r.requested == len,
            r.number_of_packets == number_of_packets,
            r.wf(),
    {
        proof {
            mul_le_usize_max(len as int, number_of_packets as int);
        }
        let needed = len * number_of_packets;
        let cap = if v.len() >= needed {
            v.len()
        } else {
            needed
        };
        RequestIsochronousBuffer { capacity: cap, requested: len, number_of_packets }
    }
}

/// A product bounded above stays a valid size when computed.
proof fn mul_le_usize_max(a: int, b: int)
    requires
        0 <= a,
        0 <= b,
        a * b <= usize::MAX,
    ensures
        0 <= a * b <= usize::MAX,
{
    assert(0 <= a * b) by (nonlinear_arith)
        requires
            0 <= a,
            0 <= b,
    ;
}

} // verus!
