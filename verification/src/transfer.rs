//! The transfer primitive: one in-flight transfer, its control block, and
//! its lifecycle.
//!
//! A transfer owns a buffer and a portable control block. It is submitted
//! once, may be cancelled, and is reaped exactly once:
//!
//! `Idle` → (submit) → `Pending` → (the OS reports completion) →
//! `Completed` → (take) → `Idle` again, with the allocation recycled.
//!
//! The OS side is not performed here: after a submit, the platform layer
//! hands the control block to the kernel and later delivers the kernel's
//! report through one of the `complete_*` methods. Between those two
//! points the transfer is `Pending` and its buffer is owned by the
//! control block alone.

use vstd::prelude::*;
use crate::buffers::{RequestBuffer, RequestIsochronousBuffer, ResponseBuffer};
use crate::errors::{spec_urb_status, urb_status, TransferError};
use crate::setup::{setup_bytes, ControlIn, ControlOut, Direction, SETUP_PACKET_SIZE};

verus! {

/// The four USB endpoint types.
#[derive(Clone, Copy, Debug, PartialEq, Eq, Structural)]
pub enum TransferType {
    Control,
    Interrupt,
    Bulk,
    Isochronous,
}

/// Per-packet bookkeeping of an isochronous transfer: the slot length,
/// and the length and status the OS reported for the packet.
#[derive(Clone, Copy, Debug, PartialEq, Eq, Structural)]
pub struct IsoPacketDesc {
    pub length: u32,
    pub actual_length: u32,
    pub status: u32,
}

/// Lifecycle state of a transfer.
#[derive(Clone, Copy, Debug, PartialEq, Eq, Structural)]
pub enum TransferState {
    /// No buffer installed; may be submitted.
    Idle,
    /// Submitted; the kernel owns the buffer region.
    Pending,
    /// The OS has reported completion; reapable exactly once.
    Completed,
}

/// Which kind of payload was submitted, deciding how the completion is
/// reaped.
#[derive(Clone, Copy, Debug, PartialEq, Eq, Structural)]
pub enum PayloadKind {
    /// A plain byte vector sent on an OUT endpoint.
    OutBytes,
    /// A `RequestBuffer` filled by an IN endpoint.
    Request,
    /// A control IN request (setup packet followed by received data).
    ControlIn,
    /// A control OUT request (setup packet followed by sent data).
    ControlOut,
    /// An isochronous IN request partitioned into packets.
    Isochronous,
}

/// Portable model of the per-transfer control block handed to the OS.
#[derive(Debug, PartialEq, Eq)]
pub struct Urb {
    pub ep_type: TransferType,
    /// Endpoint address: bit 7 set for IN endpoints.
    pub endpoint: u8,
    /// OS-reported status; zero for success.
    pub status: i32,
    /// The buffer region, as far as its bytes are defined.
    pub buffer: Vec<u8>,
    /// Length in bytes of the region handed to the kernel.
    pub buffer_length: usize,
    /// OS-reported number of bytes transferred in the data phase.
    pub actual_length: usize,
    /// Packet descriptors of an isochronous transfer.
    pub iso_frame_desc: Vec<IsoPacketDesc>,
}

/// A completion: the payload, typed by the submitted buffer, and the
/// OS-reported status.
#[derive(Debug, PartialEq, Eq)]
pub struct Completion<T> {
    pub data: T,
    pub status: Result<(), TransferError>,
}

/// Total length in bytes of the first `j` packet slots.
pub open spec fn iso_prefix_total(descs: Seq<IsoPacketDesc>, j: int) -> int
    decreases j,
{
    if j <= 0 {
        0
    } else {
        iso_prefix_total(descs, j - 1) + descs[j - 1].length
    }
}

/// The per-packet payloads of a completed isochronous transfer, reading
/// the first `j` packets: each packet's slot starts where the previous
/// slot ended, a packet with status zero contributes its first
/// `actual_length` bytes, and a packet with nonzero status is omitted.
pub open spec fn iso_slices_upto(buffer: Seq<u8>, descs: Seq<IsoPacketDesc>, j: int) -> Seq<
    Seq<u8>,
>
    decreases j,
{
    if j <= 0 {
        Seq::empty()
    } else {
        iso_slices_upto(buffer, descs, j - 1) + (if descs[j - 1].status == 0 {
            seq![
                buffer.subrange(
                    iso_prefix_total(descs, j - 1),
                    iso_prefix_total(descs, j - 1) + descs[j - 1].actual_length,
                ),
            ]
        } else {
            Seq::empty()
        })
    }
}

/// The per-packet payloads of a completed isochronous transfer.
pub open spec fn iso_slices(buffer: Seq<u8>, descs: Seq<IsoPacketDesc>) -> Seq<Seq<u8>> {
    iso_slices_upto(buffer, descs, descs.len() as int)
}

/// Packet slots have nonnegative lengths, so prefix totals only grow.
proof fn lemma_iso_prefix_total_le(descs: Seq<IsoPacketDesc>, i: int, j: int)
    requires
        0 <= i <= j <= descs.len(),
    ensures
        iso_prefix_total(descs, i) <= iso_prefix_total(descs, j),
    decreases j - i,
{
    if i < j {
        lemma_iso_prefix_total_le(descs, i, j - 1);
    }
}

/// A prefix total is nonnegative.
proof fn lemma_iso_prefix_total_nonneg(descs: Seq<IsoPacketDesc>, j: int)
    requires
        0 <= j <= descs.len(),
    ensures
        0 <= iso_prefix_total(descs, j),
    decreases j,
{
    if j > 0 {
        lemma_iso_prefix_total_nonneg(descs, j - 1);
    }
}

/// An isochronous transfer of `N` packets yields at most `N` payloads:
/// one for each packet whose status is zero, none for the others.
pub proof fn lemma_iso_slices_len(buffer: Seq<u8>, descs: Seq<IsoPacketDesc>, j: int)
    requires
        0 <= j <= descs.len(),
    ensures
        iso_slices_upto(buffer, descs, j).len() <= j,
    decreases j,
{
    if j > 0 {
        lemma_iso_slices_len(buffer, descs, j - 1);
    }
}

/// One in-flight transfer: a portable control block, the capacity of the
/// allocation it holds, and its lifecycle state.
pub struct TransferData {
    pub urb: Urb,
    /// Size of the allocation installed in the control block, kept apart
    /// from any logical length so it can be returned intact.
    pub capacity: usize,
    pub state: TransferState,
    pub kind: PayloadKind,
    /// How many times cancellation has been requested.
    pub cancel_requests: Ghost<nat>,
}

impl TransferData {
    /// Internal consistency, by lifecycle state and payload kind.
    pub open spec fn wf(self) -> bool {
        &&& self.urb.buffer_length <= 0x7fff_ffff
        &&& match self.state {
            TransferState::Idle => self.urb.buffer@.len() == 0,
            TransferState::Pending => {
                &&& self.urb.actual_length == 0
                &&& match self.kind {
                    PayloadKind::OutBytes => {
                        &&& self.urb.buffer@.len() == self.urb.buffer_length
                        &&& self.capacity == self.urb.buffer@.len()
                    },
                    PayloadKind::Request => {
                        &&& self.urb.buffer@.len() == 0
                        &&& self.capacity >= self.urb.buffer_length
                    },
                    PayloadKind::ControlIn => {
                        &&& self.urb.buffer@.len() == SETUP_PACKET_SIZE
                        &&& self.urb.buffer_length >= SETUP_PACKET_SIZE
                        &&& self.capacity == self.urb.buffer_length
                    },
                    PayloadKind::ControlOut => {
                        &&& self.urb.buffer@.len() == self.urb.buffer_length
                        &&& self.urb.buffer_length >= SETUP_PACKET_SIZE
                        &&& self.capacity == self.urb.buffer@.len()
                    },
                    PayloadKind::Isochronous => {
                        &&& self.urb.buffer@.len() == 0
                        &&& self.capacity >= self.urb.buffer_length
                        &&& iso_prefix_total(
                            self.urb.iso_frame_desc@,
                            self.urb.iso_frame_desc@.len() as int,
                        ) == self.urb.buffer_length
                    },
                }
            },
            TransferState::Completed => {
                &&& self.urb.actual_length <= self.urb.buffer_length
                &&& match self.kind {
                    PayloadKind::OutBytes => self.urb.buffer@.len() == self.urb.buffer_length
                        && self.capacity == self.urb.buffer@.len(),
                    PayloadKind::Request => self.urb.buffer@.len() == self.urb.actual_length,
                    PayloadKind::ControlIn => {
                        &&& self.urb.buffer@.len() == SETUP_PACKET_SIZE + self.urb.actual_length
                        &&& self.urb.buffer_length >= SETUP_PACKET_SIZE
                        &&& self.urb.actual_length + SETUP_PACKET_SIZE <= self.urb.buffer_length
                    },
                    PayloadKind::ControlOut => {
                        &&& self.urb.buffer@.len() == self.urb.buffer_length
                        &&& self.capacity == self.urb.buffer@.len()
                        &&& self.urb.buffer_length >= SETUP_PACKET_SIZE
                    },
                    PayloadKind::Isochronous => {
                        &&& self.urb.buffer@.len() == self.urb.buffer_length
                        &&& iso_prefix_total(
                            self.urb.iso_frame_desc@,
                            self.urb.iso_frame_desc@.len() as int,
                        ) == self.urb.buffer_length
                        &&& forall|j: int|
                            0 <= j < self.urb.iso_frame_desc@.len()
                                ==> self.urb.iso_frame_desc@[j].actual_length
                                <= self.urb.iso_frame_desc@[j].length
                    },
                }
            },
        }
    }

    /// Create an idle transfer for the given endpoint and type.
    pub fn new(endpoint: u8, ep_type: TransferType) -> (r: TransferData)
        ensures
            r.state == TransferState::Idle,
            r.urb.endpoint == endpoint,
            r.urb.ep_type == ep_type,
            r.urb.status == 0,
            r.urb.buffer@.len() == 0,
            r.urb.buffer_length == 0,
            r.urb.actual_length == 0,
            r.urb.iso_frame_desc@.len() == 0,
            r.capacity == 0,
            r.cancel_requests@ == 0,
            r.wf(),
    {
        TransferData {
            urb: Urb {
                ep_type,
                endpoint,
                status: 0,
                buffer: Vec::new(),
                buffer_length: 0,
                actual_length: 0,
                iso_frame_desc: Vec::new(),
            },
            capacity: 0,
            state: TransferState::Idle,
            kind: PayloadKind::OutBytes,
            cancel_requests: Ghost(0),
        }
    }

    /// Request cancellation of this transfer. Only a request: the buffer
    /// stays with the control block until a completion is observed.
    /// Idempotent in effect and callable in any state.
    pub fn cancel(&mut self)
        ensures
            final(self).urb == old(self).urb,
            final(self).capacity == old(self).capacity,
            final(self).state == old(self).state,
            final(self).kind == old(self).kind,
            final(self).cancel_requests@ == old(self).cancel_requests@ + 1,
            old(self).wf() ==> final(self).wf(),
    {
        self.cancel_requests = Ghost(self.cancel_requests@ + 1);
    }

    /// Submit a byte vector on an OUT endpoint: install the bytes in the
    /// control block and move to `Pending`. The whole vector is to be
    /// sent.
    pub fn submit_out(&mut self, data: Vec<u8>)
        requires
            old(self).wf(),
            old(self).state == TransferState::Idle,
            old(self).urb.endpoint & 0x80 == 0,
            old(self).urb.ep_type == TransferType::Bulk || old(self).urb.ep_type
                == TransferType::Interrupt,
            data@.len() <= 0x7fff_ffff,
        ensures
            final(self).wf(),
            final(self).state == TransferState::Pending,
            final(self).kind == PayloadKind::OutBytes,
            final(self).urb.buffer@ == data@,
            final(self).urb.buffer_length == data@.len(),
            final(self).urb.actual_length == 0,
            final(self).capacity == data@.len(),
            final(self).urb.endpoint == old(self).urb.endpoint,
            final(self).urb.ep_type == old(self).urb.ep_type,
            final(self).urb.iso_frame_desc == old(self).urb.iso_frame_desc,
            final(self).cancel_requests == old(self).cancel_requests,
    {
        let len = data.len();
        self.capacity = len;
        self.urb.buffer = data;
        self.urb.buffer_length = len;
        self.urb.actual_length = 0;
        self.state = TransferState::Pending;
        self.kind = PayloadKind::OutBytes;
    }

    /// Submit a request buffer on a bulk or interrupt IN endpoint:
    /// install its allocation and move to `Pending`. The contents are
    /// uninitialized until the OS reports completion.
    pub fn submit_request(&mut self, data: RequestBuffer)
        requires
            old(self).wf(),
            old(self).state == TransferState::Idle,
            old(self).urb.endpoint & 0x80 == 0x80,
            old(self).urb.ep_type == TransferType::Bulk || old(self).urb.ep_type
                == TransferType::Interrupt,
            data.wf(),
            data.requested <= 0x7fff_ffff,
        ensures
            final(self).wf(),
            final(self).state == TransferState::Pending,
            final(self).kind == PayloadKind::Request,
            final(self).urb.buffer@.len() == 0,
            final(self).urb.buffer_length == data.requested,
            final(self).urb.actual_length == 0,
            final(self).capacity == data.capacity,
            final(self).urb.endpoint == old(self).urb.endpoint,
            final(self).urb.ep_type == old(self).urb.ep_type,
            final(self).urb.iso_frame_desc == old(self).urb.iso_frame_desc,
            final(self).cancel_requests == old(self).cancel_requests,
    {
        self.capacity = data.capacity;
        self.urb.buffer = Vec::new();
        self.urb.buffer_length = data.requested;
        self.urb.actual_length = 0;
        self.state = TransferState::Pending;
        self.kind = PayloadKind::Request;
    }

    /// Submit an isochronous request on an isochronous IN endpoint:
    /// allocate one packet descriptor per packet, each with the packet
    /// length installed, and move to `Pending`.
    pub fn submit_iso(&mut self, data: RequestIsochronousBuffer)
        requires
            old(self).wf(),
            old(self).state == TransferState::Idle,
            old(self).urb.endpoint & 0x80 == 0x80,
            old(self).urb.ep_type == TransferType::Isochronous,
            data.wf(),
            data.requested <= u32::MAX,
            data.requested * data.number_of_packets <= 0x7fff_ffff,
        ensures
            final(self).wf(),
            final(self).state == TransferState::Pending,
            final(self).kind == PayloadKind::Isochronous,
            final(self).urb.buffer@.len() == 0,
            final(self).urb.buffer_length == data.requested * data.number_of_packets,
            final(self).urb.actual_length == 0,
            final(self).capacity == data.capacity,
            final(self).urb.iso_frame_desc@.len() == data.number_of_packets,
            forall|j: int|
                0 <= j < data.number_of_packets ==> final(self).urb.iso_frame_desc@[j]
                    == (IsoPacketDesc { length: data.requested as u32, actual_length: 0, status: 0 }),
            final(self).urb.endpoint == old(self).urb.endpoint,
            final(self).urb.ep_type == old(self).urb.ep_type,
            final(self).cancel_requests == old(self).cancel_requests,
    {
        let mut descs: Vec<IsoPacketDesc> = Vec::new();
        let mut j: usize = 0;
        while j < data.number_of_packets
            invariant
                j <= data.number_of_packets,
                data.requested <= u32::MAX,
                descs@.len() == j,
                forall|k: int|
                    0 <= k < j ==> descs@[k] == (IsoPacketDesc {
                        length: data.requested as u32,
                        actual_length: 0,
                        status: 0,
                    }),
                iso_prefix_total(descs@, j as int) == data.requested * j,
            decreases data.number_of_packets - j,
        {
            let ghost prev = descs@;
            descs.push(IsoPacketDesc { length: data.requested as u32, actual_length: 0, status: 0 });
            proof {
                assert(iso_prefix_total(descs@, j as int) == iso_prefix_total(prev, j as int)) by {
                    lemma_iso_prefix_total_eq(prev, descs@, j as int);
                }
                assert(data.requested * (j + 1) == data.requested * j + data.requested)
                    by (nonlinear_arith);
            }
            j += 1;
        }
        proof {
            vstd::arithmetic::mul::lemma_mul_nonnegative(
                data.requested as int,
                data.number_of_packets as int,
            );
        }
        let total = data.requested * data.number_of_packets;
        self.capacity = data.capacity;
        self.urb.buffer = Vec::new();
        self.urb.buffer_length = total;
        self.urb.actual_length = 0;
        self.urb.iso_frame_desc = descs;
        self.state = TransferState::Pending;
        self.kind = PayloadKind::Isochronous;
    }

    /// Submit an IN control request on the default control endpoint: the
    /// setup packet is installed before the data region, and the region
    /// handed to the kernel covers both.
    pub fn submit_control_in(&mut self, data: &ControlIn)
        requires
            old(self).wf(),
            old(self).state == TransferState::Idle,
            old(self).urb.ep_type == TransferType::Control,
        ensures
            final(self).wf(),
            final(self).state == TransferState::Pending,
            final(self).kind == PayloadKind::ControlIn,
            final(self).urb.buffer@ == setup_bytes(
                Direction::In,
                data.spec_control(),
                data.length,
            ),
            final(self).urb.buffer_length == SETUP_PACKET_SIZE + data.length,
            final(self).urb.actual_length == 0,
            final(self).capacity == SETUP_PACKET_SIZE + data.length,
            final(self).urb.endpoint == old(self).urb.endpoint,
            final(self).urb.ep_type == old(self).urb.ep_type,
            final(self).urb.iso_frame_desc == old(self).urb.iso_frame_desc,
            final(self).cancel_requests == old(self).cancel_requests,
    {
        let setup = data.setup_packet();
        let mut buf: Vec<u8> = Vec::new();
        let mut k: usize = 0;
        while k < 8
            invariant
                k <= 8,
                buf@ == setup@.take(k as int),
            decreases 8 - k,
        {
            buf.push(setup[k]);
            proof {
                assert(buf@ =~= setup@.take(k as int + 1));
            }
            k += 1;
        }
        proof {
            assert(buf@ =~= setup@);
        }
        let len = SETUP_PACKET_SIZE + data.length as usize;
        self.capacity = len;
        self.urb.buffer = buf;
        self.urb.buffer_length = len;
        self.urb.actual_length = 0;
        self.state = TransferState::Pending;
        self.kind = PayloadKind::ControlIn;
    }

    /// Submit an OUT control request on the default control endpoint: the
    /// setup packet is installed, followed by the data to send.
    pub fn submit_control_out(&mut self, data: &ControlOut)
        requires
            old(self).wf(),
            old(self).state == TransferState::Idle,
            old(self).urb.ep_type == TransferType::Control,
            data.data@.len() <= u16::MAX,
        ensures
            final(self).wf(),
            final(self).state == TransferState::Pending,
            final(self).kind == PayloadKind::ControlOut,
            final(self).urb.buffer@ == setup_bytes(
                Direction::Out,
                data.spec_control(),
                data.data@.len() as u16,
            ) + data.data@,
            final(self).urb.buffer_length == SETUP_PACKET_SIZE + data.data@.len(),
            final(self).urb.actual_length == 0,
            final(self).capacity == SETUP_PACKET_SIZE + data.data@.len(),
            final(self).urb.endpoint == old(self).urb.endpoint,
            final(self).urb.ep_type == old(self).urb.ep_type,
            final(self).urb.iso_frame_desc == old(self).urb.iso_frame_desc,
            final(self).cancel_requests == old(self).cancel_requests,
    {
        let setup = match data.setup_packet() {
            Some(s) => s,
            None => vstd::pervasive::unreached(),
        };
        let mut buf: Vec<u8> = Vec::new();
        let mut k: usize = 0;
        while k < 8
            invariant
                k <= 8,
                buf@ == setup@.take(k as int),
            decreases 8 - k,
        {
            buf.push(setup[k]);
            proof {
                assert(buf@ =~= setup@.take(k as int + 1));
            }
            k += 1;
        }
        proof {
            assert(buf@ =~= setup@);
        }
        let mut k: usize = 0;
        while k < data.data.len()
            invariant
                k <= data.data@.len(),
                buf@ == setup@ + data.data@.take(k as int),
            decreases data.data@.len() - k,
        {
            buf.push(data.data[k]);
            proof {
                assert(buf@ =~= setup@ + data.data@.take(k as int + 1));
            }
            k += 1;
        }
        proof {
            assert(buf@ =~= setup@ + data.data@);
        }
        let len = SETUP_PACKET_SIZE + data.data.len();
        self.capacity = len;
        self.urb.buffer = buf;
        self.urb.buffer_length = len;
        self.urb.actual_length = 0;
        self.state = TransferState::Pending;
        self.kind = PayloadKind::ControlOut;
    }

    /// Record the OS's completion report for an OUT transfer: the status
    /// and how many data-phase bytes were sent. The buffer is untouched.
    pub fn complete_out(&mut self, status: i32, sent: usize)
        requires
            old(self).wf(),
            old(self).state == TransferState::Pending,
            old(self).kind == PayloadKind::OutBytes || old(self).kind == PayloadKind::ControlOut,
            old(self).kind == PayloadKind::OutBytes ==> sent <= old(self).urb.buffer_length,
            old(self).kind == PayloadKind::ControlOut ==> sent + SETUP_PACKET_SIZE <= old(
                self,
            ).urb.buffer_length,
        ensures
            final(self).wf(),
            final(self).state == TransferState::Completed,
            final(self).urb.status == status,
            final(self).urb.actual_length == sent,
            final(self).urb.buffer == old(self).urb.buffer,
            final(self).urb.buffer_length == old(self).urb.buffer_length,
            final(self).urb.endpoint == old(self).urb.endpoint,
            final(self).urb.ep_type == old(self).urb.ep_type,
            final(self).urb.iso_frame_desc == old(self).urb.iso_frame_desc,
            final(self).capacity == old(self).capacity,
            final(self).kind == old(self).kind,
            final(self).cancel_requests == old(self).cancel_requests,
    {
        self.urb.status = status;
        self.urb.actual_length = sent;
        self.state = TransferState::Completed;
    }

    /// Record the OS's completion report for a bulk or interrupt IN
    /// transfer: the status and the bytes the device sent, which the
    /// kernel wrote at the start of the buffer region.
    pub fn complete_in(&mut self, status: i32, data: Vec<u8>)
        requires
            old(self).wf(),
            old(self).state == TransferState::Pending,
            old(self).kind == PayloadKind::Request,
            data@.len() <= old(self).urb.buffer_length,
        ensures
            final(self).wf(),
            final(self).state == TransferState::Completed,
            final(self).urb.status == status,
            final(self).urb.actual_length == data@.len(),
            final(self).urb.buffer@ == data@,
            final(self).urb.buffer_length == old(self).urb.buffer_length,
            final(self).urb.endpoint == old(self).urb.endpoint,
            final(self).urb.ep_type == old(self).urb.ep_type,
            final(self).urb.iso_frame_desc == old(self).urb.iso_frame_desc,
            final(self).capacity == old(self).capacity,
            final(self).kind == old(self).kind,
            final(self).cancel_requests == old(self).cancel_requests,
    {
        self.urb.status = status;
        self.urb.actual_length = data.len();
        self.urb.buffer = data;
        self.state = TransferState::Completed;
    }

    /// Record the OS's completion report for an IN control transfer: the
    /// status and the data-phase bytes, which the kernel wrote after the
    /// setup packet.
    pub fn complete_control_in(&mut self, status: i32, data: Vec<u8>)
        requires
            old(self).wf(),
            old(self).state == TransferState::Pending,
            old(self).kind == PayloadKind::ControlIn,
            data@.len() + SETUP_PACKET_SIZE <= old(self).urb.buffer_length,
        ensures
            final(self).wf(),
            final(self).state == TransferState::Completed,
            final(self).urb.status == status,
            final(self).urb.actual_length == data@.len(),
            final(self).urb.buffer@ == old(self).urb.buffer@ + data@,
            final(self).urb.buffer_length == old(self).urb.buffer_length,
            final(self).urb.endpoint == old(self).urb.endpoint,
            final(self).urb.ep_type == old(self).urb.ep_type,
            final(self).urb.iso_frame_desc == old(self).urb.iso_frame_desc,
            final(self).capacity == old(self).capacity,
            final(self).kind == old(self).kind,
            final(self).cancel_requests == old(self).cancel_requests,
    {
        self.urb.status = status;
        self.urb.actual_length = data.len();
        let mut buf: Vec<u8> = Vec::new();
        core::mem::swap(&mut buf, &mut self.urb.buffer);
        let ghost setup_part = buf@;
        let mut k: usize = 0;
        while k < data.len()
            invariant
                k <= data@.len(),
                buf@ == setup_part + data@.take(k as int),
            decreases data@.len() - k,
        {
            buf.push(data[k]);
            proof {
                assert(buf@ =~= setup_part + data@.take(k as int + 1));
            }
            k += 1;
        }
        proof {
            assert(buf@ =~= setup_part + data@);
        }
        self.urb.buffer = buf;
        self.state = TransferState::Completed;
    }

    /// Record the OS's completion report for an isochronous IN transfer:
    /// the overall status, each packet's reported length and status, and
    /// the whole buffer region as the kernel left it.
    pub fn complete_iso(&mut self, status: i32, packets: &Vec<(u32, u32)>, data: Vec<u8>)
        requires
            old(self).wf(),
            old(self).state == TransferState::Pending,
            old(self).kind == PayloadKind::Isochronous,
            packets@.len() == old(self).urb.iso_frame_desc@.len(),
            forall|j: int|
                0 <= j < packets@.len() ==> packets@[j].0 <= old(self).urb.iso_frame_desc@[j].length,
            data@.len() == old(self).urb.buffer_length,
        ensures
            final(self).wf(),
            final(self).state == TransferState::Completed,
            final(self).urb.status == status,
            final(self).urb.actual_length == old(self).urb.actual_length,
            final(self).urb.buffer@ == data@,
            final(self).urb.buffer_length == old(self).urb.buffer_length,
            final(self).urb.endpoint == old(self).urb.endpoint,
            final(self).urb.ep_type == old(self).urb.ep_type,
            final(self).urb.iso_frame_desc@.len() == old(self).urb.iso_frame_desc@.len(),
            forall|j: int|
                0 <= j < packets@.len() ==> final(self).urb.iso_frame_desc@[j]
                    == (IsoPacketDesc {
                    length: old(self).urb.iso_frame_desc@[j].length,
                    actual_length: packets@[j].0,
                    status: packets@[j].1,
                }),
            final(self).capacity == old(self).capacity,
            final(self).kind == old(self).kind,
            final(self).cancel_requests == old(self).cancel_requests,
    {
        let mut descs: Vec<IsoPacketDesc> = Vec::new();
        core::mem::swap(&mut descs, &mut self.urb.iso_frame_desc);
        let ghost old_descs = descs@;
        let mut j: usize = 0;
        while j < packets.len()
            invariant
                j <= packets@.len(),
                packets@.len() == descs@.len(),
                descs@.len() == old_descs.len(),
                forall|k: int| j <= k < old_descs.len() ==> descs@[k] == old_descs[k],
                forall|k: int|
                    0 <= k < j ==> descs@[k] == (IsoPacketDesc {
                        length: old_descs[k].length,
                        actual_length: packets@[k].0,
                        status: packets@[k].1,
                    }),
            decreases packets@.len() - j,
        {
            let (actual, pstatus) = packets[j];
            let length = descs[j].length;
            descs.set(j, IsoPacketDesc { length, actual_length: actual, status: pstatus });
            j += 1;
        }
        proof {
            lemma_iso_prefix_total_same_lengths(old_descs, descs@, old_descs.len() as int);
        }
        self.urb.iso_frame_desc = descs;
        self.urb.status = status;
        self.urb.buffer = data;
        self.state = TransferState::Completed;
    }

    /// Take the completion of an OUT transfer. The payload is the
    /// original allocation, returned with its capacity intact so it can
    /// be recycled; the transfer returns to `Idle`.
    pub fn take_completed_response(&mut self) -> (r: Completion<ResponseBuffer>)
        requires
            old(self).wf(),
            old(self).state == TransferState::Completed,
            old(self).kind == PayloadKind::OutBytes || old(self).kind == PayloadKind::ControlOut,
        ensures
            final(self).wf(),
            final(self).state == TransferState::Idle,
            final(self).urb.buffer@.len() == 0,
            final(self).capacity == 0,
            final(self).urb.endpoint == old(self).urb.endpoint,
            final(self).urb.ep_type == old(self).urb.ep_type,
            final(self).cancel_requests == old(self).cancel_requests,
            r.data.capacity == old(self).capacity,
            r.data.actual_length == old(self).urb.actual_length,
            r.status == spec_urb_status(old(self).urb.status),
    {
        let status = urb_status(self.urb.status);
        let data = ResponseBuffer { capacity: self.capacity, actual_length: self.urb.actual_length };
        self.urb.buffer = Vec::new();
        self.urb.buffer_length = 0;
        self.urb.actual_length = 0;
        self.capacity = 0;
        self.state = TransferState::Idle;
        Completion { data, status }
    }

    /// Take the completion of a bulk or interrupt IN transfer. The
    /// payload is the received bytes, of exactly the OS-reported length;
    /// the transfer returns to `Idle`.
    pub fn take_completed_in(&mut self) -> (r: Completion<Vec<u8>>)
        requires
            old(self).wf(),
            old(self).state == TransferState::Completed,
            old(self).kind == PayloadKind::Request,
        ensures
            final(self).wf(),
            final(self).state == TransferState::Idle,
            final(self).urb.buffer@.len() == 0,
            final(self).capacity == 0,
            final(self).urb.endpoint == old(self).urb.endpoint,
            final(self).urb.ep_type == old(self).urb.ep_type,
            final(self).cancel_requests == old(self).cancel_requests,
            r.data@ == old(self).urb.buffer@,
            r.data@.len() == old(self).urb.actual_length,
            r.status == spec_urb_status(old(self).urb.status),
    {
        let status = urb_status(self.urb.status);
        let mut data = Vec::new();
        core::mem::swap(&mut data, &mut self.urb.buffer);
        self.urb.buffer_length = 0;
        self.urb.actual_length = 0;
        self.capacity = 0;
        self.state = TransferState::Idle;
        Completion { data, status }
    }

    /// Take the completion of an IN control transfer. The setup packet is
    /// stripped: the payload is exactly the data-phase bytes, of the
    /// OS-reported length, and holds none of the setup bytes; the
    /// transfer returns to `Idle`.
    pub fn take_completed_control_in(&mut self) -> (r: Completion<Vec<u8>>)
        requires
            old(self).wf(),
            old(self).state == TransferState::Completed,
            old(self).kind == PayloadKind::ControlIn,
        ensures
            final(self).wf(),
            final(self).state == TransferState::Idle,
            final(self).urb.buffer@.len() == 0,
            final(self).capacity == 0,
            final(self).urb.endpoint == old(self).urb.endpoint,
            final(self).urb.ep_type == old(self).urb.ep_type,
            final(self).cancel_requests == old(self).cancel_requests,
            r.data@ == old(self).urb.buffer@.skip(SETUP_PACKET_SIZE as int),
            r.data@.len() == old(self).urb.actual_length,
            r.status == spec_urb_status(old(self).urb.status),
    {
        let status = urb_status(self.urb.status);
        let mut data: Vec<u8> = Vec::new();
        let mut k: usize = SETUP_PACKET_SIZE;
        while k < self.urb.buffer.len()
            invariant
                SETUP_PACKET_SIZE <= k <= self.urb.buffer@.len(),
                data@ == self.urb.buffer@.subrange(SETUP_PACKET_SIZE as int, k as int),
            decreases self.urb.buffer@.len() - k,
        {
            data.push(self.urb.buffer[k]);
            proof {
                assert(data@ =~= self.urb.buffer@.subrange(SETUP_PACKET_SIZE as int, k as int + 1));
            }
            k += 1;
        }
        proof {
            assert(data@ =~= self.urb.buffer@.skip(SETUP_PACKET_SIZE as int));
        }
        self.urb.buffer = Vec::new();
        self.urb.buffer_length = 0;
        self.urb.actual_length = 0;
        self.capacity = 0;
        self.state = TransferState::Idle;
        Completion { data, status }
    }

    /// Take the completion of an isochronous IN transfer. The payload is
    /// one byte vector per packet whose status is zero, each holding the
    /// packet's slot up to its reported length, in packet order; packets
    /// with nonzero status are omitted. The transfer returns to `Idle`.
    pub fn take_completed_iso(&mut self) -> (r: Completion<Vec<Vec<u8>>>)
        requires
            old(self).wf(),
            old(self).state == TransferState::Completed,
            old(self).kind == PayloadKind::Isochronous,
        ensures
            final(self).wf(),
            final(self).state == TransferState::Idle,
            final(self).urb.buffer@.len() == 0,
            final(self).capacity == 0,
            final(self).urb.endpoint == old(self).urb.endpoint,
            final(self).urb.ep_type == old(self).urb.ep_type,
            final(self).cancel_requests == old(self).cancel_requests,
            r.data@.map_values(|v: Vec<u8>| v@) == iso_slices(
                old(self).urb.buffer@,
                old(self).urb.iso_frame_desc@,
            ),
            r.data@.len() <= old(self).urb.iso_frame_desc@.len(),
            r.status == spec_urb_status(old(self).urb.status),
    {
        let status = urb_status(self.urb.status);
        let ghost buf = self.urb.buffer@;
        let ghost descs = self.urb.iso_frame_desc@;
        let mut data: Vec<Vec<u8>> = Vec::new();
        let mut data_start: usize = 0;
        let mut j: usize = 0;
        let blen = self.urb.buffer.len();
        proof {
            lemma_iso_slices_len(buf, descs, descs.len() as int);
        }
        while j < self.urb.iso_frame_desc.len()
            invariant
                self.urb.buffer@ == buf,
                blen == buf.len(),
                self.urb.iso_frame_desc@ == descs,
                self.urb.buffer@.len() == self.urb.buffer_length,
                iso_prefix_total(descs, descs.len() as int) == self.urb.buffer_length,
                forall|k: int| 0 <= k < descs.len() ==> descs[k].actual_length <= descs[k].length,
                j <= descs.len(),
                data_start == iso_prefix_total(descs, j as int),
                data@.map_values(|v: Vec<u8>| v@) == iso_slices_upto(buf, descs, j as int),
            decreases descs.len() - j,
        {
            let ghost prev = data@;
            let desc = self.urb.iso_frame_desc[j];
            proof {
                lemma_iso_prefix_total_nonneg(descs, j as int);
                lemma_iso_prefix_total_le(descs, j as int + 1, descs.len() as int);
            }
            if desc.status == 0 {
                let actual = desc.actual_length as usize;
                proof {
                    assert(iso_prefix_total(descs, j as int + 1) == iso_prefix_total(
                        descs,
                        j as int,
                    ) + descs[j as int].length);
                    assert(data_start + actual <= buf.len());
                }
                let mut packet: Vec<u8> = Vec::new();
                let mut k: usize = 0;
                while k < actual
                    invariant
                        self.urb.buffer@ == buf,
                        blen == buf.len(),
                        data_start + actual <= blen,
                        k <= actual,
                        packet@ == buf.subrange(data_start as int, data_start as int + k as int),
                    decreases actual - k,
                {
                    packet.push(self.urb.buffer[data_start + k]);
                    proof {
                        assert(packet@ =~= buf.subrange(
                            data_start as int,
                            data_start as int + k as int + 1,
                        ));
                    }
                    k += 1;
                }
                data.push(packet);
                proof {
                    assert(data@.map_values(|v: Vec<u8>| v@) =~= iso_slices_upto(
                        buf,
                        descs,
                        j as int + 1,
                    ));
                }
            } else {
                proof {
                    assert(data@.map_values(|v: Vec<u8>| v@) =~= iso_slices_upto(
                        buf,
                        descs,
                        j as int + 1,
                    ));
                }
            }
            data_start = data_start + desc.length as usize;
            j += 1;
        }
        self.urb.buffer = Vec::new();
        self.urb.buffer_length = 0;
        self.urb.actual_length = 0;
        self.capacity = 0;
        self.state = TransferState::Idle;
        Completion { data, status }
    }
}

/// Appending a descriptor does not change the total of the slots before
/// it.
proof fn lemma_iso_prefix_total_eq(a: Seq<IsoPacketDesc>, b: Seq<IsoPacketDesc>, j: int)
    requires
        0 <= j <= a.len(),
        j <= b.len(),
        forall|k: int| 0 <= k < j ==> a[k] == b[k],
    ensures
        iso_prefix_total(a, j) == iso_prefix_total(b, j),
    decreases j,
{
    if j > 0 {
        lemma_iso_prefix_total_eq(a, b, j - 1);
    }
}

/// Two descriptor sequences with the same slot lengths have the same
/// prefix totals.
proof fn lemma_iso_prefix_total_same_lengths(a: Seq<IsoPacketDesc>, b: Seq<IsoPacketDesc>, j: int)
    requires
        0 <= j <= a.len(),
        j <= b.len(),
        forall|k: int| 0 <= k < j ==> a[k].length == b[k].length,
    ensures
        iso_prefix_total(a, j) == iso_prefix_total(b, j),
    decreases j,
{
    if j > 0 {
        lemma_iso_prefix_total_same_lengths(a, b, j - 1);
    }
}

} // verus!
