//! The transfer queue: a bounded pipeline of in-flight transfers on one
//! endpoint, with completions delivered in submission order.
//!
//! The OS may signal completions out of submission order; a later
//! completion stays parked until every earlier one has been taken.
//! [`Queue::poll_complete`] therefore always yields the completion of the
//! earliest transfer still outstanding — the one with submission index
//! `reaped` — and storage is recycled through a free list.

use vstd::prelude::*;
use crate::buffers::{RequestBuffer, RequestIsochronousBuffer, ResponseBuffer};
use crate::errors::spec_urb_status;
use crate::transfer::{
    iso_slices, Completion, PayloadKind, TransferData, TransferState, TransferType,
};

verus! {

/// The payload of a completion delivered by a queue, typed by what the
/// queue submits.
#[derive(Debug, PartialEq, Eq)]
pub enum QueuePayload {
    /// Bytes received on an IN endpoint.
    Bytes(Vec<u8>),
    /// The recycled allocation of an OUT submission.
    Recycled(ResponseBuffer),
    /// Per-packet payloads of an isochronous submission.
    Packets(Vec<Vec<u8>>),
}

/// A single-endpoint pipeline of transfers: those in flight in submission
/// order, and idle transfers kept for reuse.
pub struct Queue {
    pub endpoint: u8,
    pub ep_type: TransferType,
    pub kind: PayloadKind,
    /// Transfers submitted and not yet reaped, in submission order; the
    /// `i`-th entry has submission index `reaped + i`.
    pub pending: Vec<TransferData>,
    /// Idle transfers whose storage is reused by later submissions.
    pub free: Vec<TransferData>,
    /// How many transfers have been submitted.
    pub submitted: Ghost<nat>,
    /// How many completions have been taken.
    pub reaped: Ghost<nat>,
}

impl Queue {
    /// Internal consistency: the endpoint direction and type agree with
    /// what the queue submits, pending transfers are in flight or
    /// completed and all on this queue's endpoint, free transfers are
    /// idle, and the counters account for the pending set.
    pub open spec fn wf(self) -> bool {
        &&& match self.kind {
            PayloadKind::OutBytes => self.endpoint & 0x80 == 0 && (self.ep_type
                == TransferType::Bulk || self.ep_type == TransferType::Interrupt),
            PayloadKind::Request => self.endpoint & 0x80 == 0x80 && (self.ep_type
                == TransferType::Bulk || self.ep_type == TransferType::Interrupt),
            PayloadKind::Isochronous => self.endpoint & 0x80 == 0x80 && self.ep_type
                == TransferType::Isochronous,
            _ => false,
        }
        &&& self.submitted@ == self.reaped@ + self.pending@.len()
        &&& forall|i: int|
            0 <= i < self.pending@.len() ==> {
                &&& (#[trigger] self.pending@[i]).wf()
                &&& self.pending@[i].kind == self.kind
                &&& (self.pending@[i].state == TransferState::Pending || self.pending@[i].state
                    == TransferState::Completed)
                &&& self.pending@[i].urb.endpoint == self.endpoint
                &&& self.pending@[i].urb.ep_type == self.ep_type
            }
        &&& forall|i: int|
            0 <= i < self.free@.len() ==> {
                &&& (#[trigger] self.free@[i]).wf()
                &&& self.free@[i].state == TransferState::Idle
                &&& self.free@[i].urb.endpoint == self.endpoint
                &&& self.free@[i].urb.ep_type == self.ep_type
            }
    }

    /// Create an empty queue over one endpoint. The payload kind must
    /// agree with the endpoint's direction bit and type.
    pub fn new(endpoint: u8, ep_type: TransferType, kind: PayloadKind) -> (r: Queue)
        requires
            match kind {
                PayloadKind::OutBytes => endpoint & 0x80 == 0 && (ep_type == TransferType::Bulk
                    || ep_type == TransferType::Interrupt),
                PayloadKind::Request => endpoint & 0x80 == 0x80 && (ep_type == TransferType::Bulk
                    || ep_type == TransferType::Interrupt),
                PayloadKind::Isochronous => endpoint & 0x80 == 0x80 && ep_type
                    == TransferType::Isochronous,
                _ => false,
            },
        ensures
            r.wf(),
            r.endpoint == endpoint,
            r.ep_type == ep_type,
            r.kind == kind,
            r.pending@.len() == 0,
            r.free@.len() == 0,
            r.submitted@ == 0,
            r.reaped@ == 0,
    {
        Queue {
            endpoint,
            ep_type,
            kind,
            pending: Vec::new(),
            free: Vec::new(),
            submitted: Ghost(0),
            reaped: Ghost(0),
        }
    }

    /// Number of transfers submitted and not yet reaped.
    pub fn pending_len(&self) -> (r: usize)
        ensures
            r == self.pending@.len(),
    {
        self.pending.len()
    }

    /// Whether no transfer is in flight or awaiting reaping.
    pub fn is_empty(&self) -> (r: bool)
        ensures
            r == (self.pending@.len() == 0),
    {
        self.pending.len() == 0
    }

    /// Take an idle transfer from the free list, or make a new one.
    fn acquire(&mut self) -> (t: TransferData)
        requires
            old(self).wf(),
        ensures
            final(self).wf(),
            t.wf(),
            t.state == TransferState::Idle,
            t.urb.endpoint == old(self).endpoint,
            t.urb.ep_type == old(self).ep_type,
            final(self).endpoint == old(self).endpoint,
            final(self).ep_type == old(self).ep_type,
            final(self).kind == old(self).kind,
            final(self).pending == old(self).pending,
            final(self).submitted == old(self).submitted,
            final(self).reaped == old(self).reaped,
    {
        if self.free.len() > 0 {
            match self.free.pop() {
                Some(t) => t,
                None => vstd::pervasive::unreached(),
            }
        } else {
            TransferData::new(self.endpoint, self.ep_type)
        }
    }

    /// Submit a request buffer on this IN queue: acquire a transfer,
    /// submit the buffer on it, and append it to the in-flight set with
    /// the next submission index.
    pub fn submit_request(&mut self, buf: RequestBuffer)
        requires
            old(self).wf(),
            old(self).kind == PayloadKind::Request,
            buf.wf(),
            buf.requested <= 0x7fff_ffff,
        ensures
            final(self).wf(),
            final(self).pending@.len() == old(self).pending@.len() + 1,
            forall|i: int|
                0 <= i < old(self).pending@.len() ==> final(self).pending@[i] == old(
                    self,
                ).pending@[i],
            final(self).pending@.last().state == TransferState::Pending,
            final(self).pending@.last().kind == PayloadKind::Request,
            final(self).pending@.last().urb.buffer_length == buf.requested,
            final(self).pending@.last().capacity == buf.capacity,
            final(self).submitted@ == old(self).submitted@ + 1,
            final(self).reaped@ == old(self).reaped@,
            final(self).endpoint == old(self).endpoint,
            final(self).ep_type == old(self).ep_type,
            final(self).kind == old(self).kind,
    {
        let mut t = self.acquire();
        t.submit_request(buf);
        self.pending.push(t);
        proof {
            self.submitted@ = self.submitted@ + 1;
        }
    }

    /// Submit a byte vector on this OUT queue: acquire a transfer, submit
    /// the bytes on it, and append it to the in-flight set with the next
    /// submission index.
    pub fn submit_out(&mut self, data: Vec<u8>)
        requires
            old(self).wf(),
            old(self).kind == PayloadKind::OutBytes,
            data@.len() <= 0x7fff_ffff,
        ensures
            final(self).wf(),
            final(self).pending@.len() == old(self).pending@.len() + 1,
            forall|i: int|
                0 <= i < old(self).pending@.len() ==> final(self).pending@[i] == old(
                    self,
                ).pending@[i],
            final(self).pending@.last().state == TransferState::Pending,
            final(self).pending@.last().kind == PayloadKind::OutBytes,
            final(self).pending@.last().urb.buffer@ == data@,
            final(self).pending@.last().urb.buffer_length == data@.len(),
            final(self).pending@.last().capacity == data@.len(),
            final(self).submitted@ == old(self).submitted@ + 1,
            final(self).reaped@ == old(self).reaped@,
            final(self).endpoint == old(self).endpoint,
            final(self).ep_type == old(self).ep_type,
            final(self).kind == old(self).kind,
    {
        let mut t = self.acquire();
        t.submit_out(data);
        self.pending.push(t);
        proof {
            self.submitted@ = self.submitted@ + 1;
        }
    }

    /// Submit an isochronous request buffer on this queue: acquire a
    /// transfer, submit the buffer on it, and append it to the in-flight
    /// set with the next submission index.
    pub fn submit_iso(&mut self, buf: RequestIsochronousBuffer)
        requires
            old(self).wf(),
            old(self).kind == PayloadKind::Isochronous,
            buf.wf(),
            buf.requested <= u32::MAX,
            buf.requested * buf.number_of_packets <= 0x7fff_ffff,
        ensures
            final(self).wf(),
            final(self).pending@.len() == old(self).pending@.len() + 1,
            forall|i: int|
                0 <= i < old(self).pending@.len() ==> final(self).pending@[i] == old(
                    self,
                ).pending@[i],
            final(self).pending@.last().state == TransferState::Pending,
            final(self).pending@.last().kind == PayloadKind::Isochronous,
            final(self).pending@.last().urb.buffer_length == buf.requested
                * buf.number_of_packets,
            final(self).pending@.last().urb.iso_frame_desc@.len() == buf.number_of_packets,
            final(self).pending@.last().capacity == buf.capacity,
            final(self).submitted@ == old(self).submitted@ + 1,
            final(self).reaped@ == old(self).reaped@,
            final(self).endpoint == old(self).endpoint,
            final(self).ep_type == old(self).ep_type,
            final(self).kind == old(self).kind,
    {
        let mut t = self.acquire();
        t.submit_iso(buf);
        self.pending.push(t);
        proof {
            self.submitted@ = self.submitted@ + 1;
        }
    }

    /// Record the OS's completion report for the `i`-th outstanding
    /// transfer of this IN queue — completions may arrive in any order.
    pub fn complete_request(&mut self, i: usize, status: i32, data: Vec<u8>)
        requires
            old(self).wf(),
            old(self).kind == PayloadKind::Request,
            i < old(self).pending@.len(),
            old(self).pending@[i as int].state == TransferState::Pending,
            data@.len() <= old(self).pending@[i as int].urb.buffer_length,
        ensures
            final(self).wf(),
            final(self).pending@.len() == old(self).pending@.len(),
            forall|k: int|
                0 <= k < old(self).pending@.len() && k != i ==> final(self).pending@[k] == old(
                    self,
                ).pending@[k],
            final(self).pending@[i as int].state == TransferState::Completed,
            final(self).pending@[i as int].urb.status == status,
            final(self).pending@[i as int].urb.buffer@ == data@,
            final(self).pending@[i as int].urb.actual_length == data@.len(),
            final(self).submitted@ == old(self).submitted@,
            final(self).reaped@ == old(self).reaped@,
            final(self).endpoint == old(self).endpoint,
            final(self).ep_type == old(self).ep_type,
            final(self).kind == old(self).kind,
            final(self).free == old(self).free,
    {
        let mut t = self.pending.remove(i);
        t.complete_in(status, data);
        self.pending.insert(i, t);
        proof {
            assert(self.pending@ =~= old(self).pending@.update(i as int, self.pending@[i as int]));
        }
    }

    /// Record the OS's completion report for the `i`-th outstanding
    /// transfer of this OUT queue — completions may arrive in any order.
    pub fn complete_out(&mut self, i: usize, status: i32, sent: usize)
        requires
            old(self).wf(),
            old(self).kind == PayloadKind::OutBytes,
            i < old(self).pending@.len(),
            old(self).pending@[i as int].state == TransferState::Pending,
            sent <= old(self).pending@[i as int].urb.buffer_length,
        ensures
            final(self).wf(),
            final(self).pending@.len() == old(self).pending@.len(),
            forall|k: int|
                0 <= k < old(self).pending@.len() && k != i ==> final(self).pending@[k] == old(
                    self,
                ).pending@[k],
            final(self).pending@[i as int].state == TransferState::Completed,
            final(self).pending@[i as int].urb.status == status,
            final(self).pending@[i as int].urb.actual_length == sent,
            final(self).pending@[i as int].capacity == old(self).pending@[i as int].capacity,
            final(self).submitted@ == old(self).submitted@,
            final(self).reaped@ == old(self).reaped@,
            final(self).endpoint == old(self).endpoint,
            final(self).ep_type == old(self).ep_type,
            final(self).kind == old(self).kind,
            final(self).free == old(self).free,
    {
        let mut t = self.pending.remove(i);
        t.complete_out(status, sent);
        self.pending.insert(i, t);
        proof {
            assert(self.pending@ =~= old(self).pending@.update(i as int, self.pending@[i as int]));
        }
    }

    /// Record the OS's completion report for the `i`-th outstanding
    /// transfer of this isochronous queue — completions may arrive in any
    /// order.
    pub fn complete_iso(&mut self, i: usize, status: i32, packets: &Vec<(u32, u32)>, data: Vec<u8>)
        requires
            old(self).wf(),
            old(self).kind == PayloadKind::Isochronous,
            i < old(self).pending@.len(),
            old(self).pending@[i as int].state == TransferState::Pending,
            packets@.len() == old(self).pending@[i as int].urb.iso_frame_desc@.len(),
            forall|j: int|
                0 <= j < packets@.len() ==> packets@[j].0 <= old(
                    self,
                ).pending@[i as int].urb.iso_frame_desc@[j].length,
            data@.len() == old(self).pending@[i as int].urb.buffer_length,
        ensures
            final(self).wf(),
            final(self).pending@.len() == old(self).pending@.len(),
            forall|k: int|
                0 <= k < old(self).pending@.len() && k != i ==> final(self).pending@[k] == old(
                    self,
                ).pending@[k],
            final(self).pending@[i as int].state == TransferState::Completed,
            final(self).pending@[i as int].urb.status == status,
            final(self).pending@[i as int].urb.buffer@ == data@,
            final(self).submitted@ == old(self).submitted@,
            final(self).reaped@ == old(self).reaped@,
            final(self).endpoint == old(self).endpoint,
            final(self).ep_type == old(self).ep_type,
            final(self).kind == old(self).kind,
            final(self).free == old(self).free,
    {
        let mut t = self.pending.remove(i);
        t.complete_iso(status, packets, data);
        self.pending.insert(i, t);
        proof {
            assert(self.pending@ =~= old(self).pending@.update(i as int, self.pending@[i as int]));
        }
    }

    /// Take the oldest not-yet-reaped completion, in submission order.
    ///
    /// Yields `Some` exactly when the earliest outstanding transfer — the
    /// one with submission index `reaped` — has completed, and then
    /// increments `reaped`; so successive calls yield strictly increasing
    /// submission indices, whatever order the OS completed them in. A
    /// queue with nothing submitted never resolves. The reaped transfer's
    /// storage returns to the free list.
    pub fn poll_complete(&mut self) -> (r: Option<Completion<QueuePayload>>)
        requires
            old(self).wf(),
        ensures
            final(self).wf(),
            r is Some <==> old(self).pending@.len() > 0 && old(self).pending@[0].state
                == TransferState::Completed,
            r is None ==> *final(self) == *old(self),
            r matches Some(c) ==> {
                &&& final(self).pending@ == old(self).pending@.skip(1)
                &&& final(self).reaped@ == old(self).reaped@ + 1
                &&& final(self).submitted@ == old(self).submitted@
                &&& c.status == spec_urb_status(old(self).pending@[0].urb.status)
                &&& match c.data {
                    QueuePayload::Bytes(d) => old(self).kind == PayloadKind::Request && d@ == old(
                        self,
                    ).pending@[0].urb.buffer@ && d@.len() == old(
                        self,
                    ).pending@[0].urb.actual_length,
                    QueuePayload::Recycled(rb) => old(self).kind == PayloadKind::OutBytes
                        && rb.capacity == old(self).pending@[0].capacity && rb.actual_length == old(
                        self,
                    ).pending@[0].urb.actual_length,
                    QueuePayload::Packets(ps) => old(self).kind == PayloadKind::Isochronous
                        && ps@.map_values(|v: Vec<u8>| v@) == iso_slices(
                        old(self).pending@[0].urb.buffer@,
                        old(self).pending@[0].urb.iso_frame_desc@,
                    ),
                }
            },
            final(self).endpoint == old(self).endpoint,
            final(self).ep_type == old(self).ep_type,
            final(self).kind == old(self).kind,
    {
        if self.pending.len() == 0 {
            return None;
        }
        let head_completed = match self.pending[0].state {
            TransferState::Completed => true,
            _ => false,
        };
        if !head_completed {
            return None;
        }
        let mut t = self.pending.remove(0);
        proof {
            assert(self.pending@ =~= old(self).pending@.skip(1));
        }
        let completion = match self.kind {
            PayloadKind::Request => {
                let c = t.take_completed_in();
                Completion { data: QueuePayload::Bytes(c.data), status: c.status }
            },
            PayloadKind::OutBytes => {
                let c = t.take_completed_response();
                Completion { data: QueuePayload::Recycled(c.data), status: c.status }
            },
            PayloadKind::Isochronous => {
                let c = t.take_completed_iso();
                Completion { data: QueuePayload::Packets(c.data), status: c.status }
            },
            _ => vstd::pervasive::unreached(),
        };
        self.free.push(t);
        proof {
            self.reaped@ = self.reaped@ + 1;
        }
        Some(completion)
    }

    /// Request cancellation of every outstanding transfer. Completions
    /// still flow through `poll_complete` in submission order; cancelled
    /// transfers surface there with a `Cancelled` status.
    pub fn cancel_all(&mut self)
        requires
            old(self).wf(),
        ensures
            final(self).wf(),
            final(self).pending@.len() == old(self).pending@.len(),
            forall|k: int|
                0 <= k < old(self).pending@.len() ==> {
                    &&& (#[trigger] final(self).pending@[k]).urb == old(self).pending@[k].urb
                    &&& final(self).pending@[k].state == old(self).pending@[k].state
                    &&& final(self).pending@[k].kind == old(self).pending@[k].kind
                    &&& final(self).pending@[k].capacity == old(self).pending@[k].capacity
                    &&& final(self).pending@[k].cancel_requests@ == old(
                        self,
                    ).pending@[k].cancel_requests@ + 1
                },
            final(self).submitted@ == old(self).submitted@,
            final(self).reaped@ == old(self).reaped@,
            final(self).endpoint == old(self).endpoint,
            final(self).ep_type == old(self).ep_type,
            final(self).kind == old(self).kind,
            final(self).free == old(self).free,
    {
        let mut i: usize = 0;
        while i < self.pending.len()
            invariant
                old(self).wf(),
                i <= self.pending@.len(),
                self.pending@.len() == old(self).pending@.len(),
                forall|k: int|
                    i <= k < old(self).pending@.len() ==> self.pending@[k] == old(
                        self,
                    ).pending@[k],
                forall|k: int|
                    0 <= k < i ==> {
                        &&& (#[trigger] self.pending@[k]).urb == old(self).pending@[k].urb
                        &&& self.pending@[k].state == old(self).pending@[k].state
                        &&& self.pending@[k].kind == old(self).pending@[k].kind
                        &&& self.pending@[k].capacity == old(self).pending@[k].capacity
                        &&& self.pending@[k].cancel_requests@ == old(
                            self,
                        ).pending@[k].cancel_requests@ + 1
                    },
                self.endpoint == old(self).endpoint,
                self.ep_type == old(self).ep_type,
                self.kind == old(self).kind,
                self.free == old(self).free,
                self.submitted == old(self).submitted,
                self.reaped == old(self).reaped,
            decreases self.pending@.len() - i,
        {
            let mut t = self.pending.remove(i);
            t.cancel();
            self.pending.insert(i, t);
            i += 1;
        }
    }
}

/// Completions are yielded in submission order: a successful
/// `poll_complete` returns the completion of submission index `reaped`
/// and increments `reaped`, so across two successive successful polls the
/// yielded submission indices strictly increase.
pub proof fn lemma_completion_indices_increase(
    reaped_at_first: nat,
    reaped_after_first: nat,
    reaped_at_second: nat,
)
    requires
        reaped_after_first == reaped_at_first + 1,
        reaped_at_second == reaped_after_first,
    ensures
        reaped_at_first < reaped_at_second,
{
}

} // verus!
