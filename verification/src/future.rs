//! The single-shot completion future over one transfer.
//!
//! Polling never blocks: it only reports whether the OS has signalled
//! completion, after which the completion can be taken through the
//! transfer exactly once. Dropping the future before completion must not
//! free the buffer — the platform layer calls [`TransferFuture::drop_pending`],
//! which requests cancellation exactly once and hands the still-live
//! transfer back for the completion dispatcher to reap.

use vstd::prelude::*;
use crate::transfer::{TransferData, TransferState};

verus! {

/// A single-shot awaitable wrapper over one submitted transfer.
pub struct TransferFuture {
    pub transfer: TransferData,
}

impl TransferFuture {
    /// Wrap a transfer. The events and the reaping of the completion go
    /// through the `transfer` field.
    pub fn new(transfer: TransferData) -> (r: TransferFuture)
        ensures
            r.transfer == transfer,
    {
        TransferFuture { transfer }
    }

    /// Whether the OS has signalled completion. Never blocks.
    pub fn poll_complete(&self) -> (r: bool)
        ensures
            r == (self.transfer.state == TransferState::Completed),
    {
        match self.transfer.state {
            TransferState::Completed => true,
            _ => false,
        }
    }

    /// Drop the future before its completion was taken. If the transfer
    /// is still pending, cancellation is requested exactly once; either
    /// way the transfer — and with it the buffer installed in its control
    /// block — is handed back intact, to be reaped by the completion
    /// dispatcher once the OS signals.
    pub fn drop_pending(self) -> (t: TransferData)
        ensures
            t.urb == self.transfer.urb,
            t.capacity == self.transfer.capacity,
            t.state == self.transfer.state,
            t.kind == self.transfer.kind,
            self.transfer.state == TransferState::Pending ==> t.cancel_requests@
                == self.transfer.cancel_requests@ + 1,
            self.transfer.state != TransferState::Pending ==> t.cancel_requests@
                == self.transfer.cancel_requests@,
            self.transfer.wf() ==> t.wf(),
    {
        let mut t = self.transfer;
        let pending = match t.state {
            TransferState::Pending => true,
            _ => false,
        };
        if pending {
            t.cancel();
        }
        t
    }
}

} // verus!
