//! Error kinds reported by the library, and the mapping from raw OS codes.

use vstd::prelude::*;

verus! {

/// Status of a finished transfer, as carried in a completion.
#[derive(Clone, Copy, Debug, PartialEq, Eq, Structural)]
pub enum TransferError {
    /// The endpoint is halted; clear the halt before the next submission.
    Stall,
    /// The submission was cancelled, explicitly or during shutdown.
    Cancelled,
    /// The device is no longer present.
    Disconnected,
    /// A protocol, framing, overflow or communication error on the device side.
    Fault,
    /// Any other OS-reported failure.
    Unknown,
}

/// Error kind returned by operations other than transfers themselves.
#[derive(Clone, Copy, Debug, PartialEq, Eq, Structural)]
pub enum Error {
    NotFound,
    PermissionDenied,
    Unsupported,
    /// Returned bytes failed descriptor validation.
    InvalidData,
    /// No configuration descriptor matches the active configuration value.
    NoActiveConfiguration,
    /// Any other OS error, with its raw code.
    Io(i32),
}

/// The active configuration value the OS reported, for which no
/// configuration descriptor exists.
#[derive(Clone, Copy, Debug, PartialEq, Eq, Structural)]
pub struct ActiveConfigurationError {
    pub configuration_value: u8,
}

impl ActiveConfigurationError {
    /// The library error kind this failure surfaces as.
    pub fn to_error(&self) -> (r: Error)
        ensures
            r == Error::NoActiveConfiguration,
    {
        Error::NoActiveConfiguration
    }
}

pub const EPERM: i32 = 1;
pub const ENOENT: i32 = 2;
pub const EACCES: i32 = 13;
pub const EOPNOTSUPP: i32 = 95;
pub const ENODEV: i32 = 19;
pub const EPIPE: i32 = 32;
pub const ETIME: i32 = 62;
pub const ECOMM: i32 = 70;
pub const EPROTO: i32 = 71;
pub const EOVERFLOW: i32 = 75;
pub const EILSEQ: i32 = 84;
pub const ECONNRESET: i32 = 104;
pub const ESHUTDOWN: i32 = 108;
pub const ETIMEDOUT: i32 = 110;

/// The transfer error that a raw `errno` value stands for.
pub open spec fn spec_errno_to_transfer_error(e: i32) -> TransferError {
    if e == ENODEV || e == ESHUTDOWN {
        TransferError::Disconnected
    } else if e == EPIPE {
        TransferError::Stall
    } else if e == ENOENT || e == ECONNRESET || e == ETIMEDOUT {
        TransferError::Cancelled
    } else if e == EPROTO || e == EILSEQ || e == EOVERFLOW || e == ECOMM || e == ETIME {
        TransferError::Fault
    } else {
        TransferError::Unknown
    }
}

/// Map a raw `errno` value to the transfer error it stands for.
pub fn errno_to_transfer_error(e: i32) -> (r: TransferError)
    ensures
        r == spec_errno_to_transfer_error(e),
{
    if e == ENODEV || e == ESHUTDOWN {
        TransferError::Disconnected
    } else if e == EPIPE {
        TransferError::Stall
    } else if e == ENOENT || e == ECONNRESET || e == ETIMEDOUT {
        TransferError::Cancelled
    } else if e == EPROTO || e == EILSEQ || e == EOVERFLOW || e == ECOMM || e == ETIME {
        TransferError::Fault
    } else {
        TransferError::Unknown
    }
}

/// The library error kind a raw OS code from a non-transfer operation
/// stands for: missing device nodes surface as `NotFound`, permission
/// failures as `PermissionDenied`, operations the platform lacks as
/// `Unsupported`, and every other code propagates as `Io` with the code.
pub open spec fn spec_os_error_to_error(e: i32) -> Error {
    if e == ENOENT || e == ENODEV {
        Error::NotFound
    } else if e == EPERM || e == EACCES {
        Error::PermissionDenied
    } else if e == EOPNOTSUPP {
        Error::Unsupported
    } else {
        Error::Io(e)
    }
}

/// Map a raw OS code from a non-transfer operation to the library error
/// kind it stands for.
pub fn os_error_to_error(e: i32) -> (r: Error)
    ensures
        r == spec_os_error_to_error(e),
{
    if e == ENOENT || e == ENODEV {
        Error::NotFound
    } else if e == EPERM || e == EACCES {
        Error::PermissionDenied
    } else if e == EOPNOTSUPP {
        Error::Unsupported
    } else {
        Error::Io(e)
    }
}

/// The result a control-block status field stands for: `Ok` for zero,
/// else the transfer error of the status read as an `errno` value.
pub open spec fn spec_urb_status(status: i32) -> Result<(), TransferError> {
    if status == 0 {
        Ok(())
    } else {
        Err(spec_errno_to_transfer_error(spec_status_abs(status)))
    }
}

/// The magnitude of a status field. The OS reports the code sometimes
/// positive and sometimes negative; `i32::MIN` is kept as is, as no
/// `errno` value reaches it.
pub open spec fn spec_status_abs(status: i32) -> i32 {
    if status > i32::MIN && status < 0 {
        (-status) as i32
    } else {
        status
    }
}

/// Interpret a control-block status field.
pub fn urb_status(status: i32) -> (r: Result<(), TransferError>)
    ensures
        r == spec_urb_status(status),
{
    if status == 0 {
        return Ok(());
    }
    let mag: i32 = if status > i32::MIN && status < 0 {
        -status
    } else {
        status
    };
    Err(errno_to_transfer_error(mag))
}

} // verus!
