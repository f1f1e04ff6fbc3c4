//! The error taxonomy, layer by layer: transport, framing, SMP protocol,
//! and the errors a device reports in its responses.

use vstd::prelude::*;

verus! {

/// The MCUmgr version 1 code for an unsupported command.
pub const MGMT_ERR_ENOTSUP: i32 = 8;

/// What the byte transport can fail with.
#[derive(Debug, Clone, Copy, PartialEq, Eq, Structural)]
pub enum TransportError {
    /// The underlying stream failed.
    Io,
    /// The read deadline elapsed without progress.
    Timeout,
}

/// What sending a frame can fail with.
#[derive(Debug, Clone, Copy, PartialEq, Eq, Structural)]
pub enum SendError {
    /// The byte transport failed.
    TransportError(TransportError),
    /// The payload does not fit one SMP packet.
    DataTooBig,
}

/// What receiving a frame can fail with.
#[derive(Debug, Clone, Copy, PartialEq, Eq, Structural)]
pub enum ReceiveError {
    /// The byte transport failed.
    TransportError(TransportError),
    /// A frame was broken: bad base64, a length mismatch, or a CRC mismatch.
    Framing,
    /// A response matched the expected sequence number but not the expected
    /// group, command, operation, or declared payload length.
    UnexpectedResponse,
}

/// An error the device reported in a response.
#[derive(Debug)]
pub enum DeviceError {
    /// An MCUmgr SMP version 1 error.
    V1 {
        /// The error code.
        rc: i32,
        /// Human-readable reason, when the device supplied one.
        rsn: Option<String>,
    },
    /// An MCUmgr SMP version 2 group-based error.
    V2 {
        /// The group the error code belongs to.
        group: u16,
        /// The group-based error code.
        rc: i32,
    },
}

/// What executing an SMP command can fail with.
#[derive(Debug)]
pub enum ExecuteError {
    /// Sending the request failed.
    SendFailed(SendError),
    /// Receiving the response failed.
    ReceiveFailed(ReceiveError),
    /// The request payload could not be encoded.
    EncodeFailed,
    /// The response payload could not be decoded.
    DecodeFailed,
    /// The device reported an error.
    ErrorResponse(DeviceError),
}

/// Whether an execution error is the device saying the command is not
/// supported (version 1 code 8); the firmware orchestrator's recovery branch
/// hinges on it.
pub open spec fn spec_command_not_supported(e: ExecuteError) -> bool {
    &&& e matches ExecuteError::ErrorResponse(d)
    &&& d matches DeviceError::V1 { rc, .. }
    &&& rc == MGMT_ERR_ENOTSUP
}

impl ExecuteError {
    /// Whether the device said the command is not supported (version 1
    /// code 8).
    pub fn command_not_supported(&self) -> (r: bool)
        ensures
            r == spec_command_not_supported(*self),
    {
        match self {
            ExecuteError::ErrorResponse(DeviceError::V1 { rc, .. }) => *rc == MGMT_ERR_ENOTSUP,
            _ => false,
        }
    }
}

/// What a file download can fail with.
#[derive(Debug)]
pub enum FileDownloadError {
    /// The command failed at the SMP protocol layer.
    ExecuteError(ExecuteError),
    /// A response carried a different offset than requested.
    UnexpectedOffset,
    /// The received data does not add up to the reported size, or a
    /// response carried no data at all.
    SizeMismatch,
    /// The first response did not report the file size.
    MissingSize,
    /// The progress callback asked to stop.
    ProgressCallbackError,
}

/// What a file upload can fail with.
#[derive(Debug)]
pub enum FileUploadError {
    /// The command failed at the SMP protocol layer.
    ExecuteError(ExecuteError),
    /// The progress callback asked to stop.
    ProgressCallbackError,
    /// The SMP frame size is too small to carry any data.
    FrameSizeTooSmall,
}

/// What an image upload can fail with.
#[derive(Debug)]
pub enum ImageUploadError {
    /// The command failed at the SMP protocol layer.
    ExecuteError(ExecuteError),
    /// The progress callback asked to stop.
    ProgressCallbackError,
    /// The SMP frame size is too small to carry any data.
    FrameSizeTooSmall,
}

} // verus!
