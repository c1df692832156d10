//! Status codes, handles and the failure kinds of the bridge.

use vstd::prelude::*;

verus! {

/// An opaque firmware handle, such as the handle of the loaded image.
pub type EfiHandle = u64;

/// The raw status code with which the firmware reports success.
pub const EFI_SUCCESS_CODE: u64 = 0;

/// The outcome of a firmware call as this layer sees it: the one success
/// code, or a failure. Every other raw code is collapsed into `Failure`.
#[derive(Debug, PartialEq, Eq, Copy, Clone, Structural)]
#[must_use]
pub enum EfiStatus {
    Success,
    Failure,
}

impl EfiStatus {
    /// The status that a raw code stands for.
    pub open spec fn of_code(code: u64) -> EfiStatus {
        if code == EFI_SUCCESS_CODE {
            EfiStatus::Success
        } else {
            EfiStatus::Failure
        }
    }

    /// Classifies a raw status code returned by the firmware.
    pub fn from_code(code: u64) -> (status: EfiStatus)
        ensures
            status == EfiStatus::of_code(code),
            status == EfiStatus::Success <==> code == EFI_SUCCESS_CODE,
    {
        if code == EFI_SUCCESS_CODE {
            EfiStatus::Success
        } else {
            EfiStatus::Failure
        }
    }

    /// Whether the call succeeded.
    pub fn is_success(&self) -> (ok: bool)
        ensures
            ok <==> *self == EfiStatus::Success,
    {
        match self {
            EfiStatus::Success => true,
            EfiStatus::Failure => false,
        }
    }
}

/// The failure kinds that the bridge reports.
#[derive(Debug, PartialEq, Eq, Copy, Clone, Structural)]
pub enum UefiError {
    /// A firmware call returned a status other than success.
    FirmwareCallFailed,
    /// The firmware does not provide the graphics output protocol.
    ProtocolNotFound,
    /// The memory map needs more bytes than the fixed buffer holds.
    MapBufferTooSmall,
    /// A service table is too short to hold the fields at their offsets.
    LayoutMismatch,
}

impl UefiError {
    /// A short description of the failure.
    pub fn message(&self) -> (text: &'static str)
        ensures
            text@ == UefiError::message_of(*self),
    {
        match self {
            UefiError::FirmwareCallFailed => "firmware call failed",
            UefiError::ProtocolNotFound => "Failed to locate graphics output protocol",
            UefiError::MapBufferTooSmall => "memory map exceeds the buffer capacity",
            UefiError::LayoutMismatch => "service table layout mismatch",
        }
    }

    /// The text that `message` returns for each failure kind.
    pub open spec fn message_of(error: UefiError) -> Seq<char> {
        match error {
            UefiError::FirmwareCallFailed => "firmware call failed"@,
            UefiError::ProtocolNotFound => "Failed to locate graphics output protocol"@,
            UefiError::MapBufferTooSmall => "memory map exceeds the buffer capacity"@,
            UefiError::LayoutMismatch => "service table layout mismatch"@,
        }
    }
}

} // verus!
