//! Result codes of both libraries, the mapping between them, and the slot
//! that remembers the most recent failure.

use vstd::prelude::*;

verus! {

/// A result code reported by MIOpen.
///
/// `Unrecognized` stands for every code the bridge has no mapping for.
#[derive(Clone, Copy, Debug, PartialEq, Eq, Structural)]
pub enum MiopenStatus {
    Success,
    NotInitialized,
    InvalidValue,
    BadParm,
    InternalError,
    NotImplemented,
    UnknownError,
    UnsupportedOp,
    Unrecognized,
}

/// A status of the cuDNN call surface.
///
/// `Other` stands for every status the bridge never produces itself.
#[derive(Clone, Copy, Debug, PartialEq, Eq, Structural)]
pub enum CudnnStatus {
    Success,
    NotInitialized,
    InvalidValue,
    BadParam,
    NotSupported,
    InternalError,
    InternalErrorDeviceAllocationFailed,
    Other,
}

/// The cuDNN status that stands for a MIOpen result code.
///
/// Two pairs of codes collapse: both internal and unknown errors read as an
/// internal error, and both unimplemented and unsupported operations read as
/// not supported.
pub open spec fn to_cudnn_spec(status: MiopenStatus) -> CudnnStatus {
    match status {
        MiopenStatus::Success => CudnnStatus::Success,
        MiopenStatus::NotInitialized => CudnnStatus::NotInitialized,
        MiopenStatus::InvalidValue => CudnnStatus::InvalidValue,
        MiopenStatus::BadParm => CudnnStatus::BadParam,
        MiopenStatus::InternalError | MiopenStatus::UnknownError => CudnnStatus::InternalError,
        MiopenStatus::NotImplemented | MiopenStatus::UnsupportedOp => CudnnStatus::NotSupported,
        MiopenStatus::Unrecognized => CudnnStatus::Other,
    }
}

/// Whether the bridge has a mapping for this result code.
pub fn is_recognized(status: MiopenStatus) -> (known: bool)
    ensures
        known == (status != MiopenStatus::Unrecognized),
{
    !matches!(status, MiopenStatus::Unrecognized)
}

/// Maps a MIOpen result code onto the cuDNN status enumeration.
///
/// An unrecognized code is a contract violation of the target library and
/// has no mapping.
pub fn to_cudnn(status: MiopenStatus) -> (mapped: CudnnStatus)
    requires
        status != MiopenStatus::Unrecognized,
    ensures
        mapped == to_cudnn_spec(status),
        mapped != CudnnStatus::Other,
{
    match status {
        MiopenStatus::Success => CudnnStatus::Success,
        MiopenStatus::NotInitialized => CudnnStatus::NotInitialized,
        MiopenStatus::InvalidValue => CudnnStatus::InvalidValue,
        MiopenStatus::BadParm => CudnnStatus::BadParam,
        MiopenStatus::InternalError => CudnnStatus::InternalError,
        MiopenStatus::NotImplemented => CudnnStatus::NotSupported,
        MiopenStatus::UnknownError => CudnnStatus::InternalError,
        MiopenStatus::UnsupportedOp => CudnnStatus::NotSupported,
        MiopenStatus::Unrecognized => CudnnStatus::Other,
    }
}

/// The MIOpen result code whose description is shown for a cuDNN status.
pub open spec fn error_string_status_spec(status: CudnnStatus) -> MiopenStatus {
    match status {
        CudnnStatus::Success => MiopenStatus::Success,
        CudnnStatus::NotInitialized => MiopenStatus::NotInitialized,
        CudnnStatus::InvalidValue => MiopenStatus::InvalidValue,
        CudnnStatus::BadParam => MiopenStatus::BadParm,
        CudnnStatus::NotSupported => MiopenStatus::NotImplemented,
        CudnnStatus::InternalError => MiopenStatus::UnknownError,
        CudnnStatus::InternalErrorDeviceAllocationFailed | CudnnStatus::Other => MiopenStatus::Unrecognized,
    }
}

/// Whether a human-readable description can be looked up for this status.
pub open spec fn has_error_string(status: CudnnStatus) -> bool {
    status != CudnnStatus::InternalErrorDeviceAllocationFailed && status != CudnnStatus::Other
}

/// Executable form of [`has_error_string`].
pub fn can_describe(status: CudnnStatus) -> (known: bool)
    ensures
        known == has_error_string(status),
{
    !matches!(status, CudnnStatus::InternalErrorDeviceAllocationFailed | CudnnStatus::Other)
}

/// Picks the MIOpen result code whose description MIOpen is asked for when a
/// caller wants the text of a cuDNN status.
pub fn get_error_string(status: CudnnStatus) -> (code: MiopenStatus)
    requires
        has_error_string(status),
    ensures
        code == error_string_status_spec(status),
        code != MiopenStatus::Unrecognized,
        to_cudnn_spec(code) == status,
{
    match status {
        CudnnStatus::Success => MiopenStatus::Success,
        CudnnStatus::NotInitialized => MiopenStatus::NotInitialized,
        CudnnStatus::InvalidValue => MiopenStatus::InvalidValue,
        CudnnStatus::BadParam => MiopenStatus::BadParm,
        CudnnStatus::NotSupported => MiopenStatus::NotImplemented,
        CudnnStatus::InternalError => MiopenStatus::UnknownError,
        _ => MiopenStatus::Unrecognized,
    }
}

/// The most recent result code of MIOpen that was not a success.
///
/// The slot starts out empty and is never cleared: a later success leaves
/// the recorded failure in place.
#[derive(Clone, Copy, Debug, PartialEq, Eq, Structural)]
pub struct LastError {
    pub code: Option<MiopenStatus>,
}

/// What the slot holds after `status` has been offered to it.
pub open spec fn recorded(before: LastError, status: MiopenStatus) -> LastError {
    if status == MiopenStatus::Success {
        before
    } else {
        LastError { code: Some(status) }
    }
}

impl LastError {
    /// The empty slot.
    pub fn new() -> (slot: LastError)
        ensures
            slot.code is None,
    {
        LastError { code: None }
    }

    /// Offers a result code to the slot, which keeps it unless it is a
    /// success.
    pub fn record(&mut self, status: MiopenStatus)
        ensures
            *final(self) == recorded(*old(self), status),
    {
        if !matches!(status, MiopenStatus::Success) {
            self.code = Some(status);
        }
    }

    /// The code whose description a caller may look up, if any was recorded.
    pub fn get_last_error_string(&self) -> (code: Option<MiopenStatus>)
        ensures
            code == self.code,
    {
        self.code
    }
}

/// Completes one call into MIOpen: remembers a failure in the slot and
/// reports the result in cuDNN terms.
pub fn call(last_error: &mut LastError, result: MiopenStatus) -> (status: CudnnStatus)
    requires
        result != MiopenStatus::Unrecognized,
    ensures
        status == to_cudnn_spec(result),
        *final(last_error) == recorded(*old(last_error), result),
{
    last_error.record(result);
    to_cudnn(result)
}

/// Rejects an operation the bridge does not offer: the refusal is remembered
/// as an unimplemented operation and reported as not supported.
pub fn unsupported(last_error: &mut LastError) -> (status: CudnnStatus)
    ensures
        status == CudnnStatus::NotSupported,
        final(last_error).code == Some(MiopenStatus::NotImplemented),
{
    last_error.code = Some(MiopenStatus::NotImplemented);
    CudnnStatus::NotSupported
}

/// A component of the library version that a caller may ask for.
#[derive(Clone, Copy, Debug, PartialEq, Eq, Structural)]
pub enum LibraryProperty {
    MajorVersion,
    MinorVersion,
    PatchLevel,
    Other,
}

/// The version the bridge presents itself as.
pub open spec fn property_spec(prop: LibraryProperty) -> i32 {
    match prop {
        LibraryProperty::MajorVersion => 9,
        LibraryProperty::MinorVersion => 1,
        _ => 0,
    }
}

/// Answers a version query.  Only the three version components can be asked
/// for.
pub fn get_property(prop: LibraryProperty) -> (value: i32)
    requires
        prop != LibraryProperty::Other,
    ensures
        value == property_spec(prop),
{
    match prop {
        LibraryProperty::MajorVersion => 9,
        LibraryProperty::MinorVersion => 1,
        _ => 0,
    }
}

/// A success of MIOpen is the only result that reads as a success, and a
/// description looked up for a status belongs to a code that maps back onto
/// that status.
pub proof fn lemma_status_mapping(code: MiopenStatus, status: CudnnStatus)
    ensures
        to_cudnn_spec(code) == CudnnStatus::Success <==> code == MiopenStatus::Success,
        has_error_string(status) ==> to_cudnn_spec(error_string_status_spec(status)) == status,
{
}

} // verus!
