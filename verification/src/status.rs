//! Error statuses surfaced by the virtual machine.
//!
//! A status carries a major status code and an optional sub-status code.
//! Statuses are partitioned by status type: validation failures, verifier
//! failures, invariant violations (impossible states), deserialization
//! failures, and execution-time failures of otherwise well-formed code.

use vstd::prelude::*;

verus! {

/// Major status codes for the virtual machine.
#[derive(Debug, Clone, Copy, PartialEq, Eq, Structural)]
pub enum StatusCode {
    // Validation
    UnknownValidationStatus,
    VmStartupFailure,
    // Verification
    VerificationError,
    // Invariant violations
    UnknownInvariantViolationError,
    EmptyValueStack,
    PcOverflow,
    LinkerError,
    LocalReferenceError,
    InternalTypeError,
    EventKeyMismatch,
    Unreachable,
    VerifierInvariantViolation,
    DanglingReference,
    // Deserialization
    UnknownBinaryError,
    // Execution
    UnknownRuntimeStatus,
    Executed,
    OutOfGas,
    ResourceDoesNotExist,
    ResourceAlreadyExists,
    MissingData,
    DataFormatError,
    Aborted,
    ArithmeticError,
    ExecutionStackOverflow,
    CallStackOverflow,
    NativeFunctionError,
    GasScheduleError,
}

/// The five partitions of the status codes.
#[derive(Debug, Clone, Copy, PartialEq, Eq, Structural)]
pub enum StatusType {
    Validation,
    Verification,
    InvariantViolation,
    Deserialization,
    Execution,
}

/// Sub-status: the gas schedule module could not be loaded.
pub const GSE_UNABLE_TO_LOAD_MODULE: u64 = 0;

/// Sub-status: the gas schedule resource could not be loaded.
pub const GSE_UNABLE_TO_LOAD_RESOURCE: u64 = 1;

/// Sub-status: the gas schedule resource could not be deserialized.
pub const GSE_UNABLE_TO_DESERIALIZE: u64 = 2;

/// The partition a major status code belongs to.
pub open spec fn spec_status_type(code: StatusCode) -> StatusType {
    match code {
        StatusCode::UnknownValidationStatus => StatusType::Validation,
        StatusCode::VmStartupFailure => StatusType::Validation,
        StatusCode::VerificationError => StatusType::Verification,
        StatusCode::UnknownInvariantViolationError => StatusType::InvariantViolation,
        StatusCode::EmptyValueStack => StatusType::InvariantViolation,
        StatusCode::PcOverflow => StatusType::InvariantViolation,
        StatusCode::LinkerError => StatusType::InvariantViolation,
        StatusCode::LocalReferenceError => StatusType::InvariantViolation,
        StatusCode::InternalTypeError => StatusType::InvariantViolation,
        StatusCode::EventKeyMismatch => StatusType::InvariantViolation,
        StatusCode::Unreachable => StatusType::InvariantViolation,
        StatusCode::VerifierInvariantViolation => StatusType::InvariantViolation,
        StatusCode::DanglingReference => StatusType::InvariantViolation,
        StatusCode::UnknownBinaryError => StatusType::Deserialization,
        StatusCode::UnknownRuntimeStatus => StatusType::Execution,
        StatusCode::Executed => StatusType::Execution,
        StatusCode::OutOfGas => StatusType::Execution,
        StatusCode::ResourceDoesNotExist => StatusType::Execution,
        StatusCode::ResourceAlreadyExists => StatusType::Execution,
        StatusCode::MissingData => StatusType::Execution,
        StatusCode::DataFormatError => StatusType::Execution,
        StatusCode::Aborted => StatusType::Execution,
        StatusCode::ArithmeticError => StatusType::Execution,
        StatusCode::ExecutionStackOverflow => StatusType::Execution,
        StatusCode::CallStackOverflow => StatusType::Execution,
        StatusCode::NativeFunctionError => StatusType::Execution,
        StatusCode::GasScheduleError => StatusType::Execution,
    }
}

/// A status produced by the virtual machine: a major code plus an optional
/// sub-status (for example the abort code of an `Abort` instruction).
#[derive(Debug, Clone, PartialEq, Eq)]
pub struct VMStatus {
    pub major_status: StatusCode,
    pub sub_status: Option<u64>,
}

impl VMStatus {
    /// A status with the given major code and no sub-status.
    pub fn new(major_status: StatusCode) -> (r: VMStatus)
        ensures
            r.major_status == major_status,
            r.sub_status is None,
    {
        VMStatus { major_status, sub_status: None }
    }

    /// The same status with the given sub-status attached.
    pub fn with_sub_status(self, sub_status: u64) -> (r: VMStatus)
        ensures
            r.major_status == self.major_status,
            r.sub_status == Some(sub_status),
    {
        VMStatus { major_status: self.major_status, sub_status: Some(sub_status) }
    }

    /// The partition this status belongs to.
    pub fn status_type(&self) -> (r: StatusType)
        ensures
            r == spec_status_type(self.major_status),
    {
        match self.major_status {
            StatusCode::UnknownValidationStatus => StatusType::Validation,
            StatusCode::VmStartupFailure => StatusType::Validation,
            StatusCode::VerificationError => StatusType::Verification,
            StatusCode::UnknownInvariantViolationError => StatusType::InvariantViolation,
            StatusCode::EmptyValueStack => StatusType::InvariantViolation,
            StatusCode::PcOverflow => StatusType::InvariantViolation,
            StatusCode::LinkerError => StatusType::InvariantViolation,
            StatusCode::LocalReferenceError => StatusType::InvariantViolation,
            StatusCode::InternalTypeError => StatusType::InvariantViolation,
            StatusCode::EventKeyMismatch => StatusType::InvariantViolation,
            StatusCode::Unreachable => StatusType::InvariantViolation,
            StatusCode::VerifierInvariantViolation => StatusType::InvariantViolation,
            StatusCode::DanglingReference => StatusType::InvariantViolation,
            StatusCode::UnknownBinaryError => StatusType::Deserialization,
            StatusCode::UnknownRuntimeStatus => StatusType::Execution,
            StatusCode::Executed => StatusType::Execution,
            StatusCode::OutOfGas => StatusType::Execution,
            StatusCode::ResourceDoesNotExist => StatusType::Execution,
            StatusCode::ResourceAlreadyExists => StatusType::Execution,
            StatusCode::MissingData => StatusType::Execution,
            StatusCode::DataFormatError => StatusType::Execution,
            StatusCode::Aborted => StatusType::Execution,
            StatusCode::ArithmeticError => StatusType::Execution,
            StatusCode::ExecutionStackOverflow => StatusType::Execution,
            StatusCode::CallStackOverflow => StatusType::Execution,
            StatusCode::NativeFunctionError => StatusType::Execution,
            StatusCode::GasScheduleError => StatusType::Execution,
        }
    }

    /// Whether this status belongs to the given partition.
    pub fn is(&self, status_type: StatusType) -> (r: bool)
        ensures
            r == (spec_status_type(self.major_status) == status_type),
    {
        self.status_type() == status_type
    }
}

/// The result type used throughout the virtual machine.
pub type VMResult<T> = Result<T, VMStatus>;

} // verus!
