//! The error taxonomy of the kernel.
//!
//! Errors travel on two channels: syscall errors, classified by an
//! `ErrorNumber` from a closed set and recoverable by the guest, and fatal
//! errors, which abort the whole message. Gas exhaustion is distinct from
//! both: it terminates the guest.

use vstd::prelude::*;

verus! {

/// The closed set of syscall error numbers. The number is what crosses the
/// ABI; messages are diagnostics only and are not modelled.
#[derive(Clone, Copy, PartialEq, Eq, Structural, Debug)]
pub enum ErrorNumber {
    IllegalArgument,
    IllegalOperation,
    IllegalCodec,
    IllegalCid,
    NotFound,
    Forbidden,
    LimitExceeded,
    ReadOnly,
    AssertionFailed,
    Serialization,
}

/// The error side of every kernel operation: a classified syscall error, gas
/// exhaustion, or a fatal condition (store corruption, broken internal
/// invariants) that aborts the whole message.
#[derive(Clone, Copy, PartialEq, Eq, Structural, Debug)]
pub enum KernelError {
    Syscall(ErrorNumber),
    OutOfGas,
    Fatal,
}

pub type SyscallResult<T> = Result<T, KernelError>;

impl KernelError {
    /// True when this is a syscall error carrying the given number.
    pub open spec fn is_number(self, n: ErrorNumber) -> bool {
        self == KernelError::Syscall(n)
    }
}

/// Abbreviation used throughout contracts: the result is a syscall error with
/// the given number.
pub open spec fn is_err<T>(r: SyscallResult<T>, n: ErrorNumber) -> bool {
    r == Err::<T, KernelError>(KernelError::Syscall(n))
}

} // verus!
