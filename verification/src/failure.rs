//! The ways in which an instruction can be turned down.

use vstd::prelude::*;

verus! {

/// Why an instruction was not carried out.
///
/// Every failure is final: nothing is retried and nothing is reported twice.
#[derive(Clone, Copy, Debug, PartialEq, Eq, Structural)]
pub enum Failure {
    /// The instruction buffer holds no bytes at all.
    EmptyInstruction,
    /// The first byte selects no known operation.
    UnknownOpcode,
    /// The bytes after the first are fewer than the operation needs.
    PayloadTooShort,
    /// Fewer accounts were supplied than the operation needs.
    NotEnoughAccounts,
    /// An account that has to sign did not.
    MissingSignature,
    /// An account that has to be writable is not.
    AccountNotWritable,
    /// A field that selects one of a fixed set of values holds none of them.
    InvalidFieldValue,
    /// The invocation was made and reported this status, handed on as it came.
    InvocationFailed(u64),
}

} // verus!
