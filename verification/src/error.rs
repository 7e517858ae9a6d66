//! The two error families: argument errors, found before any hardware
//! access, and hardware errors, reported by the device exchange itself.

use vstd::prelude::*;

verus! {

/// Why an argument was rejected.
#[derive(Debug, Clone, Copy, PartialEq, Eq)]
pub enum Reason {
    /// The bus index does not name a bus of the registry.
    NoSuchBus,
    /// A numeric argument lies outside its permitted range.
    OutOfBounds,
    /// A payload was required but none was supplied at all.
    NoValues,
}

/// Which argument of a request an error is about.
#[derive(Debug, Clone, Copy, PartialEq, Eq)]
pub enum ArgName {
    BusId,
    Addr,
    Reg,
    Value,
    Values,
    NumBytes,
}

/// An argument error: the argument at fault, the offending value where one
/// exists (a missing payload has none), and the reason.
#[derive(Debug, Clone, PartialEq, Eq)]
pub struct ValidationError {
    pub arg: ArgName,
    pub value: Option<i32>,
    pub reason: Reason,
}

/// Builds the error for an out-of-range numeric argument.
pub fn arg_err(arg: ArgName, value: i32, reason: Reason) -> (r: ValidationError)
    ensures
        r == (ValidationError { arg, value: Some(value), reason }),
{
    ValidationError { arg, value: Some(value), reason }
}

/// A failure reported by the hardware exchange.  `code` carries the
/// operating-system error number only when the failure originated as an
/// OS error; the description is always present.
#[derive(Debug, Clone, PartialEq, Eq)]
pub struct HardwareError {
    pub code: Option<i32>,
    pub description: String,
}

/// Everything a dispatched request can fail with.
#[derive(Debug, Clone, PartialEq, Eq)]
pub enum RequestError {
    /// Rejected before any hardware access.
    Arg(ValidationError),
    /// The device exchange itself failed.
    Hardware(HardwareError),
}

} // verus!
