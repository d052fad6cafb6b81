//! The closed error taxonomy and the three canonical translators.
//!
//! Every native call made on behalf of this library signals failure through
//! one of a small number of C conventions: a status code (zero on success,
//! negative on failure, positive never expected), a nullable pointer, or a
//! count that is negative on failure.  Each convention has exactly one
//! translator here, and every operation routes its raw outcome through
//! exactly one of them; no call site hand-rolls its own check.

use vstd::prelude::*;
use vstd::string::*;

verus! {

/// Error returned by every fallible operation of this library.
#[derive(Debug, PartialEq, Eq)]
pub enum BlkidErr {
    /// A native call signaled failure through its documented negative or
    /// null return convention.
    NativeFailure,
    /// A native call returned a positive code where only zero or a negative
    /// code is contractually valid.
    UnexpectedPositiveCode,
    /// Data failed to round-trip into or out of the native representation:
    /// an embedded null byte, invalid text encoding, an unknown flag bit or
    /// an unparsable UUID.
    InvalidConversion,
    /// A native call explicitly reported an operating-system error number.
    IOFailure(i32),
    /// A structured validation failure raised by this library itself, with
    /// a message describing it.
    Other(String),
}

impl BlkidErr {
    /// The message describing this error.
    pub open spec fn spec_message(self) -> Seq<char> {
        match self {
            BlkidErr::NativeFailure => "libblkid returned an error code indicating an operation could not be completed successfully"@,
            BlkidErr::UnexpectedPositiveCode => "Positive return code found when <= 0 was expected"@,
            BlkidErr::InvalidConversion => "The requested conversion was unsuccessful"@,
            BlkidErr::IOFailure(_) => "An IO error occurred"@,
            BlkidErr::Other(s) => s@,
        }
    }

    /// Describe this error in a message.
    pub fn message(&self) -> (r: String)
        ensures
            r@ == self.spec_message(),
    {
        match self {
            BlkidErr::NativeFailure => String::from_str(
                "libblkid returned an error code indicating an operation could not be completed successfully",
            ),
            BlkidErr::UnexpectedPositiveCode => String::from_str(
                "Positive return code found when <= 0 was expected",
            ),
            BlkidErr::InvalidConversion => String::from_str(
                "The requested conversion was unsuccessful",
            ),
            BlkidErr::IOFailure(_) => String::from_str("An IO error occurred"),
            BlkidErr::Other(s) => s.clone(),
        }
    }
}

/// Translate a native status code: zero means success, a negative code is a
/// native failure, and a positive code violates the call's contract.
pub fn translate_status(code: i32) -> (r: Result<(), BlkidErr>)
    ensures
        code == 0 ==> r == Ok::<(), BlkidErr>(()),
        code < 0 ==> r == Err::<(), BlkidErr>(BlkidErr::NativeFailure),
        code > 0 ==> r == Err::<(), BlkidErr>(BlkidErr::UnexpectedPositiveCode),
{
    if code == 0 {
        Ok(())
    } else if code < 0 {
        Err(BlkidErr::NativeFailure)
    } else {
        Err(BlkidErr::UnexpectedPositiveCode)
    }
}

/// Translate a nullable native pointer, already lifted to an `Option` by the
/// caller: null is a native failure, anything else is unwrapped.
pub fn translate_ptr<T>(ptr: Option<T>) -> (r: Result<T, BlkidErr>)
    ensures
        ptr matches Some(v) ==> r == Ok::<T, BlkidErr>(v),
        ptr is None ==> r == Err::<T, BlkidErr>(BlkidErr::NativeFailure),
{
    match ptr {
        Some(v) => Ok(v),
        None => Err(BlkidErr::NativeFailure),
    }
}

/// Translate a native count or code value: a negative value is a native
/// failure, any other value is the successful result.
pub fn translate_value(code: i32) -> (r: Result<i32, BlkidErr>)
    ensures
        code >= 0 ==> r == Ok::<i32, BlkidErr>(code),
        code < 0 ==> r == Err::<i32, BlkidErr>(BlkidErr::NativeFailure),
{
    if code >= 0 {
        Ok(code)
    } else {
        Err(BlkidErr::NativeFailure)
    }
}

/// Translate a wide native count or offset value, as [`translate_value`]
/// does for the narrower status type.
pub fn translate_value_wide(code: i64) -> (r: Result<i64, BlkidErr>)
    ensures
        code >= 0 ==> r == Ok::<i64, BlkidErr>(code),
        code < 0 ==> r == Err::<i64, BlkidErr>(BlkidErr::NativeFailure),
{
    if code >= 0 {
        Ok(code)
    } else {
        Err(BlkidErr::NativeFailure)
    }
}

} // verus!
