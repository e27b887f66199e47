//! Error type for failures reported by the native HTTP engine.

use vstd::prelude::*;

verus! {

/// A failure code returned by a native engine primitive.
///
/// The engine reports every failure as a negative integer code; the library
/// carries that code through unchanged.
#[derive(Clone, Copy, Debug, PartialEq, Eq, Structural)]
pub struct EspError {
    pub code: i32,
}

impl EspError {
    pub fn new(code: i32) -> (r: EspError)
        ensures
            r.code == code,
    {
        EspError { code }
    }

    pub fn code(&self) -> (r: i32)
        ensures
            r == self.code,
    {
        self.code
    }
}

/// Maps a raw engine return value to the outcome of the call: a negative
/// value is a typed error carrying the code, any other value is the count
/// (of bytes or headers) the call produced.
pub fn check(result: i32) -> (r: Result<usize, EspError>)
    ensures
        result < 0 ==> r == Result::<usize, EspError>::Err(EspError { code: result }),
        result >= 0 ==> r == Result::<usize, EspError>::Ok(result as usize),
{
    if result < 0 {
        Err(EspError { code: result })
    } else {
        Ok(result as usize)
    }
}

} // verus!
