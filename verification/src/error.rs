//! The recoverable errors of the flash device.

use vstd::prelude::*;
use vstd::string::StringExecFns;

verus! {

/// What went wrong in a flash operation. Each kind carries a message for the
/// person reading the log.
#[derive(Debug)]
pub enum ErrorKind {
    /// An offset or a range does not fit the device or its sectors.
    OutOfBounds(String),
    /// A write of a shape that the device does not take.
    Write(String),
    /// A write to a bad region that failed by chance.
    SimulatedFail(String),
}

impl ErrorKind {
    /// The message that the error carries.
    pub open spec fn text(self) -> Seq<char> {
        match self {
            ErrorKind::OutOfBounds(t) => t@,
            ErrorKind::Write(t) => t@,
            ErrorKind::SimulatedFail(t) => t@,
        }
    }

    /// True for `OutOfBounds`.
    pub fn is_bounds(&self) -> (b: bool)
        ensures
            b == (*self is OutOfBounds),
    {
        match self {
            ErrorKind::OutOfBounds(_) => true,
            _ => false,
        }
    }

    /// True for `Write`.
    pub fn is_write(&self) -> (b: bool)
        ensures
            b == (*self is Write),
    {
        match self {
            ErrorKind::Write(_) => true,
            _ => false,
        }
    }

    /// True for `SimulatedFail`.
    pub fn is_simulated_fail(&self) -> (b: bool)
        ensures
            b == (*self is SimulatedFail),
    {
        match self {
            ErrorKind::SimulatedFail(_) => true,
            _ => false,
        }
    }

    /// A fixed description of the kind of error.
    pub fn description(&self) -> (s: &'static str)
        ensures
            s@ == match *self {
                ErrorKind::OutOfBounds(_) => "Offset is out of bounds"@,
                ErrorKind::Write(_) => "Invalid write"@,
                ErrorKind::SimulatedFail(_) => "Write failed by chance"@,
            },
    {
        match self {
            ErrorKind::OutOfBounds(_) => "Offset is out of bounds",
            ErrorKind::Write(_) => "Invalid write",
            ErrorKind::SimulatedFail(_) => "Write failed by chance",
        }
    }

    /// The error as one line of text: a prefix that names the kind, then the
    /// message.
    pub fn display(&self) -> (s: String)
        ensures
            s@ == match *self {
                ErrorKind::OutOfBounds(t) => "Offset out of bounds: "@ + t@,
                ErrorKind::Write(t) => "Invalid write: "@ + t@,
                ErrorKind::SimulatedFail(t) => "Failed write: "@ + t@,
            },
    {
        match self {
            ErrorKind::OutOfBounds(t) => String::from_str("Offset out of bounds: ").concat(
                t.as_str(),
            ),
            ErrorKind::Write(t) => String::from_str("Invalid write: ").concat(t.as_str()),
            ErrorKind::SimulatedFail(t) => String::from_str("Failed write: ").concat(t.as_str()),
        }
    }
}

/// An `OutOfBounds` error with the given message.
pub fn ebounds(message: &str) -> (e: ErrorKind)
    ensures
        e is OutOfBounds,
        e.text() == message@,
{
    ErrorKind::OutOfBounds(message.to_owned())
}

/// A `Write` error with the given message.
pub fn ewrite(message: &str) -> (e: ErrorKind)
    ensures
        e is Write,
        e.text() == message@,
{
    ErrorKind::Write(message.to_owned())
}

/// A `SimulatedFail` error with the given message.
pub fn esimulatedwrite(message: &str) -> (e: ErrorKind)
    ensures
        e is SimulatedFail,
        e.text() == message@,
{
    ErrorKind::SimulatedFail(message.to_owned())
}

} // verus!
