//! The error kinds of the node.

use vstd::prelude::*;
use vstd::string::StringExecFns;

verus! {

/// A failure of the bus transceiver while it was set up, read or written.
///
/// It carries the description of the cause as the transceiver's driver gave
/// it; the view of the error is that description.
#[derive(Debug, PartialEq, Eq)]
pub struct BusError {
    description: String,
}

impl View for BusError {
    type V = Seq<char>;

    closed spec fn view(&self) -> Seq<char> {
        self.description@
    }
}

impl Clone for BusError {
    fn clone(&self) -> (copy: BusError)
        ensures
            copy@ == self@,
    {
        BusError { description: self.description.clone() }
    }
}

impl BusError {
    /// An error with the given description of its cause.
    pub fn new(description: &str) -> (error: BusError)
        ensures
            error@ == description@,
    {
        BusError { description: String::from_str(description) }
    }

    /// The description of the cause.
    pub fn description(&self) -> (description: &str)
        ensures
            description@ == self@,
    {
        self.description.as_str()
    }
}

/// A failure of the display while it rendered or committed a text.
///
/// It carries the description of the underlying cause; the view of the error
/// is that description.
#[derive(Debug, PartialEq, Eq)]
pub struct DisplayError {
    cause: String,
}

impl View for DisplayError {
    type V = Seq<char>;

    closed spec fn view(&self) -> Seq<char> {
        self.cause@
    }
}

impl Clone for DisplayError {
    fn clone(&self) -> (copy: DisplayError)
        ensures
            copy@ == self@,
    {
        DisplayError { cause: self.cause.clone() }
    }
}

impl DisplayError {
    /// An error with the given description of its cause.
    pub fn new(cause: &str) -> (error: DisplayError)
        ensures
            error@ == cause@,
    {
        DisplayError { cause: String::from_str(cause) }
    }

    /// The description of the cause.
    pub fn cause(&self) -> (cause: &str)
        ensures
            cause@ == self@,
    {
        self.cause.as_str()
    }
}

/// The reply counter has left the range of standard identifiers, so no
/// identifier can be made of it.
#[derive(Clone, Copy, Debug, PartialEq, Eq, Structural)]
pub struct IdentifierRangeError {
    /// The value of the counter that is no identifier.
    pub value: u16,
}

} // verus!
