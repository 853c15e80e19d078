//! The error type of the adapter.

use vstd::prelude::*;
use vstd::string::StringExecFns;

verus! {

/// How the operating system classifies an error number that the engine
/// reported. Only the classes that the socket facade acts upon are told
/// apart.
#[derive(Clone, Copy, Debug, PartialEq, Eq, Structural)]
pub enum FaultClass {
    /// The call cannot complete now and should be tried again later.
    WouldBlock,
    /// The connection is not, or no longer, established.
    NotConnected,
    /// Any other class.
    Other,
}

/// The error number by which the engine reports that a connection attempt
/// has been started and goes on in the background.
pub const EINPROGRESS: i32 = 115;

/// Why an operation of the adapter failed.
#[derive(Clone, Copy, Debug, PartialEq, Eq, Structural)]
pub enum Fault {
    /// The engine refused the call.
    Engine { errno: i32, class: FaultClass },
    /// A second frame pump was asked for in one process.
    AlreadyExists,
    /// A host name resolved to no address.
    Unresolved,
    /// The engine handed out an address that is neither IPv4 nor IPv6.
    InvalidAddress,
    /// The payload is longer than one submission to the engine can carry.
    Oversized,
    /// The prefix is longer than an address of its family.
    InvalidPrefix,
}

impl Fault {
    /// The engine could not complete the call now.
    pub open spec fn would_block(self) -> bool {
        self matches Fault::Engine { class, .. } && class == FaultClass::WouldBlock
    }

    /// The engine reports that the connection is not established.
    pub open spec fn not_connected(self) -> bool {
        self matches Fault::Engine { class, .. } && class == FaultClass::NotConnected
    }

    /// The engine reports that the connection attempt goes on in the
    /// background.
    pub open spec fn in_progress(self) -> bool {
        self matches Fault::Engine { errno, .. } && errno == EINPROGRESS
    }

    /// The text that explains the fault.
    pub open spec fn text(self) -> Seq<char> {
        match self {
            Fault::Engine { .. } => "the engine reported an error"@,
            Fault::AlreadyExists => "Can only instanciate one builder"@,
            Fault::Unresolved => "unable to resolve host"@,
            Fault::InvalidAddress => "neither IPv4 or IPv6 address"@,
            Fault::Oversized => "payload does not fit in one submission"@,
            Fault::InvalidPrefix => "invalid prefix"@,
        }
    }

    pub fn is_would_block(&self) -> (yes: bool)
        ensures
            yes == self.would_block(),
    {
        match *self {
            Fault::Engine { errno: _, class } => class == FaultClass::WouldBlock,
            _ => false,
        }
    }

    pub fn is_not_connected(&self) -> (yes: bool)
        ensures
            yes == self.not_connected(),
    {
        match *self {
            Fault::Engine { errno: _, class } => class == FaultClass::NotConnected,
            _ => false,
        }
    }

    pub fn is_in_progress(&self) -> (yes: bool)
        ensures
            yes == self.in_progress(),
    {
        match *self {
            Fault::Engine { errno, class: _ } => errno == EINPROGRESS,
            _ => false,
        }
    }

    /// The operating system's error number, where the engine reported one.
    pub fn raw_os_error(&self) -> (code: Option<i32>)
        ensures
            code == match *self {
                Fault::Engine { errno, .. } => Some(errno),
                _ => None,
            },
    {
        match *self {
            Fault::Engine { errno, class: _ } => Some(errno),
            _ => None,
        }
    }

    /// A sentence for diagnostics.
    pub fn message(&self) -> (text: String)
        ensures
            text@ == self.text(),
    {
        match *self {
            Fault::Engine { .. } => String::from_str("the engine reported an error"),
            Fault::AlreadyExists => String::from_str("Can only instanciate one builder"),
            Fault::Unresolved => String::from_str("unable to resolve host"),
            Fault::InvalidAddress => String::from_str("neither IPv4 or IPv6 address"),
            Fault::Oversized => String::from_str("payload does not fit in one submission"),
            Fault::InvalidPrefix => String::from_str("invalid prefix"),
        }
    }
}

} // verus!
