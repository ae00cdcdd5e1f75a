//! Status codes that may be returned by socket functions.

use libc::c_int;
use std::cmp::Ordering;
use vstd::prelude::*;

pub use self::SocketStatus::{SocketDisconnected, SocketError, SocketNone, SocketNotReady};

verus! {

/// The native layer's code for a socket that has sent or received the data.
pub const SOCKETNONE: c_int = 0;

/// The native layer's code for a socket that is not ready yet.
pub const SOCKETNOTREADY: c_int = 1;

/// The native layer's code for a socket that has been disconnected.
pub const SOCKETDISCONNECTED: c_int = 2;

/// The native layer's code for an unexpected error.
pub const SOCKETERROR: c_int = 3;

/// Status codes that may be returned by socket functions. Each mirrors one
/// constant of the native layer, which is the source of its value; the
/// statuses are ordered as those constants are.
#[derive(Clone, Copy, PartialEq, Eq, Ord, Debug, Structural)]
pub enum SocketStatus {
    /// The socket has sent / received the data.
    SocketNone,
    /// The socket is not ready to send / receive data yet.
    SocketNotReady,
    /// The TCP socket has been disconnected.
    SocketDisconnected,
    /// An unexpected error happened.
    SocketError,
}

impl SocketStatus {
    /// The native layer's constant that this status mirrors.
    pub open spec fn code(self) -> c_int {
        match self {
            SocketStatus::SocketNone => SOCKETNONE,
            SocketStatus::SocketNotReady => SOCKETNOTREADY,
            SocketStatus::SocketDisconnected => SOCKETDISCONNECTED,
            SocketStatus::SocketError => SOCKETERROR,
        }
    }

    /// Whether `code` is one of the native layer's status constants.
    pub open spec fn is_status(code: c_int) -> bool {
        ||| code == SOCKETNONE
        ||| code == SOCKETNOTREADY
        ||| code == SOCKETDISCONNECTED
        ||| code == SOCKETERROR
    }

    /// The native layer's constant that this status mirrors.
    pub fn to_native(self) -> (code: c_int)
        ensures
            code == self.code(),
    {
        match self {
            SocketStatus::SocketNone => SOCKETNONE,
            SocketStatus::SocketNotReady => SOCKETNOTREADY,
            SocketStatus::SocketDisconnected => SOCKETDISCONNECTED,
            SocketStatus::SocketError => SOCKETERROR,
        }
    }

    /// The status that mirrors a code which a socket function of the native
    /// layer returned, if the code is one of its status constants.
    pub fn from_native(code: c_int) -> (status: Option<SocketStatus>)
        ensures
            status is Some <==> SocketStatus::is_status(code),
            status matches Some(s) ==> s.code() == code,
    {
        if code == SOCKETNONE {
            Some(SocketStatus::SocketNone)
        } else if code == SOCKETNOTREADY {
            Some(SocketStatus::SocketNotReady)
        } else if code == SOCKETDISCONNECTED {
            Some(SocketStatus::SocketDisconnected)
        } else if code == SOCKETERROR {
            Some(SocketStatus::SocketError)
        } else {
            None
        }
    }
}

impl PartialOrd for SocketStatus {
    fn partial_cmp(&self, other: &SocketStatus) -> (order: Option<Ordering>) {
        let mine: c_int = self.to_native();
        let theirs: c_int = other.to_native();
        if mine < theirs {
            Some(Ordering::Less)
        } else if mine == theirs {
            Some(Ordering::Equal)
        } else {
            Some(Ordering::Greater)
        }
    }
}

impl vstd::std_specs::cmp::PartialOrdSpecImpl for SocketStatus {
    open spec fn obeys_partial_cmp_spec() -> bool {
        true
    }

    /// Two statuses compare as the constants that they mirror.
    open spec fn partial_cmp_spec(&self, other: &SocketStatus) -> Option<Ordering> {
        if self.code() < other.code() {
            Some(Ordering::Less)
        } else if self.code() == other.code() {
            Some(Ordering::Equal)
        } else {
            Some(Ordering::Greater)
        }
    }
}

/// Every status mirrors one of the native layer's status constants, and two
/// statuses that mirror the same constant are the same status. The
/// constants grow in the order in which the statuses are declared.
pub proof fn lemma_socket_status_codes(a: SocketStatus, b: SocketStatus)
    ensures
        SocketStatus::is_status(a.code()),
        a.code() == b.code() ==> a == b,
        SocketStatus::SocketNone.code() < SocketStatus::SocketNotReady.code(),
        SocketStatus::SocketNotReady.code() < SocketStatus::SocketDisconnected.code(),
        SocketStatus::SocketDisconnected.code() < SocketStatus::SocketError.code(),
{
}

} // verus!
