//! The native layer's boolean.

use libc::c_int;
use vstd::prelude::*;

verus! {

/// The integer by which the native layer says "false".
pub const SFFALSE: c_int = 0;

/// The integer by which the native layer says "true".
pub const SFTRUE: c_int = 1;

/// A boolean of the native layer. It is one of two sentinel integers; no
/// other integer is a boolean there, whether zero or not.
#[derive(Clone, Copy, PartialEq, Eq, Hash, Debug, Structural)]
pub enum SfBool {
    /// The native "false".
    SfFalse,
    /// The native "true".
    SfTrue,
}

impl SfBool {
    /// The truth value that this sentinel stands for.
    pub open spec fn as_bool(self) -> bool {
        self == SfBool::SfTrue
    }

    /// The integer that the native layer uses for this sentinel.
    pub open spec fn code(self) -> c_int {
        match self {
            SfBool::SfFalse => SFFALSE,
            SfBool::SfTrue => SFTRUE,
        }
    }

    /// The truth value that this sentinel stands for.
    pub fn to_bool(self) -> (truth: bool)
        ensures
            truth == self.as_bool(),
    {
        match self {
            SfBool::SfFalse => false,
            SfBool::SfTrue => true,
        }
    }

    /// The sentinel for a truth value.
    pub fn from_bool(truth: bool) -> (sentinel: SfBool)
        ensures
            sentinel.as_bool() == truth,
    {
        if truth {
            SfBool::SfTrue
        } else {
            SfBool::SfFalse
        }
    }

    /// The integer that the native layer uses for this sentinel.
    pub fn to_native(self) -> (code: c_int)
        ensures
            code == self.code(),
    {
        match self {
            SfBool::SfFalse => SFFALSE,
            SfBool::SfTrue => SFTRUE,
        }
    }

    /// Reads an integer that the native layer returned as a boolean: the
    /// sentinel that it is, or nothing where it is neither of the two.
    pub fn from_native(code: c_int) -> (sentinel: Option<SfBool>)
        ensures
            sentinel is Some <==> (code == SFFALSE || code == SFTRUE),
            sentinel matches Some(s) ==> s.code() == code,
    {
        if code == SFFALSE {
            Some(SfBool::SfFalse)
        } else if code == SFTRUE {
            Some(SfBool::SfTrue)
        } else {
            None
        }
    }
}

} // verus!
