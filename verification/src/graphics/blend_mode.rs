//! Available blending modes for drawing.

use libc::c_int;
use std::cmp::Ordering;
use vstd::prelude::*;

pub use self::BlendMode::{BlendAdd, BlendAlpha, BlendMultiply, BlendNone};

verus! {

/// Available blending modes for drawing. The native layer knows each by an
/// integer, which `code` gives; the modes are ordered as their integers are.
#[derive(Clone, Copy, PartialEq, Eq, Ord, Debug, Structural)]
pub enum BlendMode {
    /// Pixel = Source * Source.a + Dest * (1 - Source.a)
    BlendAlpha,
    /// Pixel = Source + Dest.
    BlendAdd,
    /// Pixel = Source * Dest.
    BlendMultiply,
    /// Pixel = Source.
    BlendNone,
}

impl BlendMode {
    /// The integer by which the native layer knows this mode.
    pub open spec fn code(self) -> c_int {
        match self {
            BlendMode::BlendAlpha => 0,
            BlendMode::BlendAdd => 1,
            BlendMode::BlendMultiply => 2,
            BlendMode::BlendNone => 3,
        }
    }

    /// The integer by which the native layer knows this mode.
    pub fn to_native(self) -> (code: c_int)
        ensures
            code == self.code(),
    {
        match self {
            BlendMode::BlendAlpha => 0,
            BlendMode::BlendAdd => 1,
            BlendMode::BlendMultiply => 2,
            BlendMode::BlendNone => 3,
        }
    }

    /// The mode that the native layer knows by `code`, if there is one.
    pub fn from_native(code: c_int) -> (mode: Option<BlendMode>)
        ensures
            mode is Some <==> 0 <= code <= 3,
            mode matches Some(m) ==> m.code() == code,
    {
        if code == 0 {
            Some(BlendMode::BlendAlpha)
        } else if code == 1 {
            Some(BlendMode::BlendAdd)
        } else if code == 2 {
            Some(BlendMode::BlendMultiply)
        } else if code == 3 {
            Some(BlendMode::BlendNone)
        } else {
            None
        }
    }
}

impl PartialOrd for BlendMode {
    fn partial_cmp(&self, other: &BlendMode) -> (order: Option<Ordering>) {
        let mine: c_int = self.to_native();
        let theirs: c_int = other.to_native();
        if mine < theirs {
            Some(Ordering::Less)
        } else if mine == theirs {
            Some(Ordering::Equal)
        } else {
            Some(Ordering::Greater)
        }
    }
}

impl vstd::std_specs::cmp::PartialOrdSpecImpl for BlendMode {
    open spec fn obeys_partial_cmp_spec() -> bool {
        true
    }

    /// Two modes compare as their integers do.
    open spec fn partial_cmp_spec(&self, other: &BlendMode) -> Option<Ordering> {
        if self.code() < other.code() {
            Some(Ordering::Less)
        } else if self.code() == other.code() {
            Some(Ordering::Equal)
        } else {
            Some(Ordering::Greater)
        }
    }
}

/// The four modes have the integers 0, 1, 2 and 3, in the order alpha, add,
/// multiply, none; so every mode has one of these four, and two modes with
/// the same integer are the same mode.
pub proof fn lemma_blend_mode_codes(a: BlendMode, b: BlendMode)
    ensures
        BlendMode::BlendAlpha.code() == 0,
        BlendMode::BlendAdd.code() == 1,
        BlendMode::BlendMultiply.code() == 2,
        BlendMode::BlendNone.code() == 3,
        0 <= a.code() <= 3,
        a.code() == b.code() ==> a == b,
{
}

} // verus!
