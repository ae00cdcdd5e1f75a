//! Display modes.
//!
//! A video mode is defined by a width and a height (in pixels) and a depth
//! (in bits per pixel). Video modes are used to set up windows at creation
//! time.
//!
//! Which modes a display supports only the native layer knows. The
//! functions here say what it is asked ([`VideoModeCall`]) and turn its
//! answers into values of this side.

use crate::native::video_mode::SfVideoMode;
use crate::traits::Wrappable;
use libc::c_uint;
use vstd::prelude::*;

verus! {

/// One call into the native layer's display-mode interface.
#[derive(Clone, Copy, PartialEq, Eq, Debug, Structural)]
pub enum VideoModeCall {
    /// Ask whether a mode can be used in fullscreen. Answer: a native
    /// boolean.
    IsValid(SfVideoMode),
    /// Ask for the current desktop mode. Answer: one mode.
    GetDesktopMode,
    /// Ask for the modes that can be used in fullscreen. Answer: an array of
    /// modes, from best to worst, and their number.
    GetFullscreenModes,
}

/// A display mode: width, height and colour depth.
#[derive(Clone, Copy, PartialEq, Eq, PartialOrd, Ord, Debug, Structural)]
pub struct VideoMode {
    /// Video mode width, in pixels.
    pub width: usize,
    /// Video mode height, in pixels.
    pub height: usize,
    /// Video mode pixel depth, in bits per pixel.
    pub bits_per_pixel: usize,
}

impl VideoMode {
    /// The mode of this side that stands for a mode of the native layer: the
    /// same three numbers.
    pub open spec fn wrapping(native: SfVideoMode) -> VideoMode {
        VideoMode {
            width: native.width as usize,
            height: native.height as usize,
            bits_per_pixel: native.bits_per_pixel as usize,
        }
    }

    /// The number that crosses the boundary for `value`: what is left of it
    /// modulo the range of the native layer's unsigned integers, which is
    /// `value` itself where it fits.
    pub open spec fn low_bits(value: usize) -> c_uint {
        (value as int % (c_uint::MAX as int + 1)) as c_uint
    }

    /// Whether the three numbers of this mode fit the native layer's
    /// unsigned integers, so that the mode crosses the boundary unchanged.
    pub open spec fn fits_native(self) -> bool {
        &&& self.width <= c_uint::MAX
        &&& self.height <= c_uint::MAX
        &&& self.bits_per_pixel <= c_uint::MAX
    }

    /// The mode whose three attributes are zero.
    pub fn new() -> (mode: VideoMode)
        ensures
            mode.width == 0,
            mode.height == 0,
            mode.bits_per_pixel == 0,
    {
        VideoMode { width: 0, height: 0, bits_per_pixel: 0 }
    }

    /// The mode with the given attributes.
    pub fn new_init(width: usize, height: usize, bits_per_pixel: usize) -> (mode: VideoMode)
        ensures
            mode.width == width,
            mode.height == height,
            mode.bits_per_pixel == bits_per_pixel,
    {
        VideoMode { width, height, bits_per_pixel }
    }

    /// The call that asks whether this mode is valid.
    ///
    /// Validity matters for fullscreen windows only; a window on the
    /// desktop can have any mode. The native layer decides, on the mode as
    /// `unwrap` gives it, and answers by a native boolean.
    pub fn is_valid(&self) -> (call: VideoModeCall)
        ensures
            call == VideoModeCall::IsValid(self.raw()),
    {
        VideoModeCall::IsValid(self.unwrap())
    }

    /// The call that asks for the current desktop mode.
    pub fn get_desktop_mode_call() -> (call: VideoModeCall)
        ensures
            call == VideoModeCall::GetDesktopMode,
    {
        VideoModeCall::GetDesktopMode
    }

    /// The current desktop mode, from the native layer's answer to the call
    /// that [`VideoMode::get_desktop_mode_call`] gives.
    pub fn get_desktop_mode(native: SfVideoMode) -> (mode: VideoMode)
        ensures
            mode == VideoMode::wrapping(native),
    {
        VideoMode::wrap(native)
    }

    /// The call that asks for the modes that can be used in fullscreen.
    pub fn get_fullscreen_modes_call() -> (call: VideoModeCall)
        ensures
            call == VideoModeCall::GetFullscreenModes,
    {
        VideoModeCall::GetFullscreenModes
    }

    /// The modes that can be used in fullscreen, from the native layer's
    /// answer to the call that [`VideoMode::get_fullscreen_modes_call`]
    /// gives.
    ///
    /// The modes come in the native layer's order, which is from best to
    /// worst. Where the native layer names no mode, the result is nothing,
    /// not an empty vector.
    pub fn get_fullscreen_modes(native: &[SfVideoMode]) -> (modes: Option<Vec<VideoMode>>)
        ensures
            modes is None <==> native@.len() == 0,
            modes matches Some(v) ==> v@ == native@.map_values(
                |m: SfVideoMode| VideoMode::wrapping(m),
            ),
    {
        let size: usize = native.len();
        if size == 0 {
            return None;
        }
        let mut ret_tab: Vec<VideoMode> = Vec::with_capacity(size);
        let mut i: usize = 0;
        while i < size
            invariant
                size == native@.len(),
                i <= size,
                ret_tab@.len() == i,
                forall|j: int| 0 <= j < i ==> ret_tab@[j] == VideoMode::wrapping(native@[j]),
            decreases size - i,
        {
            ret_tab.push(VideoMode::wrap(native[i]));
            i += 1;
        }
        assert(ret_tab@ =~= native@.map_values(|m: SfVideoMode| VideoMode::wrapping(m)));
        Some(ret_tab)
    }
}

impl Wrappable<SfVideoMode> for VideoMode {
    open spec fn accepts(native: SfVideoMode) -> bool {
        true
    }

    open spec fn raw(&self) -> SfVideoMode {
        SfVideoMode {
            width: VideoMode::low_bits(self.width),
            height: VideoMode::low_bits(self.height),
            bits_per_pixel: VideoMode::low_bits(self.bits_per_pixel),
        }
    }

    fn wrap(native: SfVideoMode) -> (wrapper: VideoMode)
        ensures
            wrapper == VideoMode::wrapping(native),
    {
        VideoMode {
            width: native.width as usize,
            height: native.height as usize,
            bits_per_pixel: native.bits_per_pixel as usize,
        }
    }

    /// A number that does not fit the native layer's unsigned integer keeps
    /// its low bits only.
    fn unwrap(&self) -> (native: SfVideoMode) {
        proof {
            lemma_truncation_keeps_low_bits(self.width);
            lemma_truncation_keeps_low_bits(self.height);
            lemma_truncation_keeps_low_bits(self.bits_per_pixel);
        }
        SfVideoMode {
            width: #[verifier::truncate]
            (self.width as c_uint),
            height: #[verifier::truncate]
            (self.height as c_uint),
            bits_per_pixel: #[verifier::truncate]
            (self.bits_per_pixel as c_uint),
        }
    }
}

/// A cast to the native layer's unsigned integer keeps what `low_bits` says.
proof fn lemma_truncation_keeps_low_bits(value: usize)
    ensures
        value as c_uint == VideoMode::low_bits(value),
{
    assert((value as c_uint) as int == (value as int) % 0x1_0000_0000) by (bit_vector);
}

/// A mode of the native layer, wrapped and then unwrapped, is the same mode:
/// width, height and depth come back exactly.
pub proof fn lemma_wrap_then_unwrap(native: SfVideoMode)
    ensures
        VideoMode::wrapping(native).raw() == native,
        VideoMode::wrapping(native).fits_native(),
{
}

/// A mode of this side whose numbers fit the native layer's unsigned
/// integers, unwrapped and then wrapped, is the same mode.
pub proof fn lemma_unwrap_then_wrap(mode: VideoMode)
    requires
        mode.fits_native(),
    ensures
        VideoMode::wrapping(mode.raw()) == mode,
{
}

} // verus!
