//! The ST7789VW panel behind the display binding.
//!
//! The panel is driven in Rgb666 color mode by the hardware layer, which
//! owns the bus bring-up and the init command sequence; the interpreter
//! here only needs the panel's geometry.

use vstd::prelude::*;

verus! {

/// ST7789VW display in Rgb666 color mode.
pub struct ST7789VW;

impl ST7789VW {
    /// The panel's framebuffer dimensions in its native orientation
    /// (the mount rotates it a quarter turn, swapping the axes the
    /// renderer sees).
    pub fn framebuffer_size() -> (r: (u16, u16))
        ensures
            r == (240u16, 320u16),
    {
        (240, 320)
    }
}

} // verus!
