use vstd::prelude::*;

verus! {

/// The fixed-point value that stands for one in a clear value: a clear value
/// `v` means `v / ONE`.
pub const ONE: u32 = 1_000_000;

/// Which channels a draw or clear may write to.
#[derive(Clone, Copy, Debug, PartialEq, Eq, Structural)]
pub struct WriteMask {
    pub red: bool,
    pub green: bool,
    pub blue: bool,
    pub alpha: bool,
    pub depth: bool,
}

/// Defines which channels (red, green, blue, alpha and depth) to clear when
/// starting to write to a render target or the screen. `None` leaves the
/// channel untouched, `Some(v)` clears it to `v / ONE`, a value between 0 and
/// `ONE`. For depth, `ONE` is the far plane and 0 the near plane.
#[derive(Clone, Copy, Debug, PartialEq, Eq, Structural)]
pub struct ClearState {
    pub red: Option<u32>,
    pub green: Option<u32>,
    pub blue: Option<u32>,
    pub alpha: Option<u32>,
    pub depth: Option<u32>,
}

impl ClearState {
    /// The channels that a clear with this state writes to.
    pub open spec fn write_mask(self) -> WriteMask {
        WriteMask {
            red: self.red is Some,
            green: self.green is Some,
            blue: self.blue is Some,
            alpha: self.alpha is Some,
            depth: self.depth is Some,
        }
    }

    /// Whether a color clear is issued: some color channel is set.
    pub open spec fn clears_color(self) -> bool {
        self.red is Some || self.green is Some || self.blue is Some || self.alpha is Some
    }

    /// Whether a depth clear is issued.
    pub open spec fn clears_depth(self) -> bool {
        self.depth is Some
    }

    /// Nothing will be cleared.
    pub fn none() -> (r: Self)
        ensures
            r.red is None && r.green is None && r.blue is None,
            r.alpha is None && r.depth is None,
    {
        ClearState { red: None, green: None, blue: None, alpha: None, depth: None }
    }

    /// The depth will be cleared to the given value.
    pub fn depth(depth: u32) -> (r: Self)
        ensures
            r.red is None && r.green is None && r.blue is None && r.alpha is None,
            r.depth == Some(depth),
    {
        ClearState { red: None, green: None, blue: None, alpha: None, depth: Some(depth) }
    }

    /// The color channels (red, green, blue and alpha) will be cleared to the
    /// given values.
    pub fn color(red: u32, green: u32, blue: u32, alpha: u32) -> (r: Self)
        ensures
            r.red == Some(red) && r.green == Some(green),
            r.blue == Some(blue) && r.alpha == Some(alpha),
            r.depth is None,
    {
        ClearState {
            red: Some(red),
            green: Some(green),
            blue: Some(blue),
            alpha: Some(alpha),
            depth: None,
        }
    }

    /// Both the color channels and depth will be cleared to the given values.
    pub fn color_and_depth(red: u32, green: u32, blue: u32, alpha: u32, depth: u32) -> (r: Self)
        ensures
            r.red == Some(red) && r.green == Some(green),
            r.blue == Some(blue) && r.alpha == Some(alpha),
            r.depth == Some(depth),
    {
        ClearState {
            red: Some(red),
            green: Some(green),
            blue: Some(blue),
            alpha: Some(alpha),
            depth: Some(depth),
        }
    }
}

impl Default for ClearState {
    /// Clears color to opaque black and depth to the far plane.
    fn default() -> (r: Self)
        ensures
            r == (ClearState {
                red: Some(0u32),
                green: Some(0u32),
                blue: Some(0u32),
                alpha: Some(ONE),
                depth: Some(ONE),
            }),
    {
        ClearState::color_and_depth(0, 0, 0, ONE, ONE)
    }
}

} // verus!
