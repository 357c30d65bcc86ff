//! Cosmetic colours: the player's hue and the RGBA tint it gives bubbles and
//! splashes.
use vstd::prelude::*;

verus! {

/// Hue steps in a full turn of the colour wheel.
pub const HUE_STEPS: u32 = 100;

/// An 8-bit RGBA colour.
#[derive(Clone, Copy, Debug, PartialEq, Eq, Structural)]
pub struct Color {
    pub r: u8,
    pub g: u8,
    pub b: u8,
    pub a: u8,
}

/// Fully saturated, fully bright colour of hue `hue / HUE_STEPS` of a turn:
/// the wheel is cut in six sectors, and within a sector one channel ramps
/// linearly while the other two stay at 0 and 255.
pub open spec fn hue_color_spec(hue: u32) -> Color
    recommends
        hue < HUE_STEPS,
{
    let sector = (6 * hue) / (HUE_STEPS as int);
    let ramp = (((6 * hue) % (HUE_STEPS as int)) * 255 / (HUE_STEPS as int)) as u8;
    let fall = (255 - ramp) as u8;
    if sector == 0 {
        Color { r: 255, g: ramp, b: 0, a: 255 }
    } else if sector == 1 {
        Color { r: fall, g: 255, b: 0, a: 255 }
    } else if sector == 2 {
        Color { r: 0, g: 255, b: ramp, a: 255 }
    } else if sector == 3 {
        Color { r: 0, g: fall, b: 255, a: 255 }
    } else if sector == 4 {
        Color { r: ramp, g: 0, b: 255, a: 255 }
    } else {
        Color { r: 255, g: 0, b: fall, a: 255 }
    }
}

/// The colour of hue `hue / HUE_STEPS` at full saturation and value.
pub fn hue_color(hue: u32) -> (c: Color)
    requires
        hue < HUE_STEPS,
    ensures
        c == hue_color_spec(hue),
{
    let sector = (6 * hue) / HUE_STEPS;
    let rem = (6 * hue) % HUE_STEPS;
    assert(rem * 255 / 100 <= 255) by (nonlinear_arith)
        requires rem < 100;
    let ramp = (rem * 255 / HUE_STEPS) as u8;
    let fall = 255 - ramp;
    if sector == 0 {
        Color { r: 255, g: ramp, b: 0, a: 255 }
    } else if sector == 1 {
        Color { r: fall, g: 255, b: 0, a: 255 }
    } else if sector == 2 {
        Color { r: 0, g: 255, b: ramp, a: 255 }
    } else if sector == 3 {
        Color { r: 0, g: fall, b: 255, a: 255 }
    } else if sector == 4 {
        Color { r: ramp, g: 0, b: 255, a: 255 }
    } else {
        Color { r: 255, g: 0, b: fall, a: 255 }
    }
}

} // verus!
