use vstd::prelude::*;

verus! {

/// An opaque RGB colour, one byte per channel.
#[derive(Clone, Copy, Debug, PartialEq, Eq, Structural)]
pub struct Rgb {
    pub red: u8,
    pub green: u8,
    pub blue: u8,
}

/// Red channel of the temperature gradient: `2t + 88`, capped at 255.
pub open spec fn gradient_red(temperature: int) -> int {
    if 2 * temperature + 88 > 255 { 255 } else { 2 * temperature + 88 }
}

/// Blue channel of the temperature gradient: `255 - (2t + 44)`, floored at 0.
pub open spec fn gradient_blue(temperature: int) -> int {
    if 255 - (2 * temperature + 44) < 0 { 0 } else { 255 - (2 * temperature + 44) }
}

/// The colour a thermometer shows at `temperature` (degrees Celsius): it runs
/// linearly from blue at low temperatures to red at high ones, with no green.
pub fn color_gradient(temperature: u32) -> (r: Rgb)
    ensures
        r.red as int == gradient_red(temperature as int),
        r.green == 0,
        r.blue as int == gradient_blue(temperature as int),
{
    let red: u8 = if temperature >= 84 {
        255
    } else {
        (2 * temperature + 88) as u8
    };
    let blue: u8 = if temperature >= 106 {
        0
    } else {
        (255 - (2 * temperature + 44)) as u8
    };
    Rgb { red, green: 0, blue }
}

} // verus!
