use vstd::prelude::*;

verus! {

/// The colour at `position` on a red-green-blue wheel, as `(r, g, b)`.
/// The position runs backwards through the three thirds of the wheel: blue
/// to red, red to green (taking the middle third), green to blue.
pub open spec fn wheel_colour(position: u8) -> (u8, u8, u8) {
    let p = 255 - position;
    if p < 85 {
        ((255 - p * 3) as u8, 0u8, (p * 3) as u8)
    } else if p < 170 {
        let q = p - 85;
        (0u8, (q * 3) as u8, (255 - q * 3) as u8)
    } else {
        let q = p - 170;
        ((q * 3) as u8, (255 - q * 3) as u8, 0u8)
    }
}

/// The status LED's colour at `position` on the wheel.
pub fn wheel(position: u8) -> (r: (u8, u8, u8))
    ensures
        r == wheel_colour(position),
{
    let p: u8 = 255 - position;
    if p < 85 {
        (255 - p * 3, 0, p * 3)
    } else if p < 170 {
        let q: u8 = p - 85;
        (0, q * 3, 255 - q * 3)
    } else {
        let q: u8 = p - 170;
        (q * 3, 255 - q * 3, 0)
    }
}

} // verus!
