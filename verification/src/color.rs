//! The color type shared by every component: four 8-bit channels.
//! Equality is exact component-wise equality.

use vstd::prelude::*;

verus! {

/// An RGBA color with 8-bit channels. Palette membership and pixel
/// lookup both compare colors component by component.
#[derive(Clone, Copy, PartialEq, Eq, Structural, Debug)]
pub struct Color {
    pub r: u8,
    pub g: u8,
    pub b: u8,
    pub a: u8,
}

impl Color {
    /// Builds a color from its four channels.
    pub fn new(r: u8, g: u8, b: u8, a: u8) -> (c: Color)
        ensures
            c == (Color { r, g, b, a }),
    {
        Color { r, g, b, a }
    }
}

/// Flattens colors into consecutive RGBA byte quadruples, in order.
pub fn rgba_bytes(colors: &Vec<Color>) -> (r: Vec<u8>)
    ensures
        r@.len() == 4 * colors@.len(),
        forall|i: int| #![trigger colors@[i]] 0 <= i < colors@.len() ==> r@[4 * i]
            == colors@[i].r && r@[4 * i + 1] == colors@[i].g && r@[4 * i + 2] == colors@[i].b
            && r@[4 * i + 3] == colors@[i].a,
{
    let mut r: Vec<u8> = Vec::new();
    let mut i: usize = 0;
    while i < colors.len()
        invariant
            i <= colors@.len(),
            r@.len() == 4 * i,
            forall|j: int| #![trigger colors@[j]] 0 <= j < i ==> r@[4 * j] == colors@[j].r
                && r@[4 * j + 1] == colors@[j].g && r@[4 * j + 2] == colors@[j].b && r@[4 * j
                + 3] == colors@[j].a,
        decreases colors@.len() - i,
    {
        let c = colors[i];
        r.push(c.r);
        r.push(c.g);
        r.push(c.b);
        r.push(c.a);
        i += 1;
    }
    r
}

} // verus!
