//! Packing pixel colors into the flat byte layout the presentation surface
//! consumes: four bytes per cell, in red, green, blue, alpha order.

use vstd::prelude::*;

use crate::color::Color;

verus! {

/// Flattens a pixel buffer into surface bytes: cell `i` occupies bytes
/// `4 * i` through `4 * i + 3`, as red, green, blue, alpha.
pub fn color_bytes(colors: &Vec<Color>) -> (out: Vec<u8>)
    requires
        4 * colors@.len() <= usize::MAX,
    ensures
        out@.len() == 4 * colors@.len(),
        forall|i: int|
            0 <= i < colors@.len() ==> (#[trigger] colors@[i]).red == out@[4 * i]
                && colors@[i].green == out@[4 * i + 1] && colors@[i].blue == out@[4 * i + 2]
                && colors@[i].alpha == out@[4 * i + 3],
{
    let mut out: Vec<u8> = Vec::new();
    let mut i: usize = 0;
    let count: usize = colors.len();
    while i < count
        invariant
            i <= count,
            count == colors@.len(),
            4 * count <= usize::MAX,
            out@.len() == 4 * i,
            forall|k: int|
                0 <= k < i ==> (#[trigger] colors@[k]).red == out@[4 * k] && colors@[k].green
                    == out@[4 * k + 1] && colors@[k].blue == out@[4 * k + 2] && colors@[k].alpha
                    == out@[4 * k + 3],
        decreases count - i,
    {
        let c = colors[i];
        out.push(c.red);
        out.push(c.green);
        out.push(c.blue);
        out.push(c.alpha);
        i = i + 1;
    }
    out
}

} // verus!
