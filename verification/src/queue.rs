//! Queue-family selection. The logical device is created on the first queue
//! family that supports graphics work; a device without one cannot be used.

use vstd::prelude::*;

verus! {

/// Picks the first queue family that supports graphics, given for each
/// family whether it does. Returns the lowest such index, or nothing when
/// no family qualifies.
pub fn pick_graphics_queue_family(supports_graphics: &Vec<bool>) -> (family: Option<usize>)
    ensures
        match family {
            Some(i) => i < supports_graphics@.len() && supports_graphics@[i as int]
                && forall|j: int| 0 <= j < i ==> !supports_graphics@[j],
            None => forall|j: int|
                0 <= j < supports_graphics@.len() ==> !supports_graphics@[j],
        },
{
    let mut i: usize = 0;
    while i < supports_graphics.len()
        invariant
            i <= supports_graphics@.len(),
            forall|j: int| 0 <= j < i ==> !supports_graphics@[j],
        decreases supports_graphics@.len() - i,
    {
        if supports_graphics[i] {
            return Some(i);
        }
        i = i + 1;
    }
    None
}

} // verus!
