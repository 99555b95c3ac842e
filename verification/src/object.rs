//! A static world tile: a box plus a solidity flag. Solid tiles take part in
//! collision resolution; non-solid decoration only scrolls with the world.

use vstd::prelude::*;
use crate::libs::Rect;

verus! {

#[derive(Clone, Copy, PartialEq, Eq, Structural, Debug)]
pub struct Object {
    pub solid: bool,
    pub rect: Rect,
}

impl Object {
    pub fn new(rect: Rect, solid: bool) -> (o: Object)
        ensures
            o == (Object { solid, rect }),
    {
        Object { solid, rect }
    }
}

} // verus!
