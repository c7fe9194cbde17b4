//! The scene: the static shapes in the order in which contacts are
//! resolved.
use crate::objects::Shape;
use vstd::prelude::*;

verus! {

/// The world that the character moves in.
pub struct State {
    pub objects: Vec<Shape>,
}

impl State {
    /// An empty scene.
    pub fn new() -> (r: State)
        ensures
            r.objects@.len() == 0,
    {
        State { objects: Vec::new() }
    }

    /// Appends a shape to the scene.
    pub fn push(&mut self, shape: Shape)
        ensures
            final(self).objects@ == old(self).objects@.push(shape),
    {
        self.objects.push(shape);
    }
}

} // verus!
