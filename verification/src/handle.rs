use vstd::prelude::*;

verus! {

/// A reference to a widget of the user interface: the index of its slot in the
/// widget pool together with the generation the slot had when it was filled.
/// Two handles refer to the same widget exactly when both numbers agree.
#[derive(Clone, Copy, Debug, PartialEq, Eq, Structural)]
pub struct WidgetHandle {
    pub index: u32,
    pub generation: u32,
}

/// A reference to a node of the scene graph, with the same pool semantics as
/// [`WidgetHandle`].
#[derive(Clone, Copy, Debug, PartialEq, Eq, Structural)]
pub struct NodeHandle {
    pub index: u32,
    pub generation: u32,
}

impl WidgetHandle {
    /// Builds a handle from its slot index and generation.
    pub fn new(index: u32, generation: u32) -> (h: WidgetHandle)
        ensures
            h.index == index,
            h.generation == generation,
    {
        WidgetHandle { index, generation }
    }
}

impl NodeHandle {
    /// Builds a handle from its slot index and generation.
    pub fn new(index: u32, generation: u32) -> (h: NodeHandle)
        ensures
            h.index == index,
            h.generation == generation,
    {
        NodeHandle { index, generation }
    }
}

} // verus!
