use vstd::prelude::*;

verus! {

/// How the transform of a scene node and that of its rigid body are kept in
/// step.
#[derive(Clone, Copy, Debug, PartialEq, Eq, Structural)]
pub enum PhysicsBinding {
    /// The node follows its rigid body (the default).
    NodeWithBody,
    /// The rigid body follows its node.
    BodyWithNode,
}

/// The position of a binding among the items of the physics-binding drop-down
/// list.
pub open spec fn spec_binding_index(b: PhysicsBinding) -> usize {
    match b {
        PhysicsBinding::NodeWithBody => 0,
        PhysicsBinding::BodyWithNode => 1,
    }
}

/// The binding shown at position `index` of the drop-down list, if any.
pub open spec fn spec_binding_at(index: usize) -> Option<PhysicsBinding> {
    if index == 0 {
        Some(PhysicsBinding::NodeWithBody)
    } else if index == 1 {
        Some(PhysicsBinding::BodyWithNode)
    } else {
        None
    }
}

/// The bindings in the order of the drop-down list's items.
pub open spec fn spec_binding_options() -> Seq<PhysicsBinding> {
    seq![PhysicsBinding::NodeWithBody, PhysicsBinding::BodyWithNode]
}

/// The caption of a binding's item in the drop-down list.
pub open spec fn spec_binding_caption(b: PhysicsBinding) -> Seq<char> {
    match b {
        PhysicsBinding::NodeWithBody => "Node With Body"@,
        PhysicsBinding::BodyWithNode => "Body With Node"@,
    }
}

/// Position of `b` in the physics-binding drop-down list.
pub fn binding_index(b: PhysicsBinding) -> (id: usize)
    ensures
        id == spec_binding_index(b),
{
    match b {
        PhysicsBinding::NodeWithBody => 0,
        PhysicsBinding::BodyWithNode => 1,
    }
}

/// The binding at position `index` of the drop-down list, or `None` when the
/// list has no such item.
pub fn binding_at(index: usize) -> (b: Option<PhysicsBinding>)
    ensures
        b == spec_binding_at(index),
{
    if index == 0 {
        Some(PhysicsBinding::NodeWithBody)
    } else if index == 1 {
        Some(PhysicsBinding::BodyWithNode)
    } else {
        None
    }
}

/// The bindings, in the order in which the drop-down list offers them.
pub fn binding_options() -> (v: Vec<PhysicsBinding>)
    ensures
        v@ == spec_binding_options(),
{
    let mut v: Vec<PhysicsBinding> = Vec::new();
    v.push(PhysicsBinding::NodeWithBody);
    v.push(PhysicsBinding::BodyWithNode);
    v
}

/// The caption of the drop-down item that stands for `b`.
pub fn binding_caption(b: PhysicsBinding) -> (s: &'static str)
    ensures
        s@ == spec_binding_caption(b),
{
    match b {
        PhysicsBinding::NodeWithBody => "Node With Body",
        PhysicsBinding::BodyWithNode => "Body With Node",
    }
}

/// Reading back the item a binding is shown at gives that binding; the
/// default binding, node with body, is the first item.
pub proof fn law_binding_at_index(b: PhysicsBinding)
    ensures
        spec_binding_at(spec_binding_index(b)) == Some(b),
        spec_binding_index(PhysicsBinding::NodeWithBody) == 0,
        spec_binding_index(PhysicsBinding::BodyWithNode) == 1,
{
}

/// An item of the list stands for exactly one binding, the one whose index it
/// has; the list has two items.
pub proof fn law_index_of_binding_at(index: usize)
    ensures
        spec_binding_at(index) is Some <==> index < 2,
        spec_binding_at(index) is Some ==> spec_binding_index(spec_binding_at(index)->0) == index,
{
}

/// The options list holds every binding at the position given by its index,
/// and nothing else.
pub proof fn law_options_follow_index(b: PhysicsBinding)
    ensures
        spec_binding_options().len() == 2,
        spec_binding_options()[spec_binding_index(b) as int] == b,
        forall|i: int| 0 <= i < 2 ==> spec_binding_at(i as usize) == Some(#[trigger] spec_binding_options()[i]),
{
}

/// The two captions differ, so the list never shows two bindings alike.
pub proof fn law_captions_distinct()
    ensures
        spec_binding_caption(PhysicsBinding::NodeWithBody) != spec_binding_caption(PhysicsBinding::BodyWithNode),
{
    reveal_strlit("Node With Body");
    reveal_strlit("Body With Node");
    assert(spec_binding_caption(PhysicsBinding::NodeWithBody)[0] != spec_binding_caption(PhysicsBinding::BodyWithNode)[0]);
}

} // verus!
