use vstd::prelude::*;

use crate::binding::PhysicsBinding;
use crate::handle::{NodeHandle, WidgetHandle};

verus! {

/// Whether a message goes to a widget (a change the program makes) or comes
/// from it (a change the user made).
#[derive(Clone, Copy, Debug, PartialEq, Eq, Structural)]
pub enum MessageDirection {
    ToWidget,
    FromWidget,
}

/// What a vector editor's new value means for the selected node. The editor
/// holds three floating-point numbers; the caller compares them with the node's
/// current rotation (as a quaternion, up to a small tolerance), position and
/// scale, and hands over whether each comparison found a difference.
#[derive(Clone, Copy, Debug, PartialEq, Eq, Structural)]
pub struct Vec3Change {
    pub differs_from_rotation: bool,
    pub differs_from_position: bool,
    pub differs_from_scale: bool,
}

/// The part of a user-interface message that the side bar reads.
#[derive(Clone, Debug, PartialEq, Eq)]
pub enum UiMessageData {
    /// A vector editor reports a new value.
    Vec3Value(Vec3Change),
    /// A text box reports its new text.
    TextBoxText(String),
    /// A drop-down list reports a new selected item, or that none is selected.
    DropdownSelectionChanged(Option<usize>),
    /// Any other message.
    Other,
}

/// A message of the user interface: the widget it concerns, its direction and
/// what it says.
#[derive(Clone, Debug)]
pub struct UiMessage {
    pub destination: WidgetHandle,
    pub direction: MessageDirection,
    pub data: UiMessageData,
}

/// One of the three vectors of a node's local transform.
#[derive(Clone, Copy, Debug, PartialEq, Eq, Structural)]
pub enum TransformField {
    Position,
    /// The rotation, shown as Euler angles in degrees.
    Rotation,
    Scale,
}

/// A message that the side bar sends to one of its widgets.
#[derive(Clone, Debug, PartialEq, Eq)]
pub enum WidgetMessage {
    /// Show or hide a widget.
    Visibility { widget: WidgetHandle, visible: bool },
    /// Let the user edit a widget, or not.
    Enabled { widget: WidgetHandle, enabled: bool },
    /// Set the text of a text box.
    TextBoxText { widget: WidgetHandle, text: String },
    /// Set the text of a read-only text.
    Text { widget: WidgetHandle, text: String },
    /// Set a vector editor to the given vector of the node's transform; the
    /// caller reads the numbers from the node.
    Vec3Value { widget: WidgetHandle, field: TransformField },
    /// Select an item of a drop-down list, or none.
    DropdownSelection { widget: WidgetHandle, selection: Option<usize> },
}

/// A [`WidgetMessage`] with its texts taken as sequences of characters.
pub enum WidgetMessageView {
    Visibility { widget: WidgetHandle, visible: bool },
    Enabled { widget: WidgetHandle, enabled: bool },
    TextBoxText { widget: WidgetHandle, text: Seq<char> },
    Text { widget: WidgetHandle, text: Seq<char> },
    Vec3Value { widget: WidgetHandle, field: TransformField },
    DropdownSelection { widget: WidgetHandle, selection: Option<usize> },
}

impl View for WidgetMessage {
    type V = WidgetMessageView;

    open spec fn view(&self) -> WidgetMessageView {
        match self {
            WidgetMessage::Visibility { widget, visible } => WidgetMessageView::Visibility {
                widget: *widget,
                visible: *visible,
            },
            WidgetMessage::Enabled { widget, enabled } => WidgetMessageView::Enabled {
                widget: *widget,
                enabled: *enabled,
            },
            WidgetMessage::TextBoxText { widget, text } => WidgetMessageView::TextBoxText {
                widget: *widget,
                text: text@,
            },
            WidgetMessage::Text { widget, text } => WidgetMessageView::Text {
                widget: *widget,
                text: text@,
            },
            WidgetMessage::Vec3Value { widget, field } => WidgetMessageView::Vec3Value {
                widget: *widget,
                field: *field,
            },
            WidgetMessage::DropdownSelection { widget, selection } => WidgetMessageView::DropdownSelection {
                widget: *widget,
                selection: *selection,
            },
        }
    }
}

/// A change of the scene that the side bar asks the editor to make, so that it
/// can be undone. The three transform commands carry the node only: the old
/// and the new vector are floating-point values that the caller attaches.
#[derive(Clone, Debug, PartialEq, Eq)]
pub enum SceneCommand {
    RotateNode(NodeHandle),
    MoveNode(NodeHandle),
    ScaleNode(NodeHandle),
    SetName(NodeHandle, String),
    SetTag(NodeHandle, String),
    SetPhysicsBinding(NodeHandle, PhysicsBinding),
}

impl SceneCommand {
    /// The node that a command changes.
    pub open spec fn spec_node(self) -> NodeHandle {
        match self {
            SceneCommand::RotateNode(h) => h,
            SceneCommand::MoveNode(h) => h,
            SceneCommand::ScaleNode(h) => h,
            SceneCommand::SetName(h, _) => h,
            SceneCommand::SetTag(h, _) => h,
            SceneCommand::SetPhysicsBinding(h, _) => h,
        }
    }

    /// The node that this command changes.
    pub fn node(&self) -> (h: NodeHandle)
        ensures
            h == self.spec_node(),
    {
        match self {
            SceneCommand::RotateNode(h) => *h,
            SceneCommand::MoveNode(h) => *h,
            SceneCommand::ScaleNode(h) => *h,
            SceneCommand::SetName(h, _) => *h,
            SceneCommand::SetTag(h, _) => *h,
            SceneCommand::SetPhysicsBinding(h, _) => *h,
        }
    }
}

/// The scene nodes that are selected in the editor, in the order of selection.
#[derive(Clone, Debug)]
pub struct GraphSelection {
    pub nodes: Vec<NodeHandle>,
}

impl GraphSelection {
    /// Whether exactly one node is selected.
    pub fn is_single_selection(&self) -> (r: bool)
        ensures
            r == (self.nodes@.len() == 1),
    {
        self.nodes.len() == 1
    }
}

/// What is selected in the editor: scene nodes, or something else (such as a
/// navigation mesh or a sound source), which the side bar does not edit.
#[derive(Clone, Debug)]
pub enum Selection {
    Graph(GraphSelection),
    Other,
}

impl Selection {
    /// The node whose properties the side bar shows and edits: the selected
    /// node when exactly one scene node is selected.
    pub open spec fn spec_single_node(self) -> Option<NodeHandle> {
        match self {
            Selection::Graph(g) => if g.nodes@.len() == 1 {
                Some(g.nodes@[0])
            } else {
                None
            },
            Selection::Other => None,
        }
    }

    /// The single selected scene node, if exactly one is selected.
    pub fn single_node(&self) -> (r: Option<NodeHandle>)
        ensures
            r == self.spec_single_node(),
    {
        match self {
            Selection::Graph(g) => if g.is_single_selection() {
                Some(g.nodes[0])
            } else {
                None
            },
            Selection::Other => None,
        }
    }
}

/// The properties of a scene node that the side bar reads, other than its
/// transform.
#[derive(Clone, Debug)]
pub struct NodeView {
    pub name: String,
    pub tag: String,
    /// The path of the resource that the node was instantiated from, if any,
    /// as text.
    pub resource_path: Option<String>,
    /// Whether the node is the root of an instance of a resource.
    pub is_resource_instance_root: bool,
    pub physics_binding: PhysicsBinding,
}

/// The node the panel works on is the one scene node selected when exactly
/// one is, and there is none for an empty or larger selection of nodes, or
/// for a selection of anything else.
pub proof fn law_single_node_only_for_one_node(selection: Selection)
    ensures
        selection.spec_single_node() is Some <==> (selection matches Selection::Graph(g) && g.nodes@.len() == 1),
        selection matches Selection::Graph(g) ==> (g.nodes@.len() == 1 ==> selection.spec_single_node() == Some(
            g.nodes@[0],
        )),
{
}

} // verus!
