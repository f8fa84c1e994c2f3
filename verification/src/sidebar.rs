use vstd::prelude::*;

use crate::binding::{binding_at, binding_index, spec_binding_at, spec_binding_index, PhysicsBinding};
use crate::handle::{NodeHandle, WidgetHandle};
use crate::layout::{spec_field_editor, EditorKind, PropertyField};
use crate::message::{
    GraphSelection, MessageDirection, NodeView, SceneCommand, Selection, TransformField, UiMessage,
    UiMessageData, Vec3Change, WidgetMessage, WidgetMessageView,
};

verus! {

/// The panel that shows and edits the properties of the selected scene node.
/// It holds the widgets it reads messages from and sends messages to.
#[derive(Clone, Copy, Debug)]
pub struct SideBar {
    /// The window of the panel.
    pub window: WidgetHandle,
    /// The scroll viewer that holds the property grid; hidden unless exactly
    /// one node is selected.
    pub scroll_viewer: WidgetHandle,
    pub node_name: WidgetHandle,
    pub position: WidgetHandle,
    pub rotation: WidgetHandle,
    pub scale: WidgetHandle,
    pub resource: WidgetHandle,
    pub tag: WidgetHandle,
    pub physics_binding: WidgetHandle,
}

/// The text that the resource widget shows for a node.
pub open spec fn spec_resource_text(node: NodeView) -> Seq<char> {
    match node.resource_path {
        Some(path) => path@,
        None => "None"@,
    }
}

/// Whether the user may rename the node: names of nodes that come from a
/// resource are what resolving the resource goes by, so only the root of an
/// instance may be renamed.
pub open spec fn spec_name_editable(node: NodeView) -> bool {
    node.resource_path is None || node.is_resource_instance_root
}

impl SideBar {
    /// The panel's widgets, in the order of the fields.
    pub open spec fn spec_widgets(self) -> Seq<WidgetHandle> {
        seq![
            self.window,
            self.scroll_viewer,
            self.node_name,
            self.position,
            self.rotation,
            self.scale,
            self.resource,
            self.tag,
            self.physics_binding,
        ]
    }

    /// The widget in the editor column that shows property `f`.
    pub open spec fn spec_field_widget(self, f: PropertyField) -> WidgetHandle {
        match f {
            PropertyField::Name => self.node_name,
            PropertyField::Position => self.position,
            PropertyField::Rotation => self.rotation,
            PropertyField::Scale => self.scale,
            PropertyField::Resource => self.resource,
            PropertyField::Tag => self.tag,
            PropertyField::PhysicsBinding => self.physics_binding,
        }
    }

    /// Every part of the panel is a widget of its own: no two of the nine
    /// handles are equal.
    pub open spec fn spec_distinct_widgets(self) -> bool {
        self.spec_widgets().no_duplicates()
    }

    /// A side bar over the given widgets, which are nine different ones.
    pub fn new(
        window: WidgetHandle,
        scroll_viewer: WidgetHandle,
        node_name: WidgetHandle,
        position: WidgetHandle,
        rotation: WidgetHandle,
        scale: WidgetHandle,
        resource: WidgetHandle,
        tag: WidgetHandle,
        physics_binding: WidgetHandle,
    ) -> (s: SideBar)
        requires
            seq![window, scroll_viewer, node_name, position, rotation, scale, resource, tag, physics_binding].no_duplicates(),
        ensures
            s.spec_distinct_widgets(),
            s.window == window,
            s.scroll_viewer == scroll_viewer,
            s.node_name == node_name,
            s.position == position,
            s.rotation == rotation,
            s.scale == scale,
            s.resource == resource,
            s.tag == tag,
            s.physics_binding == physics_binding,
    {
        SideBar {
            window,
            scroll_viewer,
            node_name,
            position,
            rotation,
            scale,
            resource,
            tag,
            physics_binding,
        }
    }

    /// The messages that fill the widgets with the properties of `node`.
    pub open spec fn spec_node_messages(self, node: NodeView) -> Seq<WidgetMessageView> {
        seq![
            WidgetMessageView::TextBoxText { widget: self.node_name, text: node.name@ },
            WidgetMessageView::Enabled { widget: self.node_name, enabled: spec_name_editable(node) },
            WidgetMessageView::Text { widget: self.resource, text: spec_resource_text(node) },
            WidgetMessageView::TextBoxText { widget: self.tag, text: node.tag@ },
            WidgetMessageView::Vec3Value { widget: self.position, field: TransformField::Position },
            WidgetMessageView::Vec3Value { widget: self.rotation, field: TransformField::Rotation },
            WidgetMessageView::Vec3Value { widget: self.scale, field: TransformField::Scale },
            WidgetMessageView::DropdownSelection {
                widget: self.physics_binding,
                selection: Some(spec_binding_index(node.physics_binding)),
            },
        ]
    }

    /// The messages that bring the panel in line with the selection. For a
    /// selection of scene nodes the panel is shown exactly when one node is
    /// selected, and then filled from that node if it is still in the scene
    /// (`node` is its view then); any other selection leaves the panel as it is.
    pub open spec fn spec_sync(self, selection: Selection, node: Option<NodeView>) -> Seq<WidgetMessageView> {
        match selection {
            Selection::Graph(g) => {
                let shown = seq![
                    WidgetMessageView::Visibility { widget: self.scroll_viewer, visible: g.nodes@.len() == 1 },
                ];
                if g.nodes@.len() == 1 && node is Some {
                    shown + self.spec_node_messages(node->0)
                } else {
                    shown
                }
            },
            Selection::Other => Seq::empty(),
        }
    }

    /// Computes the messages of [`SideBar::spec_sync`], in the order in which
    /// they are to be sent. `node` is the view of the single selected node
    /// when its handle is valid in the scene graph, and `None` otherwise.
    pub fn sync_to_model(&self, selection: &Selection, node: &Option<NodeView>) -> (msgs: Vec<WidgetMessage>)
        ensures
            msgs@.map_values(|m: WidgetMessage| m@) == self.spec_sync(*selection, *node),
    {
        let mut msgs: Vec<WidgetMessage> = Vec::new();
        match selection {
            Selection::Graph(g) => {
                let single = g.is_single_selection();
                msgs.push(WidgetMessage::Visibility { widget: self.scroll_viewer, visible: single });
                if single {
                    match node {
                        Some(n) => {
                            self.push_node_messages(n, &mut msgs);
                        },
                        None => {},
                    }
                }
            },
            Selection::Other => {},
        }
        assert(msgs@.map_values(|m: WidgetMessage| m@) =~= self.spec_sync(*selection, *node));
        msgs
    }

    fn push_node_messages(&self, node: &NodeView, msgs: &mut Vec<WidgetMessage>)
        ensures
            final(msgs)@.map_values(|m: WidgetMessage| m@)
                == old(msgs)@.map_values(|m: WidgetMessage| m@) + self.spec_node_messages(*node),
    {
        let ghost before = msgs@;
        msgs.push(WidgetMessage::TextBoxText { widget: self.node_name, text: node.name.clone() });
        msgs.push(WidgetMessage::Enabled {
            widget: self.node_name,
            enabled: node.resource_path.is_none() || node.is_resource_instance_root,
        });
        let resource_text = match &node.resource_path {
            Some(path) => path.clone(),
            None => "None".to_owned(),
        };
        msgs.push(WidgetMessage::Text { widget: self.resource, text: resource_text });
        msgs.push(WidgetMessage::TextBoxText { widget: self.tag, text: node.tag.clone() });
        msgs.push(WidgetMessage::Vec3Value { widget: self.position, field: TransformField::Position });
        msgs.push(WidgetMessage::Vec3Value { widget: self.rotation, field: TransformField::Rotation });
        msgs.push(WidgetMessage::Vec3Value { widget: self.scale, field: TransformField::Scale });
        msgs.push(WidgetMessage::DropdownSelection {
            widget: self.physics_binding,
            selection: Some(binding_index(node.physics_binding)),
        });
        assert(msgs@.map_values(|m: WidgetMessage| m@)
            =~= before.map_values(|m: WidgetMessage| m@) + self.spec_node_messages(*node));
    }

    /// The command that a message from the vector editor `destination` asks
    /// for: rotation, position and scale are told apart by the widget, tried
    /// in that order, and a command is due only where the value differs.
    pub open spec fn spec_vec3_command(
        self,
        destination: WidgetHandle,
        change: Vec3Change,
        node: NodeHandle,
    ) -> Option<SceneCommand> {
        if destination == self.rotation {
            if change.differs_from_rotation { Some(SceneCommand::RotateNode(node)) } else { None }
        } else if destination == self.position {
            if change.differs_from_position { Some(SceneCommand::MoveNode(node)) } else { None }
        } else if destination == self.scale {
            if change.differs_from_scale { Some(SceneCommand::ScaleNode(node)) } else { None }
        } else {
            None
        }
    }

    /// The command that a new text of the text box `destination` asks for: a
    /// new name or tag, when it differs from the node's current one.
    pub open spec fn spec_text_command(
        self,
        destination: WidgetHandle,
        text: String,
        node: NodeHandle,
        view: NodeView,
    ) -> Option<SceneCommand> {
        if destination == self.node_name {
            if view.name@ != text@ { Some(SceneCommand::SetName(node, text)) } else { None }
        } else if destination == self.tag {
            if view.tag@ != text@ { Some(SceneCommand::SetTag(node, text)) } else { None }
        } else {
            None
        }
    }

    /// The command that selecting item `index` of the drop-down list
    /// `destination` asks for: the binding of that item, when the node has
    /// another one.
    pub open spec fn spec_binding_command(
        self,
        destination: WidgetHandle,
        index: usize,
        node: NodeHandle,
        view: NodeView,
    ) -> Option<SceneCommand> {
        if destination == self.physics_binding && spec_binding_index(view.physics_binding) != index {
            Some(SceneCommand::SetPhysicsBinding(node, spec_binding_at(index)->0))
        } else {
            None
        }
    }

    /// The command that a message asks for, given the selected node and its
    /// view.
    pub open spec fn spec_command_for(self, message: UiMessage, node: NodeHandle, view: NodeView) -> Option<
        SceneCommand,
    > {
        match message.data {
            UiMessageData::Vec3Value(change) => self.spec_vec3_command(message.destination, change, node),
            UiMessageData::TextBoxText(text) => self.spec_text_command(message.destination, text, node, view),
            UiMessageData::DropdownSelectionChanged(Some(index)) => self.spec_binding_command(
                message.destination,
                index,
                node,
                view,
            ),
            _ => None,
        }
    }

    /// The command that a message asks for: only a message from one of the
    /// panel's widgets, while exactly one scene node is selected, can ask for
    /// one, and then it concerns that node.
    pub open spec fn spec_command(self, message: UiMessage, selection: Selection, node: Option<NodeView>) -> Option<
        SceneCommand,
    > {
        if selection.spec_single_node() is Some && message.direction == MessageDirection::FromWidget
            && node is Some {
            self.spec_command_for(message, selection.spec_single_node()->0, node->0)
        } else {
            None
        }
    }

    /// Whether a message would select an item of the physics-binding list
    /// that stands for no binding, while the node's binding is another one.
    pub open spec fn spec_selects_missing_binding(self, message: UiMessage, selection: Selection, node: Option<NodeView>) -> bool {
        &&& selection.spec_single_node() is Some
        &&& message.direction == MessageDirection::FromWidget
        &&& node is Some
        &&& message.destination == self.physics_binding
        &&& message.data matches UiMessageData::DropdownSelectionChanged(Some(index))
            && spec_binding_at(index) is None
            && spec_binding_index(node->0.physics_binding) != index
    }

    /// Decides which command, if any, a message of the user interface asks
    /// for. `node` is the view of the single selected node, which the caller
    /// must give whenever exactly one scene node is selected and the message
    /// comes from a widget. Selecting an item of the physics-binding list that
    /// stands for no binding is a broken invariant of the list, left out here.
    pub fn handle_ui_message(&self, message: &UiMessage, selection: &Selection, node: &Option<NodeView>) -> (r: Option<
        SceneCommand,
    >)
        requires
            selection.spec_single_node() is Some && message.direction == MessageDirection::FromWidget
                ==> node is Some,
            !self.spec_selects_missing_binding(*message, *selection, *node),
        ensures
            r == self.spec_command(*message, *selection, *node),
            message.direction == MessageDirection::ToWidget ==> r is None,
            selection.spec_single_node() is None ==> r is None,
            r is Some ==> r->0.spec_node() == selection.spec_single_node()->0,
    {
        let subject = selection.single_node();
        let node_handle = match subject {
            Some(h) => h,
            None => return None,
        };
        if message.direction != MessageDirection::FromWidget {
            return None;
        }
        let view = match node {
            Some(v) => v,
            None => return None,
        };
        match &message.data {
            UiMessageData::Vec3Value(change) => {
                if message.destination == self.rotation {
                    if change.differs_from_rotation {
                        Some(SceneCommand::RotateNode(node_handle))
                    } else {
                        None
                    }
                } else if message.destination == self.position {
                    if change.differs_from_position {
                        Some(SceneCommand::MoveNode(node_handle))
                    } else {
                        None
                    }
                } else if message.destination == self.scale {
                    if change.differs_from_scale {
                        Some(SceneCommand::ScaleNode(node_handle))
                    } else {
                        None
                    }
                } else {
                    None
                }
            },
            UiMessageData::TextBoxText(text) => {
                if message.destination == self.node_name {
                    if view.name != *text {
                        Some(SceneCommand::SetName(node_handle, text.clone()))
                    } else {
                        None
                    }
                } else if message.destination == self.tag {
                    if view.tag != *text {
                        Some(SceneCommand::SetTag(node_handle, text.clone()))
                    } else {
                        None
                    }
                } else {
                    None
                }
            },
            UiMessageData::DropdownSelectionChanged(Some(index)) => {
                if message.destination == self.physics_binding {
                    let id = binding_index(view.physics_binding);
                    if id != *index {
                        match binding_at(*index) {
                            Some(value) => Some(SceneCommand::SetPhysicsBinding(node_handle, value)),
                            None => None,
                        }
                    } else {
                        None
                    }
                } else {
                    None
                }
            },
            _ => None,
        }
    }
}

/// Whether a vector editor's value differs from the given vector of the node,
/// by the caller's comparison.
pub open spec fn spec_differs(change: Vec3Change, field: TransformField) -> bool {
    match field {
        TransformField::Position => change.differs_from_position,
        TransformField::Rotation => change.differs_from_rotation,
        TransformField::Scale => change.differs_from_scale,
    }
}

/// Whether `message` is what a widget reports back after it took on what
/// `sent` set it to: a text box its new text, a drop-down list its new
/// selection, a vector editor a value that the caller's comparison finds
/// equal to the node's vector it was set from.
pub open spec fn spec_echoes(message: UiMessage, sent: WidgetMessageView) -> bool {
    &&& message.direction == MessageDirection::FromWidget
    &&& match sent {
        WidgetMessageView::TextBoxText { widget, text } => {
            &&& message.destination == widget
            &&& message.data matches UiMessageData::TextBoxText(t) && t@ == text
        },
        WidgetMessageView::DropdownSelection { widget, selection } => {
            &&& message.destination == widget
            &&& message.data matches UiMessageData::DropdownSelectionChanged(s) && s == selection
        },
        WidgetMessageView::Vec3Value { widget, field } => {
            &&& message.destination == widget
            &&& message.data matches UiMessageData::Vec3Value(c) && !spec_differs(c, field)
        },
        _ => false,
    }
}

/// Filling the panel from the model does not feed back into the model: when
/// the text boxes, the vector editors and the drop-down list report the values
/// that syncing gave them, no command is asked for.
pub proof fn law_sync_echo_asks_nothing(
    bar: SideBar,
    selection: Selection,
    node: Option<NodeView>,
    i: int,
    message: UiMessage,
)
    requires
        bar.spec_distinct_widgets(),
        0 <= i < bar.spec_sync(selection, node).len(),
        spec_echoes(message, bar.spec_sync(selection, node)[i]),
    ensures
        bar.spec_command(message, selection, node) is None,
{
    match selection {
        Selection::Graph(g) => {
            if g.nodes@.len() == 1 && node is Some {
                let sent = bar.spec_sync(selection, node)[i];
                let w = bar.spec_widgets();
                assert(w[2] != w[7] && w[2] != w[3] && w[2] != w[4] && w[2] != w[5]);
                assert(w[3] != w[4] && w[3] != w[5] && w[4] != w[5] && w[7] != w[3]);
                assert(w[7] != w[4] && w[7] != w[5]);
                if i >= 1 {
                    assert(sent == bar.spec_node_messages(node->0)[i - 1]);
                }
            }
        },
        Selection::Other => {},
    }
}

/// A binding command sets the binding of the item that was selected, and only
/// when the node had another binding.
pub proof fn law_binding_command_follows_item(
    bar: SideBar,
    message: UiMessage,
    selection: Selection,
    node: Option<NodeView>,
)
    requires
        !bar.spec_selects_missing_binding(message, selection, node),
        bar.spec_command(message, selection, node) matches Some(SceneCommand::SetPhysicsBinding(_, _)),
    ensures
        ({
            let b = bar.spec_command(message, selection, node)->0->SetPhysicsBinding_1;
            &&& message.data matches UiMessageData::DropdownSelectionChanged(Some(index))
                && spec_binding_index(b) == index
            &&& b != node->0.physics_binding
            &&& message.destination == bar.physics_binding
        }),
{
}

/// A new name or tag is asked for exactly when the text reported by its box
/// differs from the node's, and carries that text.
pub proof fn law_text_command_iff_changed(
    bar: SideBar,
    selection: Selection,
    node: NodeView,
    text: String,
    destination: WidgetHandle,
)
    requires
        selection.spec_single_node() is Some,
        destination == bar.node_name || destination == bar.tag,
    ensures
        ({
            let message = UiMessage {
                destination,
                direction: MessageDirection::FromWidget,
                data: UiMessageData::TextBoxText(text),
            };
            let h = selection.spec_single_node()->0;
            let current = if destination == bar.node_name { node.name@ } else { node.tag@ };
            &&& bar.spec_command(message, selection, Some(node)) is Some <==> current != text@
            &&& current != text@ ==> bar.spec_command(message, selection, Some(node)) == if destination
                == bar.node_name {
                Some(SceneCommand::SetName(h, text))
            } else {
                Some(SceneCommand::SetTag(h, text))
            }
        }),
{
}

/// Choosing an item of the physics-binding list asks for exactly the change to
/// that item's binding, and only when the node has another binding: for every
/// binding `b`, picking its item gives `SetPhysicsBinding(node, b)` unless `b`
/// is already the node's binding, and then nothing.
pub proof fn law_binding_item_asks_for_its_binding(
    bar: SideBar,
    selection: Selection,
    view: NodeView,
    b: PhysicsBinding,
)
    requires
        selection.spec_single_node() is Some,
    ensures
        ({
            let message = UiMessage {
                destination: bar.physics_binding,
                direction: MessageDirection::FromWidget,
                data: UiMessageData::DropdownSelectionChanged(Some(spec_binding_index(b))),
            };
            bar.spec_command(message, selection, Some(view)) == if b == view.physics_binding {
                None
            } else {
                Some(SceneCommand::SetPhysicsBinding(selection.spec_single_node()->0, b))
            }
        }),
{
}

/// For a selection of scene nodes the panel is shown exactly when one node is
/// selected, and only then filled: the first message sets the scroll viewer's
/// visibility to "one node selected", and the eight messages that fill the
/// widgets from the node follow exactly when one node is selected and its view
/// is given. A selection of anything else leaves the panel alone.
pub proof fn law_sync_shows_panel_only_for_one_node(bar: SideBar, g: GraphSelection, node: Option<NodeView>)
    ensures
        ({
            let msgs = bar.spec_sync(Selection::Graph(g), node);
            &&& msgs.len() >= 1
            &&& msgs[0] == WidgetMessageView::Visibility {
                widget: bar.scroll_viewer,
                visible: g.nodes@.len() == 1,
            }
            &&& msgs.len() > 1 <==> (g.nodes@.len() == 1 && node is Some)
            &&& msgs.len() > 1 ==> {
                &&& msgs.len() == 9
                &&& msgs[1] == WidgetMessageView::TextBoxText { widget: bar.node_name, text: node->0.name@ }
                &&& msgs[2] == WidgetMessageView::Enabled {
                    widget: bar.node_name,
                    enabled: node->0.resource_path is None || node->0.is_resource_instance_root,
                }
                &&& msgs[3] == WidgetMessageView::Text {
                    widget: bar.resource,
                    text: if node->0.resource_path is Some { node->0.resource_path->0@ } else { "None"@ },
                }
                &&& msgs[4] == WidgetMessageView::TextBoxText { widget: bar.tag, text: node->0.tag@ }
                &&& msgs[5] == WidgetMessageView::Vec3Value { widget: bar.position, field: TransformField::Position }
                &&& msgs[6] == WidgetMessageView::Vec3Value { widget: bar.rotation, field: TransformField::Rotation }
                &&& msgs[7] == WidgetMessageView::Vec3Value { widget: bar.scale, field: TransformField::Scale }
                &&& msgs[8] == WidgetMessageView::DropdownSelection {
                    widget: bar.physics_binding,
                    selection: Some(spec_binding_index(node->0.physics_binding)),
                }
            }
        }),
        bar.spec_sync(Selection::Other, node).len() == 0,
{
}

/// Nothing is asked for unless exactly one scene node is selected.
pub proof fn law_no_command_unless_one_node(
    bar: SideBar,
    g: GraphSelection,
    message: UiMessage,
    node: Option<NodeView>,
)
    requires
        g.nodes@.len() != 1,
    ensures
        bar.spec_command(message, Selection::Graph(g), node) is None,
        bar.spec_command(message, Selection::Other, node) is None,
{
}

/// Each vector editor goes by its own comparison alone: a new value in the
/// position editor asks for a move exactly when it differs from the node's
/// position, whatever the rotation and scale comparisons say; likewise the
/// rotation editor with the rotation and the scale editor with the scale.
pub proof fn law_vector_editor_goes_by_its_own_vector(
    bar: SideBar,
    selection: Selection,
    view: NodeView,
    change: Vec3Change,
)
    requires
        bar.spec_distinct_widgets(),
        selection.spec_single_node() is Some,
    ensures
        ({
            let h = selection.spec_single_node()->0;
            let to = |w: WidgetHandle|
                UiMessage {
                    destination: w,
                    direction: MessageDirection::FromWidget,
                    data: UiMessageData::Vec3Value(change),
                };
            &&& bar.spec_command(to(bar.position), selection, Some(view)) == if change.differs_from_position {
                Some(SceneCommand::MoveNode(h))
            } else {
                None
            }
            &&& bar.spec_command(to(bar.rotation), selection, Some(view)) == if change.differs_from_rotation {
                Some(SceneCommand::RotateNode(h))
            } else {
                None
            }
            &&& bar.spec_command(to(bar.scale), selection, Some(view)) == if change.differs_from_scale {
                Some(SceneCommand::ScaleNode(h))
            } else {
                None
            }
        }),
{
    let w = bar.spec_widgets();
    assert(w[3] != w[4] && w[3] != w[5] && w[4] != w[5]);
}

/// The kind of widget that shows a property fits what the panel reads from
/// it: where a message to a property's widget asks for a command, a new text
/// comes from a text box, a new vector from a vector editor and a new item
/// from a drop-down list.
pub proof fn law_commands_come_from_fitting_editors(
    bar: SideBar,
    f: PropertyField,
    selection: Selection,
    view: NodeView,
    message: UiMessage,
)
    requires
        bar.spec_distinct_widgets(),
        message.destination == bar.spec_field_widget(f),
        bar.spec_command(message, selection, Some(view)) is Some,
    ensures
        message.data is TextBoxText ==> spec_field_editor(f) == EditorKind::TextBox,
        message.data is Vec3Value ==> spec_field_editor(f) == EditorKind::Vec3,
        message.data is DropdownSelectionChanged ==> spec_field_editor(f) == EditorKind::DropdownList,
{
    let w = bar.spec_widgets();
    assert(w[2] != w[3] && w[2] != w[4] && w[2] != w[5] && w[2] != w[6] && w[2] != w[7] && w[2] != w[8]);
    assert(w[3] != w[4] && w[3] != w[5] && w[3] != w[6] && w[3] != w[7] && w[3] != w[8]);
    assert(w[4] != w[5] && w[4] != w[6] && w[4] != w[7] && w[4] != w[8]);
    assert(w[5] != w[6] && w[5] != w[7] && w[5] != w[8]);
    assert(w[6] != w[7] && w[6] != w[8] && w[7] != w[8]);
}

} // verus!
