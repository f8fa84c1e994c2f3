use editor_sidebar::binding::{binding_at, binding_caption, binding_index, binding_options, PhysicsBinding};
use editor_sidebar::handle::{NodeHandle, WidgetHandle};
use editor_sidebar::layout::{
    field_caption, field_editor, field_row, grid_rows, window_layout, property_fields, EditorKind, PropertyField, RowSize,
    EDITOR_COLUMN, LABEL_COLUMN,
};
use editor_sidebar::message::{
    GraphSelection, MessageDirection, NodeView, SceneCommand, Selection, TransformField, UiMessage, UiMessageData,
    Vec3Change, WidgetMessage,
};
use editor_sidebar::sidebar::SideBar;

fn w(i: u32) -> WidgetHandle {
    WidgetHandle::new(i, 1)
}

fn bar() -> SideBar {
    SideBar::new(w(1), w(2), w(3), w(4), w(5), w(6), w(7), w(8), w(9))
}

fn node_handle() -> NodeHandle {
    NodeHandle::new(42, 3)
}

fn single() -> Selection {
    Selection::Graph(GraphSelection { nodes: vec![node_handle()] })
}

fn view() -> NodeView {
    NodeView {
        name: "Cube".to_string(),
        tag: "enemy".to_string(),
        resource_path: None,
        is_resource_instance_root: false,
        physics_binding: PhysicsBinding::NodeWithBody,
    }
}

fn from_widget(destination: WidgetHandle, data: UiMessageData) -> UiMessage {
    UiMessage { destination, direction: MessageDirection::FromWidget, data }
}

fn change(r: bool, p: bool, s: bool) -> Vec3Change {
    Vec3Change { differs_from_rotation: r, differs_from_position: p, differs_from_scale: s }
}

#[test]
fn binding_indices_round_trip() {
    assert_eq!(binding_index(PhysicsBinding::NodeWithBody), 0);
    assert_eq!(binding_index(PhysicsBinding::BodyWithNode), 1);
    for b in [PhysicsBinding::NodeWithBody, PhysicsBinding::BodyWithNode] {
        assert_eq!(binding_at(binding_index(b)), Some(b));
    }
    assert_eq!(binding_at(2), None);
    assert_eq!(binding_at(usize::MAX), None);
}

#[test]
fn binding_options_follow_indices() {
    let options = binding_options();
    assert_eq!(options, vec![PhysicsBinding::NodeWithBody, PhysicsBinding::BodyWithNode]);
    for b in options.iter() {
        assert_eq!(options[binding_index(*b)], *b);
    }
    assert_eq!(binding_caption(PhysicsBinding::NodeWithBody), "Node With Body");
    assert_eq!(binding_caption(PhysicsBinding::BodyWithNode), "Body With Node");
}

#[test]
fn layout_rows_and_captions() {
    let fields = property_fields();
    assert_eq!(fields.len(), 7);
    for (i, f) in fields.iter().enumerate() {
        assert_eq!(field_row(*f), i);
    }
    let captions: Vec<&str> = fields.iter().map(|f| field_caption(*f)).collect();
    assert_eq!(captions, vec!["Name", "Position", "Rotation", "Scale", "Resource", "Tag", "Physics Binding"]);
    assert_eq!(field_editor(PropertyField::Name), EditorKind::TextBox);
    assert_eq!(field_editor(PropertyField::Rotation), EditorKind::Vec3);
    assert_eq!(field_editor(PropertyField::Resource), EditorKind::Text);
    assert_eq!(field_editor(PropertyField::PhysicsBinding), EditorKind::DropdownList);
    assert_eq!(LABEL_COLUMN, 0);
    assert_eq!(EDITOR_COLUMN, 1);
}

#[test]
fn grid_has_a_row_per_field_and_a_stretching_one() {
    let rows = grid_rows();
    assert_eq!(rows.len(), 8);
    assert!(rows[..7].iter().all(|r| *r == RowSize::Strict));
    assert_eq!(rows[7], RowSize::Stretch);
}

#[test]
fn sync_fills_every_widget_of_a_single_selection() {
    let b = bar();
    let msgs = b.sync_to_model(&single(), &Some(view()));
    assert_eq!(
        msgs,
        vec![
            WidgetMessage::Visibility { widget: w(2), visible: true },
            WidgetMessage::TextBoxText { widget: w(3), text: "Cube".to_string() },
            WidgetMessage::Enabled { widget: w(3), enabled: true },
            WidgetMessage::Text { widget: w(7), text: "None".to_string() },
            WidgetMessage::TextBoxText { widget: w(8), text: "enemy".to_string() },
            WidgetMessage::Vec3Value { widget: w(4), field: TransformField::Position },
            WidgetMessage::Vec3Value { widget: w(5), field: TransformField::Rotation },
            WidgetMessage::Vec3Value { widget: w(6), field: TransformField::Scale },
            WidgetMessage::DropdownSelection { widget: w(9), selection: Some(0) },
        ]
    );
}

#[test]
fn sync_of_a_resource_node() {
    let b = bar();
    let mut n = view();
    n.resource_path = Some("data/models/tree.fbx".to_string());
    n.physics_binding = PhysicsBinding::BodyWithNode;
    let msgs = b.sync_to_model(&single(), &Some(n.clone()));
    assert_eq!(msgs[2], WidgetMessage::Enabled { widget: w(3), enabled: false });
    assert_eq!(msgs[3], WidgetMessage::Text { widget: w(7), text: "data/models/tree.fbx".to_string() });
    assert_eq!(msgs[8], WidgetMessage::DropdownSelection { widget: w(9), selection: Some(1) });
    n.is_resource_instance_root = true;
    let msgs = b.sync_to_model(&single(), &Some(n));
    assert_eq!(msgs[2], WidgetMessage::Enabled { widget: w(3), enabled: true });
}

#[test]
fn sync_hides_the_panel_for_many_or_no_nodes() {
    let b = bar();
    let many = Selection::Graph(GraphSelection { nodes: vec![node_handle(), NodeHandle::new(7, 1)] });
    assert_eq!(b.sync_to_model(&many, &Some(view())), vec![WidgetMessage::Visibility { widget: w(2), visible: false }]);
    let none = Selection::Graph(GraphSelection { nodes: vec![] });
    assert_eq!(b.sync_to_model(&none, &None), vec![WidgetMessage::Visibility { widget: w(2), visible: false }]);
}

#[test]
fn sync_of_a_vanished_node_only_shows_the_panel() {
    let b = bar();
    assert_eq!(b.sync_to_model(&single(), &None), vec![WidgetMessage::Visibility { widget: w(2), visible: true }]);
}

#[test]
fn sync_ignores_other_selections() {
    assert!(bar().sync_to_model(&Selection::Other, &None).is_empty());
}

#[test]
fn new_name_asks_for_rename() {
    let b = bar();
    let m = from_widget(w(3), UiMessageData::TextBoxText("Sphere".to_string()));
    assert_eq!(
        b.handle_ui_message(&m, &single(), &Some(view())),
        Some(SceneCommand::SetName(node_handle(), "Sphere".to_string()))
    );
}

#[test]
fn same_name_asks_nothing() {
    let b = bar();
    let m = from_widget(w(3), UiMessageData::TextBoxText("Cube".to_string()));
    assert_eq!(b.handle_ui_message(&m, &single(), &Some(view())), None);
}

#[test]
fn new_tag_asks_for_retag() {
    let b = bar();
    let m = from_widget(w(8), UiMessageData::TextBoxText("friend".to_string()));
    assert_eq!(
        b.handle_ui_message(&m, &single(), &Some(view())),
        Some(SceneCommand::SetTag(node_handle(), "friend".to_string()))
    );
    let same = from_widget(w(8), UiMessageData::TextBoxText("enemy".to_string()));
    assert_eq!(b.handle_ui_message(&same, &single(), &Some(view())), None);
}

#[test]
fn text_to_another_widget_asks_nothing() {
    let b = bar();
    let m = from_widget(w(7), UiMessageData::TextBoxText("x".to_string()));
    assert_eq!(b.handle_ui_message(&m, &single(), &Some(view())), None);
}

#[test]
fn vector_editors_ask_for_transform_commands() {
    let b = bar();
    let s = single();
    let n = Some(view());
    let all = change(true, true, true);
    assert_eq!(b.handle_ui_message(&from_widget(w(5), UiMessageData::Vec3Value(all)), &s, &n), Some(SceneCommand::RotateNode(node_handle())));
    assert_eq!(b.handle_ui_message(&from_widget(w(4), UiMessageData::Vec3Value(all)), &s, &n), Some(SceneCommand::MoveNode(node_handle())));
    assert_eq!(b.handle_ui_message(&from_widget(w(6), UiMessageData::Vec3Value(all)), &s, &n), Some(SceneCommand::ScaleNode(node_handle())));
    assert_eq!(b.handle_ui_message(&from_widget(w(3), UiMessageData::Vec3Value(all)), &s, &n), None);
}

#[test]
fn unchanged_vectors_ask_nothing() {
    let b = bar();
    let s = single();
    let n = Some(view());
    let only_scale = change(false, false, true);
    assert_eq!(b.handle_ui_message(&from_widget(w(5), UiMessageData::Vec3Value(only_scale)), &s, &n), None);
    assert_eq!(b.handle_ui_message(&from_widget(w(4), UiMessageData::Vec3Value(only_scale)), &s, &n), None);
    assert_eq!(b.handle_ui_message(&from_widget(w(6), UiMessageData::Vec3Value(only_scale)), &s, &n), Some(SceneCommand::ScaleNode(node_handle())));
}

#[test]
fn window_is_titled_fixed_and_starts_hidden() {
    let layout = window_layout();
    assert_eq!(layout.title, "Node Properties");
    assert!(!layout.can_minimize);
    assert!(!layout.content_visible_at_start);
}

#[test]
fn binding_selection_asks_for_new_binding() {
    let b = bar();
    let m = from_widget(w(9), UiMessageData::DropdownSelectionChanged(Some(1)));
    assert_eq!(
        b.handle_ui_message(&m, &single(), &Some(view())),
        Some(SceneCommand::SetPhysicsBinding(node_handle(), PhysicsBinding::BodyWithNode))
    );
    let same = from_widget(w(9), UiMessageData::DropdownSelectionChanged(Some(0)));
    assert_eq!(b.handle_ui_message(&same, &single(), &Some(view())), None);
    let cleared = from_widget(w(9), UiMessageData::DropdownSelectionChanged(None));
    assert_eq!(b.handle_ui_message(&cleared, &single(), &Some(view())), None);
    let elsewhere = from_widget(w(3), UiMessageData::DropdownSelectionChanged(Some(1)));
    assert_eq!(b.handle_ui_message(&elsewhere, &single(), &Some(view())), None);
}

#[test]
fn messages_to_widgets_ask_nothing() {
    let b = bar();
    let m = UiMessage {
        destination: w(3),
        direction: MessageDirection::ToWidget,
        data: UiMessageData::TextBoxText("Sphere".to_string()),
    };
    assert_eq!(b.handle_ui_message(&m, &single(), &Some(view())), None);
}

#[test]
fn only_a_single_node_selection_is_edited() {
    let b = bar();
    let m = from_widget(w(3), UiMessageData::TextBoxText("Sphere".to_string()));
    let many = Selection::Graph(GraphSelection { nodes: vec![node_handle(), NodeHandle::new(7, 1)] });
    assert_eq!(b.handle_ui_message(&m, &many, &None), None);
    assert_eq!(b.handle_ui_message(&m, &Selection::Other, &None), None);
    assert_eq!(b.handle_ui_message(&from_widget(w(3), UiMessageData::Other), &single(), &Some(view())), None);
}

#[test]
fn command_targets_the_selected_node() {
    let b = bar();
    let m = from_widget(w(3), UiMessageData::TextBoxText("Sphere".to_string()));
    let cmd = b.handle_ui_message(&m, &single(), &Some(view())).unwrap();
    assert_eq!(cmd.node(), node_handle());
    assert_eq!(single().single_node(), Some(node_handle()));
}

#[test]
fn echo_of_sync_asks_nothing() {
    let b = bar();
    let s = single();
    let mut n = view();
    n.physics_binding = PhysicsBinding::BodyWithNode;
    let n = Some(n);
    for sent in b.sync_to_model(&s, &n) {
        let echo = match sent {
            WidgetMessage::TextBoxText { widget, text } => from_widget(widget, UiMessageData::TextBoxText(text)),
            WidgetMessage::DropdownSelection { widget, selection } => {
                from_widget(widget, UiMessageData::DropdownSelectionChanged(selection))
            }
            WidgetMessage::Vec3Value { widget, .. } => from_widget(widget, UiMessageData::Vec3Value(change(false, false, false))),
            _ => continue,
        };
        assert_eq!(b.handle_ui_message(&echo, &s, &n), None);
    }
}
