use vstd::prelude::*;

verus! {

/// The properties of a scene node that the side bar shows, one per grid row.
#[derive(Clone, Copy, Debug, PartialEq, Eq, Structural)]
pub enum PropertyField {
    Name,
    Position,
    Rotation,
    Scale,
    Resource,
    Tag,
    PhysicsBinding,
}

/// The kind of widget that shows a property in the editor column.
#[derive(Clone, Copy, Debug, PartialEq, Eq, Structural)]
pub enum EditorKind {
    /// An editable single-line text box.
    TextBox,
    /// An editor of three numbers.
    Vec3,
    /// A read-only text.
    Text,
    /// A drop-down list.
    DropdownList,
}

/// How tall a row of the property grid is.
#[derive(Clone, Copy, Debug, PartialEq, Eq, Structural)]
pub enum RowSize {
    /// The fixed height of a property row.
    Strict,
    /// Takes what height is left.
    Stretch,
}

/// Column of the property captions.
pub const LABEL_COLUMN: usize = 0;

/// Column of the widgets that show and edit the properties.
pub const EDITOR_COLUMN: usize = 1;

/// The grid row of a property.
pub open spec fn spec_field_row(f: PropertyField) -> usize {
    match f {
        PropertyField::Name => 0,
        PropertyField::Position => 1,
        PropertyField::Rotation => 2,
        PropertyField::Scale => 3,
        PropertyField::Resource => 4,
        PropertyField::Tag => 5,
        PropertyField::PhysicsBinding => 6,
    }
}

/// The caption of a property.
pub open spec fn spec_field_caption(f: PropertyField) -> Seq<char> {
    match f {
        PropertyField::Name => "Name"@,
        PropertyField::Position => "Position"@,
        PropertyField::Rotation => "Rotation"@,
        PropertyField::Scale => "Scale"@,
        PropertyField::Resource => "Resource"@,
        PropertyField::Tag => "Tag"@,
        PropertyField::PhysicsBinding => "Physics Binding"@,
    }
}

/// The widget that shows a property.
pub open spec fn spec_field_editor(f: PropertyField) -> EditorKind {
    match f {
        PropertyField::Name => EditorKind::TextBox,
        PropertyField::Position => EditorKind::Vec3,
        PropertyField::Rotation => EditorKind::Vec3,
        PropertyField::Scale => EditorKind::Vec3,
        PropertyField::Resource => EditorKind::Text,
        PropertyField::Tag => EditorKind::TextBox,
        PropertyField::PhysicsBinding => EditorKind::DropdownList,
    }
}

/// The properties from the top row of the grid down.
pub open spec fn spec_property_fields() -> Seq<PropertyField> {
    seq![
        PropertyField::Name,
        PropertyField::Position,
        PropertyField::Rotation,
        PropertyField::Scale,
        PropertyField::Resource,
        PropertyField::Tag,
        PropertyField::PhysicsBinding,
    ]
}

/// The rows of the property grid: one of fixed height per property, then one
/// that takes the rest.
pub open spec fn spec_grid_rows() -> Seq<RowSize> {
    Seq::new(spec_property_fields().len(), |i: int| RowSize::Strict).push(RowSize::Stretch)
}

/// The grid row of `f`.
pub fn field_row(f: PropertyField) -> (row: usize)
    ensures
        row == spec_field_row(f),
{
    match f {
        PropertyField::Name => 0,
        PropertyField::Position => 1,
        PropertyField::Rotation => 2,
        PropertyField::Scale => 3,
        PropertyField::Resource => 4,
        PropertyField::Tag => 5,
        PropertyField::PhysicsBinding => 6,
    }
}

/// The caption shown in front of `f`.
pub fn field_caption(f: PropertyField) -> (s: &'static str)
    ensures
        s@ == spec_field_caption(f),
{
    match f {
        PropertyField::Name => "Name",
        PropertyField::Position => "Position",
        PropertyField::Rotation => "Rotation",
        PropertyField::Scale => "Scale",
        PropertyField::Resource => "Resource",
        PropertyField::Tag => "Tag",
        PropertyField::PhysicsBinding => "Physics Binding",
    }
}

/// The kind of widget that shows `f`.
pub fn field_editor(f: PropertyField) -> (k: EditorKind)
    ensures
        k == spec_field_editor(f),
{
    match f {
        PropertyField::Name => EditorKind::TextBox,
        PropertyField::Position => EditorKind::Vec3,
        PropertyField::Rotation => EditorKind::Vec3,
        PropertyField::Scale => EditorKind::Vec3,
        PropertyField::Resource => EditorKind::Text,
        PropertyField::Tag => EditorKind::TextBox,
        PropertyField::PhysicsBinding => EditorKind::DropdownList,
    }
}

/// The properties in the order of the grid's rows.
pub fn property_fields() -> (v: Vec<PropertyField>)
    ensures
        v@ == spec_property_fields(),
{
    let mut v: Vec<PropertyField> = Vec::new();
    v.push(PropertyField::Name);
    v.push(PropertyField::Position);
    v.push(PropertyField::Rotation);
    v.push(PropertyField::Scale);
    v.push(PropertyField::Resource);
    v.push(PropertyField::Tag);
    v.push(PropertyField::PhysicsBinding);
    v
}

/// The sizes of the grid's rows, from the top.
pub fn grid_rows() -> (v: Vec<RowSize>)
    ensures
        v@ == spec_grid_rows(),
{
    let fields = property_fields();
    let mut v: Vec<RowSize> = Vec::new();
    let n = fields.len();
    for i in 0..n
        invariant
            n == spec_property_fields().len(),
            v@ == Seq::new(i as nat, |j: int| RowSize::Strict),
    {
        v.push(RowSize::Strict);
        assert(v@ =~= Seq::new((i + 1) as nat, |j: int| RowSize::Strict));
    }
    v.push(RowSize::Stretch);
    v
}

/// How the panel's window is set up.
pub struct WindowLayout {
    /// The window's title.
    pub title: &'static str,
    /// Whether the window can be minimized.
    pub can_minimize: bool,
    /// Whether the property grid is shown before any node is selected.
    pub content_visible_at_start: bool,
}

/// The setup of the panel's window: titled "Node Properties", not to be
/// minimized, its property grid hidden until a single node is selected.
pub fn window_layout() -> (w: WindowLayout)
    ensures
        w.title@ == "Node Properties"@,
        !w.can_minimize,
        !w.content_visible_at_start,
{
    WindowLayout { title: "Node Properties", can_minimize: false, content_visible_at_start: false }
}

/// Each property stands on the row given by its place in the list, so every
/// row holds exactly one property and every property has a row.
pub proof fn law_fields_fill_rows()
    ensures
        forall|i: int| 0 <= i < spec_property_fields().len()
            ==> spec_field_row(#[trigger] spec_property_fields()[i]) == i,
        forall|f: PropertyField| spec_property_fields().contains(f),
        forall|f: PropertyField, g: PropertyField| spec_field_row(f) == spec_field_row(g) ==> f == g,
{
    assert forall|f: PropertyField| spec_property_fields().contains(f) by {
        assert(spec_property_fields()[spec_field_row(f) as int] == f);
    }
}

/// The grid has one fixed-height row per property, below them a single row
/// that stretches.
pub proof fn law_grid_rows_match_fields()
    ensures
        spec_grid_rows().len() == spec_property_fields().len() + 1,
        forall|i: int| 0 <= i < spec_property_fields().len() ==> #[trigger] spec_grid_rows()[i] == RowSize::Strict,
        spec_grid_rows().last() == RowSize::Stretch,
{
}

/// The name and the tag are typed into text boxes, the three transform
/// vectors into vector editors, the resource is only shown, and the physics
/// binding is picked from a drop-down list.
pub proof fn law_editor_kinds(f: PropertyField)
    ensures
        spec_field_editor(f) == EditorKind::TextBox <==> (f == PropertyField::Name || f == PropertyField::Tag),
        spec_field_editor(f) == EditorKind::Vec3 <==> (f == PropertyField::Position || f == PropertyField::Rotation
            || f == PropertyField::Scale),
        spec_field_editor(f) == EditorKind::Text <==> f == PropertyField::Resource,
        spec_field_editor(f) == EditorKind::DropdownList <==> f == PropertyField::PhysicsBinding,
{
}

} // verus!
