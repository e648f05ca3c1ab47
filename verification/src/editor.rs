//! The traffic editor's selection and save decisions.
//!
//! Clicking a pickable entity selects a primitive; the panel then shows
//! a form over a copy of the record, and commits the copy back only when
//! the form reports a change. The floor form carries its vertex list as
//! text beside the record. Saving goes to the file the map was opened
//! from, or to a freshly picked path when the map came from the demo.

use vstd::prelude::*;

use crate::floor_plan::parse_vertices;
use crate::floor_plan::parse_vertices_spec;
use crate::floor_plan::render_vertices;
use crate::floor_plan::vertices_text;
use crate::picking::EditableTag;
use crate::primitives::Floor;
use crate::primitives::Lane;
use crate::primitives::Measurement;
use crate::primitives::Model;
use crate::primitives::Vertex;
use crate::primitives::Wall;

verus! {

/// A floor under edit: the record beside the text its vertex list is
/// edited through.
pub struct FloorEdit {
    pub floor: Floor,
    pub vertices_str: String,
}

impl FloorEdit {
    /// Open a floor for editing: the text field starts as the rendered
    /// vertex list.
    pub fn from_floor(floor: Floor) -> (r: FloorEdit)
        ensures
            r.floor == floor,
            r.vertices_str@ == vertices_text(floor.vertices@),
    {
        let vertices_str = render_vertices(&floor.vertices);
        FloorEdit { floor, vertices_str }
    }

    /// Commit the text field into the record, as the form does when the
    /// field loses focus: the vertex list changes only when the text is
    /// accepted, and the call reports whether it did.
    pub fn apply_vertices_edit(&mut self) -> (changed: bool)
        ensures
            final(self).vertices_str == old(self).vertices_str,
            final(self).floor.texture_name == old(self).floor.texture_name,
            final(self).floor.texture_rotation_milli == old(self).floor.texture_rotation_milli,
            final(self).floor.texture_scale_milli == old(self).floor.texture_scale_milli,
            changed == (parse_vertices_spec(old(self).vertices_str@) is Some),
            parse_vertices_spec(old(self).vertices_str@) matches Some(vs) ==> final(self).floor.vertices@ == vs,
            parse_vertices_spec(old(self).vertices_str@) is None ==> final(self).floor.vertices@
                == old(self).floor.vertices@,
    {
        match parse_vertices(self.vertices_str.as_str()) {
            Some(v) => {
                self.floor.vertices = v;
                true
            },
            None => false,
        }
    }
}

/// The record a selection carries: a copy of the primitive under edit,
/// so that the form's keystrokes touch nothing until committed.
pub enum EditorData {
    Lane(Lane),
    Vertex(Vertex),
    Measurement(Measurement),
    Wall(Wall),
    Model(Model),
    Floor(FloorEdit),
}

/// The heading the panel shows for each kind of record.
pub open spec fn heading_text(d: &EditorData) -> Seq<char> {
    match d {
        EditorData::Lane(_) => "Lane"@,
        EditorData::Vertex(_) => "Vertex"@,
        EditorData::Measurement(_) => "Measurement"@,
        EditorData::Wall(_) => "Wall"@,
        EditorData::Model(_) => "Model"@,
        EditorData::Floor(_) => "Floor"@,
    }
}

impl EditorData {
    /// The panel's heading for this record.
    pub fn heading(&self) -> (r: &'static str)
        ensures
            r@ == heading_text(self),
    {
        match self {
            EditorData::Lane(_) => "Lane",
            EditorData::Vertex(_) => "Vertex",
            EditorData::Measurement(_) => "Measurement",
            EditorData::Wall(_) => "Wall",
            EditorData::Model(_) => "Model",
            EditorData::Floor(_) => "Floor",
        }
    }
}

/// The selected primitive: which entity a commit writes back to, and
/// the copy under edit.
pub struct SelectedEditable {
    pub entity: u64,
    pub data: EditorData,
}

/// Which entity a click on `clicked` selects: the model entity for a
/// model tag — the click lands on the model's mesh, not on the model —
/// and the clicked entity itself otherwise.
pub open spec fn selection_target(clicked: u64, tag: EditableTag) -> u64 {
    match tag {
        EditableTag::Model(model_entity) => model_entity,
        _ => clicked,
    }
}

/// Build the selection for a click, from the tag of the clicked entity
/// and the record fetched for it. A failed fetch clears the selection.
pub fn select_editable(clicked: u64, tag: &EditableTag, fetched: Option<EditorData>) -> (r:
    Option<SelectedEditable>)
    ensures
        fetched is None ==> r is None,
        fetched is Some ==> r is Some,
        r matches Some(sel) ==> sel.entity == selection_target(clicked, *tag) && (fetched
            matches Some(d) && sel.data == d),
{
    let target: u64 = match tag {
        EditableTag::Model(model_entity) => *model_entity,
        _ => clicked,
    };
    match fetched {
        Some(data) => Some(SelectedEditable { entity: target, data }),
        None => None,
    }
}

/// The first entry whose interaction this frame is a click, if any:
/// the click that selection follows.
pub fn first_clicked(clicks: &Vec<bool>) -> (r: Option<usize>)
    ensures
        r matches Some(i) ==> i < clicks@.len() && clicks@[i as int] && forall|k: int|
            0 <= k < i ==> !clicks@[k],
        r is None ==> forall|k: int| 0 <= k < clicks@.len() ==> !clicks@[k],
{
    let mut i: usize = 0;
    while i < clicks.len()
        invariant
            0 <= i <= clicks@.len(),
            forall|k: int| 0 <= k < i ==> !clicks@[k],
        decreases clicks@.len() - i,
    {
        if clicks[i] {
            return Some(i);
        }
        i = i + 1;
    }
    None
}

/// The add buttons of the side panel, one per primitive that can be
/// created in place.
#[derive(Clone, Copy, PartialEq, Eq, Structural, Debug)]
pub enum AddButton {
    Vertex,
    Lane,
    Measurement,
    Wall,
    Model,
}

/// The selection an add button leaves behind: the freshly spawned
/// entity, holding a default record of the button's kind.
pub fn add_selection(button: &AddButton, entity: u64) -> (r: SelectedEditable)
    ensures
        r.entity == entity,
        *button == AddButton::Vertex ==> (r.data matches EditorData::Vertex(v)
            && v.is_default()),
        *button == AddButton::Lane ==> (r.data matches EditorData::Lane(l) && l.is_default()),
        *button == AddButton::Measurement ==> (r.data matches EditorData::Measurement(m)
            && m.is_default()),
        *button == AddButton::Wall ==> (r.data matches EditorData::Wall(w) && w.is_default()),
        *button == AddButton::Model ==> (r.data matches EditorData::Model(m) && m.is_default()),
{
    let data = match button {
        AddButton::Vertex => EditorData::Vertex(Vertex::default()),
        AddButton::Lane => EditorData::Lane(Lane::default()),
        AddButton::Measurement => EditorData::Measurement(Measurement::default()),
        AddButton::Wall => EditorData::Wall(Wall::default()),
        AddButton::Model => EditorData::Model(Model::default()),
    };
    SelectedEditable { entity, data }
}

/// How the editor's camera projects the scene, switched by the 2D and
/// 3D buttons of the top bar.
#[derive(Clone, Copy, PartialEq, Eq, Structural, Debug)]
pub enum ProjectionMode {
    Orthographic,
    Perspective,
}

/// Which camera entity a projection mode activates: the 2D button
/// activates the orthographic camera, the 3D button the perspective
/// one.
pub fn camera_for_mode(mode: &ProjectionMode, orthographic_camera: u64, perspective_camera: u64) -> (r:
    u64)
    ensures
        r == (match mode {
            ProjectionMode::Orthographic => orthographic_camera,
            ProjectionMode::Perspective => perspective_camera,
        }),
{
    match mode {
        ProjectionMode::Orthographic => orthographic_camera,
        ProjectionMode::Perspective => perspective_camera,
    }
}

/// The file name offered when a demo map is saved for the first time:
/// the map's name with the map file suffix.
pub fn default_save_name(map_name: &str) -> (r: String)
    ensures
        r@ == map_name@ + ".yaml"@,
{
    let mut out = map_name.to_owned();
    out.append(".yaml");
    out
}

/// Where a save goes: back to the file the map was opened from when
/// there is one, else to the path the user picked in the dialog, else
/// nowhere. The change flag is cleared either way, as the save button
/// does.
pub fn choose_save_path(opened: &Option<String>, picked: &Option<String>) -> (r: Option<String>)
    ensures
        opened matches Some(p) ==> (r matches Some(q) && q@ == p@),
        opened is None ==> (picked matches Some(p) ==> (r matches Some(q) && q@ == p@)),
        opened is None && picked is None ==> r is None,
{
    match opened {
        Some(p) => Some(p.clone()),
        None => match picked {
            Some(p) => Some(p.clone()),
            None => None,
        },
    }
}

} // verus!
