use rmf_sandbox::editor::{
    add_selection, camera_for_mode, choose_save_path, default_save_name, first_clicked,
    select_editable, AddButton, EditorData, FloorEdit, ProjectionMode,
};
use rmf_sandbox::picking::EditableTag;
use rmf_sandbox::primitives::{Floor, Lane, Measurement, Model, Vertex, Wall};

fn floor_with(vertices: Vec<usize>) -> Floor {
    let mut f = Floor::default();
    f.vertices = vertices;
    f
}

#[test]
fn opening_a_floor_renders_its_vertices() {
    let edit = FloorEdit::from_floor(floor_with(vec![3, 1, 4]));
    assert_eq!(edit.vertices_str, "3,1,4");
    assert_eq!(edit.floor.vertices, vec![3, 1, 4]);
}

#[test]
fn committing_untouched_text_keeps_the_vertices() {
    let mut edit = FloorEdit::from_floor(floor_with(vec![3, 1, 4]));
    let changed = edit.apply_vertices_edit();
    assert!(changed);
    assert_eq!(edit.floor.vertices, vec![3, 1, 4]);
}

#[test]
fn committing_new_text_replaces_the_vertices() {
    let mut edit = FloorEdit::from_floor(floor_with(vec![3, 1, 4]));
    edit.vertices_str = "5,6".to_string();
    let changed = edit.apply_vertices_edit();
    assert!(changed);
    assert_eq!(edit.floor.vertices, vec![5, 6]);
}

#[test]
fn committing_bad_text_changes_nothing() {
    let mut edit = FloorEdit::from_floor(floor_with(vec![3, 1, 4]));
    edit.vertices_str = "5,x,6".to_string();
    let changed = edit.apply_vertices_edit();
    assert!(!changed);
    assert_eq!(edit.floor.vertices, vec![3, 1, 4]);
    assert_eq!(edit.vertices_str, "5,x,6");
}

#[test]
fn each_record_kind_has_its_heading() {
    assert_eq!(EditorData::Lane(Lane::default()).heading(), "Lane");
    assert_eq!(EditorData::Vertex(Vertex::default()).heading(), "Vertex");
    assert_eq!(
        EditorData::Measurement(Measurement::default()).heading(),
        "Measurement"
    );
    assert_eq!(EditorData::Wall(Wall::default()).heading(), "Wall");
    assert_eq!(EditorData::Model(Model::default()).heading(), "Model");
    assert_eq!(
        EditorData::Floor(FloorEdit::from_floor(Floor::default())).heading(),
        "Floor"
    );
}

#[test]
fn clicking_a_model_mesh_selects_the_model_entity() {
    let sel = select_editable(
        7,
        &EditableTag::Model(42),
        Some(EditorData::Model(Model::default())),
    )
    .unwrap();
    assert_eq!(sel.entity, 42);
}

#[test]
fn clicking_a_vertex_selects_the_clicked_entity() {
    let sel = select_editable(
        7,
        &EditableTag::Vertex,
        Some(EditorData::Vertex(Vertex::default())),
    )
    .unwrap();
    assert_eq!(sel.entity, 7);
}

#[test]
fn a_failed_fetch_clears_the_selection() {
    assert!(select_editable(7, &EditableTag::Lane, None).is_none());
}

#[test]
fn the_first_click_wins() {
    assert_eq!(first_clicked(&vec![false, true, true]), Some(1));
    assert_eq!(first_clicked(&vec![true]), Some(0));
    assert_eq!(first_clicked(&vec![false, false]), None);
    assert_eq!(first_clicked(&vec![]), None);
}

#[test]
fn add_buttons_select_fresh_records() {
    let sel = add_selection(&AddButton::Wall, 99);
    assert_eq!(sel.entity, 99);
    match sel.data {
        EditorData::Wall(w) => {
            assert_eq!(w.start, 0);
            assert_eq!(w.end, 0);
            assert_eq!(w.alpha_milli, 1000);
            assert_eq!(w.texture_name, "");
        }
        _ => panic!("wall button must select a wall"),
    }
    match add_selection(&AddButton::Vertex, 3).data {
        EditorData::Vertex(v) => {
            assert_eq!(v.x_milli, 0);
            assert!(!v.is_charger);
        }
        _ => panic!("vertex button must select a vertex"),
    }
}

#[test]
fn each_projection_mode_activates_its_camera() {
    assert_eq!(camera_for_mode(&ProjectionMode::Orthographic, 5, 6), 5);
    assert_eq!(camera_for_mode(&ProjectionMode::Perspective, 5, 6), 6);
}

#[test]
fn demo_maps_are_offered_under_their_name() {
    assert_eq!(default_save_name("office"), "office.yaml");
    assert_eq!(default_save_name(""), ".yaml");
}

#[test]
fn saving_prefers_the_opened_file() {
    let opened = Some("site.yaml".to_string());
    let picked = Some("other.yaml".to_string());
    assert_eq!(
        choose_save_path(&opened, &picked),
        Some("site.yaml".to_string())
    );
    assert_eq!(
        choose_save_path(&None, &picked),
        Some("other.yaml".to_string())
    );
    assert_eq!(choose_save_path(&None, &None), None);
}
