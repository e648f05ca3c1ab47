use rmf_sandbox::picking::{
    contains_id, picking_enabled, retarget_picking_cam, tag_commands, CamCommand, EditableTag,
    SceneIndex, TagCommand,
};

fn empty_index() -> SceneIndex {
    SceneIndex {
        lanes: vec![],
        vertices: vec![],
        walls: vec![],
        measurements: vec![],
        floors: vec![],
        models: vec![],
    }
}

#[test]
fn membership_is_by_value() {
    assert!(contains_id(&vec![1, 2, 3], 2));
    assert!(!contains_id(&vec![1, 2, 3], 4));
    assert!(!contains_id(&vec![], 0));
}

#[test]
fn a_mesh_that_is_itself_a_vertex_gets_the_vertex_tag() {
    let mut idx = empty_index();
    idx.vertices = vec![10];
    assert_eq!(
        tag_commands(&vec![10], &idx),
        vec![TagCommand { target: 10, tag: EditableTag::Vertex }]
    );
}

#[test]
fn tags_come_from_every_ancestor_on_the_chain() {
    let mut idx = empty_index();
    idx.lanes = vec![20];
    idx.floors = vec![30];
    assert_eq!(
        tag_commands(&vec![10, 20, 30], &idx),
        vec![
            TagCommand { target: 20, tag: EditableTag::Lane },
            TagCommand { target: 30, tag: EditableTag::Floor },
        ]
    );
}

#[test]
fn an_entity_with_two_primitives_gets_both_tags_in_order() {
    let mut idx = empty_index();
    idx.lanes = vec![10];
    idx.walls = vec![10];
    assert_eq!(
        tag_commands(&vec![10], &idx),
        vec![
            TagCommand { target: 10, tag: EditableTag::Lane },
            TagCommand { target: 10, tag: EditableTag::Wall },
        ]
    );
}

#[test]
fn a_model_tags_the_mesh_and_ends_the_walk() {
    let mut idx = empty_index();
    idx.models = vec![20];
    idx.lanes = vec![30];
    assert_eq!(
        tag_commands(&vec![10, 20, 30], &idx),
        vec![TagCommand { target: 10, tag: EditableTag::Model(20) }]
    );
}

#[test]
fn an_empty_chain_yields_nothing() {
    assert_eq!(tag_commands(&vec![], &empty_index()), vec![]);
}

#[test]
fn panels_block_picking_whenever_they_use_the_input() {
    assert!(picking_enabled(false, false, false));
    assert!(!picking_enabled(true, false, false));
    assert!(!picking_enabled(false, true, false));
    assert!(!picking_enabled(false, false, true));
}

#[test]
fn a_camera_switch_moves_the_picking_bundle() {
    assert_eq!(
        retarget_picking_cam(Some(9), true, &vec![1, 2]),
        vec![
            CamCommand::RemovePicking(1),
            CamCommand::RemovePicking(2),
            CamCommand::InsertPicking(9),
        ]
    );
    assert_eq!(retarget_picking_cam(Some(9), false, &vec![1, 2]), vec![]);
    assert_eq!(retarget_picking_cam(None, true, &vec![1, 2]), vec![]);
}
