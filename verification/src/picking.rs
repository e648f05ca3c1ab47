//! Picking-tag propagation.
//!
//! The engine's picker works on mesh entities, but a model is spawned as
//! a child scene of its own entity, so a freshly added mesh must be
//! traced up the scene graph to find what it belongs to. The engine
//! hands over the mesh's chain of ancestors (the mesh itself first) and
//! which entities carry each primitive; this module decides, walking the
//! chain from the mesh upward, which entities are made pickable and
//! which editable tag each one gets. A model ends the walk, and its tag
//! goes on the mesh entity itself rather than on the model's.

use vstd::prelude::*;

verus! {

/// What kind of editable primitive a pickable entity stands for. A
/// model's tag carries the model entity, which is not the mesh entity
/// the picker reports.
#[derive(Clone, Copy, PartialEq, Eq, Structural, Debug)]
pub enum EditableTag {
    Lane,
    Vertex,
    Measurement,
    Wall,
    Model(u64),
    Floor,
}

/// An order to make `target` pickable and tag it.
#[derive(Clone, Copy, PartialEq, Eq, Structural, Debug)]
pub struct TagCommand {
    pub target: u64,
    pub tag: EditableTag,
}

/// Which entities carry each primitive, as the engine's queries report.
pub struct SceneIndex {
    pub lanes: Vec<u64>,
    pub vertices: Vec<u64>,
    pub walls: Vec<u64>,
    pub measurements: Vec<u64>,
    pub floors: Vec<u64>,
    pub models: Vec<u64>,
}

/// Whether `v` lists the entity `e`.
pub fn contains_id(v: &Vec<u64>, e: u64) -> (r: bool)
    ensures
        r == v@.contains(e),
{
    let mut i: usize = 0;
    while i < v.len()
        invariant
            0 <= i <= v@.len(),
            forall|k: int| 0 <= k < i ==> v@[k] != e,
        decreases v@.len() - i,
    {
        if v[i] == e {
            return true;
        }
        i = i + 1;
    }
    false
}

/// The commands one ancestor yields: one tag per primitive it carries,
/// in the order the primitives are checked, the model tag aimed at the
/// mesh entity.
pub open spec fn commands_at(mesh: u64, cur: u64, idx: &SceneIndex) -> Seq<TagCommand> {
    (if idx.lanes@.contains(cur) {
        seq![TagCommand { target: cur, tag: EditableTag::Lane }]
    } else {
        Seq::<TagCommand>::empty()
    }) + (if idx.vertices@.contains(cur) {
        seq![TagCommand { target: cur, tag: EditableTag::Vertex }]
    } else {
        Seq::<TagCommand>::empty()
    }) + (if idx.walls@.contains(cur) {
        seq![TagCommand { target: cur, tag: EditableTag::Wall }]
    } else {
        Seq::<TagCommand>::empty()
    }) + (if idx.measurements@.contains(cur) {
        seq![TagCommand { target: cur, tag: EditableTag::Measurement }]
    } else {
        Seq::<TagCommand>::empty()
    }) + (if idx.floors@.contains(cur) {
        seq![TagCommand { target: cur, tag: EditableTag::Floor }]
    } else {
        Seq::<TagCommand>::empty()
    }) + (if idx.models@.contains(cur) {
        seq![TagCommand { target: mesh, tag: EditableTag::Model(cur) }]
    } else {
        Seq::<TagCommand>::empty()
    })
}

/// The commands a whole ancestor chain yields, walking from the mesh
/// upward and stopping at the first model.
pub open spec fn walk_from(mesh: u64, chain: Seq<u64>, idx: &SceneIndex) -> Seq<TagCommand>
    decreases chain.len(),
{
    if chain.len() == 0 {
        Seq::<TagCommand>::empty()
    } else {
        commands_at(mesh, chain[0], idx) + (if idx.models@.contains(chain[0]) {
            Seq::<TagCommand>::empty()
        } else {
            walk_from(mesh, chain.drop_first(), idx)
        })
    }
}

/// What a freshly added mesh yields: its chain walked from itself.
pub open spec fn walk_tags(chain: Seq<u64>, idx: &SceneIndex) -> Seq<TagCommand> {
    if chain.len() == 0 {
        Seq::<TagCommand>::empty()
    } else {
        walk_from(chain[0], chain, idx)
    }
}

/// The commands one ancestor yields, built in checking order.
#[verifier::rlimit(50)]
fn commands_for(mesh: u64, cur: u64, idx: &SceneIndex) -> (c: Vec<TagCommand>)
    ensures
        c@ == commands_at(mesh, cur, idx),
{
    let mut c: Vec<TagCommand> = Vec::new();
    if contains_id(&idx.lanes, cur) {
        c.push(TagCommand { target: cur, tag: EditableTag::Lane });
    }
    if contains_id(&idx.vertices, cur) {
        c.push(TagCommand { target: cur, tag: EditableTag::Vertex });
    }
    if contains_id(&idx.walls, cur) {
        c.push(TagCommand { target: cur, tag: EditableTag::Wall });
    }
    if contains_id(&idx.measurements, cur) {
        c.push(TagCommand { target: cur, tag: EditableTag::Measurement });
    }
    if contains_id(&idx.floors, cur) {
        c.push(TagCommand { target: cur, tag: EditableTag::Floor });
    }
    if contains_id(&idx.models, cur) {
        c.push(TagCommand { target: mesh, tag: EditableTag::Model(cur) });
    }
    proof {
        assert(c@ =~= commands_at(mesh, cur, idx));
    }
    c
}

/// Decide which entities of a mesh's ancestor chain are made pickable
/// and how each is tagged. `chain` starts at the mesh entity itself and
/// goes upward; the walk ends at the first ancestor that is a model.
pub fn tag_commands(chain: &Vec<u64>, idx: &SceneIndex) -> (r: Vec<TagCommand>)
    ensures
        r@ == walk_tags(chain@, idx),
{
    let mut r: Vec<TagCommand> = Vec::new();
    if chain.len() == 0 {
        return r;
    }
    let mesh = chain[0];
    let mut i: usize = 0;
    proof {
        assert(chain@.skip(0) =~= chain@);
        assert(r@ + walk_from(mesh, chain@, idx) =~= walk_from(mesh, chain@, idx));
    }
    while i < chain.len()
        invariant
            0 <= i <= chain@.len(),
            chain@.len() > 0,
            mesh == chain@[0],
            walk_from(mesh, chain@, idx) == r@ + walk_from(mesh, chain@.skip(i as int), idx),
        decreases chain@.len() - i,
    {
        let cur = chain[i];
        let ghost before = r@;
        let is_model = contains_id(&idx.models, cur);
        let mut cs = commands_for(mesh, cur, idx);
        r.append(&mut cs);
        proof {
            assert(r@ == before + commands_at(mesh, cur, idx));
            assert(chain@.skip(i as int)[0] == cur);
            assert(chain@.skip(i as int).drop_first() =~= chain@.skip(i + 1));
        }
        if is_model {
            proof {
                assert(walk_from(mesh, chain@.skip(i as int), idx) == commands_at(
                    mesh,
                    cur,
                    idx,
                ));
                assert(walk_from(mesh, chain@, idx) =~= r@);
            }
            return r;
        }
        i = i + 1;
    }
    proof {
        assert(chain@.skip(chain@.len() as int) =~= Seq::<u64>::empty());
        assert(walk_from(mesh, chain@, idx) =~= r@);
    }
    r
}

/// Whether picking stays enabled this frame: the on-screen panels block
/// it whenever they want the pointer, want the keyboard, or sit under
/// the pointer.
pub fn picking_enabled(wants_pointer: bool, wants_keyboard: bool, over_area: bool) -> (r: bool)
    ensures
        r == (!wants_pointer && !wants_keyboard && !over_area),
{
    !wants_pointer && !wants_keyboard && !over_area
}

/// An order to move the picking bundle between cameras.
#[derive(Clone, Copy, PartialEq, Eq, Structural, Debug)]
pub enum CamCommand {
    RemovePicking(u64),
    InsertPicking(u64),
}

/// When the active camera changed, every previous picking camera loses
/// its picking bundle and the new active camera gains one; otherwise
/// nothing happens.
pub fn retarget_picking_cam(active: Option<u64>, changed: bool, current: &Vec<u64>) -> (r: Vec<
    CamCommand,
>)
    ensures
        !changed ==> r@ == Seq::<CamCommand>::empty(),
        changed && active is None ==> r@ == Seq::<CamCommand>::empty(),
        changed ==> (active matches Some(a) ==> r@ == current@.map_values(
            |c: u64| CamCommand::RemovePicking(c),
        ).push(CamCommand::InsertPicking(a))),
{
    let mut r: Vec<CamCommand> = Vec::new();
    if !changed {
        return r;
    }
    match active {
        Some(a) => {
            let mut i: usize = 0;
            while i < current.len()
                invariant
                    0 <= i <= current@.len(),
                    r@ == current@.take(i as int).map_values(
                        |c: u64| CamCommand::RemovePicking(c),
                    ),
                decreases current@.len() - i,
            {
                r.push(CamCommand::RemovePicking(current[i]));
                proof {
                    assert(current@.take(i + 1).map_values(
                        |c: u64| CamCommand::RemovePicking(c),
                    ) =~= current@.take(i as int).map_values(
                        |c: u64| CamCommand::RemovePicking(c),
                    ).push(CamCommand::RemovePicking(current@[i as int])));
                }
                i = i + 1;
            }
            proof {
                assert(current@.take(current@.len() as int) =~= current@);
            }
            r.push(CamCommand::InsertPicking(a));
            r
        },
        None => r,
    }
}

} // verus!
