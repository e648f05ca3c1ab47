//! The map primitives the editor works on.
//!
//! A building map is made of vertices, lanes, walls, measurements,
//! models and floors: plain records whose fields are what the property
//! panel shows. The engine keeps its own rendered copies; these records
//! are the values the panel edits and the save command writes out.
//!
//! Lengths, angles and opacities appear here in fixed units — thousandths
//! of the unit the map file uses — so that every field is a plain value
//! the panel's arithmetic can be checked on.

use vstd::prelude::*;

verus! {

/// A traffic-graph vertex: a named point with robot-related flags.
#[derive(Clone)]
pub struct Vertex {
    pub x_milli: i64,
    pub y_milli: i64,
    pub z_milli: i64,
    pub name: String,
    pub is_charger: bool,
    pub is_holding_point: bool,
    pub is_parking_spot: bool,
    pub spawn_robot_name: String,
    pub spawn_robot_type: String,
    pub dropoff_ingestor: String,
    pub pickup_dispenser: String,
}

impl Vertex {
    /// A fresh vertex sits at the origin with every field clear.
    pub open spec fn is_default(&self) -> bool {
        &&& self.x_milli == 0
        &&& self.y_milli == 0
        &&& self.z_milli == 0
        &&& self.name@ == Seq::<char>::empty()
        &&& !self.is_charger
        &&& !self.is_holding_point
        &&& !self.is_parking_spot
        &&& self.spawn_robot_name@ == Seq::<char>::empty()
        &&& self.spawn_robot_type@ == Seq::<char>::empty()
        &&& self.dropoff_ingestor@ == Seq::<char>::empty()
        &&& self.pickup_dispenser@ == Seq::<char>::empty()
    }
}

impl Default for Vertex {
    fn default() -> (r: Self)
        ensures
            r.is_default(),
    {
        Vertex {
            x_milli: 0,
            y_milli: 0,
            z_milli: 0,
            name: String::new(),
            is_charger: false,
            is_holding_point: false,
            is_parking_spot: false,
            spawn_robot_name: String::new(),
            spawn_robot_type: String::new(),
            dropoff_ingestor: String::new(),
            pickup_dispenser: String::new(),
        }
    }
}

/// A lane between two vertices of the traffic graph.
#[derive(Clone)]
pub struct Lane {
    pub start: usize,
    pub end: usize,
    pub bidirectional: bool,
    pub graph_idx: i64,
    pub orientation: String,
}

impl Lane {
    /// A fresh lane joins vertex zero to itself, one way, on graph zero.
    pub open spec fn is_default(&self) -> bool {
        &&& self.start == 0
        &&& self.end == 0
        &&& !self.bidirectional
        &&& self.graph_idx == 0
        &&& self.orientation@ == Seq::<char>::empty()
    }
}

impl Default for Lane {
    fn default() -> (r: Self)
        ensures
            r.is_default(),
    {
        Lane { start: 0, end: 0, bidirectional: false, graph_idx: 0, orientation: String::new() }
    }
}

/// A measured distance between two vertices.
#[derive(Clone)]
pub struct Measurement {
    pub start: usize,
    pub end: usize,
    pub distance_milli: i64,
}

impl Measurement {
    /// A fresh measurement joins vertex zero to itself at distance zero.
    pub open spec fn is_default(&self) -> bool {
        &&& self.start == 0
        &&& self.end == 0
        &&& self.distance_milli == 0
    }
}

impl Default for Measurement {
    fn default() -> (r: Self)
        ensures
            r.is_default(),
    {
        Measurement { start: 0, end: 0, distance_milli: 0 }
    }
}

/// A wall between two vertices, with its texture.
#[derive(Clone)]
pub struct Wall {
    pub start: usize,
    pub end: usize,
    pub texture_height_milli: i64,
    pub texture_name: String,
    pub alpha_milli: i64,
}

impl Wall {
    /// A fresh wall joins vertex zero to itself, untextured and opaque.
    pub open spec fn is_default(&self) -> bool {
        &&& self.start == 0
        &&& self.end == 0
        &&& self.texture_height_milli == 0
        &&& self.texture_name@ == Seq::<char>::empty()
        &&& self.alpha_milli == 1000
    }
}

impl Default for Wall {
    fn default() -> (r: Self)
        ensures
            r.is_default(),
    {
        Wall {
            start: 0,
            end: 0,
            texture_height_milli: 0,
            texture_name: String::new(),
            alpha_milli: 1000,
        }
    }
}

/// A placed 3D model instance.
#[derive(Clone)]
pub struct Model {
    pub x_milli: i64,
    pub y_milli: i64,
    pub yaw_milli: i64,
    pub z_offset_milli: i64,
    pub instance_name: String,
    pub model_name: String,
}

impl Model {
    /// A fresh model instance sits at the origin with no name.
    pub open spec fn is_default(&self) -> bool {
        &&& self.x_milli == 0
        &&& self.y_milli == 0
        &&& self.yaw_milli == 0
        &&& self.z_offset_milli == 0
        &&& self.instance_name@ == Seq::<char>::empty()
        &&& self.model_name@ == Seq::<char>::empty()
    }
}

impl Default for Model {
    fn default() -> (r: Self)
        ensures
            r.is_default(),
    {
        Model {
            x_milli: 0,
            y_milli: 0,
            yaw_milli: 0,
            z_offset_milli: 0,
            instance_name: String::new(),
            model_name: String::new(),
        }
    }
}

/// A floor polygon over a list of vertex indices, with its texture.
#[derive(Clone)]
pub struct Floor {
    pub vertices: Vec<usize>,
    pub texture_name: String,
    pub texture_rotation_milli: i64,
    pub texture_scale_milli: i64,
}

impl Floor {
    /// A fresh floor has no vertices and a unit, unrotated texture.
    pub open spec fn is_default(&self) -> bool {
        &&& self.vertices@ == Seq::<usize>::empty()
        &&& self.texture_name@ == Seq::<char>::empty()
        &&& self.texture_rotation_milli == 0
        &&& self.texture_scale_milli == 1000
    }
}

impl Default for Floor {
    fn default() -> (r: Self)
        ensures
            r.is_default(),
    {
        Floor {
            vertices: Vec::new(),
            texture_name: String::new(),
            texture_rotation_milli: 0,
            texture_scale_milli: 1000,
        }
    }
}

} // verus!
