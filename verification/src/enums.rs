//! Mesh-level enumerations shared by the asset pipeline.

use vstd::prelude::*;

verus! {

/// How a mesh primitive's vertices form shapes.
#[derive(Clone, Debug, PartialEq, Eq, Structural)]
pub enum PrimitiveTopology {
    PointList,
    LineList,
    LineStrip,
    TriangleList,
    TriangleStrip,
}

/// The role a vertex attribute plays.
#[derive(Clone, Copy, Debug, PartialEq, Eq, Structural)]
pub enum AttributeType {
    Position,
    Normals,
    Uv0,
    Uv1,
    Tangent,
}

} // verus!
