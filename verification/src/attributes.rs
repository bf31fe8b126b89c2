//! Vertex-attribute metadata: which attribute a buffer feeds, under
//! which id, and in which data format.

use vstd::prelude::*;
use crate::enums::AttributeType;

verus! {

/// The storage format of one vertex attribute's data.
#[derive(Clone, Copy, Debug, PartialEq, Eq, Structural)]
pub enum AttributeDataFormat {
    Float32,
    Uint32,
    Float32x2,
    Uint32x2,
    Float32x3,
    Uint32x3,
    Float32x4,
    Uint32x4,
    Sint16x2,
    Snorm16x2,
    Uint16x2,
    Unorm16x2,
    Sint16x4,
    Snorm16x4,
    Uint16x4,
    Unorm16x4,
    Sint8x2,
    Snorm8x2,
    Uint8x2,
    Unorm8x2,
    Sint8x4,
    Snorm8x4,
    Uint8x4,
    Unorm8x4,
}

/// One vertex attribute's identity: its role, its id (the key it is
/// stored under), and the format its data must arrive in.
#[derive(Clone, Copy, Debug, PartialEq, Eq, Structural)]
pub struct AttributeMetadata {
    pub attribute_type: AttributeType,
    pub id: u64,
    pub format: AttributeDataFormat,
}

impl AttributeMetadata {
    /// Metadata from its three parts.
    pub fn new(attribute_type: AttributeType, id: u64, format: AttributeDataFormat)
        -> (m: AttributeMetadata)
        ensures
            m.attribute_type == attribute_type,
            m.id == id,
            m.format == format,
    {
        AttributeMetadata { attribute_type, id, format }
    }

    /// The world-space position attribute: three floats per vertex.
    pub fn attribute_position() -> (m: AttributeMetadata)
        ensures
            m == (AttributeMetadata {
                attribute_type: AttributeType::Position,
                id: 0,
                format: AttributeDataFormat::Float32x3,
            }),
    {
        AttributeMetadata::new(AttributeType::Position, 0, AttributeDataFormat::Float32x3)
    }

    /// The vertex-normal attribute: three floats per vertex.
    pub fn attribute_normal() -> (m: AttributeMetadata)
        ensures
            m == (AttributeMetadata {
                attribute_type: AttributeType::Normals,
                id: 1,
                format: AttributeDataFormat::Float32x3,
            }),
    {
        AttributeMetadata::new(AttributeType::Normals, 1, AttributeDataFormat::Float32x3)
    }

    /// The first texture-coordinate attribute: two floats per vertex.
    pub fn attribute_uv_0() -> (m: AttributeMetadata)
        ensures
            m == (AttributeMetadata {
                attribute_type: AttributeType::Uv0,
                id: 2,
                format: AttributeDataFormat::Float32x2,
            }),
    {
        AttributeMetadata::new(AttributeType::Uv0, 2, AttributeDataFormat::Float32x2)
    }

    /// The second texture-coordinate attribute: two floats per vertex.
    pub fn attribute_uv_1() -> (m: AttributeMetadata)
        ensures
            m == (AttributeMetadata {
                attribute_type: AttributeType::Uv1,
                id: 3,
                format: AttributeDataFormat::Float32x2,
            }),
    {
        AttributeMetadata::new(AttributeType::Uv1, 3, AttributeDataFormat::Float32x2)
    }

    /// The tangent attribute: four floats per vertex.
    pub fn attribute_tangent() -> (m: AttributeMetadata)
        ensures
            m == (AttributeMetadata {
                attribute_type: AttributeType::Tangent,
                id: 4,
                format: AttributeDataFormat::Float32x4,
            }),
    {
        AttributeMetadata::new(AttributeType::Tangent, 4, AttributeDataFormat::Float32x4)
    }
}

} // verus!
