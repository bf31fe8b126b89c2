use scrape_core::attributes::{AttributeDataFormat, AttributeMetadata};
use scrape_core::enums::{AttributeType, PrimitiveTopology};
use scrape_core::errors::{AccessFailed, ConvertAttributeError};
use scrape_core::indices::IndexVec;
use scrape_core::normalization::Normalization;

#[test]
fn index_vec_widens_both_widths() {
    let narrow = IndexVec::U16(vec![3, 1, 2]);
    assert_eq!(narrow.len(), 3);
    assert_eq!(narrow.iter(), vec![3usize, 1, 2]);

    let wide = IndexVec::U32(vec![70000, 0]);
    assert_eq!(wide.len(), 2);
    assert_eq!(wide.iter(), vec![70000usize, 0]);
}

#[test]
fn triples_group_indices_and_drop_the_tail() {
    let indices = IndexVec::U16(vec![0, 1, 2, 2, 3, 0, 9]);
    let triples = indices.triples();
    assert_eq!(triples, vec![[0u32, 1, 2], [2, 3, 0]]);

    let empty = IndexVec::U32(vec![]);
    assert!(empty.triples().is_empty());
}

#[test]
fn attribute_metadata_constructors() {
    let position = AttributeMetadata::attribute_position();
    assert_eq!(position.attribute_type, AttributeType::Position);
    assert_eq!(position.id, 0);
    assert_eq!(position.format, AttributeDataFormat::Float32x3);

    let normal = AttributeMetadata::attribute_normal();
    assert_eq!(normal.id, 1);
    assert_eq!(normal.format, AttributeDataFormat::Float32x3);

    let uv0 = AttributeMetadata::attribute_uv_0();
    let uv1 = AttributeMetadata::attribute_uv_1();
    assert_eq!(uv0.format, AttributeDataFormat::Float32x2);
    assert_eq!(uv1.id, 3);

    let tangent = AttributeMetadata::attribute_tangent();
    assert_eq!(tangent.format, AttributeDataFormat::Float32x4);

    let custom = AttributeMetadata::new(AttributeType::Uv0, 9, AttributeDataFormat::Uint8x2);
    assert_eq!(custom.attribute_type, AttributeType::Uv0);
    assert_eq!(custom.id, 9);
    assert_eq!(custom.format, AttributeDataFormat::Uint8x2);
}

#[test]
fn normalization_picks_the_matching_constructor() {
    let value: u32 = 7;
    let normalized = Normalization(true).apply_either(value, |v| (v, true), |v| (v, false));
    assert_eq!(normalized, (7, true));
    let unnormalized = Normalization(false).apply_either(value, |v| (v, true), |v| (v, false));
    assert_eq!(unnormalized, (7, false));
}

#[test]
fn conversion_errors_carry_their_context() {
    let wrong = ConvertAttributeError::WrongFormat(
        "POSITION".to_string(),
        AttributeDataFormat::Float32x2,
        AttributeType::Position,
        AttributeDataFormat::Float32x3,
    );
    match wrong {
        ConvertAttributeError::WrongFormat(name, got, target, wanted) => {
            assert_eq!(name, "POSITION");
            assert_eq!(got, AttributeDataFormat::Float32x2);
            assert_eq!(target, AttributeType::Position);
            assert_eq!(wanted, AttributeDataFormat::Float32x3);
        }
        _ => panic!("expected WrongFormat"),
    }

    let access = ConvertAttributeError::AccessFailed(AccessFailed::MalformedData, 4);
    assert!(matches!(
        access,
        ConvertAttributeError::AccessFailed(AccessFailed::MalformedData, 4)
    ));

    let unknown = ConvertAttributeError::UnknownName("JOINTS_0".to_string());
    assert!(matches!(unknown, ConvertAttributeError::UnknownName(_)));

    let topology = PrimitiveTopology::TriangleList;
    assert_eq!(topology, PrimitiveTopology::TriangleList);
    assert!(PrimitiveTopology::LineStrip != PrimitiveTopology::TriangleStrip);
}
