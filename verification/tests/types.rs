use mod3d_base::{
    BufferElementType, MaterialAspect, PrimitiveType, ShortIndex, VertexAttr, VertexDesc,
};

#[test]
fn element_types_have_their_byte_lengths() {
    assert_eq!(BufferElementType::Float32.byte_length(), 4);
    assert_eq!(BufferElementType::Float16.byte_length(), 2);
    assert_eq!(BufferElementType::SInt8.byte_length(), 1);
    assert_eq!(BufferElementType::SInt16.byte_length(), 2);
    assert_eq!(BufferElementType::SInt32.byte_length(), 4);
    assert_eq!(BufferElementType::UInt8.byte_length(), 1);
    assert_eq!(BufferElementType::UInt16.byte_length(), 2);
    assert_eq!(BufferElementType::UInt32.byte_length(), 4);
}

#[test]
fn element_types_are_made_by_kind_and_width() {
    assert_eq!(BufferElementType::float16(), BufferElementType::Float16);
    assert_eq!(BufferElementType::float32(), BufferElementType::Float32);
    assert_eq!(BufferElementType::new_int(true, 8), BufferElementType::SInt8);
    assert_eq!(BufferElementType::new_int(false, 8), BufferElementType::UInt8);
    assert_eq!(BufferElementType::new_int(true, 16), BufferElementType::SInt16);
    assert_eq!(BufferElementType::new_int(false, 16), BufferElementType::UInt16);
    assert_eq!(BufferElementType::new_int(true, 32), BufferElementType::SInt32);
    assert_eq!(BufferElementType::new_int(false, 32), BufferElementType::UInt32);
}

#[test]
fn only_unsigned_integers_can_be_indices() {
    assert!(BufferElementType::UInt8.is_unsigned_int());
    assert!(BufferElementType::UInt16.is_unsigned_int());
    assert!(BufferElementType::UInt32.is_unsigned_int());
    assert!(!BufferElementType::SInt8.is_unsigned_int());
    assert!(!BufferElementType::SInt16.is_unsigned_int());
    assert!(!BufferElementType::SInt32.is_unsigned_int());
    assert!(!BufferElementType::Float16.is_unsigned_int());
    assert!(!BufferElementType::Float32.is_unsigned_int());
}

#[test]
fn a_scalar_field_has_one_element() {
    let d = VertexDesc::scalar(VertexAttr::Weights, BufferElementType::Float16, 6);
    assert_eq!(d.vertex_attr(), VertexAttr::Weights);
    assert_eq!(d.ele_type(), BufferElementType::Float16);
    assert_eq!(d.byte_offset(), 6);
    assert_eq!(d.dims(), [0, 0]);
    assert_eq!(d.count(), 1);
    assert_eq!(d.byte_length(), 2);
    assert_eq!(d.extent(), 8);
}

#[test]
fn a_vector_field_has_its_length_in_elements() {
    let d = VertexDesc::vec(VertexAttr::Position, BufferElementType::Float32, 3, 12);
    assert_eq!(d.dims(), [3, 0]);
    assert_eq!(d.count(), 3);
    assert_eq!(d.byte_length(), 12);
    assert_eq!(d.extent(), 24);
    let none = VertexDesc::vec(VertexAttr::Color, BufferElementType::UInt8, 0, 0);
    assert_eq!(none.count(), 1);
    assert_eq!(none.byte_length(), 1);
}

#[test]
fn a_matrix_field_has_the_product_of_its_dimensions() {
    let d = VertexDesc::mat(VertexAttr::Joints, BufferElementType::SInt16, [4, 4], 100);
    assert_eq!(d.dims(), [4, 4]);
    assert_eq!(d.count(), 16);
    assert_eq!(d.byte_length(), 32);
    assert_eq!(d.extent(), 132);
    let column = VertexDesc::mat(VertexAttr::Joints, BufferElementType::UInt32, [0, 7], 0);
    assert_eq!(column.count(), 1);
    let row = VertexDesc::mat(VertexAttr::Joints, BufferElementType::UInt32, [5, 0], 0);
    assert_eq!(row.count(), 5);
}

#[test]
fn the_largest_field_does_not_overflow() {
    let d = VertexDesc::mat(
        VertexAttr::TexCoords2,
        BufferElementType::UInt32,
        [255, 255],
        65535,
    );
    assert_eq!(d.count(), 65025);
    assert_eq!(d.byte_length(), 260100);
    assert_eq!(d.extent(), 325635);
}

#[test]
fn attributes_are_ordered_as_declared() {
    let all = [
        VertexAttr::Position,
        VertexAttr::Normal,
        VertexAttr::Color,
        VertexAttr::Tangent,
        VertexAttr::Joints,
        VertexAttr::Weights,
        VertexAttr::TexCoords0,
        VertexAttr::TexCoords1,
        VertexAttr::TexCoords2,
    ];
    for (i, a) in all.iter().enumerate() {
        assert_eq!(a.ordinal() as usize, i);
        for (j, b) in all.iter().enumerate() {
            assert_eq!(a < b, i < j);
            assert_eq!(a == b, i == j);
            assert_eq!(a.ordinal() < b.ordinal(), a < b);
        }
    }
}

#[test]
fn a_primitive_is_triangles_by_default() {
    assert_eq!(PrimitiveType::default(), PrimitiveType::Triangles);
    assert_ne!(PrimitiveType::Points, PrimitiveType::Lines);
    assert_ne!(MaterialAspect::Color, MaterialAspect::Normal);
}

#[test]
fn a_short_index_is_none_or_a_number() {
    let none = ShortIndex::none();
    assert!(none.is_none());
    assert!(!none.is_some());
    assert_eq!(none.to_option(), None);
    assert_eq!(ShortIndex::default(), none);

    let zero = ShortIndex::from_usize(0);
    assert!(zero.is_some());
    assert!(!zero.is_none());
    assert_eq!(zero.as_usize(), 0);

    let last = ShortIndex::from_usize(65534);
    assert!(last.is_some());
    assert_eq!(last.as_usize(), 65534);
    assert_eq!(last.to_option(), Some(65534));
    assert_ne!(last, none);

    assert_eq!(ShortIndex::from_option(None), none);
    assert_eq!(ShortIndex::from_option(Some(12)).as_usize(), 12);
    assert_eq!(ShortIndex::from_option(Some(12)), ShortIndex::from_usize(12));
}
