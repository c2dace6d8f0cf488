use std::rc::Rc;

use mod3d_base::example_client::renderable::one_more;
use mod3d_base::example_client::{Buffer, Id};
use mod3d_base::{
    BufferData, BufferDataAccessor, BufferDescriptor, BufferElementType, BufferIndexAccessor,
    RenderContext, VertexAttr, VertexDesc,
};

fn position(byte_offset: u16) -> VertexDesc {
    VertexDesc::vec(VertexAttr::Position, BufferElementType::Float32, 3, byte_offset)
}

fn color(byte_offset: u16) -> VertexDesc {
    VertexDesc::vec(VertexAttr::Color, BufferElementType::UInt8, 4, byte_offset)
}

fn joints(byte_offset: u16) -> VertexDesc {
    VertexDesc::mat(VertexAttr::Joints, BufferElementType::UInt16, [4, 4], byte_offset)
}

fn covers(desc: &BufferDescriptor<Id>) -> bool {
    (0..desc.num_elements()).all(|i| desc.element(i).extent() <= desc.stride())
}

#[test]
fn a_descriptor_keeps_what_it_is_given() {
    let desc: BufferDescriptor<Id> = BufferDescriptor::new(3, 16, 64, vec![position(0), color(12)]);
    assert_eq!(desc.data(), 3);
    assert_eq!(desc.byte_offset(), 16);
    assert_eq!(desc.stride(), 64);
    assert_eq!(desc.num_elements(), 2);
    assert_eq!(desc.element(0).vertex_attr(), VertexAttr::Position);
    assert_eq!(desc.element(1).vertex_attr(), VertexAttr::Color);
    assert_eq!(desc.element(1).byte_offset(), 12);
    assert!(!desc.has_client());
}

#[test]
fn the_stride_is_widened_to_the_largest_extent() {
    let desc: BufferDescriptor<Id> = BufferDescriptor::new(0, 0, 0, vec![position(0), color(12)]);
    assert_eq!(desc.stride(), 16);
    let desc: BufferDescriptor<Id> = BufferDescriptor::new(0, 0, 0, vec![color(12), position(0)]);
    assert_eq!(desc.stride(), 16);
    let desc: BufferDescriptor<Id> = BufferDescriptor::new(0, 0, 15, vec![position(0), color(12)]);
    assert_eq!(desc.stride(), 16);
    let desc: BufferDescriptor<Id> = BufferDescriptor::new(0, 0, 16, vec![position(0), color(12)]);
    assert_eq!(desc.stride(), 16);
    let desc: BufferDescriptor<Id> = BufferDescriptor::new(0, 0, 7, Vec::new());
    assert_eq!(desc.stride(), 7);
    let desc: BufferDescriptor<Id> = BufferDescriptor::new(0, 0, 0, Vec::new());
    assert_eq!(desc.stride(), 0);
}

#[test]
fn adding_a_field_widens_the_stride_and_never_narrows_it() {
    let mut desc: BufferDescriptor<Id> = BufferDescriptor::new(0, 0, 0, Vec::new());
    assert_eq!(desc.add_vertex_desc(position(0)), 0);
    assert_eq!(desc.stride(), 12);
    assert_eq!(desc.add_vertex_desc(joints(16)), 1);
    assert_eq!(desc.stride(), 48);
    assert_eq!(desc.add_vertex_desc(color(12)), 2);
    assert_eq!(desc.stride(), 48);
    assert_eq!(desc.num_elements(), 3);
    assert_eq!(desc.element(2).vertex_attr(), VertexAttr::Color);
    assert!(covers(&desc));
}

#[test]
fn the_stride_covers_the_fields_in_every_order_of_adding() {
    let fields = [position(0), color(12), joints(16), position(100)];
    let orders: [[usize; 4]; 6] = [
        [0, 1, 2, 3],
        [3, 2, 1, 0],
        [1, 3, 0, 2],
        [2, 0, 3, 1],
        [3, 0, 1, 2],
        [1, 0, 3, 2],
    ];
    for order in orders {
        let mut desc: BufferDescriptor<Id> = BufferDescriptor::new(0, 0, 10, Vec::new());
        let mut widest = 10;
        for (n, i) in order.iter().enumerate() {
            assert_eq!(desc.add_vertex_desc(fields[*i]) as usize, n);
            widest = widest.max(fields[*i].extent());
            assert_eq!(desc.stride(), widest);
            assert!(covers(&desc));
        }
        assert_eq!(desc.stride(), 112);
    }
}

#[test]
fn a_given_stride_that_is_wide_enough_stays() {
    let mut desc: BufferDescriptor<Id> = BufferDescriptor::new(0, 0, 256, vec![position(0)]);
    desc.add_vertex_desc(joints(16));
    assert_eq!(desc.stride(), 256);
}

#[test]
fn an_accessor_has_the_offset_of_its_field_within_the_data() {
    let desc: BufferDescriptor<Id> = BufferDescriptor::new(2, 1000, 0, vec![position(0), color(12)]);
    let acc: BufferDataAccessor<Id> = BufferDataAccessor::new(5, &desc, 1);
    assert_eq!(acc.desc(), 5);
    assert_eq!(acc.desc_index(), 1);
    assert_eq!(acc.byte_offset(), 1012);
    assert_eq!(acc.vertex_attr(), VertexAttr::Color);
    assert_eq!(acc.ele_type(), BufferElementType::UInt8);
    assert_eq!(acc.count(), 4);
    assert_eq!(acc.byte_length(), 4);
    assert_eq!(acc.vertex_desc().byte_offset(), 12);
    assert!(!acc.has_client());
    let first: BufferDataAccessor<Id> = BufferDataAccessor::new(5, &desc, 0);
    assert_eq!(first.byte_offset(), 1000);
    assert_eq!(first.count(), 3);
    assert_eq!(first.byte_length(), 12);
}

#[test]
fn an_index_accessor_keeps_what_it_is_given() {
    let acc: BufferIndexAccessor<Id> = BufferIndexAccessor::new(4, 36, BufferElementType::UInt16, 8);
    assert_eq!(acc.data(), 4);
    assert_eq!(acc.number_indices(), 36);
    assert_eq!(acc.ele_type(), BufferElementType::UInt16);
    assert_eq!(acc.byte_offset(), 8);
    assert!(!acc.has_client());
    assert!(acc.borrow_client().is_none());
}

#[test]
fn a_descriptor_client_comes_after_that_of_its_data() {
    let bytes = Rc::new(vec![0u8; 64]);
    let mut data: BufferData<Id> = BufferData::new(&bytes, 0, 0);
    let mut desc: BufferDescriptor<Id> = BufferDescriptor::new(0, 0, 0, vec![position(0)]);
    let mut renderer = RenderContext::new(Id::new());

    desc.create_client(&mut data, &mut renderer);
    assert_eq!(*data.borrow_client().unwrap(), Buffer(1));
    assert_eq!(*desc.borrow_client().unwrap(), Buffer(2));
    assert_eq!(renderer.borrow_renderable().buffers, 1);
    assert_eq!(renderer.borrow_renderable().descriptors, 1);

    desc.create_client(&mut data, &mut renderer);
    assert_eq!(*data.borrow_client().unwrap(), Buffer(1));
    assert_eq!(*desc.borrow_client().unwrap(), Buffer(2));
    assert_eq!(renderer.borrow_renderable().served, 2);
}

#[test]
fn two_descriptors_share_the_client_of_their_data_and_not_their_own() {
    let bytes = Rc::new(vec![0u8; 64]);
    let mut data: BufferData<Id> = BufferData::new(&bytes, 0, 0);
    let mut one: BufferDescriptor<Id> = BufferDescriptor::new(0, 0, 0, vec![position(0)]);
    let mut two: BufferDescriptor<Id> = BufferDescriptor::new(0, 32, 0, vec![color(0)]);
    let mut renderer = RenderContext::new(Id::new());
    one.create_client(&mut data, &mut renderer);
    two.create_client(&mut data, &mut renderer);
    assert_eq!(renderer.borrow_renderable().buffers, 1);
    assert_eq!(renderer.borrow_renderable().descriptors, 2);
    assert_ne!(one.borrow_client().unwrap(), two.borrow_client().unwrap());
    assert_eq!(one.stride(), 12);
    assert_eq!(two.stride(), 4);
}

#[test]
fn an_accessor_client_comes_after_those_it_depends_on() {
    let bytes = Rc::new(vec![0u8; 64]);
    let mut data: BufferData<Id> = BufferData::new(&bytes, 0, 0);
    let mut desc: BufferDescriptor<Id> = BufferDescriptor::new(0, 0, 0, vec![position(0)]);
    let mut acc: BufferDataAccessor<Id> = BufferDataAccessor::new(0, &desc, 0);
    let mut renderer = RenderContext::new(Id::new());

    acc.create_client(VertexAttr::Position, &mut desc, &mut data, &mut renderer);
    assert_eq!(*data.borrow_client().unwrap(), Buffer(1));
    assert_eq!(*desc.borrow_client().unwrap(), Buffer(2));
    assert_eq!(*acc.borrow_client().unwrap(), Buffer(3));

    acc.create_client(VertexAttr::Normal, &mut desc, &mut data, &mut renderer);
    assert_eq!(*acc.borrow_client().unwrap(), Buffer(3));
    let counts = renderer.into_renderable();
    assert_eq!(counts.served, 3);
    assert_eq!(counts.buffers, 1);
    assert_eq!(counts.descriptors, 1);
    assert_eq!(counts.data_accessors, 1);
    assert_eq!(counts.index_accessors, 0);
    assert_eq!(counts.vertices, 0);
}

#[test]
fn an_index_accessor_client_comes_after_that_of_its_data() {
    let bytes = Rc::new(vec![0u8, 1, 2]);
    let mut data: BufferData<Id> = BufferData::new(&bytes, 0, 0);
    let mut acc: BufferIndexAccessor<Id> = BufferIndexAccessor::new(0, 3, BufferElementType::UInt8, 0);
    let mut renderer = RenderContext::new(Id::new());
    acc.create_client(&mut data, &mut renderer);
    acc.create_client(&mut data, &mut renderer);
    assert_eq!(*data.borrow_client().unwrap(), Buffer(1));
    assert_eq!(*acc.borrow_client().unwrap(), Buffer(2));
    let counts = renderer.into_renderable();
    assert_eq!(counts.served, 2);
    assert_eq!(counts.buffers, 1);
    assert_eq!(counts.index_accessors, 1);
}

#[test]
fn the_example_renderer_stops_counting_at_the_largest_number() {
    assert_eq!(one_more(0), 1);
    assert_eq!(one_more(41), 42);
    assert_eq!(one_more(u64::MAX - 1), u64::MAX);
    assert_eq!(one_more(u64::MAX), u64::MAX);
}
