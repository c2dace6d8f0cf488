use mod3d_base::example_client::{Buffer, Id};
use mod3d_base::example_objects::DataAccessors;
use mod3d_base::example_objects::Buffers;
use mod3d_base::{
    BufferElementType, ExampleVertices, RenderContext, VertexAttr, VertexDesc, Vertices,
};

#[test]
fn a_new_example_renderer_has_served_nothing() {
    let id = Id::new();
    assert_eq!(id.served, 0);
    assert_eq!(id.buffers, 0);
    assert_eq!(id.descriptors, 0);
    assert_eq!(id.data_accessors, 0);
    assert_eq!(id.index_accessors, 0);
    assert_eq!(id.vertices, 0);
    assert_eq!(Id::default(), id);
    assert_eq!(Buffer::default(), Buffer(0));
}

#[test]
fn example_vertices_are_empty_by_default() {
    let eg: ExampleVertices<Id> = ExampleVertices::default();
    assert_eq!(eg.num_vertices(), 0);
    assert_eq!(eg.buffers().len(), 0);
    assert_eq!(eg.accessors().num_buffer_data(), 0);
    assert_eq!(eg.accessors().num_descriptors(), 0);
    assert_eq!(eg.accessors().num_index_accessors(), 0);
    assert_eq!(eg.accessors().num_data_accessors(), 0);
}

#[test]
fn a_context_hands_each_request_to_its_renderable() {
    let mut context = RenderContext::new(Id::new());
    assert_eq!(*context.borrow_renderable(), Id::new());

    let buffer = context.create_buffer_data_client(&[1, 2, 3]);
    assert_eq!(buffer, Buffer(1));
    let fields = [VertexDesc::scalar(VertexAttr::Weights, BufferElementType::Float32, 0)];
    let descriptor = context.create_buffer_desc_client(&buffer, 4, &fields);
    assert_eq!(descriptor, Buffer(2));
    let view = context.create_buffer_view_client(
        VertexAttr::Weights,
        BufferElementType::Float32,
        1,
        0,
        4,
        &descriptor,
    );
    assert_eq!(view, Buffer(3));
    let indices = context.create_index_accessor_client(BufferElementType::UInt16, 6, 0, &buffer);
    assert_eq!(indices, Buffer(4));
    let vertices = context.create_vertices_client(Some(&indices), &[(VertexAttr::Weights, &view)]);
    assert_eq!(vertices, Buffer(5));

    let id = context.into_renderable();
    assert_eq!(id.served, 5);
    assert_eq!(id.buffers, 1);
    assert_eq!(id.descriptors, 1);
    assert_eq!(id.data_accessors, 1);
    assert_eq!(id.index_accessors, 1);
    assert_eq!(id.vertices, 1);
}

#[test]
fn vertices_without_indices_ask_for_no_index_client() {
    let mut buffers = Buffers::new();
    buffers.push(vec![0u8; 48]);
    let mut store: DataAccessors<Id> = DataAccessors::new();
    let data = store.push_buffer_data(&buffers, 0, 0, 0);
    let desc = store.push_descriptor(data, 0, 0);
    let position = store.push_data_accessor(
        desc,
        VertexDesc::vec(VertexAttr::Position, BufferElementType::Float32, 3, 0),
    );
    let mut vertices: Vertices<Id> = Vertices::new(None, position);
    let mut context = RenderContext::new(Id::new());

    vertices.create_client(&mut store, &mut context);
    assert_eq!(*vertices.borrow_client().unwrap(), Buffer(4));
    assert_eq!(*store.buffer_data(data).borrow_client().unwrap(), Buffer(1));
    assert_eq!(*store.descriptor(desc).borrow_client().unwrap(), Buffer(2));
    assert_eq!(*store.data_accessor(position).borrow_client().unwrap(), Buffer(3));

    vertices.create_client(&mut store, &mut context);
    let id = context.into_renderable();
    assert_eq!(id.served, 4);
    assert_eq!(id.index_accessors, 0);
    assert_eq!(id.vertices, 1);
    assert_eq!(*vertices.borrow_client().unwrap(), Buffer(4));
}

#[test]
fn an_accessor_that_has_a_client_is_not_asked_for_again_by_other_vertices() {
    let mut buffers = Buffers::new();
    buffers.push(vec![0u8; 48]);
    let mut store: DataAccessors<Id> = DataAccessors::new();
    let data = store.push_buffer_data(&buffers, 0, 0, 0);
    let desc = store.push_descriptor(data, 0, 0);
    let position = store.push_data_accessor(
        desc,
        VertexDesc::vec(VertexAttr::Position, BufferElementType::Float32, 3, 0),
    );
    let mut one: Vertices<Id> = Vertices::new(None, position);
    let mut two: Vertices<Id> = Vertices::new(None, position);
    two.add_attr(VertexAttr::Normal, position);
    let mut context = RenderContext::new(Id::new());
    one.create_client(&mut store, &mut context);
    two.create_client(&mut store, &mut context);
    let id = context.into_renderable();
    assert_eq!(id.buffers, 1);
    assert_eq!(id.descriptors, 1);
    assert_eq!(id.data_accessors, 1);
    assert_eq!(id.vertices, 2);
    assert_eq!(id.served, 5);
    assert_ne!(one.borrow_client().unwrap(), two.borrow_client().unwrap());
}
