use mod3d_base::example_client::{Buffer, Id};
use mod3d_base::example_objects::triangle;
use mod3d_base::example_objects::{Buffers, DataAccessors};
use mod3d_base::{
    BufferElementType, ExampleVertices, RenderContext, Renderable, ShortIndex, VertexAttr,
    VertexDesc,
};

/// A renderer that keeps every request that it serves, as text.
struct Log(Vec<String>);

impl Renderable for Log {
    type Buffer = usize;
    type Descriptor = usize;
    type DataAccessor = usize;
    type IndexAccessor = usize;
    type Vertices = usize;

    fn create_buffer_data_client(&mut self, bytes: &[u8]) -> usize {
        self.0.push(format!("buffer {}", bytes.len()));
        self.0.len()
    }

    fn create_buffer_desc_client(
        &mut self,
        buffer: &usize,
        stride: u32,
        elements: &[VertexDesc],
    ) -> usize {
        self.0
            .push(format!("descriptor of {} stride {} fields {}", buffer, stride, elements.len()));
        self.0.len()
    }

    fn create_buffer_view_client(
        &mut self,
        attr: VertexAttr,
        ele_type: BufferElementType,
        count: u32,
        byte_offset: u32,
        stride: u32,
        descriptor: &usize,
    ) -> usize {
        self.0.push(format!(
            "view of {} {:?} {:?} x{} @{} stride {}",
            descriptor, attr, ele_type, count, byte_offset, stride
        ));
        self.0.len()
    }

    fn create_index_accessor_client(
        &mut self,
        ele_type: BufferElementType,
        count: u32,
        byte_offset: u32,
        buffer: &usize,
    ) -> usize {
        self.0
            .push(format!("indices of {} {:?} x{} @{}", buffer, ele_type, count, byte_offset));
        self.0.len()
    }

    fn create_vertices_client(
        &mut self,
        indices: Option<&usize>,
        attrs: &[(VertexAttr, &usize)],
    ) -> usize {
        self.0.push(format!("vertices {:?} {:?}", indices, attrs));
        self.0.len()
    }
}

fn triangle_bytes(size: f32) -> Vec<u8> {
    let vertex_data = [
        -size, -size, 0.0, size, -size, 0.0, 0.0, size, 0.0, 0., 0., 1., 0., 0., 1., 0., 0., 1.,
    ];
    let mut bytes = Vec::new();
    for f in vertex_data {
        bytes.extend_from_slice(&f.to_ne_bytes());
    }
    bytes
}

#[test]
fn buffers_are_numbered_as_they_are_pushed() {
    let mut buffers = Buffers::new();
    assert_eq!(buffers.len(), 0);
    assert_eq!(buffers.push(vec![1, 2, 3]), 0);
    assert_eq!(buffers.push(Vec::new()), 1);
    assert_eq!(buffers.push(vec![9]), 2);
    assert_eq!(buffers.len(), 3);
    assert_eq!(**buffers.buffer(0), vec![1u8, 2, 3]);
    assert_eq!(**buffers.buffer(1), Vec::<u8>::new());
    assert_eq!(**buffers.buffer(2), vec![9u8]);
}

#[test]
fn pushing_buffers_leaves_the_bytes_of_the_others_in_place() {
    let mut buffers = Buffers::new();
    buffers.push(vec![7u8; 100]);
    let address = buffers.buffer(0).as_ptr();
    for i in 0..1000usize {
        assert_eq!(buffers.push(vec![0u8; 16]), i + 1);
    }
    assert_eq!(buffers.buffer(0).as_ptr(), address);
    assert_eq!(**buffers.buffer(0), vec![7u8; 100]);
}

#[test]
fn objects_are_numbered_as_they_are_pushed() {
    let mut buffers = Buffers::new();
    buffers.push((0u8..100).collect());
    buffers.push(vec![0, 1, 2]);
    let mut store: DataAccessors<Id> = DataAccessors::new();
    assert_eq!(store.push_buffer_data(&buffers, 0, 0, 0), 0);
    assert_eq!(store.push_buffer_data(&buffers, 1, 0, 0), 1);
    assert_eq!(store.push_buffer_data(&buffers, 0, 40, 20), 2);
    assert_eq!(store.num_buffer_data(), 3);
    assert_eq!(store.buffer_data(0).byte_length(), 100);
    assert_eq!(store.buffer_data(1).as_bytes(), &[0u8, 1, 2]);
    assert_eq!(store.buffer_data(2).byte_offset(), 40);
    assert_eq!(store.buffer_data(2).as_bytes(), &(40u8..60).collect::<Vec<u8>>()[..]);

    assert_eq!(store.push_index_accessor(1, 3, BufferElementType::UInt8, 0), 0);
    assert_eq!(store.num_index_accessors(), 1);
    assert!(store.indices(None).is_none());
    let indices = store.indices(Some(0)).unwrap();
    assert_eq!(indices.data(), 1);
    assert_eq!(indices.number_indices(), 3);

    assert_eq!(store.push_descriptor(0, 4, 0), 0);
    assert_eq!(store.push_descriptor(2, 0, 32), 1);
    assert_eq!(store.num_descriptors(), 2);
    assert_eq!(store.descriptor(0).data(), 0);
    assert_eq!(store.descriptor(0).byte_offset(), 4);
    assert_eq!(store.descriptor(0).stride(), 0);
    assert_eq!(store.descriptor(0).num_elements(), 0);
    assert_eq!(store.descriptor(1).stride(), 32);

    let position = VertexDesc::vec(VertexAttr::Position, BufferElementType::Float32, 3, 0);
    let normal = VertexDesc::vec(VertexAttr::Normal, BufferElementType::Float32, 3, 12);
    assert_eq!(store.push_data_accessor(0, position), 0);
    assert_eq!(store.descriptor(0).stride(), 12);
    assert_eq!(store.push_data_accessor(0, normal), 1);
    assert_eq!(store.descriptor(0).stride(), 24);
    assert_eq!(store.descriptor(0).num_elements(), 2);
    assert_eq!(store.push_data_accessor(1, position), 2);
    assert_eq!(store.descriptor(1).stride(), 32);
    assert_eq!(store.num_data_accessors(), 3);

    assert_eq!(store.data_accessor(0).desc(), 0);
    assert_eq!(store.data_accessor(0).desc_index(), 0);
    assert_eq!(store.data_accessor(0).byte_offset(), 4);
    assert_eq!(store.data_accessor(1).desc(), 0);
    assert_eq!(store.data_accessor(1).desc_index(), 1);
    assert_eq!(store.data_accessor(1).byte_offset(), 16);
    assert_eq!(store.data_accessor(1).vertex_attr(), VertexAttr::Normal);
    assert_eq!(store.data_accessor(2).desc(), 1);
    assert_eq!(store.data_accessor(2).desc_index(), 0);
    assert_eq!(store.data_accessor(2).byte_offset(), 0);
}

#[test]
fn an_index_names_the_same_object_after_a_thousand_pushes() {
    let mut eg: ExampleVertices<Id> = ExampleVertices::new();
    let first = eg.push_byte_buffer((0u8..200).collect());
    let address = eg.accessors().buffer_data(first).as_bytes().as_ptr();
    let desc = eg.push_descriptor(first, 8, 0);
    let acc = eg.push_data_accessor(
        desc,
        VertexDesc::vec(VertexAttr::Position, BufferElementType::Float32, 3, 4),
    );
    let indices = eg.push_index_accessor(first, 6, BufferElementType::UInt16, 100);
    for i in 0..1000usize {
        let data = eg.push_byte_buffer(vec![i as u8; 8]);
        assert_eq!(data, i + 1);
        let d = eg.push_descriptor(data, 0, 0);
        eg.push_data_accessor(d, VertexDesc::scalar(VertexAttr::Color, BufferElementType::UInt8, 0));
        eg.push_index_accessor(data, 1, BufferElementType::UInt8, 0);
    }
    let data = eg.accessors().buffer_data(first);
    assert_eq!(data.byte_offset(), 0);
    assert_eq!(data.byte_length(), 200);
    assert_eq!(data.as_bytes().as_ptr(), address);
    assert_eq!(data.as_bytes(), &(0u8..200).collect::<Vec<u8>>()[..]);
    assert_eq!(eg.buffers().buffer(0).as_ptr(), address);
    assert_eq!(eg.accessors().descriptor(desc).data(), first);
    assert_eq!(eg.accessors().descriptor(desc).byte_offset(), 8);
    assert_eq!(eg.accessors().descriptor(desc).stride(), 16);
    assert_eq!(eg.accessors().data_accessor(acc).byte_offset(), 12);
    assert_eq!(eg.accessors().indices(Some(indices)).unwrap().byte_offset(), 100);
    assert_eq!(eg.accessors().num_buffer_data(), 1001);
    assert_eq!(eg.accessors().buffer_data(1000).as_bytes(), &[231u8; 8]);
}

#[test]
fn two_accessors_over_one_buffer_data_ask_for_its_client_once() {
    let mut buffers = Buffers::new();
    buffers.push(vec![0u8; 96]);
    let mut store: DataAccessors<Id> = DataAccessors::new();
    let data = store.push_buffer_data(&buffers, 0, 0, 0);
    let one = store.push_descriptor(data, 0, 0);
    let two = store.push_descriptor(data, 48, 0);
    let field = VertexDesc::vec(VertexAttr::Position, BufferElementType::Float32, 3, 0);
    let first = store.push_data_accessor(one, field);
    let second = store.push_data_accessor(two, field);

    let mut renderer = RenderContext::new(Id::new());
    store.create_data_accessor_client(first, VertexAttr::Position, &mut renderer);
    assert_eq!(renderer.borrow_renderable().buffers, 1);
    store.create_data_accessor_client(second, VertexAttr::Normal, &mut renderer);
    let counts = *renderer.borrow_renderable();
    assert_eq!(counts.buffers, 1);
    assert_eq!(counts.descriptors, 2);
    assert_eq!(counts.data_accessors, 2);
    assert_eq!(counts.served, 5);
    assert_eq!(*store.buffer_data(data).borrow_client().unwrap(), Buffer(1));
    assert_eq!(*store.descriptor(one).borrow_client().unwrap(), Buffer(2));
    assert_eq!(*store.data_accessor(first).borrow_client().unwrap(), Buffer(3));
    assert_eq!(*store.descriptor(two).borrow_client().unwrap(), Buffer(4));
    assert_eq!(*store.data_accessor(second).borrow_client().unwrap(), Buffer(5));

    store.create_data_accessor_client(first, VertexAttr::Position, &mut renderer);
    store.create_data_accessor_client(second, VertexAttr::Normal, &mut renderer);
    store.create_descriptor_client(one, &mut renderer);
    store.create_buffer_data_client(data, &mut renderer);
    assert_eq!(*renderer.borrow_renderable(), counts);
    assert_eq!(*store.data_accessor(second).borrow_client().unwrap(), Buffer(5));
}

#[test]
fn each_kind_of_object_in_the_store_gets_its_client_once() {
    let mut buffers = Buffers::new();
    buffers.push(vec![0u8; 32]);
    let mut store: DataAccessors<Id> = DataAccessors::new();
    let data = store.push_buffer_data(&buffers, 0, 0, 0);
    let other = store.push_buffer_data(&buffers, 0, 16, 0);
    let desc = store.push_descriptor(other, 0, 0);
    let indices = store.push_index_accessor(data, 4, BufferElementType::UInt32, 0);
    let mut renderer = RenderContext::new(Id::new());

    store.create_buffer_data_client(data, &mut renderer);
    store.create_buffer_data_client(data, &mut renderer);
    assert_eq!(renderer.borrow_renderable().buffers, 1);
    store.create_index_accessor_client(indices, &mut renderer);
    store.create_index_accessor_client(indices, &mut renderer);
    assert_eq!(renderer.borrow_renderable().buffers, 1);
    assert_eq!(renderer.borrow_renderable().index_accessors, 1);
    store.create_descriptor_client(desc, &mut renderer);
    store.create_descriptor_client(desc, &mut renderer);
    assert_eq!(renderer.borrow_renderable().buffers, 2);
    assert_eq!(renderer.borrow_renderable().descriptors, 1);
    assert_eq!(renderer.borrow_renderable().served, 4);
    assert!(store.buffer_data(other).has_client());
}

#[test]
fn vertices_are_pushed_with_their_attributes_in_order() {
    let mut eg: ExampleVertices<Id> = ExampleVertices::new();
    let data = eg.push_byte_buffer(vec![0u8; 256]);
    let desc = eg.push_descriptor(data, 0, 0);
    let field = VertexDesc::vec(VertexAttr::Position, BufferElementType::Float32, 3, 0);
    let a = eg.push_data_accessor(desc, field);
    let b = eg.push_data_accessor(desc, field);
    let c = eg.push_data_accessor(desc, field);
    let v = eg.push_vertices(
        None,
        a,
        &[(VertexAttr::TexCoords0, c), (VertexAttr::Normal, b), (VertexAttr::TexCoords0, b)],
    );
    assert_eq!(v.as_usize(), 0);
    assert_eq!(eg.num_vertices(), 1);
    let vertices = eg.borrow_vertices(v);
    assert_eq!(vertices.borrow_indices(), None);
    assert_eq!(
        vertices.iter_attrs(),
        &[(VertexAttr::Position, a), (VertexAttr::Normal, b), (VertexAttr::TexCoords0, b)]
    );
    let w = eg.push_vertices(None, c, &[(VertexAttr::Position, b)]);
    assert_eq!(w, ShortIndex::from_usize(1));
    assert_eq!(eg.borrow_vertices(w).iter_attrs(), &[(VertexAttr::Position, b)]);
    assert_eq!(eg.borrow_vertices(v).iter_attrs().len(), 3);
}

#[test]
fn a_triangle_asks_for_each_of_its_clients_once() {
    let mut eg: ExampleVertices<Id> = ExampleVertices::new();
    let v = triangle::new(&mut eg, triangle_bytes(1.0));
    assert_eq!(v.as_usize(), 0);
    assert_eq!(eg.accessors().num_buffer_data(), 2);
    assert_eq!(eg.accessors().buffer_data(0).byte_length(), 72);
    assert_eq!(eg.accessors().buffer_data(1).as_bytes(), &[0u8, 1, 2]);
    assert_eq!(eg.accessors().num_descriptors(), 1);
    assert_eq!(eg.accessors().descriptor(0).stride(), 48);
    assert_eq!(eg.accessors().num_data_accessors(), 2);
    assert_eq!(eg.accessors().data_accessor(0).byte_offset(), 0);
    assert_eq!(eg.accessors().data_accessor(1).byte_offset(), 36);
    assert_eq!(eg.accessors().data_accessor(1).count(), 3);
    assert_eq!(eg.accessors().data_accessor(1).ele_type(), BufferElementType::Float32);
    let indices = eg.accessors().indices(Some(0)).unwrap();
    assert_eq!(indices.number_indices(), 3);
    assert_eq!(indices.ele_type(), BufferElementType::UInt8);
    assert_eq!(indices.byte_offset(), 0);
    assert_eq!(indices.data(), 1);
    assert_eq!(eg.borrow_vertices(v).borrow_indices(), Some(0));
    assert_eq!(
        eg.borrow_vertices(v).iter_attrs(),
        &[(VertexAttr::Position, 0), (VertexAttr::Normal, 1)]
    );

    let mut renderer = RenderContext::new(Id::new());
    eg.create_client(v, &mut renderer);
    let counts = *renderer.borrow_renderable();
    assert_eq!(counts.buffers, 2);
    assert_eq!(counts.descriptors, 1);
    assert_eq!(counts.data_accessors, 2);
    assert_eq!(counts.index_accessors, 1);
    assert_eq!(counts.vertices, 1);
    assert_eq!(counts.served, 7);
    assert_eq!(*eg.borrow_vertices(v).borrow_client().unwrap(), Buffer(7));

    eg.create_client(v, &mut renderer);
    assert_eq!(*renderer.borrow_renderable(), counts);
    assert_eq!(*eg.borrow_vertices(v).borrow_client().unwrap(), Buffer(7));
}

#[test]
fn a_triangle_asks_in_the_order_of_what_depends_on_what() {
    let mut eg: ExampleVertices<Log> = ExampleVertices::new();
    let v = triangle::new(&mut eg, triangle_bytes(2.5));
    let mut renderer = RenderContext::new(Log(Vec::new()));
    eg.create_client(v, &mut renderer);
    eg.create_client(v, &mut renderer);
    assert_eq!(
        renderer.borrow_renderable().0,
        vec![
            "buffer 3",
            "indices of 1 UInt8 x3 @0",
            "buffer 72",
            "descriptor of 3 stride 48 fields 2",
            "view of 4 Position Float32 x3 @0 stride 48",
            "view of 4 Normal Float32 x3 @36 stride 48",
            "vertices Some(2) [(Position, 5), (Normal, 6)]",
        ]
    );
    assert_eq!(*eg.borrow_vertices(v).borrow_client().unwrap(), 7);
}

#[test]
fn two_sets_of_vertices_share_the_clients_of_their_accessors() {
    let mut eg: ExampleVertices<Id> = ExampleVertices::new();
    let v = triangle::new(&mut eg, triangle_bytes(1.0));
    let w = eg.push_vertices(None, 1, &[(VertexAttr::Color, 0)]);
    let mut renderer = RenderContext::new(Id::new());
    eg.create_client(w, &mut renderer);
    let counts = *renderer.borrow_renderable();
    assert_eq!(counts.buffers, 1);
    assert_eq!(counts.descriptors, 1);
    assert_eq!(counts.data_accessors, 2);
    assert_eq!(counts.index_accessors, 0);
    assert_eq!(counts.vertices, 1);
    eg.create_client(v, &mut renderer);
    let counts = *renderer.borrow_renderable();
    assert_eq!(counts.buffers, 2);
    assert_eq!(counts.descriptors, 1);
    assert_eq!(counts.data_accessors, 2);
    assert_eq!(counts.index_accessors, 1);
    assert_eq!(counts.vertices, 2);
    assert_eq!(counts.served, 8);
}
