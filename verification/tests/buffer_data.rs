use std::rc::Rc;

use mod3d_base::example_client::{Buffer, Id};
use mod3d_base::{
    BufferData, BufferElementType, RenderContext, Renderable, VertexAttr, VertexDesc,
};

fn bytes_0_to(n: u8) -> Rc<Vec<u8>> {
    Rc::new((0..n).collect())
}

#[test]
fn whole_buffer_when_offset_and_length_are_zero() {
    let bytes = Rc::new(vec![1u8, 2, 3, 4, 5]);
    let data: BufferData<Id> = BufferData::new(&bytes, 0, 0);
    assert_eq!(data.byte_offset(), 0);
    assert_eq!(data.byte_length(), 5);
    assert_eq!(data.as_bytes(), &[1u8, 2, 3, 4, 5]);
}

#[test]
fn zero_length_means_the_rest_of_the_buffer() {
    let bytes = bytes_0_to(10);
    let data: BufferData<Id> = BufferData::new(&bytes, 4, 0);
    assert_eq!(data.byte_offset(), 4);
    assert_eq!(data.byte_length(), 6);
    assert_eq!(data.as_bytes(), &[4u8, 5, 6, 7, 8, 9]);
}

#[test]
fn as_bytes_is_exactly_the_sub_slice() {
    let bytes = bytes_0_to(32);
    for offset in 0u32..32 {
        for length in 1u32..=(32 - offset) {
            assert!(BufferData::<Id>::fits(bytes.len(), offset, length));
            let data: BufferData<Id> = BufferData::new(&bytes, offset, length);
            assert_eq!(data.byte_offset(), offset);
            assert_eq!(data.byte_length(), length);
            assert_eq!(
                data.as_bytes(),
                &bytes[offset as usize..(offset + length) as usize]
            );
        }
    }
}

#[test]
fn the_bytes_are_shared_with_the_buffer_and_not_copied() {
    let bytes = bytes_0_to(16);
    assert_eq!(Rc::strong_count(&bytes), 1);
    let data: BufferData<Id> = BufferData::new(&bytes, 3, 5);
    assert_eq!(Rc::strong_count(&bytes), 2);
    assert_eq!(data.as_bytes().as_ptr(), bytes[3..].as_ptr());
    assert_eq!(data.as_bytes().len(), 5);
}

#[test]
fn a_range_beyond_the_end_is_refused_and_not_cut_down() {
    let bytes = bytes_0_to(10);
    assert!(!BufferData::<Id>::fits(10, 0, 11));
    assert!(!BufferData::<Id>::fits(10, 10, 1));
    assert!(!BufferData::<Id>::fits(10, 6, 5));
    assert!(!BufferData::<Id>::fits(10, 11, 0));
    assert!(!BufferData::<Id>::fits(10, u32::MAX, u32::MAX));
    assert!(BufferData::<Id>::try_new(&bytes, 0, 11).is_none());
    assert!(BufferData::<Id>::try_new(&bytes, 10, 1).is_none());
    assert!(BufferData::<Id>::try_new(&bytes, 6, 5).is_none());
    assert!(BufferData::<Id>::try_new(&bytes, 11, 0).is_none());
}

#[test]
fn a_range_that_ends_at_the_end_fits() {
    let bytes = bytes_0_to(10);
    assert!(BufferData::<Id>::fits(10, 0, 10));
    assert!(BufferData::<Id>::fits(10, 6, 4));
    assert!(BufferData::<Id>::fits(10, 10, 0));
    let data = BufferData::<Id>::try_new(&bytes, 6, 4).unwrap();
    assert_eq!(data.as_bytes(), &[6u8, 7, 8, 9]);
    let empty = BufferData::<Id>::try_new(&bytes, 10, 0).unwrap();
    assert_eq!(empty.byte_length(), 0);
    assert_eq!(empty.as_bytes(), &[] as &[u8]);
}

#[test]
fn an_empty_buffer_has_one_range() {
    let bytes: Rc<Vec<u8>> = Rc::new(Vec::new());
    assert!(BufferData::<Id>::fits(0, 0, 0));
    assert!(!BufferData::<Id>::fits(0, 0, 1));
    assert!(!BufferData::<Id>::fits(0, 1, 0));
    let data = BufferData::<Id>::try_new(&bytes, 0, 0).unwrap();
    assert_eq!(data.byte_length(), 0);
}

#[test]
fn the_client_is_created_once() {
    let bytes = bytes_0_to(8);
    let mut data: BufferData<Id> = BufferData::new(&bytes, 2, 4);
    let mut renderer = RenderContext::new(Id::new());
    assert!(!data.has_client());
    assert!(data.borrow_client().is_none());

    data.create_client(&mut renderer);
    assert!(data.has_client());
    assert_eq!(renderer.borrow_renderable().buffers, 1);
    assert_eq!(renderer.borrow_renderable().served, 1);
    let first = *data.borrow_client().unwrap();
    assert_eq!(first, Buffer(1));

    data.create_client(&mut renderer);
    assert_eq!(renderer.borrow_renderable().buffers, 1);
    assert_eq!(renderer.borrow_renderable().served, 1);
    assert_eq!(*data.borrow_client().unwrap(), first);
    assert_eq!(data.as_bytes(), &[2u8, 3, 4, 5]);
}

#[test]
fn a_client_that_was_set_stays() {
    let bytes = bytes_0_to(8);
    let mut data: BufferData<Id> = BufferData::new(&bytes, 0, 0);
    data.set_client(Buffer(7));
    assert_eq!(*data.borrow_client().unwrap(), Buffer(7));
    data.set_client(Buffer(9));
    assert_eq!(*data.borrow_client().unwrap(), Buffer(7));
    let mut renderer = RenderContext::new(Id::new());
    data.create_client(&mut renderer);
    assert_eq!(*data.borrow_client().unwrap(), Buffer(7));
    assert_eq!(renderer.into_renderable(), Id::new());
}

/// A renderer that keeps the bytes that it is given.
struct Keeps(Vec<Vec<u8>>);
impl Renderable for Keeps {
    type Buffer = usize;
    type Descriptor = ();
    type DataAccessor = ();
    type IndexAccessor = ();
    type Vertices = ();
    fn create_buffer_data_client(&mut self, bytes: &[u8]) -> usize {
        self.0.push(bytes.to_vec());
        self.0.len()
    }
    fn create_buffer_desc_client(
        &mut self,
        _buffer: &usize,
        _stride: u32,
        _elements: &[VertexDesc],
    ) {
    }
    fn create_buffer_view_client(
        &mut self,
        _attr: VertexAttr,
        _ele_type: BufferElementType,
        _count: u32,
        _byte_offset: u32,
        _stride: u32,
        _descriptor: &(),
    ) {
    }
    fn create_index_accessor_client(
        &mut self,
        _ele_type: BufferElementType,
        _count: u32,
        _byte_offset: u32,
        _buffer: &usize,
    ) {
    }
    fn create_vertices_client(
        &mut self,
        _indices: Option<&()>,
        _attrs: &[(VertexAttr, &())],
    ) {
    }
}

#[test]
fn the_renderer_gets_the_bytes_of_the_range() {
    let bytes = bytes_0_to(12);
    let mut data: BufferData<Keeps> = BufferData::new(&bytes, 5, 3);
    let mut renderer = RenderContext::new(Keeps(Vec::new()));
    data.create_client(&mut renderer);
    data.create_client(&mut renderer);
    assert_eq!(renderer.borrow_renderable().0, vec![vec![5u8, 6, 7]]);
    assert_eq!(*data.borrow_client().unwrap(), 1);
}
