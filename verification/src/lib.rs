//! Buffers, descriptors and accessors for the vertex data of 3D models.
//!
//! A model's vertex and index data is described once, over byte buffers in
//! host memory: a [`BufferData`] is a bounds-checked range of a byte buffer,
//! a [`BufferDescriptor`] lays records of typed fields over such a range, a
//! [`BufferDataAccessor`] names one field of a descriptor, a
//! [`BufferIndexAccessor`] names a stream of indices, and a [`Vertices`]
//! gathers the accessors of one drawable set of vertices.
//!
//! Each of these can be given a client by a [`Renderable`] backend. A client
//! is created on the first request only, and a client that several objects
//! depend on is created once for all of them. The backend is asked through
//! a [`RenderContext`], whose history of requests is what the contracts of
//! the `create_client` functions speak of. The objects refer to each other
//! by their indices in a [`example_objects::DataAccessors`] store, which
//! only grows.
pub mod buffer_data;
pub mod buffer_data_accessor;
pub mod buffer_descriptor;
pub mod buffer_index_accessor;
pub mod example_client;
pub mod example_objects;
pub mod traits;
pub mod types;
pub mod vertices;

pub use buffer_data::BufferData;
pub use buffer_data_accessor::BufferDataAccessor;
pub use buffer_descriptor::BufferDescriptor;
pub use buffer_index_accessor::BufferIndexAccessor;
pub use example_objects::ExampleVertices;
pub use traits::{ClientRequest, RenderContext, Renderable};
pub use types::{
    BufferElementType, MaterialAspect, PrimitiveType, ShortIndex, VertexAttr, VertexDesc,
};
pub use vertices::Vertices;
