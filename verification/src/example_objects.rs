//! Stores that hold the byte buffers and the objects that describe them.
pub mod example_vertices;
pub mod layout;
pub mod triangle;

pub use example_vertices::{Buffers, DataAccessors, ExampleVertices};
pub use layout::{Clients, Handles, Layout};
