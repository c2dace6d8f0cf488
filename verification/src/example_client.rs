//! An example of a rendering backend, which only counts what it is asked for.
pub mod renderable;

pub use renderable::{Buffer, Id};
