//! A [Renderable] that creates nothing on any device: it numbers the
//! clients that it hands out and counts the requests of each kind.
use vstd::prelude::*;

use crate::traits::Renderable;
use crate::types::{BufferElementType, VertexAttr, VertexDesc};

verus! {

/// A client of the example renderer: the number of the request that made
/// it, from 1, among all the requests that the renderer served. The
/// default is the number 0, which no request made.
#[derive(Debug, Clone, Copy, PartialEq, Eq, Structural)]
pub struct Buffer(pub u64);

impl Default for Buffer {
    fn default() -> (b: Self)
        ensures
            b == Buffer(0),
    {
        Buffer(0)
    }
}

/// The thing that is Renderable - pretty much a place-holder, which counts
/// the requests of each kind that it serves.
///
/// A count that has reached the largest number that it can hold stays
/// there.
#[derive(Debug, Clone, Copy, PartialEq, Eq, Structural)]
pub struct Id {
    /// Number of requests served
    pub served: u64,
    /// Number of requests for the client of a buffer data
    pub buffers: u64,
    /// Number of requests for the client of a descriptor
    pub descriptors: u64,
    /// Number of requests for the client of a data accessor
    pub data_accessors: u64,
    /// Number of requests for the client of an index accessor
    pub index_accessors: u64,
    /// Number of requests for the client of a set of vertices
    pub vertices: u64,
}

/// One more than a count, or the count itself if it is the largest number
/// that it can hold.
pub open spec fn spec_one_more(count: u64) -> u64 {
    if count < u64::MAX {
        (count + 1) as u64
    } else {
        count
    }
}

/// Add one to a count, unless it has reached the largest number that it
/// can hold.
pub fn one_more(count: u64) -> (next: u64)
    ensures
        next == spec_one_more(count),
{
    if count < u64::MAX {
        count + 1
    } else {
        count
    }
}

impl Id {
    /// Create a renderer that has served no request
    pub fn new() -> (s: Self)
        ensures
            s == (Id {
                served: 0,
                buffers: 0,
                descriptors: 0,
                data_accessors: 0,
                index_accessors: 0,
                vertices: 0,
            }),
    {
        Self {
            served: 0,
            buffers: 0,
            descriptors: 0,
            data_accessors: 0,
            index_accessors: 0,
            vertices: 0,
        }
    }
}

impl Default for Id {
    fn default() -> (s: Self)
        ensures
            s == (Id {
                served: 0,
                buffers: 0,
                descriptors: 0,
                data_accessors: 0,
                index_accessors: 0,
                vertices: 0,
            }),
    {
        Self::new()
    }
}

impl Renderable for Id {
    type Buffer = Buffer;

    type Descriptor = Buffer;

    type DataAccessor = Buffer;

    type IndexAccessor = Buffer;

    type Vertices = Buffer;

    fn create_buffer_data_client(&mut self, bytes: &[u8]) -> (client: Buffer)
        ensures
            *final(self) == (Id {
                served: spec_one_more(old(self).served),
                buffers: spec_one_more(old(self).buffers),
                ..*old(self)
            }),
            client == Buffer(final(self).served),
    {
        self.served = one_more(self.served);
        self.buffers = one_more(self.buffers);
        Buffer(self.served)
    }

    fn create_buffer_desc_client(
        &mut self,
        buffer: &Buffer,
        stride: u32,
        elements: &[VertexDesc],
    ) -> (client: Buffer)
        ensures
            *final(self) == (Id {
                served: spec_one_more(old(self).served),
                descriptors: spec_one_more(old(self).descriptors),
                ..*old(self)
            }),
            client == Buffer(final(self).served),
    {
        self.served = one_more(self.served);
        self.descriptors = one_more(self.descriptors);
        Buffer(self.served)
    }

    fn create_buffer_view_client(
        &mut self,
        attr: VertexAttr,
        ele_type: BufferElementType,
        count: u32,
        byte_offset: u32,
        stride: u32,
        descriptor: &Buffer,
    ) -> (client: Buffer)
        ensures
            *final(self) == (Id {
                served: spec_one_more(old(self).served),
                data_accessors: spec_one_more(old(self).data_accessors),
                ..*old(self)
            }),
            client == Buffer(final(self).served),
    {
        self.served = one_more(self.served);
        self.data_accessors = one_more(self.data_accessors);
        Buffer(self.served)
    }

    fn create_index_accessor_client(
        &mut self,
        ele_type: BufferElementType,
        count: u32,
        byte_offset: u32,
        buffer: &Buffer,
    ) -> (client: Buffer)
        ensures
            *final(self) == (Id {
                served: spec_one_more(old(self).served),
                index_accessors: spec_one_more(old(self).index_accessors),
                ..*old(self)
            }),
            client == Buffer(final(self).served),
    {
        self.served = one_more(self.served);
        self.index_accessors = one_more(self.index_accessors);
        Buffer(self.served)
    }

    fn create_vertices_client(
        &mut self,
        indices: Option<&Buffer>,
        attrs: &[(VertexAttr, &Buffer)],
    ) -> (client: Buffer)
        ensures
            *final(self) == (Id {
                served: spec_one_more(old(self).served),
                vertices: spec_one_more(old(self).vertices),
                ..*old(self)
            }),
            client == Buffer(final(self).served),
    {
        self.served = one_more(self.served);
        self.vertices = one_more(self.vertices);
        Buffer(self.served)
    }
}

} // verus!
