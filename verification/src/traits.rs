//! What a rendering backend provides: a client for each kind of object.
use vstd::prelude::*;

use crate::types::{BufferElementType, VertexAttr, VertexDesc, VertexDescView};

verus! {

/// One request that was made of a [Renderable] to create a client: what
/// was handed to the renderable, and the client that it returned. This is
/// how contracts speak of the requests that were made; no such value
/// exists when the program runs.
#[allow(inconsistent_fields)]
pub enum ClientRequest<R: Renderable> {
    /// For the client of a [crate::BufferData]
    Buffer {
        /// The bytes of the buffer data
        bytes: Seq<u8>,
        /// The client that was returned
        client: R::Buffer,
    },
    /// For the client of a [crate::BufferDescriptor]: records of fields
    /// laid over the bytes of a buffer client
    Descriptor {
        /// The client of the buffer data
        buffer: R::Buffer,
        /// Byte distance between one record and the next
        stride: u32,
        /// The fields of a record
        elements: Seq<VertexDescView>,
        /// The client that was returned
        client: R::Descriptor,
    },
    /// For the client of a [crate::BufferDataAccessor]: one field bound to
    /// an attribute
    DataAccessor {
        /// The attribute that the field is bound to
        attr: VertexAttr,
        /// Type of each element of the field
        ele_type: BufferElementType,
        /// Number of elements in the field
        count: u32,
        /// Byte offset of the field of the first record within the
        /// buffer data
        byte_offset: u32,
        /// Byte distance between one record and the next
        stride: u32,
        /// The client of the descriptor
        descriptor: R::Descriptor,
        /// The client that was returned
        client: R::DataAccessor,
    },
    /// For the client of a [crate::BufferIndexAccessor]
    IndexAccessor {
        /// Type of each index
        ele_type: BufferElementType,
        /// Number of indices
        count: u32,
        /// Byte offset of the first index within the buffer data
        byte_offset: u32,
        /// The client of the buffer data
        buffer: R::Buffer,
        /// The client that was returned
        client: R::IndexAccessor,
    },
    /// For the client of a [crate::Vertices]
    Vertices {
        /// The client of the index accessor, if the vertices have indices
        indices: Option<R::IndexAccessor>,
        /// The attributes of the vertices, in order, each with the client
        /// of its accessor
        attrs: Seq<(VertexAttr, R::DataAccessor)>,
        /// The client that was returned
        client: R::Vertices,
    },
}

/// The views of the elements of a slice of [VertexDesc], in order.
pub open spec fn element_views(elements: Seq<VertexDesc>) -> Seq<VertexDescView> {
    elements.map_values(|e: VertexDesc| e@)
}

/// The attributes of a slice of attributes with borrowed clients, each
/// with its client, in order.
pub open spec fn attr_clients<T>(attrs: Seq<(VertexAttr, &T)>) -> Seq<(VertexAttr, T)> {
    attrs.map_values(|a: (VertexAttr, &T)| (a.0, *a.1))
}

/// A client that may be there, borrowed: the client itself, if it is
/// there.
pub open spec fn borrowed_client<T>(client: Option<&T>) -> Option<T> {
    match client {
        Some(c) => Some(*c),
        None => None,
    }
}

/// The number of requests among some requests that a predicate holds of.
pub open spec fn count_requests<R: Renderable>(
    history: Seq<ClientRequest<R>>,
    kind: spec_fn(ClientRequest<R>) -> bool,
) -> nat
    decreases history.len(),
{
    if history.len() == 0 {
        0
    } else {
        count_requests(history.drop_last(), kind) + (if kind(history.last()) {
            1nat
        } else {
            0nat
        })
    }
}

/// The count of two runs of requests, one after the other, is the sum of
/// their counts.
pub proof fn lemma_count_add<R: Renderable>(
    first: Seq<ClientRequest<R>>,
    second: Seq<ClientRequest<R>>,
    kind: spec_fn(ClientRequest<R>) -> bool,
)
    ensures
        count_requests(first + second, kind) == count_requests(first, kind) + count_requests(
            second,
            kind,
        ),
    decreases second.len(),
{
    if second.len() == 0 {
        assert(first + second == first);
    } else {
        lemma_count_add(first, second.drop_last(), kind);
        assert((first + second).drop_last() == first + second.drop_last());
        assert((first + second).last() == second.last());
    }
}

/// Whether a request is for the client of a buffer data.
pub open spec fn is_buffer_request<R: Renderable>(request: ClientRequest<R>) -> bool {
    request is Buffer
}

/// The count of at most three requests, written out.
pub proof fn lemma_count_short<R: Renderable>(
    requests: Seq<ClientRequest<R>>,
    kind: spec_fn(ClientRequest<R>) -> bool,
)
    requires
        requests.len() <= 3,
    ensures
        count_requests(requests, kind) == (if requests.len() > 0 && kind(requests[0]) {
            1nat
        } else {
            0nat
        }) + (if requests.len() > 1 && kind(requests[1]) {
            1nat
        } else {
            0nat
        }) + (if requests.len() > 2 && kind(requests[2]) {
            1nat
        } else {
            0nat
        }),
    decreases requests.len(),
{
    if requests.len() > 0 {
        let rest = requests.drop_last();
        lemma_count_short(rest, kind);
        assert(forall|i: int| 0 <= i < rest.len() ==> rest[i] == requests[i]);
    }
}

/// A rendering backend, which creates the clients of the objects that
/// describe vertex data.
///
/// What client a method returns, and what the backend does to make it, is
/// the backend's own matter. The library asks through a [RenderContext],
/// which keeps account of what was asked.
pub trait Renderable: Sized {
    /// The client of a [crate::BufferData]
    type Buffer;

    /// The client of a [crate::BufferDescriptor]
    type Descriptor;

    /// The client of a [crate::BufferDataAccessor]
    type DataAccessor;

    /// The client of a [crate::BufferIndexAccessor]
    type IndexAccessor;

    /// The client of a [crate::Vertices]
    type Vertices;

    /// Create the client for the bytes of a buffer data
    fn create_buffer_data_client(&mut self, bytes: &[u8]) -> Self::Buffer;

    /// Create the client for a descriptor of records of a given stride and
    /// fields, over the bytes of a buffer client
    fn create_buffer_desc_client(
        &mut self,
        buffer: &Self::Buffer,
        stride: u32,
        elements: &[VertexDesc],
    ) -> Self::Descriptor;

    /// Create the client that binds one field of the records of a
    /// descriptor client to an attribute
    fn create_buffer_view_client(
        &mut self,
        attr: VertexAttr,
        ele_type: BufferElementType,
        count: u32,
        byte_offset: u32,
        stride: u32,
        descriptor: &Self::Descriptor,
    ) -> Self::DataAccessor;

    /// Create the client for a stream of indices in the bytes of a buffer
    /// client
    fn create_index_accessor_client(
        &mut self,
        ele_type: BufferElementType,
        count: u32,
        byte_offset: u32,
        buffer: &Self::Buffer,
    ) -> Self::IndexAccessor;

    /// Create the client for a set of vertices, from the client of its
    /// indices, if it has any, and the clients of its attributes, in order
    fn create_vertices_client(
        &mut self,
        indices: Option<&Self::IndexAccessor>,
        attrs: &[(VertexAttr, &Self::DataAccessor)],
    ) -> Self::Vertices;
}

/// A [Renderable] and the account of the requests that were made of it
/// here, oldest first.
///
/// The library creates every client through a [RenderContext]. Each of its
/// methods makes one request of the renderable and adds it to the history
/// with the client that came back, so the history tells how often, in what
/// order and with what the renderable was asked, and what it returned. The
/// history is kept for contracts only, and takes no room when the program
/// runs.
pub struct RenderContext<R: Renderable> {
    renderable: R,
    history: Ghost<Seq<ClientRequest<R>>>,
}

impl<R: Renderable> RenderContext<R> {
    /// The requests that were made, oldest first.
    pub closed spec fn history(&self) -> Seq<ClientRequest<R>> {
        self.history@
    }

    /// The renderable, as it is now.
    pub closed spec fn renderable(&self) -> R {
        self.renderable
    }

    /// Create a context for a renderable, of which nothing was asked yet
    pub fn new(renderable: R) -> (s: Self)
        ensures
            s.history() == Seq::<ClientRequest<R>>::empty(),
            s.renderable() == renderable,
    {
        Self { renderable, history: Ghost(Seq::empty()) }
    }

    /// Borrow the renderable
    pub fn borrow_renderable(&self) -> (r: &R)
        ensures
            *r == self.renderable(),
    {
        &self.renderable
    }

    /// Give the renderable back
    pub fn into_renderable(self) -> (r: R)
        ensures
            r == self.renderable(),
    {
        self.renderable
    }

    /// Ask the renderable for the client for the bytes of a buffer data
    pub fn create_buffer_data_client(&mut self, bytes: &[u8]) -> (client: R::Buffer)
        ensures
            final(self).history() == old(self).history().push(
                ClientRequest::Buffer { bytes: bytes@, client },
            ),
    {
        let client = self.renderable.create_buffer_data_client(bytes);
        proof {
            self.history@ = self.history@.push(ClientRequest::Buffer { bytes: bytes@, client });
        }
        client
    }

    /// Ask the renderable for the client for a descriptor of records of a
    /// given stride and fields, over the bytes of a buffer client
    pub fn create_buffer_desc_client(
        &mut self,
        buffer: &R::Buffer,
        stride: u32,
        elements: &[VertexDesc],
    ) -> (client: R::Descriptor)
        ensures
            final(self).history() == old(self).history().push(
                ClientRequest::Descriptor {
                    buffer: *buffer,
                    stride,
                    elements: element_views(elements@),
                    client,
                },
            ),
    {
        let client = self.renderable.create_buffer_desc_client(buffer, stride, elements);
        proof {
            self.history@ = self.history@.push(
                ClientRequest::Descriptor {
                    buffer: *buffer,
                    stride,
                    elements: element_views(elements@),
                    client,
                },
            );
        }
        client
    }

    /// Ask the renderable for the client that binds one field of the
    /// records of a descriptor client to an attribute
    pub fn create_buffer_view_client(
        &mut self,
        attr: VertexAttr,
        ele_type: BufferElementType,
        count: u32,
        byte_offset: u32,
        stride: u32,
        descriptor: &R::Descriptor,
    ) -> (client: R::DataAccessor)
        ensures
            final(self).history() == old(self).history().push(
                ClientRequest::DataAccessor {
                    attr,
                    ele_type,
                    count,
                    byte_offset,
                    stride,
                    descriptor: *descriptor,
                    client,
                },
            ),
    {
        let client = self.renderable.create_buffer_view_client(
            attr,
            ele_type,
            count,
            byte_offset,
            stride,
            descriptor,
        );
        proof {
            self.history@ = self.history@.push(
                ClientRequest::DataAccessor {
                    attr,
                    ele_type,
                    count,
                    byte_offset,
                    stride,
                    descriptor: *descriptor,
                    client,
                },
            );
        }
        client
    }

    /// Ask the renderable for the client for a stream of indices in the
    /// bytes of a buffer client
    pub fn create_index_accessor_client(
        &mut self,
        ele_type: BufferElementType,
        count: u32,
        byte_offset: u32,
        buffer: &R::Buffer,
    ) -> (client: R::IndexAccessor)
        ensures
            final(self).history() == old(self).history().push(
                ClientRequest::IndexAccessor {
                    ele_type,
                    count,
                    byte_offset,
                    buffer: *buffer,
                    client,
                },
            ),
    {
        let client = self.renderable.create_index_accessor_client(
            ele_type,
            count,
            byte_offset,
            buffer,
        );
        proof {
            self.history@ = self.history@.push(
                ClientRequest::IndexAccessor {
                    ele_type,
                    count,
                    byte_offset,
                    buffer: *buffer,
                    client,
                },
            );
        }
        client
    }

    /// Ask the renderable for the client for a set of vertices, from the
    /// client of its indices, if it has any, and the clients of its
    /// attributes, in order
    pub fn create_vertices_client(
        &mut self,
        indices: Option<&R::IndexAccessor>,
        attrs: &[(VertexAttr, &R::DataAccessor)],
    ) -> (client: R::Vertices)
        ensures
            final(self).history() == old(self).history().push(
                ClientRequest::Vertices {
                    indices: borrowed_client(indices),
                    attrs: attr_clients(attrs@),
                    client,
                },
            ),
    {
        let client = self.renderable.create_vertices_client(indices, attrs);
        proof {
            self.history@ = self.history@.push(
                ClientRequest::Vertices {
                    indices: borrowed_client(indices),
                    attrs: attr_clients(attrs@),
                    client,
                },
            );
        }
        client
    }
}

} // verus!
