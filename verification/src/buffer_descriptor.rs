//! Records of typed fields laid over a buffer data, and their client.
use vstd::prelude::*;

use crate::buffer_data::BufferData;
use crate::traits::{element_views, ClientRequest, RenderContext, Renderable};
use crate::types::{VertexDesc, VertexDescView};

verus! {

/// What a [BufferDescriptor] describes.
pub struct BufferDescriptorView {
    /// Index of the buffer data that holds the records
    pub data: usize,
    /// Byte offset of the first record within the buffer data
    pub byte_offset: u32,
    /// Byte distance between one record and the next
    pub stride: u32,
    /// The fields of a record, in the order in which they were added
    pub elements: Seq<VertexDescView>,
}

impl BufferDescriptorView {
    /// No field of a record ends beyond the stride.
    pub open spec fn stride_covers(self) -> bool {
        forall|i: int|
            0 <= i < self.elements.len() ==> #[trigger] self.elements[i].extent() <= self.stride
    }

}

/// The larger of two numbers.
pub open spec fn larger(a: int, b: int) -> int {
    if a >= b {
        a
    } else {
        b
    }
}

/// The largest byte offset at which a field among some fields ends, or
/// zero if there is no field.
pub open spec fn max_extent(elements: Seq<VertexDescView>) -> int
    decreases elements.len(),
{
    if elements.len() == 0 {
        0
    } else {
        larger(max_extent(elements.drop_last()), elements.last().extent())
    }
}

/// No field ends beyond the largest extent, which is that of one of the
/// fields if there is any, and fits in 32 bits.
pub proof fn lemma_max_extent(elements: Seq<VertexDescView>)
    ensures
        forall|i: int|
            0 <= i < elements.len() ==> #[trigger] elements[i].extent() <= max_extent(elements),
        0 <= max_extent(elements) <= 325635,
        elements.len() > 0 ==> exists|i: int|
            0 <= i < elements.len() && #[trigger] elements[i].extent() == max_extent(elements),
    decreases elements.len(),
{
    if elements.len() > 0 {
        let rest = elements.drop_last();
        lemma_max_extent(rest);
        elements.last().lemma_bounds();
        assert forall|i: int| 0 <= i < elements.len() implies #[trigger] elements[i].extent()
            <= max_extent(elements) by {
            if i < rest.len() {
                assert(rest[i] == elements[i]);
            }
        }
        if max_extent(elements) == elements.last().extent() {
            assert(elements[elements.len() - 1].extent() == max_extent(elements));
        } else {
            let i = choose|i: int|
                0 <= i < rest.len() && #[trigger] rest[i].extent() == max_extent(rest);
            assert(elements[i] == rest[i]);
        }
    }
}

/// A descriptor of a subset of a [BufferData], used for vertex attributes.
///
/// A [BufferDescriptor] allows a portion of a [BufferData] to contain an
/// array of structs with multiple fields for, e.g., Vertex, Normal and
/// Color. A [crate::BufferDataAccessor] then names just one of the fields.
///
/// The descriptor names its buffer data by the index that the data has in
/// the store that holds both.
pub struct BufferDescriptor<R: Renderable> {
    /// Index of the [BufferData] that contains the actual vertex attribute data
    data: usize,
    /// Byte offset to first data inside 'data'
    byte_offset: u32,
    /// Stride of data in the buffer
    ///
    /// This is always at least the maximum of the elements[].byte_offset() + byte_length()
    stride: u32,
    /// Description of the layout of the elements of the actual portion of buffer data
    elements: Vec<VertexDesc>,
    /// The client of the descriptor
    client: Option<R::Descriptor>,
}

impl<R: Renderable> View for BufferDescriptor<R> {
    type V = BufferDescriptorView;

    closed spec fn view(&self) -> BufferDescriptorView {
        BufferDescriptorView {
            data: self.data,
            byte_offset: self.byte_offset,
            stride: self.stride,
            elements: element_views(self.elements@),
        }
    }
}

impl<R: Renderable> BufferDescriptor<R> {
    /// The descriptor is well formed: no field of a record ends beyond
    /// the stride. Every descriptor that [BufferDescriptor::new] makes is,
    /// and stays so.
    pub open spec fn wf(&self) -> bool {
        self@.stride_covers()
    }

    /// The client, if it has been created.
    pub closed spec fn client(&self) -> Option<R::Descriptor> {
        self.client
    }

    /// The request that made the client, given the buffer data with its
    /// client.
    pub open spec fn request(&self, data: &BufferData<R>) -> ClientRequest<R> {
        ClientRequest::Descriptor {
            buffer: data.client()->0,
            stride: self@.stride,
            elements: self@.elements,
            client: self.client()->0,
        }
    }

    /// The request for the descriptor itself, if it has no client yet,
    /// where `after` is the descriptor and `data_after` its buffer data once
    /// they have their clients.
    pub open spec fn own_pending(&self, after: &Self, data_after: &BufferData<R>) -> Seq<
        ClientRequest<R>,
    > {
        if self.client() is Some {
            Seq::empty()
        } else {
            seq![after.request(data_after)]
        }
    }

    /// The requests that creating the client of the descriptor makes, given
    /// its buffer data: those for the client of the buffer data, then one
    /// for the descriptor if it has no client yet. `after` and `data_after`
    /// are the descriptor and the buffer data once they have their clients.
    pub open spec fn pending(
        &self,
        data: &BufferData<R>,
        after: &Self,
        data_after: &BufferData<R>,
    ) -> Seq<ClientRequest<R>> {
        data.pending(data_after) + self.own_pending(after, data_after)
    }

    /// Get the index of the underlying [BufferData]
    pub fn data(&self) -> (n: usize)
        ensures
            n == self@.data,
    {
        self.data
    }

    /// Get the byte offset within the underlying [BufferData] for
    /// this descriptor
    pub fn byte_offset(&self) -> (n: u32)
        ensures
            n == self@.byte_offset,
    {
        self.byte_offset
    }

    /// Get the byte stride between different indices for the instances for
    /// this descriptor
    pub fn stride(&self) -> (n: u32)
        ensures
            n == self@.stride,
    {
        self.stride
    }

    /// Get the number of fields of a record
    pub fn num_elements(&self) -> (n: usize)
        ensures
            n == self@.elements.len(),
    {
        self.elements.len()
    }

    /// Get a reference to the n'th element
    pub fn element(&self, n: usize) -> (e: &VertexDesc)
        requires
            n < self@.elements.len(),
        ensures
            e@ == self@.elements[n as int],
    {
        &self.elements[n]
    }

    /// Create a new view of a [BufferData], which is named by its index.
    ///
    /// The stride is the one given, or the largest extent of a field if
    /// that is larger.
    pub fn new(data: usize, byte_offset: u32, stride: u32, elements: Vec<VertexDesc>) -> (s: Self)
        ensures
            s@.data == data,
            s@.byte_offset == byte_offset,
            s@.elements == element_views(elements@),
            s@.stride == larger(stride as int, max_extent(element_views(elements@))),
            s.wf(),
            s.client() is None,
    {
        let mut stride = stride;
        let ghost views = element_views(elements@);
        let ghost given = stride as int;
        let mut i: usize = 0;
        while i < elements.len()
            invariant
                i <= elements.len(),
                views == element_views(elements@),
                stride == larger(given, max_extent(views.take(i as int))),
            decreases elements.len() - i,
        {
            let extent = elements[i].extent();
            proof {
                assert(views.take(i + 1).drop_last() == views.take(i as int));
                assert(views.take(i + 1).last() == elements[i as int]@);
            }
            if extent > stride {
                stride = extent;
            }
            i += 1;
        }
        proof {
            assert(views.take(elements.len() as int) == views);
            lemma_max_extent(views);
        }
        Self { data, byte_offset, stride, elements, client: None }
    }

    /// Add a field to the records, and return its index among the fields.
    ///
    /// The stride grows to the extent of the field if that is larger, and
    /// never shrinks. A record can have 256 fields.
    pub fn add_vertex_desc(&mut self, vertex_desc: VertexDesc) -> (n: u8)
        requires
            old(self).wf(),
            old(self)@.elements.len() < 256,
        ensures
            n == old(self)@.elements.len(),
            final(self)@.elements == old(self)@.elements.push(vertex_desc@),
            final(self)@.stride == larger(old(self)@.stride as int, vertex_desc@.extent()),
            final(self)@.data == old(self)@.data,
            final(self)@.byte_offset == old(self)@.byte_offset,
            final(self).wf(),
            final(self).client() == old(self).client(),
    {
        let n = self.elements.len() as u8;
        let extent = vertex_desc.extent();
        if extent > self.stride {
            self.stride = extent;
        }
        self.elements.push(vertex_desc);
        proof {
            assert(element_views(self.elements@) == element_views(old(self).elements@).push(
                vertex_desc@,
            ));
        }
        n
    }

    /// Return true if the client has been created
    pub fn has_client(&self) -> (b: bool)
        ensures
            b == (self.client() is Some),
    {
        self.client.is_some()
    }

    /// Take a client, unless there is one already: a client that was set
    /// stays.
    pub fn set_client(&mut self, client: R::Descriptor)
        ensures
            final(self)@ == old(self)@,
            final(self).client() == (if old(self).client() is Some {
                old(self).client()
            } else {
                Some(client)
            }),
    {
        if self.client.is_none() {
            self.client = Some(client);
        }
    }

    /// Create the client of the descriptor, unless it has been created
    /// before, after the client of its buffer data.
    ///
    /// The buffer data gets its client first, if it has none. Then the
    /// renderer is asked for the client of the descriptor, if it has none,
    /// with the client of the buffer data. Clients that are there stay, and
    /// if both are there the renderer is left as it is.
    pub fn create_client(&mut self, data: &mut BufferData<R>, renderable: &mut RenderContext<R>)
        ensures
            final(self)@ == old(self)@,
            final(data)@ == old(data)@,
            final(data).client() is Some,
            final(self).client() is Some,
            old(data).client() is Some ==> final(data).client() == old(data).client(),
            old(self).client() is Some ==> final(self).client() == old(self).client(),
            old(data).client() is Some && old(self).client() is Some ==> *final(renderable) == *old(
                renderable,
            ),
            final(renderable).history() == old(renderable).history() + old(self).pending(
                old(data),
                final(self),
                final(data),
            ),
    {
        data.create_client(renderable);
        if self.client.is_none() {
            if let Some(buffer) = data.borrow_client() {
                let client = renderable.create_buffer_desc_client(
                    buffer,
                    self.stride,
                    self.elements.as_slice(),
                );
                self.set_client(client);
            }
        }
    }

    /// Borrow the client, if it has been created
    pub fn borrow_client(&self) -> (client: Option<&R::Descriptor>)
        ensures
            client is Some == self.client() is Some,
            client matches Some(c) ==> self.client() == Some(*c),
    {
        self.client.as_ref()
    }
}

} // verus!
