//! One field of the records of a descriptor, and its client.
use vstd::prelude::*;

use crate::buffer_data::BufferData;
use crate::buffer_descriptor::{BufferDescriptor, BufferDescriptorView};
use crate::traits::{ClientRequest, RenderContext, Renderable};
use crate::types::{BufferElementType, VertexAttr, VertexDesc, VertexDescView};

verus! {

/// What a [BufferDataAccessor] describes.
pub struct BufferDataAccessorView {
    /// Index of the descriptor that the field belongs to
    pub desc: usize,
    /// Index of the field among the fields of the descriptor
    pub desc_index: u8,
    /// Byte offset of the first record within the buffer data
    pub record_offset: u32,
    /// The field
    pub vertex_desc: VertexDescView,
}

impl BufferDataAccessorView {
    /// The byte offset of the field of the first record within the buffer
    /// data: that of the record plus that of the field within the record.
    pub open spec fn byte_offset(self) -> int {
        self.record_offset + self.vertex_desc.byte_offset
    }

    /// The accessor names a field of the descriptor with a given index, as
    /// the descriptor has it.
    pub open spec fn names_field_of(self, desc: usize, descriptor: BufferDescriptorView) -> bool {
        &&& self.desc == desc
        &&& self.desc_index < descriptor.elements.len()
        &&& self.vertex_desc == descriptor.elements[self.desc_index as int]
        &&& self.record_offset == descriptor.byte_offset
    }

}

/// A subset of a [BufferData], used for vertex attributes; hence for use
/// in a vertex attribute pointer.
///
/// A [BufferDataAccessor] is used for a single attribute of a set of data,
/// such as Position or Normal. It names one field of a
/// [BufferDescriptor], by the index of the descriptor in the store that
/// holds both and the index of the field among the fields of the
/// descriptor, and keeps a copy of what the descriptor says of the field.
pub struct BufferDataAccessor<R: Renderable> {
    /// Index of the [BufferDescriptor] that describes the records
    desc: usize,
    /// Element index in the [BufferDescriptor]
    desc_index: u8,
    /// Byte offset of the first record, as the descriptor has it
    record_offset: u32,
    /// The field, as the descriptor has it
    vertex_desc: VertexDesc,
    /// The client of the accessor
    client: Option<R::DataAccessor>,
}

impl<R: Renderable> View for BufferDataAccessor<R> {
    type V = BufferDataAccessorView;

    closed spec fn view(&self) -> BufferDataAccessorView {
        BufferDataAccessorView {
            desc: self.desc,
            desc_index: self.desc_index,
            record_offset: self.record_offset,
            vertex_desc: self.vertex_desc@,
        }
    }
}

impl<R: Renderable> BufferDataAccessor<R> {
    /// The byte offset of the field within the buffer data fits in 32
    /// bits.
    #[verifier::type_invariant]
    spec fn inv(&self) -> bool {
        self.record_offset + self.vertex_desc@.byte_offset <= u32::MAX
    }

    /// The client, if it has been created.
    pub closed spec fn client(&self) -> Option<R::DataAccessor> {
        self.client
    }

    /// The request that made the client, which binds the field to an
    /// attribute, given the descriptor with its client.
    pub open spec fn request(&self, attr: VertexAttr, desc: &BufferDescriptor<R>) -> ClientRequest<
        R,
    > {
        ClientRequest::DataAccessor {
            attr,
            ele_type: self@.vertex_desc.ele_type,
            count: self@.vertex_desc.count() as u32,
            byte_offset: self@.byte_offset() as u32,
            stride: desc@.stride,
            descriptor: desc.client()->0,
            client: self.client()->0,
        }
    }

    /// The request for the accessor itself, if it has no client yet, where
    /// `after` is the accessor and `desc_after` its descriptor once they
    /// have their clients.
    pub open spec fn own_pending(
        &self,
        attr: VertexAttr,
        after: &Self,
        desc_after: &BufferDescriptor<R>,
    ) -> Seq<ClientRequest<R>> {
        if self.client() is Some {
            Seq::empty()
        } else {
            seq![after.request(attr, desc_after)]
        }
    }

    /// The requests that creating the client of the accessor makes, given
    /// its descriptor and the buffer data of that: those for the client of
    /// the descriptor, then one for the accessor if it has no client yet.
    /// `after`, `desc_after` and `data_after` are the accessor, the
    /// descriptor and the buffer data once they have their clients.
    pub open spec fn pending(
        &self,
        attr: VertexAttr,
        desc: &BufferDescriptor<R>,
        data: &BufferData<R>,
        after: &Self,
        desc_after: &BufferDescriptor<R>,
        data_after: &BufferData<R>,
    ) -> Seq<ClientRequest<R>> {
        desc.pending(data, desc_after, data_after) + self.own_pending(attr, after, desc_after)
    }

    /// Create a new accessor for the field with index `desc_index` of a
    /// descriptor, which has the index `desc` in its store.
    ///
    /// The descriptor must have that field, and the byte offset of the
    /// field within the buffer data must fit in 32 bits.
    pub fn new(desc: usize, descriptor: &BufferDescriptor<R>, desc_index: u8) -> (s: Self)
        requires
            desc_index < descriptor@.elements.len(),
            descriptor@.byte_offset + descriptor@.elements[desc_index as int].byte_offset
                <= u32::MAX,
        ensures
            s@.names_field_of(desc, descriptor@),
            s@.desc_index == desc_index,
            s@.byte_offset() <= u32::MAX,
            s.client() is None,
    {
        Self {
            desc,
            desc_index,
            record_offset: descriptor.byte_offset(),
            vertex_desc: *descriptor.element(desc_index as usize),
            client: None,
        }
    }

    /// Return true if the client has been created
    pub fn has_client(&self) -> (b: bool)
        ensures
            b == (self.client() is Some),
    {
        self.client.is_some()
    }

    /// Take a client, unless there is one already: a client that was set
    /// stays.
    pub fn set_client(&mut self, client: R::DataAccessor)
        ensures
            final(self)@ == old(self)@,
            final(self).client() == (if old(self).client() is Some {
                old(self).client()
            } else {
                Some(client)
            }),
    {
        proof {
            use_type_invariant(&*self);
        }
        if self.client.is_none() {
            self.client = Some(client);
        }
    }

    /// Create the client of the accessor for an attribute, unless it has
    /// been created before, after the clients of its descriptor and of the
    /// buffer data of that.
    ///
    /// The buffer data and the descriptor get their clients first, in that
    /// order, where they have none. Then the renderer is asked for the
    /// client that binds the field to the attribute, if the accessor has
    /// none, with the client of the descriptor. Clients that are there
    /// stay, and if all three are there the renderer is left as it is.
    pub fn create_client(
        &mut self,
        attr: VertexAttr,
        desc: &mut BufferDescriptor<R>,
        data: &mut BufferData<R>,
        renderable: &mut RenderContext<R>,
    )
        ensures
            final(self)@ == old(self)@,
            final(desc)@ == old(desc)@,
            final(data)@ == old(data)@,
            final(data).client() is Some,
            final(desc).client() is Some,
            final(self).client() is Some,
            old(data).client() is Some ==> final(data).client() == old(data).client(),
            old(desc).client() is Some ==> final(desc).client() == old(desc).client(),
            old(self).client() is Some ==> final(self).client() == old(self).client(),
            old(data).client() is Some && old(desc).client() is Some && old(self).client() is Some
                ==> *final(renderable) == *old(renderable),
            final(renderable).history() == old(renderable).history() + old(self).pending(
                attr,
                old(desc),
                old(data),
                final(self),
                final(desc),
                final(data),
            ),
    {
        desc.create_client(data, renderable);
        if self.client.is_none() {
            if let Some(descriptor) = desc.borrow_client() {
                let client = renderable.create_buffer_view_client(
                    attr,
                    self.ele_type(),
                    self.count(),
                    self.byte_offset(),
                    desc.stride(),
                    descriptor,
                );
                self.set_client(client);
            }
        }
    }

    /// Borrow the client, if it has been created
    pub fn borrow_client(&self) -> (client: Option<&R::DataAccessor>)
        ensures
            client is Some == self.client() is Some,
            client matches Some(c) ==> self.client() == Some(*c),
    {
        self.client.as_ref()
    }

    /// Get the index of the descriptor that the field belongs to
    pub fn desc(&self) -> (n: usize)
        ensures
            n == self@.desc,
    {
        self.desc
    }

    /// Get the index of the field among the fields of the descriptor
    pub fn desc_index(&self) -> (n: u8)
        ensures
            n == self@.desc_index,
    {
        self.desc_index
    }

    /// Retrieve the description of the field
    pub fn vertex_desc(&self) -> (d: &VertexDesc)
        ensures
            d@ == self@.vertex_desc,
    {
        &self.vertex_desc
    }

    /// Retrieve the vertex attribute this field is for
    pub fn vertex_attr(&self) -> (a: VertexAttr)
        ensures
            a == self@.vertex_desc.attr,
    {
        self.vertex_desc.vertex_attr()
    }

    /// Retrieve the byte_offset within the [BufferData] for this field:
    /// the offset of the field within a record plus the offset of the
    /// first record
    pub fn byte_offset(&self) -> (n: u32)
        ensures
            n == self@.byte_offset(),
    {
        proof {
            use_type_invariant(self);
        }
        self.vertex_desc.byte_offset() as u32 + self.record_offset
    }

    /// Retrieve the [BufferElementType] of the field
    pub fn ele_type(&self) -> (t: BufferElementType)
        ensures
            t == self@.vertex_desc.ele_type,
    {
        self.vertex_desc.ele_type()
    }

    /// Get the count of the number of elements in the field
    pub fn count(&self) -> (n: u32)
        ensures
            n == self@.vertex_desc.count(),
    {
        self.vertex_desc.count()
    }

    /// Get the byte length of the field
    pub fn byte_length(&self) -> (n: u32)
        ensures
            n == self@.vertex_desc.byte_length(),
    {
        self.vertex_desc.byte_length()
    }
}

} // verus!
