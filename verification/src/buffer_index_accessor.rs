//! A stream of indices in a buffer data, and its client.
use vstd::prelude::*;

use crate::buffer_data::BufferData;
use crate::traits::{ClientRequest, RenderContext, Renderable};
use crate::types::BufferElementType;

verus! {

/// What a [BufferIndexAccessor] describes.
pub struct BufferIndexAccessorView {
    /// Index of the buffer data that holds the indices
    pub data: usize,
    /// Number of indices
    pub number_indices: u32,
    /// Type of each index
    pub ele_type: BufferElementType,
    /// Byte offset of the first index within the buffer data
    pub byte_offset: u32,
}

/// A subset of a [BufferData], used for the indices of the vertices that
/// primitives are made of.
///
/// The accessor names its buffer data by the index that the data has in
/// the store that holds both.
pub struct BufferIndexAccessor<R: Renderable> {
    /// Index of the [BufferData] that contains the actual index data
    data: usize,
    /// Number of indices in the buffer
    number_indices: u32,
    /// The type of each element
    ///
    /// For indices this must be UInt8, UInt16 or UInt32
    ele_type: BufferElementType,
    /// Offset from start of buffer to first byte of data
    byte_offset: u32,
    /// The client of the accessor
    client: Option<R::IndexAccessor>,
}

impl<R: Renderable> View for BufferIndexAccessor<R> {
    type V = BufferIndexAccessorView;

    closed spec fn view(&self) -> BufferIndexAccessorView {
        BufferIndexAccessorView {
            data: self.data,
            number_indices: self.number_indices,
            ele_type: self.ele_type,
            byte_offset: self.byte_offset,
        }
    }
}

impl<R: Renderable> BufferIndexAccessor<R> {
    /// The indices are unsigned integers.
    #[verifier::type_invariant]
    spec fn inv(&self) -> bool {
        self.ele_type.spec_is_unsigned_int()
    }

    /// The client, if it has been created.
    pub closed spec fn client(&self) -> Option<R::IndexAccessor> {
        self.client
    }

    /// The request that made the client, given the buffer data with its
    /// client.
    pub open spec fn request(&self, data: &BufferData<R>) -> ClientRequest<R> {
        ClientRequest::IndexAccessor {
            ele_type: self@.ele_type,
            count: self@.number_indices,
            byte_offset: self@.byte_offset,
            buffer: data.client()->0,
            client: self.client()->0,
        }
    }

    /// The request for the accessor itself, if it has no client yet, where
    /// `after` is the accessor and `data_after` its buffer data once they
    /// have their clients.
    pub open spec fn own_pending(&self, after: &Self, data_after: &BufferData<R>) -> Seq<
        ClientRequest<R>,
    > {
        if self.client() is Some {
            Seq::empty()
        } else {
            seq![after.request(data_after)]
        }
    }

    /// The requests that creating the client of the accessor makes, given
    /// its buffer data: those for the client of the buffer data, then one
    /// for the accessor if it has no client yet. `after` and `data_after`
    /// are the accessor and the buffer data once they have their clients.
    pub open spec fn pending(
        &self,
        data: &BufferData<R>,
        after: &Self,
        data_after: &BufferData<R>,
    ) -> Seq<ClientRequest<R>> {
        data.pending(data_after) + self.own_pending(after, data_after)
    }

    /// Create a new index accessor of a [BufferData], which is named by
    /// its index. The indices must be unsigned integers.
    pub fn new(
        data: usize,
        number_indices: u32,
        ele_type: BufferElementType,
        byte_offset: u32,
    ) -> (s: Self)
        requires
            ele_type.spec_is_unsigned_int(),
        ensures
            s@ == (BufferIndexAccessorView { data, number_indices, ele_type, byte_offset }),
            s.client() is None,
    {
        Self { data, number_indices, ele_type, byte_offset, client: None }
    }

    /// Get the index of the underlying [BufferData]
    pub fn data(&self) -> (n: usize)
        ensures
            n == self@.data,
    {
        self.data
    }

    /// Get the number of indices
    pub fn number_indices(&self) -> (n: u32)
        ensures
            n == self@.number_indices,
    {
        self.number_indices
    }

    /// Get the type of each index, which is an unsigned integer
    pub fn ele_type(&self) -> (t: BufferElementType)
        ensures
            t == self@.ele_type,
            t.spec_is_unsigned_int(),
    {
        proof {
            use_type_invariant(self);
        }
        self.ele_type
    }

    /// Get the byte offset of the first index within the [BufferData]
    pub fn byte_offset(&self) -> (n: u32)
        ensures
            n == self@.byte_offset,
    {
        self.byte_offset
    }

    /// Return true if the client has been created
    pub fn has_client(&self) -> (b: bool)
        ensures
            b == (self.client() is Some),
    {
        self.client.is_some()
    }

    /// Take a client, unless there is one already: a client that was set
    /// stays.
    pub fn set_client(&mut self, client: R::IndexAccessor)
        ensures
            final(self)@ == old(self)@,
            final(self).client() == (if old(self).client() is Some {
                old(self).client()
            } else {
                Some(client)
            }),
    {
        proof {
            use_type_invariant(&*self);
        }
        if self.client.is_none() {
            self.client = Some(client);
        }
    }

    /// Create the client of the indices, unless it has been created
    /// before, after the client of its buffer data.
    ///
    /// The buffer data gets its client first, if it has none. Then the
    /// renderer is asked for the client of the indices, if the accessor has
    /// none, with the client of the buffer data. Clients that are there
    /// stay, and if both are there the renderer is left as it is.
    pub fn create_client(&mut self, data: &mut BufferData<R>, renderable: &mut RenderContext<R>)
        ensures
            final(self)@ == old(self)@,
            final(data)@ == old(data)@,
            final(data).client() is Some,
            final(self).client() is Some,
            old(data).client() is Some ==> final(data).client() == old(data).client(),
            old(self).client() is Some ==> final(self).client() == old(self).client(),
            old(data).client() is Some && old(self).client() is Some ==> *final(renderable) == *old(
                renderable,
            ),
            final(renderable).history() == old(renderable).history() + old(self).pending(
                old(data),
                final(self),
                final(data),
            ),
    {
        data.create_client(renderable);
        if self.client.is_none() {
            if let Some(buffer) = data.borrow_client() {
                let client = renderable.create_index_accessor_client(
                    self.ele_type,
                    self.number_indices,
                    self.byte_offset,
                    buffer,
                );
                self.set_client(client);
            }
        }
    }

    /// Borrow the client, if it has been created
    pub fn borrow_client(&self) -> (client: Option<&R::IndexAccessor>)
        ensures
            client is Some == self.client() is Some,
            client matches Some(c) ==> self.client() == Some(*c),
    {
        self.client.as_ref()
    }
}

} // verus!
