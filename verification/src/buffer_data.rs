//! A range of the bytes of a byte buffer, and its client.
use std::rc::Rc;
use vstd::prelude::*;

use crate::traits::{ClientRequest, RenderContext, Renderable};

verus! {

/// What a [BufferData] describes: a byte buffer and a range of it.
pub struct BufferDataView {
    /// The bytes of the whole byte buffer
    pub container: Seq<u8>,
    /// Offset of the first byte of the range
    pub byte_offset: u32,
    /// Number of bytes in the range
    pub byte_length: u32,
}

impl BufferDataView {
    /// The range lies within the byte buffer.
    pub open spec fn in_bounds(self) -> bool {
        self.byte_offset + self.byte_length <= self.container.len()
    }

    /// The bytes of the range.
    pub open spec fn bytes(self) -> Seq<u8> {
        self.container.subrange(
            self.byte_offset as int,
            self.byte_offset + self.byte_length,
        )
    }
}

/// The number of bytes in the range that a byte offset and a byte length
/// ask for: a byte length of zero asks for all the bytes from the offset on.
pub open spec fn range_length(container_len: int, byte_offset: u32, byte_length: u32) -> int {
    if byte_length == 0 {
        container_len - byte_offset
    } else {
        byte_length as int
    }
}

/// Whether the range that a byte offset and a byte length ask for lies
/// within a byte buffer of a given length, and its length can be held.
pub open spec fn range_fits(container_len: int, byte_offset: u32, byte_length: u32) -> bool {
    &&& byte_offset + byte_length <= container_len
    &&& range_length(container_len, byte_offset, byte_length) <= u32::MAX
}

/// A range that ends beyond the end of the byte buffer never fits: no
/// range is cut down to the bytes that are there.
pub proof fn lemma_range_beyond_end_never_fits(
    container_len: int,
    byte_offset: u32,
    byte_length: u32,
)
    requires
        byte_offset + byte_length > container_len,
    ensures
        !range_fits(container_len, byte_offset, byte_length),
{
}

/// A range with a byte length that is not zero, which ends within the
/// byte buffer, fits, and has that byte length.
pub proof fn lemma_range_within_fits(container_len: int, byte_offset: u32, byte_length: u32)
    requires
        byte_length != 0,
        byte_offset + byte_length <= container_len,
    ensures
        range_fits(container_len, byte_offset, byte_length),
        range_length(container_len, byte_offset, byte_length) == byte_length,
{
}

/// A data buffer for use with vertex data. It may be indices or vertex
/// coordinates etc.
///
/// A data buffer may contain a lot of data per vertex, such as position,
/// normal, tangent, color etc. A view on the data is then a subset of this
/// data - perhaps picking out just the position, for example, for a set of
/// vertices.
///
/// A data buffer may be used by many descriptors and accessors. It holds
/// the one client of its bytes, which a [Renderable] creates when it is
/// first asked for; the bytes themselves are shared with the byte buffer,
/// never copied.
pub struct BufferData<R: Renderable> {
    /// Data buffer itself
    data: Rc<Vec<u8>>,
    /// Offset of the first byte used within the data
    byte_offset: u32,
    /// Length of data used in the buffer
    byte_length: u32,
    /// The client bound to data\[byte_offset\] .. + byte_length
    client: Option<R::Buffer>,
}

/// Another handle on the same byte buffer.
///
/// This is `Rc::clone`: the result points at the allocation that the
/// argument points at, so it holds the same bytes. That is taken from the
/// documentation of `Rc` and not proved.
#[verifier::external_body]
fn share_bytes(data: &Rc<Vec<u8>>) -> (shared: Rc<Vec<u8>>)
    ensures
        shared == *data,
{
    Rc::clone(data)
}

impl<R: Renderable> View for BufferData<R> {
    type V = BufferDataView;

    closed spec fn view(&self) -> BufferDataView {
        BufferDataView {
            container: (*self.data)@,
            byte_offset: self.byte_offset,
            byte_length: self.byte_length,
        }
    }
}

impl<R: Renderable> BufferData<R> {
    /// The range lies within the byte buffer.
    #[verifier::type_invariant]
    spec fn inv(&self) -> bool {
        self.byte_offset + self.byte_length <= (*self.data)@.len()
    }

    /// The client, if it has been created.
    pub closed spec fn client(&self) -> Option<R::Buffer> {
        self.client
    }

    /// The bytes of the range.
    pub open spec fn bytes(&self) -> Seq<u8> {
        self@.bytes()
    }

    /// The request that made the client: for the bytes of the range.
    pub open spec fn request(&self) -> ClientRequest<R> {
        ClientRequest::Buffer { bytes: self.bytes(), client: self.client()->0 }
    }

    /// The requests that creating the client makes, where `after` is the
    /// buffer data once it has its client: the one that made that client
    /// if there is no client yet, and none if there is one.
    pub open spec fn pending(&self, after: &Self) -> Seq<ClientRequest<R>> {
        if self.client() is Some {
            Seq::empty()
        } else {
            seq![after.request()]
        }
    }

    /// Get the byte length of the [BufferData]
    pub fn byte_length(&self) -> (n: u32)
        ensures
            n == self@.byte_length,
            self@.in_bounds(),
    {
        proof {
            use_type_invariant(self);
        }
        self.byte_length
    }

    /// Get the byte offset within the underlying data of the [BufferData]
    pub fn byte_offset(&self) -> (n: u32)
        ensures
            n == self@.byte_offset,
            self@.in_bounds(),
    {
        proof {
            use_type_invariant(self);
        }
        self.byte_offset
    }

    /// Return true if the range that a byte offset and a byte length ask
    /// for lies within a byte buffer of a given length
    pub fn fits(container_len: usize, byte_offset: u32, byte_length: u32) -> (b: bool)
        ensures
            b == range_fits(container_len as int, byte_offset, byte_length),
    {
        if byte_offset as u64 + byte_length as u64 > container_len as u64 {
            false
        } else if byte_length == 0 {
            container_len as u64 - byte_offset as u64 <= u32::MAX as u64
        } else {
            true
        }
    }

    /// Create a new [BufferData] given a buffer, offset and length; if the
    /// length is zero then the whole of the data buffer post offset
    /// is used
    ///
    /// If offset and length are both zero, then all the data is used
    pub fn new(data: &Rc<Vec<u8>>, byte_offset: u32, byte_length: u32) -> (s: Self)
        requires
            range_fits(data@.len() as int, byte_offset, byte_length),
        ensures
            s@.container == data@,
            s@.byte_offset == byte_offset,
            s@.byte_length == range_length(data@.len() as int, byte_offset, byte_length),
            s@.in_bounds(),
            s.client() is None,
    {
        let byte_length = if byte_length == 0 {
            (data.len() as u64 - byte_offset as u64) as u32
        } else {
            byte_length
        };
        Self { data: share_bytes(data), byte_offset, byte_length, client: None }
    }

    /// Create a new [BufferData] as [BufferData::new] does, if the range
    /// lies within the buffer
    pub fn try_new(data: &Rc<Vec<u8>>, byte_offset: u32, byte_length: u32) -> (r: Option<Self>)
        ensures
            r is Some == range_fits(data@.len() as int, byte_offset, byte_length),
            r matches Some(s) ==> {
                &&& s@.container == data@
                &&& s@.byte_offset == byte_offset
                &&& s@.byte_length == range_length(data@.len() as int, byte_offset, byte_length)
                &&& s@.in_bounds()
                &&& s.client() is None
            },
    {
        if Self::fits(data.len(), byte_offset, byte_length) {
            Some(Self::new(data, byte_offset, byte_length))
        } else {
            None
        }
    }

    /// Borrow the bytes of the range, which are those of the byte buffer
    /// from the byte offset on, as many as the byte length
    pub fn as_bytes(&self) -> (bytes: &[u8])
        ensures
            bytes@ == self.bytes(),
            bytes@.len() == self@.byte_length,
    {
        proof {
            use_type_invariant(self);
        }
        let container = self.data.as_slice();
        let start = self.byte_offset as usize;
        let length = self.byte_length as usize;
        assert(start + length <= container.len());
        vstd::slice::slice_subrange(container, start, start + length)
    }

    /// Return true if the client has been created
    pub fn has_client(&self) -> (b: bool)
        ensures
            b == (self.client() is Some),
    {
        self.client.is_some()
    }

    /// Take a client, unless there is one already: a client that was set
    /// stays.
    pub fn set_client(&mut self, client: R::Buffer)
        ensures
            final(self)@ == old(self)@,
            final(self).client() == (if old(self).client() is Some {
                old(self).client()
            } else {
                Some(client)
            }),
    {
        proof {
            use_type_invariant(&*self);
        }
        if self.client.is_none() {
            self.client = Some(client);
        }
    }

    /// Create the client of the bytes, unless it has been created
    /// before.
    ///
    /// The renderer is asked for a client only if there is none: then it
    /// gets one request, for the bytes of the range, and the client that
    /// it returns is kept. If there is a client already, it stays and the
    /// renderer is left as it is.
    pub fn create_client(&mut self, renderable: &mut RenderContext<R>)
        ensures
            final(self)@ == old(self)@,
            final(self).client() is Some,
            old(self).client() is Some ==> final(self).client() == old(self).client()
                && *final(renderable) == *old(renderable),
            final(renderable).history() == old(renderable).history() + old(self).pending(
                final(self),
            ),
    {
        if self.client.is_none() {
            let client = renderable.create_buffer_data_client(self.as_bytes());
            self.set_client(client);
        }
    }

    /// Borrow the client, if it has been created
    pub fn borrow_client(&self) -> (client: Option<&R::Buffer>)
        ensures
            client is Some == self.client() is Some,
            client matches Some(c) ==> self.client() == Some(*c),
    {
        self.client.as_ref()
    }
}

} // verus!
