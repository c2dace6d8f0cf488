//! Stores that only grow: byte buffers, the objects that describe their
//! contents, and sets of vertices. An object is named by the index that it
//! got when it was pushed, and that index names it for good.
use std::rc::Rc;
use vstd::prelude::*;

use crate::buffer_data::{range_fits, range_length, BufferData, BufferDataView};
use crate::buffer_data_accessor::{BufferDataAccessor, BufferDataAccessorView};
use crate::buffer_descriptor::{larger, BufferDescriptor, BufferDescriptorView};
use crate::buffer_index_accessor::{BufferIndexAccessor, BufferIndexAccessorView};
use crate::example_objects::layout::{Clients, Handles, Layout};
use crate::traits::{RenderContext, Renderable};
use crate::types::{BufferElementType, ShortIndex, VertexAttr, VertexDesc};
use crate::vertices::{attrs_built, attrs_sorted, last_added, Vertices};

verus! {

/// A monotonically increasing [Vec] of byte buffers, which are immutable
/// once added to the struct.
///
/// Each buffer has an allocation of its own, which never moves: pushing a
/// buffer leaves the bytes of the others where they are.
pub struct Buffers {
    buffers: Vec<Rc<Vec<u8>>>,
}

impl View for Buffers {
    type V = Seq<Seq<u8>>;

    /// The bytes of each buffer, in the order in which they were pushed.
    closed spec fn view(&self) -> Seq<Seq<u8>> {
        self.buffers@.map_values(|b: Rc<Vec<u8>>| (*b)@)
    }
}

impl Buffers {
    /// Create a new empty [Buffers]
    pub fn new() -> (s: Self)
        ensures
            s@ == Seq::<Seq<u8>>::empty(),
    {
        let s = Self { buffers: Vec::new() };
        assert(s@ =~= Seq::<Seq<u8>>::empty());
        s
    }

    /// Get the number of buffers
    pub fn len(&self) -> (n: usize)
        ensures
            n == self@.len(),
    {
        self.buffers.len()
    }

    /// Push a new byte buffer and return its index
    pub fn push(&mut self, buffer: Vec<u8>) -> (n: usize)
        ensures
            n == old(self)@.len(),
            final(self)@ == old(self)@.push(buffer@),
    {
        let n = self.buffers.len();
        self.buffers.push(Rc::new(buffer));
        assert(self@ =~= old(self)@.push(buffer@));
        n
    }

    /// Get a reference to one of the buffers held by self
    pub fn buffer(&self, n: usize) -> (b: &Rc<Vec<u8>>)
        requires
            n < self@.len(),
        ensures
            b@ == self@[n as int],
    {
        &self.buffers[n]
    }
}

/// The store of the objects that describe the contents of byte buffers:
/// buffer data, descriptors, index accessors and data accessors.
///
/// An object is pushed once and stays at its index; the objects name each
/// other by these indices. The store creates the clients of its objects on
/// request, each once, and those that an object depends on before its own.
pub struct DataAccessors<R: Renderable> {
    data: Vec<BufferData<R>>,
    descriptors: Vec<BufferDescriptor<R>>,
    index_accessors: Vec<BufferIndexAccessor<R>>,
    data_accessors: Vec<BufferDataAccessor<R>>,
}

impl<R: Renderable> DataAccessors<R> {
    /// The buffer data, in the order in which they were pushed.
    pub closed spec fn data_seq(&self) -> Seq<BufferData<R>> {
        self.data@
    }

    /// The descriptors, in the order in which they were pushed.
    pub closed spec fn descriptor_seq(&self) -> Seq<BufferDescriptor<R>> {
        self.descriptors@
    }

    /// The index accessors, in the order in which they were pushed.
    pub closed spec fn index_accessor_seq(&self) -> Seq<BufferIndexAccessor<R>> {
        self.index_accessors@
    }

    /// The data accessors, in the order in which they were pushed.
    pub closed spec fn data_accessor_seq(&self) -> Seq<BufferDataAccessor<R>> {
        self.data_accessors@
    }

    /// What the objects describe.
    pub open spec fn layout(&self) -> Layout {
        Layout {
            data: self.data_seq().map_values(|d: BufferData<R>| d@),
            descriptors: self.descriptor_seq().map_values(|d: BufferDescriptor<R>| d@),
            index_accessors: self.index_accessor_seq().map_values(|a: BufferIndexAccessor<R>| a@),
            data_accessors: self.data_accessor_seq().map_values(|a: BufferDataAccessor<R>| a@),
        }
    }

    /// The clients of the objects, as far as they have one.
    pub open spec fn handles(&self) -> Handles<R> {
        Handles {
            data: self.data_seq().map_values(|d: BufferData<R>| d.client()),
            descriptors: self.descriptor_seq().map_values(|d: BufferDescriptor<R>| d.client()),
            index_accessors: self.index_accessor_seq().map_values(
                |a: BufferIndexAccessor<R>| a.client(),
            ),
            data_accessors: self.data_accessor_seq().map_values(
                |a: BufferDataAccessor<R>| a.client(),
            ),
        }
    }

    /// Which of the objects have a client.
    pub open spec fn clients(&self) -> Clients {
        self.handles().clients()
    }

    /// The store is well formed: its layout is.
    pub open spec fn wf(&self) -> bool {
        self.layout().wf()
    }

    /// Every client that `before` has, `self` has at the same index, and
    /// it is the same client.
    pub open spec fn keeps_clients_of(&self, before: &Self) -> bool {
        self.handles().keeps(before.handles())
    }

    /// Create a new [DataAccessors], which holds nothing
    pub fn new() -> (s: Self)
        ensures
            s.wf(),
            s.layout() == Layout::empty(),
            s.handles() == Handles::<R>::none(),
            s.clients() == Clients::none(),
    {
        let s = Self {
            data: Vec::new(),
            descriptors: Vec::new(),
            index_accessors: Vec::new(),
            data_accessors: Vec::new(),
        };
        proof {
            assert(s.layout().data =~= Seq::empty());
            assert(s.layout().descriptors =~= Seq::empty());
            assert(s.layout().index_accessors =~= Seq::empty());
            assert(s.layout().data_accessors =~= Seq::empty());
            assert(s.clients().data =~= Set::empty());
            assert(s.clients().descriptors =~= Set::empty());
            assert(s.clients().index_accessors =~= Set::empty());
            assert(s.clients().data_accessors =~= Set::empty());
            assert(s.handles().data =~= Seq::empty());
            assert(s.handles().descriptors =~= Seq::empty());
            assert(s.handles().index_accessors =~= Seq::empty());
            assert(s.handles().data_accessors =~= Seq::empty());
        }
        s
    }

    /// Get the number of buffer data
    pub fn num_buffer_data(&self) -> (n: usize)
        ensures
            n == self.layout().data.len(),
    {
        self.data.len()
    }

    /// Get the number of descriptors
    pub fn num_descriptors(&self) -> (n: usize)
        ensures
            n == self.layout().descriptors.len(),
    {
        self.descriptors.len()
    }

    /// Get the number of index accessors
    pub fn num_index_accessors(&self) -> (n: usize)
        ensures
            n == self.layout().index_accessors.len(),
    {
        self.index_accessors.len()
    }

    /// Get the number of data accessors
    pub fn num_data_accessors(&self) -> (n: usize)
        ensures
            n == self.layout().data_accessors.len(),
    {
        self.data_accessors.len()
    }

    /// Push a new [BufferData] that is a portion of a buffer, and return
    /// its index. The objects that are there stay as they are.
    pub fn push_buffer_data(
        &mut self,
        buffers: &Buffers,
        buffer_n: usize,
        byte_offset: u32,
        byte_length: u32,
    ) -> (n: usize)
        requires
            old(self).wf(),
            buffer_n < buffers@.len(),
            range_fits(buffers@[buffer_n as int].len() as int, byte_offset, byte_length),
        ensures
            n == old(self).layout().data.len(),
            final(self).layout() == (Layout {
                data: old(self).layout().data.push(
                    BufferDataView {
                        container: buffers@[buffer_n as int],
                        byte_offset,
                        byte_length: range_length(
                            buffers@[buffer_n as int].len() as int,
                            byte_offset,
                            byte_length,
                        ) as u32,
                    },
                ),
                ..old(self).layout()
            }),
            final(self).layout().extends(old(self).layout()),
            final(self).clients() == old(self).clients(),
            final(self).keeps_clients_of(old(self)),
            final(self).wf(),
    {
        let n = self.data.len();
        let data = BufferData::new(buffers.buffer(buffer_n), byte_offset, byte_length);
        self.data.push(data);
        proof {
            assert(self.layout().data =~= old(self).layout().data.push(data@));
            assert(self.clients().data =~= old(self).clients().data);
        }
        n
    }

    /// Create a new [BufferIndexAccessor] on a particular [BufferData]
    /// instance that has already been pushed, and return its index. The
    /// objects that are there stay as they are.
    pub fn push_index_accessor(
        &mut self,
        data: usize,
        num: u32,
        et: BufferElementType,
        ofs: u32,
    ) -> (n: usize)
        requires
            old(self).wf(),
            data < old(self).layout().data.len(),
            et.spec_is_unsigned_int(),
        ensures
            n == old(self).layout().index_accessors.len(),
            final(self).layout() == (Layout {
                index_accessors: old(self).layout().index_accessors.push(
                    BufferIndexAccessorView {
                        data,
                        number_indices: num,
                        ele_type: et,
                        byte_offset: ofs,
                    },
                ),
                ..old(self).layout()
            }),
            final(self).layout().extends(old(self).layout()),
            final(self).clients() == old(self).clients(),
            final(self).keeps_clients_of(old(self)),
            final(self).wf(),
    {
        let n = self.index_accessors.len();
        let accessor = BufferIndexAccessor::new(data, num, et, ofs);
        self.index_accessors.push(accessor);
        proof {
            assert(self.layout().index_accessors =~= old(self).layout().index_accessors.push(
                accessor@,
            ));
            assert(self.clients().index_accessors =~= old(self).clients().index_accessors);
        }
        n
    }

    /// Create a new [BufferDescriptor] with no fields on a particular
    /// [BufferData] instance that has already been pushed, and return its
    /// index. The objects that are there stay as they are.
    pub fn push_descriptor(&mut self, data: usize, byte_offset: u32, stride: u32) -> (n: usize)
        requires
            old(self).wf(),
            data < old(self).layout().data.len(),
        ensures
            n == old(self).layout().descriptors.len(),
            final(self).layout() == (Layout {
                descriptors: old(self).layout().descriptors.push(
                    BufferDescriptorView { data, byte_offset, stride, elements: Seq::empty() },
                ),
                ..old(self).layout()
            }),
            final(self).layout().extends(old(self).layout()),
            final(self).clients() == old(self).clients(),
            final(self).keeps_clients_of(old(self)),
            final(self).wf(),
    {
        let n = self.descriptors.len();
        let desc = BufferDescriptor::new(data, byte_offset, stride, Vec::new());
        proof {
            assert(desc@.elements =~= Seq::empty());
            assert(desc@ == (BufferDescriptorView {
                data,
                byte_offset,
                stride,
                elements: Seq::empty(),
            }));
        }
        self.descriptors.push(desc);
        proof {
            assert(self.layout().descriptors =~= old(self).layout().descriptors.push(desc@));
            assert(self.clients().descriptors =~= old(self).clients().descriptors);
        }
        n
    }

    /// Add a field to a descriptor that has already been pushed, create a
    /// new [BufferDataAccessor] for the field, and return the index of the
    /// accessor.
    ///
    /// The descriptor gets the field as its last, and its stride grows to
    /// the extent of the field if that is larger. All else stays as it is.
    /// The descriptor must have room for the field, and the byte offset of
    /// the field within the buffer data must fit in 32 bits.
    pub fn push_data_accessor(&mut self, desc: usize, vertex_desc: VertexDesc) -> (n: usize)
        requires
            old(self).wf(),
            desc < old(self).layout().descriptors.len(),
            old(self).layout().descriptors[desc as int].elements.len() < 256,
            old(self).layout().descriptors[desc as int].byte_offset + vertex_desc@.byte_offset
                <= u32::MAX,
        ensures
            n == old(self).layout().data_accessors.len(),
            final(self).layout() == (Layout {
                descriptors: old(self).layout().descriptors.update(
                    desc as int,
                    BufferDescriptorView {
                        stride: larger(
                            old(self).layout().descriptors[desc as int].stride as int,
                            vertex_desc@.extent(),
                        ) as u32,
                        elements: old(self).layout().descriptors[desc as int].elements.push(
                            vertex_desc@,
                        ),
                        ..old(self).layout().descriptors[desc as int]
                    },
                ),
                data_accessors: old(self).layout().data_accessors.push(
                    BufferDataAccessorView {
                        desc,
                        desc_index: old(self).layout().descriptors[desc as int].elements.len() as u8,
                        record_offset: old(self).layout().descriptors[desc as int].byte_offset,
                        vertex_desc: vertex_desc@,
                    },
                ),
                ..old(self).layout()
            }),
            final(self).layout().extends(old(self).layout()),
            final(self).clients() == old(self).clients(),
            final(self).keeps_clients_of(old(self)),
            final(self).wf(),
    {
        let n = self.data_accessors.len();
        let ghost before = self.layout();
        assert(before.descriptors[desc as int] == self.descriptors@[desc as int]@);
        let desc_n = self.descriptors[desc].add_vertex_desc(vertex_desc);
        let accessor = BufferDataAccessor::new(desc, &self.descriptors[desc], desc_n);
        self.data_accessors.push(accessor);
        proof {
            let after = self.layout();
            vertex_desc@.lemma_bounds();
            let grown = BufferDescriptorView {
                stride: larger(
                    before.descriptors[desc as int].stride as int,
                    vertex_desc@.extent(),
                ) as u32,
                elements: before.descriptors[desc as int].elements.push(vertex_desc@),
                ..before.descriptors[desc as int]
            };
            assert(self.descriptors@[desc as int]@ == grown);
            assert(after.descriptors =~= before.descriptors.update(desc as int, grown));
            assert(after.data_accessors =~= before.data_accessors.push(accessor@));
            assert(self.clients().descriptors =~= old(self).clients().descriptors);
            assert(self.clients().data_accessors =~= old(self).clients().data_accessors);
            assert forall|i: int| 0 <= i < after.data_accessors.len() implies {
                &&& (#[trigger] after.data_accessors[i]).desc < after.descriptors.len()
                &&& after.data_accessors[i].names_field_of(
                    after.data_accessors[i].desc,
                    after.descriptors[after.data_accessors[i].desc as int],
                )
            } by {
                if i < before.data_accessors.len() {
                    assert(after.data_accessors[i] == before.data_accessors[i]);
                }
            }
        }
        n
    }

    /// Create the client of a buffer data, unless it has been created
    /// before.
    ///
    /// The renderer gets the requests that are pending, and is left as it
    /// is if there is none. The layout stays, and so does every client
    /// that was there.
    pub fn create_buffer_data_client(&mut self, n: usize, renderable: &mut RenderContext<R>)
        requires
            old(self).wf(),
            n < old(self).layout().data.len(),
        ensures
            final(self).layout() == old(self).layout(),
            final(self).clients() == old(self).clients().with_data(n as int),
            final(self).keeps_clients_of(old(self)),
            final(renderable).history() == old(renderable).history() + old(
                self,
            ).layout().data_requests(old(self).clients(), final(self).handles(), n as int),
            old(self).layout().data_requests(
                old(self).clients(),
                final(self).handles(),
                n as int,
            ).len() == 0 ==> *final(renderable) == *old(renderable),
    {
        self.data[n].create_client(renderable);
        proof {
            assert(self.layout().data =~= old(self).layout().data);
            assert(self.clients().data =~= old(self).clients().data.insert(n as int));
        }
    }

    /// Create the client of a descriptor, unless it has been created
    /// before, after the client of its buffer data.
    ///
    /// The renderer gets the requests that are pending, and is left as it
    /// is if there is none. The layout stays, and so does every client
    /// that was there.
    pub fn create_descriptor_client(&mut self, n: usize, renderable: &mut RenderContext<R>)
        requires
            old(self).wf(),
            n < old(self).layout().descriptors.len(),
        ensures
            final(self).layout() == old(self).layout(),
            final(self).clients() == old(self).clients().with_descriptor(
                old(self).layout(),
                n as int,
            ),
            final(self).keeps_clients_of(old(self)),
            final(renderable).history() == old(renderable).history() + old(
                self,
            ).layout().descriptor_requests(old(self).clients(), final(self).handles(), n as int),
            old(self).layout().descriptor_requests(
                old(self).clients(),
                final(self).handles(),
                n as int,
            ).len() == 0 ==> *final(renderable) == *old(renderable),
    {
        assert(self.layout().descriptors[n as int] == self.descriptors@[n as int]@);
        let data = self.descriptors[n].data();
        assert(self.layout().data[data as int] == self.data@[data as int]@);
        self.descriptors[n].create_client(&mut self.data[data], renderable);
        proof {
            assert(self.layout().data =~= old(self).layout().data);
            assert(self.layout().descriptors =~= old(self).layout().descriptors);
            assert(self.clients().data =~= old(self).clients().data.insert(data as int));
            assert(self.clients().descriptors =~= old(self).clients().descriptors.insert(
                n as int,
            ));
        }
    }

    /// Create the client of an index accessor, unless it has been created
    /// before, after the client of its buffer data.
    ///
    /// The renderer gets the requests that are pending, and is left as it
    /// is if there is none. The layout stays, and so does every client
    /// that was there.
    pub fn create_index_accessor_client(&mut self, n: usize, renderable: &mut RenderContext<R>)
        requires
            old(self).wf(),
            n < old(self).layout().index_accessors.len(),
        ensures
            final(self).layout() == old(self).layout(),
            final(self).clients() == old(self).clients().with_index_accessor(
                old(self).layout(),
                n as int,
            ),
            final(self).keeps_clients_of(old(self)),
            final(renderable).history() == old(renderable).history() + old(
                self,
            ).layout().index_accessor_requests(old(self).clients(), final(self).handles(), n as int),
            old(self).layout().index_accessor_requests(
                old(self).clients(),
                final(self).handles(),
                n as int,
            ).len() == 0 ==> *final(renderable) == *old(renderable),
    {
        assert(self.layout().index_accessors[n as int] == self.index_accessors@[n as int]@);
        let data = self.index_accessors[n].data();
        assert(self.layout().data[data as int] == self.data@[data as int]@);
        self.index_accessors[n].create_client(&mut self.data[data], renderable);
        proof {
            assert(self.layout().data =~= old(self).layout().data);
            assert(self.layout().index_accessors =~= old(self).layout().index_accessors);
            assert(self.clients().data =~= old(self).clients().data.insert(data as int));
            assert(self.clients().index_accessors =~= old(
                self,
            ).clients().index_accessors.insert(n as int));
        }
    }

    /// Create the client of a data accessor for an attribute, unless it
    /// has been created before, after the clients of its descriptor and of
    /// the buffer data of that.
    ///
    /// The renderer gets the requests that are pending, and is left as it
    /// is if there is none. The layout stays, and so does every client
    /// that was there.
    pub fn create_data_accessor_client(
        &mut self,
        n: usize,
        attr: VertexAttr,
        renderable: &mut RenderContext<R>,
    )
        requires
            old(self).wf(),
            n < old(self).layout().data_accessors.len(),
        ensures
            final(self).layout() == old(self).layout(),
            final(self).clients() == old(self).clients().with_data_accessor(
                old(self).layout(),
                n as int,
            ),
            final(self).keeps_clients_of(old(self)),
            final(renderable).history() == old(renderable).history() + old(
                self,
            ).layout().data_accessor_requests(
                old(self).clients(),
                final(self).handles(),
                n as int,
                attr,
            ),
            old(self).layout().data_accessor_requests(
                old(self).clients(),
                final(self).handles(),
                n as int,
                attr,
            ).len() == 0 ==> *final(renderable) == *old(renderable),
    {
        assert(self.layout().data_accessors[n as int] == self.data_accessors@[n as int]@);
        let desc = self.data_accessors[n].desc();
        assert(self.layout().descriptors[desc as int] == self.descriptors@[desc as int]@);
        let data = self.descriptors[desc].data();
        assert(self.layout().data[data as int] == self.data@[data as int]@);
        self.data_accessors[n].create_client(
            attr,
            &mut self.descriptors[desc],
            &mut self.data[data],
            renderable,
        );
        proof {
            assert(self.layout().data =~= old(self).layout().data);
            assert(self.layout().descriptors =~= old(self).layout().descriptors);
            assert(self.layout().data_accessors =~= old(self).layout().data_accessors);
            assert(self.clients().data =~= old(self).clients().data.insert(data as int));
            assert(self.clients().descriptors =~= old(self).clients().descriptors.insert(
                desc as int,
            ));
            assert(self.clients().data_accessors =~= old(self).clients().data_accessors.insert(
                n as int,
            ));
        }
    }

    /// Get a reference to a buffer data
    pub fn buffer_data(&self, n: usize) -> (d: &BufferData<R>)
        requires
            n < self.layout().data.len(),
        ensures
            *d == self.data_seq()[n as int],
    {
        &self.data[n]
    }

    /// Get a reference to a descriptor
    pub fn descriptor(&self, n: usize) -> (d: &BufferDescriptor<R>)
        requires
            n < self.layout().descriptors.len(),
        ensures
            *d == self.descriptor_seq()[n as int],
    {
        &self.descriptors[n]
    }

    /// Get a reference to an index accessor, if an index is given
    pub fn indices(&self, n: Option<usize>) -> (a: Option<&BufferIndexAccessor<R>>)
        requires
            n matches Some(i) ==> i < self.layout().index_accessors.len(),
        ensures
            a is Some == n is Some,
            a matches Some(r) ==> *r == self.index_accessor_seq()[n->0 as int],
    {
        match n {
            Some(i) => Some(&self.index_accessors[i]),
            None => None,
        }
    }

    /// Get a reference to a data accessor
    pub fn data_accessor(&self, n: usize) -> (a: &BufferDataAccessor<R>)
        requires
            n < self.layout().data_accessors.len(),
        ensures
            *a == self.data_accessor_seq()[n as int],
    {
        &self.data_accessors[n]
    }
}

/// This structure provides for creating example objects, particularly
/// with regard to their vertices.
///
/// It owns the byte buffers, the objects that describe them and the sets of
/// vertices. All of them are named by the indices that pushing them
/// returned.
pub struct ExampleVertices<R: Renderable> {
    buffers: Buffers,
    accessors: DataAccessors<R>,
    vertices: Vec<Vertices<R>>,
}

impl<R: Renderable> Default for ExampleVertices<R> {
    fn default() -> (s: Self)
        ensures
            s.wf(),
            s.byte_buffers().len() == 0,
            s.vertices_seq().len() == 0,
            s.store().layout() == Layout::empty(),
            s.store().clients() == Clients::none(),
    {
        Self::new()
    }
}

impl<R: Renderable> ExampleVertices<R> {
    /// The bytes of each byte buffer, in the order in which they were
    /// pushed.
    pub closed spec fn byte_buffers(&self) -> Seq<Seq<u8>> {
        self.buffers@
    }

    /// The store of the objects that describe the byte buffers.
    pub closed spec fn store(&self) -> DataAccessors<R> {
        self.accessors
    }

    /// The sets of vertices, in the order in which they were pushed.
    pub closed spec fn vertices_seq(&self) -> Seq<Vertices<R>> {
        self.vertices@
    }

    /// The store is well formed, and so is every set of vertices, which
    /// names accessors that are in the store.
    pub open spec fn wf(&self) -> bool {
        &&& self.store().wf()
        &&& forall|i: int|
            0 <= i < self.vertices_seq().len() ==> {
                &&& (#[trigger] self.vertices_seq()[i]).wf()
                &&& self.vertices_seq()[i]@.within(self.store().layout())
            }
    }

    /// Sets of vertices that name accessors in the store still do when
    /// the store has grown.
    proof fn lemma_vertices_within(&self, before: &Self)
        requires
            before.wf(),
            self.vertices_seq() == before.vertices_seq(),
            before.store().layout().index_accessors.len()
                <= self.store().layout().index_accessors.len(),
            before.store().layout().data_accessors.len()
                <= self.store().layout().data_accessors.len(),
        ensures
            forall|i: int|
                0 <= i < self.vertices_seq().len() ==> {
                    &&& (#[trigger] self.vertices_seq()[i]).wf()
                    &&& self.vertices_seq()[i]@.within(self.store().layout())
                },
    {
        assert forall|i: int| 0 <= i < self.vertices_seq().len() implies {
            &&& (#[trigger] self.vertices_seq()[i]).wf()
            &&& self.vertices_seq()[i]@.within(self.store().layout())
        } by {
            before.vertices_seq()[i]@.lemma_within_larger(
                before.store().layout(),
                self.store().layout(),
            );
        }
    }

    /// Create a new [ExampleVertices]
    pub fn new() -> (s: Self)
        ensures
            s.wf(),
            s.byte_buffers().len() == 0,
            s.vertices_seq().len() == 0,
            s.store().layout() == Layout::empty(),
            s.store().clients() == Clients::none(),
    {
        Self { buffers: Buffers::new(), accessors: DataAccessors::new(), vertices: Vec::new() }
    }

    /// Push a new byte buffer, with a [BufferData] for all of its bytes,
    /// and return the index of the buffer data. The buffer must have fewer
    /// than 2^32 bytes.
    pub fn push_byte_buffer(&mut self, buffer: Vec<u8>) -> (n: usize)
        requires
            old(self).wf(),
            buffer@.len() <= u32::MAX,
        ensures
            final(self).wf(),
            n == old(self).store().layout().data.len(),
            final(self).byte_buffers() == old(self).byte_buffers().push(buffer@),
            final(self).store().layout() == (Layout {
                data: old(self).store().layout().data.push(
                    BufferDataView {
                        container: buffer@,
                        byte_offset: 0,
                        byte_length: buffer@.len() as u32,
                    },
                ),
                ..old(self).store().layout()
            }),
            final(self).store().layout().extends(old(self).store().layout()),
            final(self).store().clients() == old(self).store().clients(),
            final(self).store().keeps_clients_of(&old(self).store()),
            final(self).vertices_seq() == old(self).vertices_seq(),
    {
        let buffer_n = self.buffers.push(buffer);
        let n = self.accessors.push_buffer_data(&self.buffers, buffer_n, 0, 0);
        proof {
            self.lemma_vertices_within(old(self));
        }
        n
    }

    /// Create a new [BufferIndexAccessor] on a particular [BufferData]
    /// instance that has already been pushed, and return its index
    pub fn push_index_accessor(
        &mut self,
        data: usize,
        num: u32,
        et: BufferElementType,
        ofs: u32,
    ) -> (n: usize)
        requires
            old(self).wf(),
            data < old(self).store().layout().data.len(),
            et.spec_is_unsigned_int(),
        ensures
            final(self).wf(),
            n == old(self).store().layout().index_accessors.len(),
            final(self).store().layout() == (Layout {
                index_accessors: old(self).store().layout().index_accessors.push(
                    BufferIndexAccessorView {
                        data,
                        number_indices: num,
                        ele_type: et,
                        byte_offset: ofs,
                    },
                ),
                ..old(self).store().layout()
            }),
            final(self).store().layout().extends(old(self).store().layout()),
            final(self).store().clients() == old(self).store().clients(),
            final(self).store().keeps_clients_of(&old(self).store()),
            final(self).byte_buffers() == old(self).byte_buffers(),
            final(self).vertices_seq() == old(self).vertices_seq(),
    {
        let n = self.accessors.push_index_accessor(data, num, et, ofs);
        proof {
            self.lemma_vertices_within(old(self));
        }
        n
    }

    /// Create a new [BufferDescriptor] with no fields on a particular
    /// [BufferData] instance that has already been pushed, and return its
    /// index
    pub fn push_descriptor(&mut self, data: usize, byte_offset: u32, stride: u32) -> (n: usize)
        requires
            old(self).wf(),
            data < old(self).store().layout().data.len(),
        ensures
            final(self).wf(),
            n == old(self).store().layout().descriptors.len(),
            final(self).store().layout() == (Layout {
                descriptors: old(self).store().layout().descriptors.push(
                    BufferDescriptorView { data, byte_offset, stride, elements: Seq::empty() },
                ),
                ..old(self).store().layout()
            }),
            final(self).store().layout().extends(old(self).store().layout()),
            final(self).store().clients() == old(self).store().clients(),
            final(self).store().keeps_clients_of(&old(self).store()),
            final(self).byte_buffers() == old(self).byte_buffers(),
            final(self).vertices_seq() == old(self).vertices_seq(),
    {
        let n = self.accessors.push_descriptor(data, byte_offset, stride);
        proof {
            self.lemma_vertices_within(old(self));
        }
        n
    }

    /// Add a field to a descriptor that has already been pushed, create a
    /// new [BufferDataAccessor] for it, and return the index of the
    /// accessor; see [DataAccessors::push_data_accessor]
    pub fn push_data_accessor(&mut self, desc: usize, vertex_desc: VertexDesc) -> (n: usize)
        requires
            old(self).wf(),
            desc < old(self).store().layout().descriptors.len(),
            old(self).store().layout().descriptors[desc as int].elements.len() < 256,
            old(self).store().layout().descriptors[desc as int].byte_offset
                + vertex_desc@.byte_offset <= u32::MAX,
        ensures
            final(self).wf(),
            n == old(self).store().layout().data_accessors.len(),
            final(self).store().layout().data == old(self).store().layout().data,
            final(self).store().layout().index_accessors == old(
                self,
            ).store().layout().index_accessors,
            final(self).store().layout().descriptors == old(
                self,
            ).store().layout().descriptors.update(
                desc as int,
                BufferDescriptorView {
                    stride: larger(
                        old(self).store().layout().descriptors[desc as int].stride as int,
                        vertex_desc@.extent(),
                    ) as u32,
                    elements: old(self).store().layout().descriptors[desc as int].elements.push(
                        vertex_desc@,
                    ),
                    ..old(self).store().layout().descriptors[desc as int]
                },
            ),
            final(self).store().layout().data_accessors == old(
                self,
            ).store().layout().data_accessors.push(
                BufferDataAccessorView {
                    desc,
                    desc_index: old(
                        self,
                    ).store().layout().descriptors[desc as int].elements.len() as u8,
                    record_offset: old(self).store().layout().descriptors[desc as int].byte_offset,
                    vertex_desc: vertex_desc@,
                },
            ),
            final(self).store().layout().extends(old(self).store().layout()),
            final(self).store().clients() == old(self).store().clients(),
            final(self).store().keeps_clients_of(&old(self).store()),
            final(self).byte_buffers() == old(self).byte_buffers(),
            final(self).vertices_seq() == old(self).vertices_seq(),
    {
        let n = self.accessors.push_data_accessor(desc, vertex_desc);
        proof {
            vertex_desc@.lemma_bounds();
            self.lemma_vertices_within(old(self));
        }
        n
    }

    /// Create a new [Vertices] using a set of indices and positions, add
    /// accessors for more attributes to it one after the other, and return
    /// its index.
    ///
    /// There is room for 65535 sets of vertices.
    pub fn push_vertices(
        &mut self,
        indices: Option<usize>,
        positions: usize,
        attrs: &[(VertexAttr, usize)],
    ) -> (v: ShortIndex)
        requires
            old(self).wf(),
            old(self).vertices_seq().len() < 65535,
            indices matches Some(i) ==> i < old(self).store().layout().index_accessors.len(),
            positions < old(self).store().layout().data_accessors.len(),
            forall|k: int|
                0 <= k < attrs@.len() ==> (#[trigger] attrs@[k]).1 < old(
                    self,
                ).store().layout().data_accessors.len(),
        ensures
            final(self).wf(),
            v@ == Some(old(self).vertices_seq().len() as usize),
            final(self).vertices_seq().len() == old(self).vertices_seq().len() + 1,
            forall|i: int|
                0 <= i < old(self).vertices_seq().len() ==> final(self).vertices_seq()[i] == old(
                    self,
                ).vertices_seq()[i],
            final(self).vertices_seq().last()@.indices == indices,
            attrs_sorted(final(self).vertices_seq().last()@.attrs),
            attrs_built(positions, attrs@, final(self).vertices_seq().last()@.attrs),
            final(self).vertices_seq().last().client() is None,
            final(self).store() == old(self).store(),
            final(self).byte_buffers() == old(self).byte_buffers(),
    {
        let n = self.vertices.len();
        let mut vertices = Vertices::new(indices, positions);
        let ghost layout = self.accessors.layout();
        proof {
            let first = vertices@.attrs;
            assert(first[0] == (VertexAttr::Position, positions));
            assert forall|t: VertexAttr, a: usize| #[trigger]
                first.contains((t, a)) <==> (match last_added(attrs@.take(0), t) {
                    Some(n) => a == n,
                    None => t == VertexAttr::Position && a == positions,
                }) by {
                if first.contains((t, a)) {
                    let i = choose|i: int| 0 <= i < first.len() && first[i] == (t, a);
                    assert(i == 0);
                }
            }
        }
        let mut k: usize = 0;
        while k < attrs.len()
            invariant
                k <= attrs@.len(),
                vertices.wf(),
                vertices@.indices == indices,
                vertices.client() is None,
                vertices@.within(layout),
                attrs_built(positions, attrs@.take(k as int), vertices@.attrs),
                forall|j: int|
                    0 <= j < attrs@.len() ==> (#[trigger] attrs@[j]).1
                        < layout.data_accessors.len(),
            decreases attrs@.len() - k,
        {
            let attr = attrs[k].0;
            let accessor = attrs[k].1;
            let ghost before = vertices@.attrs;
            vertices.add_attr(attr, accessor);
            proof {
                let after = vertices@.attrs;
                let adds = attrs@.take(k + 1);
                assert(adds.drop_last() == attrs@.take(k as int));
                assert(adds.last() == attrs@[k as int]);
                assert(attrs@[k as int].1 < layout.data_accessors.len());
                assert forall|t: VertexAttr, a: usize| #[trigger]
                    after.contains((t, a)) <==> (match last_added(adds, t) {
                        Some(n) => a == n,
                        None => t == VertexAttr::Position && a == positions,
                    }) by {
                    assert(before.contains((t, a)) <==> (match last_added(
                        attrs@.take(k as int),
                        t,
                    ) {
                        Some(n) => a == n,
                        None => t == VertexAttr::Position && a == positions,
                    }));
                }
                assert forall|j: int| 0 <= j < after.len() implies (#[trigger] after[j]).1
                    < layout.data_accessors.len() by {
                    assert(after.contains((after[j].0, after[j].1)));
                    if after[j].0 != attr {
                        let i = choose|i: int|
                            0 <= i < before.len() && before[i] == (after[j].0, after[j].1);
                        assert(before[i].1 < layout.data_accessors.len());
                    }
                }
            }
            k += 1;
        }
        proof {
            assert(attrs@.take(attrs@.len() as int) == attrs@);
        }
        self.vertices.push(vertices);
        ShortIndex::from_usize(n)
    }

    /// Borrow a set of vertices
    pub fn borrow_vertices(&self, vertices: ShortIndex) -> (v: &Vertices<R>)
        requires
            vertices@ matches Some(n) && n < self.vertices_seq().len(),
        ensures
            *v == self.vertices_seq()[vertices@->0 as int],
    {
        &self.vertices[vertices.as_usize()]
    }

    /// Get the number of sets of vertices
    pub fn num_vertices(&self) -> (n: usize)
        ensures
            n == self.vertices_seq().len(),
    {
        self.vertices.len()
    }

    /// Borrow the byte buffers
    pub fn buffers(&self) -> (b: &Buffers)
        ensures
            b@ == self.byte_buffers(),
    {
        &self.buffers
    }

    /// Borrow the store of the objects that describe the byte buffers
    pub fn accessors(&self) -> (a: &DataAccessors<R>)
        ensures
            *a == self.store(),
    {
        &self.accessors
    }

    /// The set of vertices that an index names.
    pub open spec fn vertices_at(&self, vertices: ShortIndex) -> Vertices<R> {
        self.vertices_seq()[vertices@->0 as int]
    }

    /// Create the client of a set of vertices, unless it has been created
    /// before, after the clients of all its accessors; see
    /// [Vertices::create_client].
    pub fn create_client(&mut self, vertices: ShortIndex, renderer: &mut RenderContext<R>)
        requires
            old(self).wf(),
            vertices@ matches Some(n) && n < old(self).vertices_seq().len(),
        ensures
            final(self).wf(),
            final(self).byte_buffers() == old(self).byte_buffers(),
            final(self).vertices_seq().len() == old(self).vertices_seq().len(),
            forall|i: int|
                0 <= i < old(self).vertices_seq().len() && i != vertices@->0 ==> (
                #[trigger] final(self).vertices_seq()[i]) == old(self).vertices_seq()[i],
            final(self).vertices_at(vertices)@ == old(self).vertices_at(vertices)@,
            final(self).vertices_at(vertices).client() is Some,
            old(self).vertices_at(vertices).client() is Some ==> {
                &&& final(self).vertices_seq() == old(self).vertices_seq()
                &&& final(self).store() == old(self).store()
                &&& *final(renderer) == *old(renderer)
            },
            final(self).store().layout() == old(self).store().layout(),
            final(self).store().keeps_clients_of(&old(self).store()),
            old(self).vertices_at(vertices).client() is None ==> final(self).store().clients()
                == old(self).vertices_at(vertices)@.clients_after(
                old(self).store().layout(),
                old(self).store().clients(),
            ),
            final(renderer).history() == old(renderer).history() + old(self).vertices_at(
                vertices,
            ).pending(
                &old(self).store(),
                &final(self).vertices_at(vertices),
                &final(self).store(),
            ),
    {
        let n = vertices.as_usize();
        self.vertices[n].create_client(&mut self.accessors, renderer);
        proof {
            if old(self).vertices_seq()[n as int].client() is Some {
                assert(self.vertices@ =~= old(self).vertices@);
            }
        }
    }
}

} // verus!
