//! What a store of objects describes, apart from the clients: the layout.
//! With it, which objects have clients and what these are, which requests
//! creating a client makes, and what holds of them.
use vstd::prelude::*;

use crate::buffer_data::BufferDataView;
use crate::buffer_data_accessor::BufferDataAccessorView;
use crate::buffer_descriptor::BufferDescriptorView;
use crate::buffer_index_accessor::BufferIndexAccessorView;
use crate::traits::{
    count_requests, is_buffer_request, lemma_count_add, lemma_count_short, ClientRequest,
    Renderable,
};
use crate::types::VertexAttr;

verus! {

/// What the objects in a [crate::example_objects::DataAccessors] describe.
pub struct Layout {
    /// The buffer data
    pub data: Seq<BufferDataView>,
    /// The descriptors
    pub descriptors: Seq<BufferDescriptorView>,
    /// The index accessors
    pub index_accessors: Seq<BufferIndexAccessorView>,
    /// The data accessors
    pub data_accessors: Seq<BufferDataAccessorView>,
}

/// Which of the objects in a [crate::example_objects::DataAccessors] have a client, by their
/// indices.
pub struct Clients {
    /// The buffer data that have a client
    pub data: Set<int>,
    /// The descriptors that have a client
    pub descriptors: Set<int>,
    /// The index accessors that have a client
    pub index_accessors: Set<int>,
    /// The data accessors that have a client
    pub data_accessors: Set<int>,
}

/// The clients of the objects in a [crate::example_objects::DataAccessors],
/// as far as they have one.
pub struct Handles<R: Renderable> {
    /// The clients of the buffer data
    pub data: Seq<Option<R::Buffer>>,
    /// The clients of the descriptors
    pub descriptors: Seq<Option<R::Descriptor>>,
    /// The clients of the index accessors
    pub index_accessors: Seq<Option<R::IndexAccessor>>,
    /// The clients of the data accessors
    pub data_accessors: Seq<Option<R::DataAccessor>>,
}

impl Clients {
    /// No object has a client.
    pub open spec fn none() -> Clients {
        Clients {
            data: Set::empty(),
            descriptors: Set::empty(),
            index_accessors: Set::empty(),
            data_accessors: Set::empty(),
        }
    }

    /// The clients after that of a buffer data was created.
    pub open spec fn with_data(self, n: int) -> Clients {
        Clients { data: self.data.insert(n), ..self }
    }

    /// The clients after that of a descriptor was created, and with it
    /// that of its buffer data.
    pub open spec fn with_descriptor(self, layout: Layout, n: int) -> Clients {
        Clients { descriptors: self.descriptors.insert(n), ..self }.with_data(
            layout.descriptors[n].data as int,
        )
    }

    /// The clients after that of an index accessor was created, and with
    /// it that of its buffer data.
    pub open spec fn with_index_accessor(self, layout: Layout, n: int) -> Clients {
        Clients { index_accessors: self.index_accessors.insert(n), ..self }.with_data(
            layout.index_accessors[n].data as int,
        )
    }

    /// The clients after that of a data accessor was created, and with it
    /// those of its descriptor and of the buffer data of that.
    pub open spec fn with_data_accessor(self, layout: Layout, n: int) -> Clients {
        Clients { data_accessors: self.data_accessors.insert(n), ..self }.with_descriptor(
            layout,
            layout.data_accessors[n].desc as int,
        )
    }

    /// Every client that is in `self` is in `other`.
    pub open spec fn within(self, other: Clients) -> bool {
        &&& self.data.subset_of(other.data)
        &&& self.descriptors.subset_of(other.descriptors)
        &&& self.index_accessors.subset_of(other.index_accessors)
        &&& self.data_accessors.subset_of(other.data_accessors)
    }
}

impl<R: Renderable> Handles<R> {
    /// The clients of a store that holds nothing.
    pub open spec fn none() -> Handles<R> {
        Handles {
            data: Seq::empty(),
            descriptors: Seq::empty(),
            index_accessors: Seq::empty(),
            data_accessors: Seq::empty(),
        }
    }

    /// Which of the objects have a client.
    pub open spec fn clients(self) -> Clients {
        Clients {
            data: Set::new(|i: int| 0 <= i < self.data.len() && self.data[i] is Some),
            descriptors: Set::new(
                |i: int| 0 <= i < self.descriptors.len() && self.descriptors[i] is Some,
            ),
            index_accessors: Set::new(
                |i: int| 0 <= i < self.index_accessors.len() && self.index_accessors[i] is Some,
            ),
            data_accessors: Set::new(
                |i: int| 0 <= i < self.data_accessors.len() && self.data_accessors[i] is Some,
            ),
        }
    }

    /// Every client that `before` has is still there, at the same index,
    /// and it is the same client.
    pub open spec fn keeps(self, before: Handles<R>) -> bool {
        &&& forall|i: int|
            0 <= i < before.data.len() && (#[trigger] before.data[i]) is Some ==> i
                < self.data.len() && self.data[i] == before.data[i]
        &&& forall|i: int|
            0 <= i < before.descriptors.len() && (#[trigger] before.descriptors[i]) is Some ==> i
                < self.descriptors.len() && self.descriptors[i] == before.descriptors[i]
        &&& forall|i: int|
            0 <= i < before.index_accessors.len() && (#[trigger] before.index_accessors[i])
                is Some ==> i < self.index_accessors.len() && self.index_accessors[i]
                == before.index_accessors[i]
        &&& forall|i: int|
            0 <= i < before.data_accessors.len() && (#[trigger] before.data_accessors[i])
                is Some ==> i < self.data_accessors.len() && self.data_accessors[i]
                == before.data_accessors[i]
    }

    /// Clients that stay as they are, are kept.
    pub proof fn lemma_keeps_itself(self)
        ensures
            self.keeps(self),
    {
    }

    /// Clients that were kept over two steps were kept over both: a client
    /// that was once created is there for good.
    pub proof fn lemma_keeps_transitive(self, middle: Handles<R>, before: Handles<R>)
        requires
            self.keeps(middle),
            middle.keeps(before),
        ensures
            self.keeps(before),
    {
        assert forall|i: int|
            0 <= i < before.data.len() && (#[trigger] before.data[i]) is Some implies i
            < self.data.len() && self.data[i] == before.data[i] by {
            assert(middle.data[i] is Some);
        }
        assert forall|i: int|
            0 <= i < before.descriptors.len() && (#[trigger] before.descriptors[i])
                is Some implies i < self.descriptors.len() && self.descriptors[i]
            == before.descriptors[i] by {
            assert(middle.descriptors[i] is Some);
        }
        assert forall|i: int|
            0 <= i < before.index_accessors.len() && (#[trigger] before.index_accessors[i])
                is Some implies i < self.index_accessors.len() && self.index_accessors[i]
            == before.index_accessors[i] by {
            assert(middle.index_accessors[i] is Some);
        }
        assert forall|i: int|
            0 <= i < before.data_accessors.len() && (#[trigger] before.data_accessors[i])
                is Some implies i < self.data_accessors.len() && self.data_accessors[i]
            == before.data_accessors[i] by {
            assert(middle.data_accessors[i] is Some);
        }
    }
}

impl Layout {
    /// The layout of a store that holds nothing.
    pub open spec fn empty() -> Layout {
        Layout {
            data: Seq::empty(),
            descriptors: Seq::empty(),
            index_accessors: Seq::empty(),
            data_accessors: Seq::empty(),
        }
    }

    /// Every object names objects that are there: a descriptor and an
    /// index accessor their buffer data, a data accessor a field of its
    /// descriptor, which it holds as the descriptor does. No field of a
    /// descriptor ends beyond its stride.
    pub open spec fn wf(self) -> bool {
        &&& forall|i: int|
            0 <= i < self.descriptors.len() ==> {
                &&& (#[trigger] self.descriptors[i]).data < self.data.len()
                &&& self.descriptors[i].stride_covers()
            }
        &&& forall|i: int|
            0 <= i < self.index_accessors.len() ==> (#[trigger] self.index_accessors[i]).data
                < self.data.len()
        &&& forall|i: int|
            0 <= i < self.data_accessors.len() ==> {
                &&& (#[trigger] self.data_accessors[i]).desc < self.descriptors.len()
                &&& self.data_accessors[i].names_field_of(
                    self.data_accessors[i].desc,
                    self.descriptors[self.data_accessors[i].desc as int],
                )
            }
    }

    /// The layout holds all that `before` holds, at the same indices: the
    /// same buffer data and accessors, and descriptors of the same buffer
    /// data and byte offset, with the fields that they had as their first
    /// fields and a stride that is no smaller.
    pub open spec fn extends(self, before: Layout) -> bool {
        &&& before.data.len() <= self.data.len()
        &&& forall|i: int| 0 <= i < before.data.len() ==> self.data[i] == #[trigger] before.data[i]
        &&& before.index_accessors.len() <= self.index_accessors.len()
        &&& forall|i: int|
            0 <= i < before.index_accessors.len() ==> self.index_accessors[i]
                == #[trigger] before.index_accessors[i]
        &&& before.data_accessors.len() <= self.data_accessors.len()
        &&& forall|i: int|
            0 <= i < before.data_accessors.len() ==> self.data_accessors[i]
                == #[trigger] before.data_accessors[i]
        &&& before.descriptors.len() <= self.descriptors.len()
        &&& forall|i: int|
            0 <= i < before.descriptors.len() ==> {
                &&& self.descriptors[i].data == (#[trigger] before.descriptors[i]).data
                &&& self.descriptors[i].byte_offset == before.descriptors[i].byte_offset
                &&& self.descriptors[i].stride >= before.descriptors[i].stride
                &&& before.descriptors[i].elements.is_prefix_of(self.descriptors[i].elements)
            }
    }

    /// A layout extends itself.
    pub proof fn lemma_extends_itself(self)
        ensures
            self.extends(self),
    {
        assert forall|i: int| 0 <= i < self.descriptors.len() implies (
        #[trigger] self.descriptors[i]).elements.is_prefix_of(self.descriptors[i].elements) by {
            let e = self.descriptors[i].elements;
            assert(e.subrange(0, e.len() as int) == e);
        }
    }

    /// Whatever a layout held is still there, at the same index, after any
    /// number of steps that each extend the layout.
    pub proof fn lemma_extends_transitive(self, middle: Layout, before: Layout)
        requires
            self.extends(middle),
            middle.extends(before),
        ensures
            self.extends(before),
    {
        assert forall|i: int| 0 <= i < before.data.len() implies self.data[i]
            == #[trigger] before.data[i] by {
            assert(self.data[i] == middle.data[i]);
        }
        assert forall|i: int| 0 <= i < before.index_accessors.len() implies self.index_accessors[i]
            == #[trigger] before.index_accessors[i] by {
            assert(self.index_accessors[i] == middle.index_accessors[i]);
        }
        assert forall|i: int| 0 <= i < before.data_accessors.len() implies self.data_accessors[i]
            == #[trigger] before.data_accessors[i] by {
            assert(self.data_accessors[i] == middle.data_accessors[i]);
        }
        assert forall|i: int| 0 <= i < before.descriptors.len() implies {
            &&& self.descriptors[i].data == (#[trigger] before.descriptors[i]).data
            &&& self.descriptors[i].byte_offset == before.descriptors[i].byte_offset
            &&& self.descriptors[i].stride >= before.descriptors[i].stride
            &&& before.descriptors[i].elements.is_prefix_of(self.descriptors[i].elements)
        } by {
            let a = before.descriptors[i].elements;
            let b = middle.descriptors[i].elements;
            let c = self.descriptors[i].elements;
            assert(a.is_prefix_of(b));
            assert(b.is_prefix_of(c));
            assert(a =~= c.subrange(0, a.len() as int)) by {
                assert forall|k: int| 0 <= k < a.len() implies a[k] == c[k] by {
                    assert(a[k] == b.subrange(0, a.len() as int)[k]);
                    assert(b[k] == c.subrange(0, b.len() as int)[k]);
                }
            }
        }
    }

    /// The request that made the client of a buffer data.
    pub open spec fn data_request<R: Renderable>(self, handles: Handles<R>, n: int) -> ClientRequest<
        R,
    > {
        ClientRequest::Buffer { bytes: self.data[n].bytes(), client: handles.data[n]->0 }
    }

    /// The request that made the client of a descriptor, with the client
    /// of its buffer data.
    pub open spec fn descriptor_request<R: Renderable>(
        self,
        handles: Handles<R>,
        n: int,
    ) -> ClientRequest<R> {
        ClientRequest::Descriptor {
            buffer: handles.data[self.descriptors[n].data as int]->0,
            stride: self.descriptors[n].stride,
            elements: self.descriptors[n].elements,
            client: handles.descriptors[n]->0,
        }
    }

    /// The request that made the client of an index accessor, with the
    /// client of its buffer data.
    pub open spec fn index_accessor_request<R: Renderable>(
        self,
        handles: Handles<R>,
        n: int,
    ) -> ClientRequest<R> {
        ClientRequest::IndexAccessor {
            ele_type: self.index_accessors[n].ele_type,
            count: self.index_accessors[n].number_indices,
            byte_offset: self.index_accessors[n].byte_offset,
            buffer: handles.data[self.index_accessors[n].data as int]->0,
            client: handles.index_accessors[n]->0,
        }
    }

    /// The request that made the client of a data accessor for an
    /// attribute, with the client of its descriptor.
    pub open spec fn data_accessor_request<R: Renderable>(
        self,
        handles: Handles<R>,
        n: int,
        attr: VertexAttr,
    ) -> ClientRequest<R> {
        let desc = self.data_accessors[n].desc as int;
        ClientRequest::DataAccessor {
            attr,
            ele_type: self.data_accessors[n].vertex_desc.ele_type,
            count: self.data_accessors[n].vertex_desc.count() as u32,
            byte_offset: self.data_accessors[n].byte_offset() as u32,
            stride: self.descriptors[desc].stride,
            descriptor: handles.descriptors[desc]->0,
            client: handles.data_accessors[n]->0,
        }
    }

    /// The requests that creating the client of a buffer data makes: one
    /// for its bytes, if it has no client. `before` tells which objects
    /// have a client before, and `handles` holds the clients afterwards.
    pub open spec fn data_requests<R: Renderable>(
        self,
        before: Clients,
        handles: Handles<R>,
        n: int,
    ) -> Seq<ClientRequest<R>> {
        if before.data.contains(n) {
            Seq::empty()
        } else {
            seq![self.data_request(handles, n)]
        }
    }

    /// The requests that creating the client of a descriptor makes: those
    /// for its buffer data, then one for the descriptor, if it has no
    /// client. `before` tells which objects have a client before, and
    /// `handles` holds the clients afterwards.
    pub open spec fn descriptor_requests<R: Renderable>(
        self,
        before: Clients,
        handles: Handles<R>,
        n: int,
    ) -> Seq<ClientRequest<R>> {
        self.data_requests(before, handles, self.descriptors[n].data as int) + (
        if before.descriptors.contains(n) {
            Seq::empty()
        } else {
            seq![self.descriptor_request(handles, n)]
        })
    }

    /// The requests that creating the client of an index accessor makes:
    /// those for its buffer data, then one for the accessor, if it has no
    /// client. `before` tells which objects have a client before, and
    /// `handles` holds the clients afterwards.
    pub open spec fn index_accessor_requests<R: Renderable>(
        self,
        before: Clients,
        handles: Handles<R>,
        n: int,
    ) -> Seq<ClientRequest<R>> {
        self.data_requests(before, handles, self.index_accessors[n].data as int) + (
        if before.index_accessors.contains(n) {
            Seq::empty()
        } else {
            seq![self.index_accessor_request(handles, n)]
        })
    }

    /// The requests that creating the client of a data accessor for an
    /// attribute makes: those for its descriptor, then one for the
    /// accessor, if it has no client. `before` tells which objects have a
    /// client before, and `handles` holds the clients afterwards.
    pub open spec fn data_accessor_requests<R: Renderable>(
        self,
        before: Clients,
        handles: Handles<R>,
        n: int,
        attr: VertexAttr,
    ) -> Seq<ClientRequest<R>> {
        self.descriptor_requests(before, handles, self.data_accessors[n].desc as int) + (
        if before.data_accessors.contains(n) {
            Seq::empty()
        } else {
            seq![self.data_accessor_request(handles, n, attr)]
        })
    }

    /// The requests for the client of an index accessor read only clients
    /// that are there afterwards, so they stay the same whatever clients
    /// are created later.
    pub proof fn lemma_index_accessor_requests_kept<R: Renderable>(
        self,
        before: Clients,
        handles: Handles<R>,
        later: Handles<R>,
        n: int,
    )
        requires
            later.keeps(handles),
            before.with_index_accessor(self, n).within(handles.clients()),
        ensures
            self.index_accessor_requests(before, later, n) == self.index_accessor_requests(
                before,
                handles,
                n,
            ),
    {
        let data = self.index_accessors[n].data as int;
        let now = before.with_index_accessor(self, n);
        assert(now.data.contains(data));
        assert(now.index_accessors.contains(n));
        assert(handles.clients().data.contains(data));
        assert(handles.clients().index_accessors.contains(n));
        assert(handles.data[data] is Some);
        assert(handles.index_accessors[n] is Some);
    }

    /// The requests for the client of a data accessor read only clients
    /// that are there afterwards, so they stay the same whatever clients
    /// are created later.
    pub proof fn lemma_data_accessor_requests_kept<R: Renderable>(
        self,
        before: Clients,
        handles: Handles<R>,
        later: Handles<R>,
        n: int,
        attr: VertexAttr,
    )
        requires
            later.keeps(handles),
            before.with_data_accessor(self, n).within(handles.clients()),
        ensures
            self.data_accessor_requests(before, later, n, attr) == self.data_accessor_requests(
                before,
                handles,
                n,
                attr,
            ),
    {
        let desc = self.data_accessors[n].desc as int;
        let data = self.descriptors[desc].data as int;
        let now = before.with_data_accessor(self, n);
        assert(now.data.contains(data));
        assert(now.descriptors.contains(desc));
        assert(now.data_accessors.contains(n));
        assert(handles.clients().data.contains(data));
        assert(handles.clients().descriptors.contains(desc));
        assert(handles.clients().data_accessors.contains(n));
        assert(handles.data[data] is Some);
        assert(handles.descriptors[desc] is Some);
        assert(handles.data_accessors[n] is Some);
    }

    /// Once the client of a buffer data was created, no request for it is
    /// pending: a second creation asks the renderer for nothing.
    pub proof fn lemma_data_created_once<R: Renderable>(
        self,
        clients: Clients,
        handles: Handles<R>,
        n: int,
    )
        ensures
            self.data_requests(clients.with_data(n), handles, n) == Seq::<
                ClientRequest<R>,
            >::empty(),
    {
    }

    /// Once the client of a descriptor was created, no request for it or
    /// for its buffer data is pending: a second creation asks the renderer
    /// for nothing.
    pub proof fn lemma_descriptor_created_once<R: Renderable>(
        self,
        clients: Clients,
        handles: Handles<R>,
        n: int,
    )
        ensures
            self.descriptor_requests(clients.with_descriptor(self, n), handles, n) == Seq::<
                ClientRequest<R>,
            >::empty(),
    {
        assert(self.descriptor_requests(clients.with_descriptor(self, n), handles, n) =~= Seq::<
            ClientRequest<R>,
        >::empty());
    }

    /// Once the client of an index accessor was created, no request for it
    /// or for its buffer data is pending: a second creation asks the
    /// renderer for nothing.
    pub proof fn lemma_index_accessor_created_once<R: Renderable>(
        self,
        clients: Clients,
        handles: Handles<R>,
        n: int,
    )
        ensures
            self.index_accessor_requests(clients.with_index_accessor(self, n), handles, n)
                == Seq::<ClientRequest<R>>::empty(),
    {
        assert(self.index_accessor_requests(clients.with_index_accessor(self, n), handles, n)
            =~= Seq::<ClientRequest<R>>::empty());
    }

    /// Once the client of a data accessor was created, no request for it,
    /// for its descriptor or for the buffer data of that is pending,
    /// whatever the attribute: a second creation asks the renderer for
    /// nothing.
    pub proof fn lemma_data_accessor_created_once<R: Renderable>(
        self,
        clients: Clients,
        handles: Handles<R>,
        n: int,
        attr: VertexAttr,
    )
        ensures
            self.data_accessor_requests(clients.with_data_accessor(self, n), handles, n, attr)
                == Seq::<ClientRequest<R>>::empty(),
    {
        assert(self.data_accessor_requests(clients.with_data_accessor(self, n), handles, n, attr)
            =~= Seq::<ClientRequest<R>>::empty());
    }

    /// Two data accessors whose descriptors lie over the same buffer data,
    /// which has no client: creating the clients of both, one after the
    /// other, asks the renderer for the client of the buffer data exactly
    /// once.
    pub proof fn lemma_buffer_data_shared<R: Renderable>(
        self,
        clients: Clients,
        handles: Handles<R>,
        first: int,
        first_attr: VertexAttr,
        second: int,
        second_attr: VertexAttr,
    )
        requires
            self.descriptors[self.data_accessors[first].desc as int].data
                == self.descriptors[self.data_accessors[second].desc as int].data,
            !clients.data.contains(
                self.descriptors[self.data_accessors[first].desc as int].data as int,
            ),
        ensures
            count_requests(
                self.data_accessor_requests(clients, handles, first, first_attr)
                    + self.data_accessor_requests(
                    clients.with_data_accessor(self, first),
                    handles,
                    second,
                    second_attr,
                ),
                |r: ClientRequest<R>| is_buffer_request(r),
            ) == 1,
    {
        let kind = |r: ClientRequest<R>| is_buffer_request(r);
        let desc1 = self.data_accessors[first].desc as int;
        let data = self.descriptors[desc1].data as int;
        let after = clients.with_data_accessor(self, first);
        let r1 = self.data_accessor_requests(clients, handles, first, first_attr);
        let r2 = self.data_accessor_requests(after, handles, second, second_attr);
        assert(after.data.contains(data));
        assert(self.data_requests(after, handles, data) =~= Seq::<ClientRequest<R>>::empty());
        lemma_count_add(r1, r2, kind);
        lemma_count_short(r1, kind);
        lemma_count_short(r2, kind);
    }
}

} // verus!
