//! An example object: one triangle with positions, normals and indices.
use vstd::prelude::*;

use crate::buffer_data::BufferDataView;
use crate::buffer_data_accessor::BufferDataAccessorView;
use crate::buffer_descriptor::BufferDescriptorView;
use crate::buffer_index_accessor::BufferIndexAccessorView;
use crate::example_objects::example_vertices::ExampleVertices;
use crate::example_objects::layout::{Clients, Handles, Layout};
use crate::traits::{ClientRequest, Renderable};
use crate::types::{BufferElementType, ShortIndex, VertexAttr, VertexDesc, VertexDescView};
use crate::vertices::{
    attrs_built, attrs_requests, attrs_sorted, attrs_with_clients, clients_after_attrs,
    last_added, lemma_sorted_attrs_equal, VerticesView,
};

verus! {

/// The field of the positions of the triangle: three 32-bit floats at the
/// start of the vertex data.
pub open spec fn position_field() -> VertexDescView {
    VertexDescView {
        attr: VertexAttr::Position,
        byte_offset: 0,
        rows: 3,
        columns: 0,
        ele_type: BufferElementType::Float32,
    }
}

/// The field of the normals of the triangle: three 32-bit floats after the
/// nine floats of the positions.
pub open spec fn normal_field() -> VertexDescView {
    VertexDescView {
        attr: VertexAttr::Normal,
        byte_offset: 36,
        rows: 3,
        columns: 0,
        ele_type: BufferElementType::Float32,
    }
}

/// The layout that a store has when the triangle is all that it holds.
pub open spec fn triangle_layout(vertex_data: Seq<u8>) -> Layout {
    Layout {
        data: seq![
            BufferDataView {
                container: vertex_data,
                byte_offset: 0,
                byte_length: vertex_data.len() as u32,
            },
            BufferDataView { container: seq![0u8, 1u8, 2u8], byte_offset: 0, byte_length: 3 },
        ],
        descriptors: seq![
            BufferDescriptorView {
                data: 0,
                byte_offset: 0,
                stride: 48,
                elements: seq![position_field(), normal_field()],
            },
        ],
        index_accessors: seq![
            BufferIndexAccessorView {
                data: 1,
                number_indices: 3,
                ele_type: BufferElementType::UInt8,
                byte_offset: 0,
            },
        ],
        data_accessors: seq![
            BufferDataAccessorView {
                desc: 0,
                desc_index: 0,
                record_offset: 0,
                vertex_desc: position_field(),
            },
            BufferDataAccessorView {
                desc: 0,
                desc_index: 1,
                record_offset: 0,
                vertex_desc: normal_field(),
            },
        ],
    }
}

/// The set of vertices of the triangle when it is all that a store holds.
pub open spec fn triangle_vertices() -> VerticesView {
    VerticesView {
        indices: Some(0),
        attrs: seq![(VertexAttr::Position, 0usize), (VertexAttr::Normal, 1usize)],
    }
}

/// The seven requests that creating the client of the triangle makes when
/// nothing has a client, given the clients that there are afterwards: for
/// the bytes of the indices and for the indices, for the bytes of the
/// vertex data, for the one descriptor over them, for the positions and
/// for the normals, and for the vertices. Each request but those for bytes
/// comes with the client that an earlier one made.
pub open spec fn triangle_requests<R: Renderable>(
    vertex_data: Seq<u8>,
    handles: Handles<R>,
    client: R::Vertices,
) -> Seq<ClientRequest<R>> {
    seq![
        ClientRequest::Buffer { bytes: seq![0u8, 1u8, 2u8], client: handles.data[1]->0 },
        ClientRequest::IndexAccessor {
            ele_type: BufferElementType::UInt8,
            count: 3,
            byte_offset: 0,
            buffer: handles.data[1]->0,
            client: handles.index_accessors[0]->0,
        },
        ClientRequest::Buffer { bytes: vertex_data, client: handles.data[0]->0 },
        ClientRequest::Descriptor {
            buffer: handles.data[0]->0,
            stride: 48,
            elements: seq![position_field(), normal_field()],
            client: handles.descriptors[0]->0,
        },
        ClientRequest::DataAccessor {
            attr: VertexAttr::Position,
            ele_type: BufferElementType::Float32,
            count: 3,
            byte_offset: 0,
            stride: 48,
            descriptor: handles.descriptors[0]->0,
            client: handles.data_accessors[0]->0,
        },
        ClientRequest::DataAccessor {
            attr: VertexAttr::Normal,
            ele_type: BufferElementType::Float32,
            count: 3,
            byte_offset: 36,
            stride: 48,
            descriptor: handles.descriptors[0]->0,
            client: handles.data_accessors[1]->0,
        },
        ClientRequest::Vertices {
            indices: handles.index_accessors[0],
            attrs: seq![
                (VertexAttr::Position, handles.data_accessors[0]->0),
                (VertexAttr::Normal, handles.data_accessors[1]->0),
            ],
            client,
        },
    ]
}

/// Creating the client of the triangle, when nothing has a client, makes
/// the seven requests of [triangle_requests], in that order.
pub proof fn lemma_triangle_requests<R: Renderable>(
    vertex_data: Seq<u8>,
    handles: Handles<R>,
    client: R::Vertices,
)
    requires
        vertex_data.len() <= u32::MAX,
    ensures
        triangle_vertices().requests(
            triangle_layout(vertex_data),
            Clients::none(),
            handles,
            client,
        ) == triangle_requests(vertex_data, handles, client),
{
    let layout = triangle_layout(vertex_data);
    let view = triangle_vertices();
    let none = Clients::none();
    let indexed = view.clients_after_indices(layout, none);
    let attrs = view.attrs;
    let first = attrs.drop_last();
    let expected = triangle_requests(vertex_data, handles, client);
    assert(first =~= seq![(VertexAttr::Position, 0usize)]);
    assert(first.drop_last() =~= Seq::<(VertexAttr, usize)>::empty());
    assert(clients_after_attrs(layout, indexed, first.drop_last()) == indexed);
    assert(attrs_requests(layout, indexed, handles, first.drop_last()) =~= Seq::<
        ClientRequest<R>,
    >::empty());
    let positioned = clients_after_attrs(layout, indexed, first);
    assert(positioned == indexed.with_data_accessor(layout, 0));
    assert(layout.data[0].bytes() =~= vertex_data);
    assert(layout.data[1].bytes() =~= seq![0u8, 1u8, 2u8]);
    assert(position_field().count() == 3);
    assert(normal_field().count() == 3);
    assert(attrs_with_clients(handles, attrs) =~= seq![
        (VertexAttr::Position, handles.data_accessors[0]->0),
        (VertexAttr::Normal, handles.data_accessors[1]->0),
    ]);
    let for_indices = view.indices_requests(layout, none, handles);
    assert(for_indices =~= seq![expected[0], expected[1]]);
    assert(!indexed.data.contains(0));
    let for_position = layout.data_accessor_requests(indexed, handles, 0, VertexAttr::Position);
    assert(layout.descriptor_requests(indexed, handles, 0) =~= seq![expected[2], expected[3]]);
    assert(for_position =~= seq![expected[2], expected[3], expected[4]]);
    assert(first.last() == (VertexAttr::Position, 0usize));
    assert(attrs_requests(layout, indexed, handles, first) =~= for_position);
    let for_normal = layout.data_accessor_requests(positioned, handles, 1, VertexAttr::Normal);
    assert(positioned.data.contains(0));
    assert(positioned.descriptors.contains(0));
    assert(!positioned.data_accessors.contains(1));
    assert(layout.descriptor_requests(positioned, handles, 0) =~= Seq::<ClientRequest<R>>::empty());
    assert(for_normal =~= seq![expected[5]]);
    assert(attrs.last() == (VertexAttr::Normal, 1usize));
    assert(attrs_requests(layout, indexed, handles, attrs) =~= for_position + for_normal);
    assert(view.requests(layout, none, handles, client) =~= expected);
}

/// Add positions, normals and indices to an [ExampleVertices] for a
/// triangle, and return the index of its set of vertices.
///
/// The vertex data is the bytes of three positions of three 32-bit floats
/// each, then three normals of three 32-bit floats each. It is pushed as
/// one byte buffer and the indices 0, 1 and 2 as another. One descriptor
/// over the vertex data gets a field for the positions and a field for the
/// normals, each with its accessor, and the set of vertices has the
/// indices and these two attributes.
pub fn new<R: Renderable>(eg: &mut ExampleVertices<R>, vertex_data: Vec<u8>) -> (v: ShortIndex)
    requires
        old(eg).wf(),
        old(eg).vertices_seq().len() < 65535,
        vertex_data@.len() <= u32::MAX,
    ensures
        final(eg).wf(),
        v@ == Some(old(eg).vertices_seq().len() as usize),
        final(eg).vertices_seq().len() == old(eg).vertices_seq().len() + 1,
        forall|i: int|
            0 <= i < old(eg).vertices_seq().len() ==> final(eg).vertices_seq()[i] == old(
                eg,
            ).vertices_seq()[i],
        final(eg).byte_buffers() == old(eg).byte_buffers().push(vertex_data@).push(
            seq![0u8, 1u8, 2u8],
        ),
        final(eg).store().layout().data == old(eg).store().layout().data.push(
            BufferDataView {
                container: vertex_data@,
                byte_offset: 0,
                byte_length: vertex_data@.len() as u32,
            },
        ).push(BufferDataView { container: seq![0u8, 1u8, 2u8], byte_offset: 0, byte_length: 3 }),
        final(eg).store().layout().index_accessors == old(
            eg,
        ).store().layout().index_accessors.push(
            BufferIndexAccessorView {
                data: (old(eg).store().layout().data.len() + 1) as usize,
                number_indices: 3,
                ele_type: BufferElementType::UInt8,
                byte_offset: 0,
            },
        ),
        final(eg).store().layout().descriptors == old(eg).store().layout().descriptors.push(
            BufferDescriptorView {
                data: old(eg).store().layout().data.len() as usize,
                byte_offset: 0,
                stride: 48,
                elements: seq![position_field(), normal_field()],
            },
        ),
        final(eg).store().layout().data_accessors == old(
            eg,
        ).store().layout().data_accessors.push(
            BufferDataAccessorView {
                desc: old(eg).store().layout().descriptors.len() as usize,
                desc_index: 0,
                record_offset: 0,
                vertex_desc: position_field(),
            },
        ).push(
            BufferDataAccessorView {
                desc: old(eg).store().layout().descriptors.len() as usize,
                desc_index: 1,
                record_offset: 0,
                vertex_desc: normal_field(),
            },
        ),
        final(eg).store().clients() == old(eg).store().clients(),
        final(eg).store().keeps_clients_of(&old(eg).store()),
        final(eg).vertices_at(v)@ == (VerticesView {
            indices: Some(old(eg).store().layout().index_accessors.len() as usize),
            attrs: seq![
                (VertexAttr::Position, old(eg).store().layout().data_accessors.len() as usize),
                (
                    VertexAttr::Normal,
                    (old(eg).store().layout().data_accessors.len() + 1) as usize,
                ),
            ],
        }),
        final(eg).vertices_at(v).client() is None,
        old(eg).store().layout() == Layout::empty() ==> {
            &&& final(eg).store().layout() == triangle_layout(vertex_data@)
            &&& final(eg).vertices_at(v)@ == triangle_vertices()
        },
{
    let mut index_data: Vec<u8> = Vec::new();
    index_data.push(0);
    index_data.push(1);
    index_data.push(2);
    assert(index_data@ =~= seq![0u8, 1u8, 2u8]);

    let data_vertices = eg.push_byte_buffer(vertex_data);
    let data_indices = eg.push_byte_buffer(index_data);

    let indices = eg.push_index_accessor(data_indices, 3, BufferElementType::UInt8, 0);
    let desc = eg.push_descriptor(data_vertices, 0, 0);
    let position = VertexDesc::vec(VertexAttr::Position, BufferElementType::Float32, 3, 0);
    let normal = VertexDesc::vec(VertexAttr::Normal, BufferElementType::Float32, 3, 9 * 4);
    let vertices = eg.push_data_accessor(desc, position);
    let normals = eg.push_data_accessor(desc, normal);
    proof {
        assert(position@ == position_field());
        assert(normal@ == normal_field());
        assert(position_field().extent() == 12) by {
            assert(position_field().count() == 3);
        }
        assert(normal_field().extent() == 48) by {
            assert(normal_field().count() == 3);
        }
        assert(eg.store().layout().descriptors[desc as int].elements =~= seq![
            position_field(),
            normal_field(),
        ]);
    }

    let mut attrs: Vec<(VertexAttr, usize)> = Vec::new();
    attrs.push((VertexAttr::Normal, normals));
    let v = eg.push_vertices(Some(indices), vertices, attrs.as_slice());
    proof {
        let adds = attrs@;
        let built = eg.vertices_at(v)@.attrs;
        let expected = seq![(VertexAttr::Position, vertices), (VertexAttr::Normal, normals)];
        assert(adds.drop_last().len() == 0);
        assert(adds.last() == (VertexAttr::Normal, normals));
        assert(attrs_built(vertices, adds, built));
        assert forall|t: VertexAttr, a: usize| #[trigger]
            built.contains((t, a)) <==> expected.contains((t, a)) by {
            assert(last_added(adds.drop_last(), t) is None);
            assert(last_added(adds, t) == (if t == VertexAttr::Normal {
                Some(normals)
            } else {
                None::<usize>
            }));
            if expected.contains((t, a)) {
                let i = choose|i: int| 0 <= i < expected.len() && expected[i] == (t, a);
                assert(i == 0 || i == 1);
            }
            if t == VertexAttr::Normal && a == normals {
                assert(expected[1] == (t, a));
            }
            if t == VertexAttr::Position && a == vertices {
                assert(expected[0] == (t, a));
            }
        }
        assert(attrs_sorted(expected));
        lemma_sorted_attrs_equal(built, expected);
        if old(eg).store().layout() == Layout::empty() {
            let layout = eg.store().layout();
            let alone = triangle_layout(vertex_data@);
            assert(layout.data =~= alone.data);
            assert(layout.descriptors =~= alone.descriptors);
            assert(layout.index_accessors =~= alone.index_accessors);
            assert(layout.data_accessors =~= alone.data_accessors);
        }
    }
    v
}

} // verus!
