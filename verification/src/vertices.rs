//! A set of vertices: its indices and its attributes, and its client.
use vstd::prelude::*;

use crate::example_objects::example_vertices::DataAccessors;
use crate::example_objects::layout::{Clients, Handles, Layout};
use crate::traits::{attr_clients, ClientRequest, RenderContext, Renderable};
use crate::types::VertexAttr;

verus! {

/// Whether attributes with their accessors are in the order of the
/// attributes, each attribute at most once.
pub open spec fn attrs_sorted(attrs: Seq<(VertexAttr, usize)>) -> bool {
    forall|i: int, j: int|
        0 <= i < j < attrs.len() ==> (#[trigger] attrs[i]).0.spec_ordinal() < (
        #[trigger] attrs[j]).0.spec_ordinal()
}

/// Whether an attribute is among attributes with their accessors.
pub open spec fn has_attr(attrs: Seq<(VertexAttr, usize)>, attr: VertexAttr) -> bool {
    exists|i: int| 0 <= i < attrs.len() && (#[trigger] attrs[i]).0 == attr
}

/// Whether `after` holds what `before` holds and an accessor for an
/// attribute: the attribute with that accessor and no other, and every
/// other attribute with the accessor that it had.
pub open spec fn attr_added(
    before: Seq<(VertexAttr, usize)>,
    attr: VertexAttr,
    accessor: usize,
    after: Seq<(VertexAttr, usize)>,
) -> bool {
    forall|t: VertexAttr, a: usize|
        #![trigger after.contains((t, a))]
        #![trigger before.contains((t, a))]
        after.contains((t, a)) <==> (if t == attr {
            a == accessor
        } else {
            before.contains((t, a))
        })
}

/// Attributes in order are told by what they hold: two sequences that are
/// both in the order of the attributes and hold the same attributes with
/// the same accessors are the same sequence.
pub proof fn lemma_sorted_attrs_equal(a: Seq<(VertexAttr, usize)>, b: Seq<(VertexAttr, usize)>)
    requires
        attrs_sorted(a),
        attrs_sorted(b),
        forall|t: VertexAttr, n: usize| #[trigger] a.contains((t, n)) <==> b.contains((t, n)),
    ensures
        a == b,
    decreases a.len(),
{
    if a.len() == 0 {
        if b.len() > 0 {
            assert(b[0] == (b[0].0, b[0].1));
            assert(b.contains((b[0].0, b[0].1)));
            assert(a.contains((b[0].0, b[0].1)));
        }
        assert(a =~= b);
    } else {
        assert(a[0] == (a[0].0, a[0].1));
        assert(a.contains((a[0].0, a[0].1)));
        assert(b.contains((a[0].0, a[0].1)));
        let j = choose|j: int| 0 <= j < b.len() && b[j] == (a[0].0, a[0].1);
        assert(b[0] == (b[0].0, b[0].1));
        assert(b.contains((b[0].0, b[0].1)));
        assert(a.contains((b[0].0, b[0].1)));
        let k = choose|k: int| 0 <= k < a.len() && a[k] == (b[0].0, b[0].1);
        if k > 0 {
            assert(a[0].0.spec_ordinal() < a[k].0.spec_ordinal());
        }
        if j > 0 {
            assert(b[0].0.spec_ordinal() < b[j].0.spec_ordinal());
        }
        assert(a[0] == b[0]);
        let ra = a.skip(1);
        let rb = b.skip(1);
        assert forall|t: VertexAttr, n: usize| #[trigger] ra.contains((t, n)) <==> rb.contains(
            (t, n),
        ) by {
            if ra.contains((t, n)) {
                let i = choose|i: int| 0 <= i < ra.len() && ra[i] == (t, n);
                assert(a[i + 1] == (t, n));
                assert(a.contains((t, n)));
                let m = choose|m: int| 0 <= m < b.len() && b[m] == (t, n);
                assert(a[0].0.spec_ordinal() < a[i + 1].0.spec_ordinal());
                assert(rb[m - 1] == (t, n));
            }
            if rb.contains((t, n)) {
                let i = choose|i: int| 0 <= i < rb.len() && rb[i] == (t, n);
                assert(b[i + 1] == (t, n));
                assert(b.contains((t, n)));
                assert(a.contains((t, n)));
                let m = choose|m: int| 0 <= m < a.len() && a[m] == (t, n);
                assert(b[0].0.spec_ordinal() < b[i + 1].0.spec_ordinal());
                assert(ra[m - 1] == (t, n));
            }
        }
        assert forall|i: int, j: int| 0 <= i < j < ra.len() implies (
        #[trigger] ra[i]).0.spec_ordinal() < (#[trigger] ra[j]).0.spec_ordinal() by {
            assert(a[i + 1].0.spec_ordinal() < a[j + 1].0.spec_ordinal());
        }
        assert forall|i: int, j: int| 0 <= i < j < rb.len() implies (
        #[trigger] rb[i]).0.spec_ordinal() < (#[trigger] rb[j]).0.spec_ordinal() by {
            assert(b[i + 1].0.spec_ordinal() < b[j + 1].0.spec_ordinal());
        }
        lemma_sorted_attrs_equal(ra, rb);
        assert(a =~= seq![a[0]] + ra);
        assert(b =~= seq![b[0]] + rb);
    }
}

/// The order in which the accessors of two different attributes are added
/// makes no difference: either way the attributes end up in the same
/// order, with the same accessors.
pub proof fn lemma_add_attr_order(
    start: Seq<(VertexAttr, usize)>,
    first: (VertexAttr, usize),
    second: (VertexAttr, usize),
    after_first: Seq<(VertexAttr, usize)>,
    after_both: Seq<(VertexAttr, usize)>,
    after_second: Seq<(VertexAttr, usize)>,
    after_both_swapped: Seq<(VertexAttr, usize)>,
)
    requires
        first.0 != second.0,
        attr_added(start, first.0, first.1, after_first),
        attr_added(after_first, second.0, second.1, after_both),
        attr_added(start, second.0, second.1, after_second),
        attr_added(after_second, first.0, first.1, after_both_swapped),
        attrs_sorted(after_both),
        attrs_sorted(after_both_swapped),
    ensures
        after_both == after_both_swapped,
{
    assert forall|t: VertexAttr, n: usize| #[trigger]
        after_both.contains((t, n)) <==> after_both_swapped.contains((t, n)) by {
        assert(after_first.contains((t, n)) <==> (if t == first.0 {
            n == first.1
        } else {
            start.contains((t, n))
        }));
        assert(after_second.contains((t, n)) <==> (if t == second.0 {
            n == second.1
        } else {
            start.contains((t, n))
        }));
    }
    lemma_sorted_attrs_equal(after_both, after_both_swapped);
}

/// Adding an accessor for an attribute a second time leaves the
/// attributes as the first time left them, if the accessor is the same:
/// nothing is held twice.
pub proof fn lemma_add_attr_again(
    start: Seq<(VertexAttr, usize)>,
    attr: VertexAttr,
    accessor: usize,
    once: Seq<(VertexAttr, usize)>,
    twice: Seq<(VertexAttr, usize)>,
)
    requires
        attr_added(start, attr, accessor, once),
        attr_added(once, attr, accessor, twice),
        attrs_sorted(once),
        attrs_sorted(twice),
    ensures
        once == twice,
{
    assert forall|t: VertexAttr, n: usize| #[trigger] once.contains((t, n)) <==> twice.contains(
        (t, n),
    ) by {
        assert(twice.contains((t, n)) <==> (if t == attr {
            n == accessor
        } else {
            once.contains((t, n))
        }));
    }
    lemma_sorted_attrs_equal(once, twice);
}

/// The accessor that the last of some additions gave to an attribute, if
/// any of them was for that attribute.
pub open spec fn last_added(adds: Seq<(VertexAttr, usize)>, attr: VertexAttr) -> Option<usize>
    decreases adds.len(),
{
    if adds.len() == 0 {
        None
    } else if adds.last().0 == attr {
        Some(adds.last().1)
    } else {
        last_added(adds.drop_last(), attr)
    }
}

/// Whether `attrs` holds what a set of vertices holds that was created
/// with an accessor for the position and then had some accessors added,
/// one after the other: for each attribute the accessor that was added
/// last, and for the position the first one if none was added.
pub open spec fn attrs_built(
    positions: usize,
    adds: Seq<(VertexAttr, usize)>,
    attrs: Seq<(VertexAttr, usize)>,
) -> bool {
    forall|t: VertexAttr, a: usize| #[trigger]
        attrs.contains((t, a)) <==> (match last_added(adds, t) {
            Some(n) => a == n,
            None => t == VertexAttr::Position && a == positions,
        })
}

/// Whether no attribute has two of some additions.
pub open spec fn adds_distinct(adds: Seq<(VertexAttr, usize)>) -> bool {
    forall|i: int, j: int|
        0 <= i < j < adds.len() ==> (#[trigger] adds[i]).0 != (#[trigger] adds[j]).0
}

/// Where no attribute has two additions, the accessor that was added last
/// for an attribute is the one that was added for it.
pub proof fn lemma_last_added_distinct(adds: Seq<(VertexAttr, usize)>, attr: VertexAttr, n: usize)
    requires
        adds_distinct(adds),
    ensures
        last_added(adds, attr) == Some(n) <==> adds.contains((attr, n)),
    decreases adds.len(),
{
    if adds.len() > 0 {
        let rest = adds.drop_last();
        let last = adds.len() - 1;
        assert forall|i: int, j: int| 0 <= i < j < rest.len() implies (#[trigger] rest[i]).0 != (
        #[trigger] rest[j]).0 by {
            assert(adds[i].0 != adds[j].0);
        }
        lemma_last_added_distinct(rest, attr, n);
        if adds.contains((attr, n)) {
            let i = choose|i: int| 0 <= i < adds.len() && adds[i] == (attr, n);
            if i < last {
                assert(rest[i] == (attr, n));
                assert(adds[i].0 != adds[last].0);
            }
        }
        if rest.contains((attr, n)) {
            let i = choose|i: int| 0 <= i < rest.len() && rest[i] == (attr, n);
            assert(adds[i] == (attr, n));
            assert(adds[i].0 != adds[last].0);
        }
        if adds.last() == (attr, n) {
            assert(adds[last] == (attr, n));
        }
    }
}

/// The order of the additions makes no difference: two sets of vertices
/// that were created with the same accessor for the position, and had the
/// same accessors added for the same attributes, each attribute once, in
/// whatever order, hold the same attributes in the same order.
pub proof fn lemma_built_in_any_order(
    positions: usize,
    adds: Seq<(VertexAttr, usize)>,
    reordered: Seq<(VertexAttr, usize)>,
    attrs: Seq<(VertexAttr, usize)>,
    other: Seq<(VertexAttr, usize)>,
)
    requires
        adds_distinct(adds),
        adds_distinct(reordered),
        forall|t: VertexAttr, n: usize| #[trigger]
            adds.contains((t, n)) <==> reordered.contains((t, n)),
        attrs_built(positions, adds, attrs),
        attrs_built(positions, reordered, other),
        attrs_sorted(attrs),
        attrs_sorted(other),
    ensures
        attrs == other,
{
    assert forall|t: VertexAttr, n: usize| #[trigger] attrs.contains((t, n)) <==> other.contains(
        (t, n),
    ) by {
        if last_added(adds, t) is Some {
            let m = last_added(adds, t)->0;
            lemma_last_added_distinct(adds, t, m);
            assert(adds.contains((t, m)) <==> reordered.contains((t, m)));
            lemma_last_added_distinct(reordered, t, m);
        }
        if last_added(reordered, t) is Some {
            let m = last_added(reordered, t)->0;
            lemma_last_added_distinct(reordered, t, m);
            assert(adds.contains((t, m)) <==> reordered.contains((t, m)));
            lemma_last_added_distinct(adds, t, m);
        }
    }
    lemma_sorted_attrs_equal(attrs, other);
}

/// The clients that there are after the clients of the accessors of some
/// attributes were created, one after the other.
pub open spec fn clients_after_attrs(
    layout: Layout,
    clients: Clients,
    attrs: Seq<(VertexAttr, usize)>,
) -> Clients
    decreases attrs.len(),
{
    if attrs.len() == 0 {
        clients
    } else {
        clients_after_attrs(layout, clients, attrs.drop_last()).with_data_accessor(
            layout,
            attrs.last().1 as int,
        )
    }
}

/// The requests that creating the clients of the accessors of some
/// attributes makes, one accessor after the other: for each accessor those
/// that are pending once the accessors before it have their clients.
/// `clients` tells which objects have a client before, and `handles` holds
/// the clients afterwards.
pub open spec fn attrs_requests<R: Renderable>(
    layout: Layout,
    clients: Clients,
    handles: Handles<R>,
    attrs: Seq<(VertexAttr, usize)>,
) -> Seq<ClientRequest<R>>
    decreases attrs.len(),
{
    if attrs.len() == 0 {
        Seq::empty()
    } else {
        attrs_requests(layout, clients, handles, attrs.drop_last())
            + layout.data_accessor_requests(
            clients_after_attrs(layout, clients, attrs.drop_last()),
            handles,
            attrs.last().1 as int,
            attrs.last().0,
        )
    }
}

/// The requests for the clients of the accessors of some attributes read
/// only clients that are there afterwards, so they stay the same whatever
/// clients are created later.
pub proof fn lemma_attrs_requests_kept<R: Renderable>(
    layout: Layout,
    clients: Clients,
    handles: Handles<R>,
    later: Handles<R>,
    attrs: Seq<(VertexAttr, usize)>,
)
    requires
        later.keeps(handles),
        clients_after_attrs(layout, clients, attrs).within(handles.clients()),
    ensures
        attrs_requests(layout, clients, later, attrs) == attrs_requests(
            layout,
            clients,
            handles,
            attrs,
        ),
    decreases attrs.len(),
{
    if attrs.len() > 0 {
        let first = attrs.drop_last();
        let so_far = clients_after_attrs(layout, clients, first);
        assert(so_far.within(clients_after_attrs(layout, clients, attrs)));
        lemma_attrs_requests_kept(layout, clients, handles, later, first);
        layout.lemma_data_accessor_requests_kept(
            so_far,
            handles,
            later,
            attrs.last().1 as int,
            attrs.last().0,
        );
    }
}

/// The attributes of a set of vertices, each with the client of its
/// accessor.
pub open spec fn attrs_with_clients<R: Renderable>(
    handles: Handles<R>,
    attrs: Seq<(VertexAttr, usize)>,
) -> Seq<(VertexAttr, R::DataAccessor)> {
    attrs.map_values(|a: (VertexAttr, usize)| (a.0, handles.data_accessors[a.1 as int]->0))
}

/// What a [Vertices] describes.
pub struct VerticesView {
    /// Index of the index accessor, if the vertices have indices
    pub indices: Option<usize>,
    /// The attributes, each with the index of its data accessor
    pub attrs: Seq<(VertexAttr, usize)>,
}

impl VerticesView {
    /// The attributes are in order, each at most once, and the first is
    /// the position.
    pub open spec fn wf(self) -> bool {
        &&& attrs_sorted(self.attrs)
        &&& self.attrs.len() > 0
        &&& self.attrs[0].0 == VertexAttr::Position
    }

    /// The accessors that the vertices name are in a layout.
    pub open spec fn within(self, layout: Layout) -> bool {
        &&& self.indices matches Some(i) ==> i < layout.index_accessors.len()
        &&& forall|k: int|
            0 <= k < self.attrs.len() ==> (#[trigger] self.attrs[k]).1
                < layout.data_accessors.len()
    }

    /// Vertices that name accessors in a layout name accessors in every
    /// layout that has at least as many accessors.
    pub proof fn lemma_within_larger(self, layout: Layout, larger: Layout)
        requires
            self.within(layout),
            layout.index_accessors.len() <= larger.index_accessors.len(),
            layout.data_accessors.len() <= larger.data_accessors.len(),
        ensures
            self.within(larger),
    {
        assert forall|k: int| 0 <= k < self.attrs.len() implies (#[trigger] self.attrs[k]).1
            < larger.data_accessors.len() by {
            assert(self.attrs[k].1 < layout.data_accessors.len());
        }
    }

    /// The clients that there are after the client of the index accessor
    /// was created, if the vertices have indices.
    pub open spec fn clients_after_indices(self, layout: Layout, clients: Clients) -> Clients {
        match self.indices {
            Some(i) => clients.with_index_accessor(layout, i as int),
            None => clients,
        }
    }

    /// The clients that there are after those of all the accessors of the
    /// vertices were created.
    pub open spec fn clients_after(self, layout: Layout, clients: Clients) -> Clients {
        clients_after_attrs(layout, self.clients_after_indices(layout, clients), self.attrs)
    }

    /// The requests that creating the client of the index accessor makes,
    /// if the vertices have indices.
    pub open spec fn indices_requests<R: Renderable>(
        self,
        layout: Layout,
        clients: Clients,
        handles: Handles<R>,
    ) -> Seq<ClientRequest<R>> {
        match self.indices {
            Some(i) => layout.index_accessor_requests(clients, handles, i as int),
            None => Seq::empty(),
        }
    }

    /// The request that made a client of the vertices themselves, with the
    /// client of the index accessor, if the vertices have indices, and
    /// the attributes in order, each with the client of its accessor.
    pub open spec fn request<R: Renderable>(
        self,
        handles: Handles<R>,
        client: R::Vertices,
    ) -> ClientRequest<R> {
        ClientRequest::Vertices {
            indices: match self.indices {
                Some(i) => handles.index_accessors[i as int],
                None => None,
            },
            attrs: attrs_with_clients(handles, self.attrs),
            client,
        }
    }

    /// The requests that creating the client of the vertices makes when
    /// they have none: those for the index accessor, those for the
    /// accessors of the attributes in order, then one for the vertices.
    /// `clients` tells which objects have a client before, `handles` holds
    /// the clients afterwards, and `client` is that of the vertices.
    pub open spec fn requests<R: Renderable>(
        self,
        layout: Layout,
        clients: Clients,
        handles: Handles<R>,
        client: R::Vertices,
    ) -> Seq<ClientRequest<R>> {
        (self.indices_requests(layout, clients, handles) + attrs_requests(
            layout,
            self.clients_after_indices(layout, clients),
            handles,
            self.attrs,
        )).push(self.request(handles, client))
    }
}

/// A set of vertices using one or more [crate::BufferData] through
/// accessors.
///
/// A number of [Vertices] is used by an object, its components and their
/// meshes; one is used for each primitive within a mesh for its elements.
///
/// The vertices name their accessors by the indices that these have in a
/// [DataAccessors]. The attributes are kept in the order of [VertexAttr],
/// whatever the order in which they were added, and each attribute has
/// one accessor; the position is always there.
pub struct Vertices<R: Renderable> {
    /// Indices related to primitives that use these vertices; if none
    /// then a draw call is not indexed but uses a range of elements
    indices: Option<usize>,
    /// Attributes of the vertices, which must include position, sorted by VertexAttr
    attrs: Vec<(VertexAttr, usize)>,
    /// Client handle for this set of Vertices, updated when 'create_client' is invoked
    client: Option<R::Vertices>,
}

impl<R: Renderable> View for Vertices<R> {
    type V = VerticesView;

    closed spec fn view(&self) -> VerticesView {
        VerticesView { indices: self.indices, attrs: self.attrs@ }
    }
}

impl<R: Renderable> Vertices<R> {
    /// The client, if it has been created.
    pub closed spec fn client(&self) -> Option<R::Vertices> {
        self.client
    }

    /// The vertices are well formed: see [VerticesView::wf].
    pub open spec fn wf(&self) -> bool {
        self@.wf()
    }

    /// The requests that creating the client of the vertices makes: none
    /// if they have a client, else those of [VerticesView::requests].
    /// `after` and `accessors_after` are the vertices and the store once
    /// the clients are there.
    pub open spec fn pending(
        &self,
        accessors: &DataAccessors<R>,
        after: &Self,
        accessors_after: &DataAccessors<R>,
    ) -> Seq<ClientRequest<R>> {
        if self.client() is Some {
            Seq::empty()
        } else {
            self@.requests(
                accessors.layout(),
                accessors.clients(),
                accessors_after.handles(),
                after.client()->0,
            )
        }
    }

    /// Vertices that have a client have no request pending: creating the
    /// client again asks the renderer for nothing.
    pub proof fn lemma_created_once(
        &self,
        accessors: &DataAccessors<R>,
        after: &Self,
        accessors_after: &DataAccessors<R>,
    )
        requires
            self.client() is Some,
        ensures
            self.pending(accessors, after, accessors_after) == Seq::<ClientRequest<R>>::empty(),
    {
    }

    /// Create a new [Vertices] object with no additional attributes
    pub fn new(indices: Option<usize>, position: usize) -> (s: Self)
        ensures
            s@ == (VerticesView { indices, attrs: seq![(VertexAttr::Position, position)] }),
            s.wf(),
            s.client() is None,
    {
        let mut attrs = Vec::new();
        attrs.push((VertexAttr::Position, position));
        assert(attrs@ =~= seq![(VertexAttr::Position, position)]);
        Self { indices, attrs, client: None }
    }

    /// Add an accessor for a particular [VertexAttr]
    ///
    /// On creation the [Vertices] will have views for indices and
    /// positions; this provides a means to add views for things such
    /// as normal, tex coords, etc
    ///
    /// The accessor takes the place of the one that the attribute had, if
    /// it had one. Else the attribute is put where it belongs in the order
    /// of the attributes.
    pub fn add_attr(&mut self, attr: VertexAttr, accessor: usize)
        requires
            old(self).wf(),
        ensures
            final(self).wf(),
            attr_added(old(self)@.attrs, attr, accessor, final(self)@.attrs),
            final(self)@.attrs.len() == old(self)@.attrs.len() + (if has_attr(
                old(self)@.attrs,
                attr,
            ) {
                0int
            } else {
                1int
            }),
            final(self)@.indices == old(self)@.indices,
            final(self).client() == old(self).client(),
    {
        let key = attr.ordinal();
        let ghost before = self.attrs@;
        let mut low: usize = 0;
        let mut high: usize = self.attrs.len();
        while low < high
            invariant
                self.attrs@ == before,
                attrs_sorted(before),
                low <= high <= before.len(),
                forall|i: int| 0 <= i < low ==> (#[trigger] before[i]).0.spec_ordinal() < key,
                forall|i: int|
                    high <= i < before.len() ==> (#[trigger] before[i]).0.spec_ordinal() >= key,
            decreases high - low,
        {
            let mid = low + (high - low) / 2;
            if self.attrs[mid].0.ordinal() < key {
                low = mid + 1;
            } else {
                high = mid;
            }
        }
        let entry = (attr, accessor);
        if low < self.attrs.len() && self.attrs[low].0.ordinal() == key {
            proof {
                VertexAttr::lemma_ordinal_injective(before[low as int].0, attr);
            }
            self.attrs[low] = entry;
            proof {
                let after = self.attrs@;
                assert(after == before.update(low as int, entry));
                assert(after[low as int] == entry);
                assert forall|t: VertexAttr, a: usize|
                    #![trigger after.contains((t, a))]
                    #![trigger before.contains((t, a))]
                    after.contains((t, a)) <==> (if t == attr {
                        a == accessor
                    } else {
                        before.contains((t, a))
                    }) by {
                    if after.contains((t, a)) {
                        let i = choose|i: int| 0 <= i < after.len() && after[i] == (t, a);
                        if i != low {
                            assert(before[i] == (t, a));
                            if t == attr {
                                assert(before[i].0.spec_ordinal()
                                    == before[low as int].0.spec_ordinal());
                            }
                        }
                    }
                    if t != attr && before.contains((t, a)) {
                        let i = choose|i: int| 0 <= i < before.len() && before[i] == (t, a);
                        assert(after[i] == (t, a));
                    }
                }
                assert(has_attr(before, attr));
                assert forall|i: int, j: int| 0 <= i < j < after.len() implies (
                #[trigger] after[i]).0.spec_ordinal() < (#[trigger] after[j]).0.spec_ordinal() by {
                    assert(before[i].0.spec_ordinal() < before[j].0.spec_ordinal());
                }
            }
        } else {
            self.attrs.insert(low, entry);
            proof {
                let after = self.attrs@;
                let at = low as int;
                assert(after.len() == before.len() + 1);
                assert(after[at] == entry);
                assert(forall|i: int| 0 <= i < at ==> after[i] == before[i]);
                assert(forall|i: int| at < i < after.len() ==> after[i] == before[i - 1]);
                assert forall|i: int| at <= i < before.len() implies (
                #[trigger] before[i]).0.spec_ordinal() > key by {
                    if i > at {
                        assert(before[at].0.spec_ordinal() < before[i].0.spec_ordinal());
                    }
                }
                assert(!has_attr(before, attr)) by {
                    if has_attr(before, attr) {
                        let i = choose|i: int| 0 <= i < before.len() && (#[trigger] before[i]).0 == attr;
                        assert(before[i].0.spec_ordinal() == key);
                    }
                }
                assert forall|t: VertexAttr, a: usize|
                    #![trigger after.contains((t, a))]
                    #![trigger before.contains((t, a))]
                    after.contains((t, a)) <==> (if t == attr {
                        a == accessor
                    } else {
                        before.contains((t, a))
                    }) by {
                    if after.contains((t, a)) {
                        let i = choose|i: int| 0 <= i < after.len() && after[i] == (t, a);
                        if i < at {
                            assert(before[i] == (t, a));
                        } else if i > at {
                            assert(before[i - 1] == (t, a));
                        }
                    }
                    if t != attr && before.contains((t, a)) {
                        let i = choose|i: int| 0 <= i < before.len() && before[i] == (t, a);
                        if i < at {
                            assert(after[i] == (t, a));
                        } else {
                            assert(after[i + 1] == (t, a));
                        }
                    }
                }
                assert forall|i: int, j: int| 0 <= i < j < after.len() implies (
                #[trigger] after[i]).0.spec_ordinal() < (#[trigger] after[j]).0.spec_ordinal() by {
                    if j < at {
                        assert(before[i].0.spec_ordinal() < before[j].0.spec_ordinal());
                    } else if j == at {
                        assert(before[i].0.spec_ordinal() < key);
                    } else if i < at {
                        assert(before[i].0.spec_ordinal() < before[j - 1].0.spec_ordinal());
                    } else if i == at {
                        assert(before[j - 1].0.spec_ordinal() > key);
                    } else {
                        assert(before[i - 1].0.spec_ordinal() < before[j - 1].0.spec_ordinal());
                    }
                }
                assert(after[0].0 == VertexAttr::Position) by {
                    if at == 0 {
                        assert(before[0].0.spec_ordinal() > key);
                    }
                }
            }
        }
    }

    /// Get the index of the index accessor, if the vertices have indices
    pub fn borrow_indices(&self) -> (i: Option<usize>)
        ensures
            i == self@.indices,
    {
        self.indices
    }

    /// Get the index of the accessor of an attribute, if the [Vertices]
    /// has one
    pub fn borrow_attr(&self, attr: VertexAttr) -> (a: Option<usize>)
        ensures
            a matches Some(n) ==> self@.attrs.contains((attr, n)),
            a is Some <==> has_attr(self@.attrs, attr),
    {
        let key = attr.ordinal();
        let mut i: usize = 0;
        while i < self.attrs.len()
            invariant
                i <= self.attrs@.len(),
                key == attr.spec_ordinal(),
                forall|k: int| 0 <= k < i ==> (#[trigger] self.attrs@[k]).0 != attr,
            decreases self.attrs@.len() - i,
        {
            if self.attrs[i].0.ordinal() == key {
                proof {
                    VertexAttr::lemma_ordinal_injective(self.attrs@[i as int].0, attr);
                    assert(self.attrs@[i as int] == (attr, self.attrs@[i as int].1));
                }
                return Some(self.attrs[i].1);
            }
            i += 1;
        }
        None
    }

    /// Get the attributes with the indices of their accessors, in the
    /// order of the attributes
    pub fn iter_attrs(&self) -> (attrs: &[(VertexAttr, usize)])
        ensures
            attrs@ == self@.attrs,
    {
        self.attrs.as_slice()
    }

    /// Return true if the client has been created
    pub fn has_client(&self) -> (b: bool)
        ensures
            b == (self.client() is Some),
    {
        self.client.is_some()
    }

    /// Take a client, unless there is one already: a client that was set
    /// stays.
    pub fn set_client(&mut self, client: R::Vertices)
        ensures
            final(self)@ == old(self)@,
            final(self).client() == (if old(self).client() is Some {
                old(self).client()
            } else {
                Some(client)
            }),
    {
        if self.client.is_none() {
            self.client = Some(client);
        }
    }

    /// Create the clients of all the accessors of the vertices: that of
    /// the index accessor first, if there is one, then that of the
    /// accessor of each attribute for its attribute, in the order of the
    /// attributes.
    fn create_accessor_clients(
        &self,
        accessors: &mut DataAccessors<R>,
        renderer: &mut RenderContext<R>,
    )
        requires
            old(accessors).wf(),
            self@.within(old(accessors).layout()),
        ensures
            final(accessors).layout() == old(accessors).layout(),
            final(accessors).keeps_clients_of(old(accessors)),
            final(accessors).clients() == self@.clients_after(
                old(accessors).layout(),
                old(accessors).clients(),
            ),
            self@.indices matches Some(i) ==> final(accessors).clients().index_accessors.contains(
                i as int,
            ),
            forall|j: int|
                0 <= j < self@.attrs.len() ==> final(accessors).clients().data_accessors.contains(
                    (#[trigger] self@.attrs[j]).1 as int,
                ),
            final(renderer).history() == old(renderer).history() + self@.indices_requests(
                old(accessors).layout(),
                old(accessors).clients(),
                final(accessors).handles(),
            ) + attrs_requests(
                old(accessors).layout(),
                self@.clients_after_indices(old(accessors).layout(), old(accessors).clients()),
                final(accessors).handles(),
                self@.attrs,
            ),
    {
        let ghost layout = accessors.layout();
        let ghost clients = accessors.clients();
        let ghost history = renderer.history();
        let ghost started = accessors.handles();
        proof {
            started.lemma_keeps_itself();
        }
        if let Some(i) = self.indices {
            accessors.create_index_accessor_client(i, renderer);
        }
        let ghost indexed = self@.clients_after_indices(layout, clients);
        let mut k: usize = 0;
        while k < self.attrs.len()
            invariant
                k <= self.attrs@.len(),
                self@.within(layout),
                layout.wf(),
                indexed == self@.clients_after_indices(layout, clients),
                accessors.layout() == layout,
                accessors.handles().keeps(started),
                indexed.within(accessors.clients()),
                accessors.clients() == clients_after_attrs(layout, indexed, self.attrs@.take(k as int)),
                renderer.history() == history + self@.indices_requests(
                    layout,
                    clients,
                    accessors.handles(),
                ) + attrs_requests(layout, indexed, accessors.handles(), self.attrs@.take(k as int)),
                self.indices matches Some(i) ==> accessors.clients().index_accessors.contains(
                    i as int,
                ),
                forall|j: int|
                    0 <= j < k ==> accessors.clients().data_accessors.contains(
                        (#[trigger] self.attrs@[j]).1 as int,
                    ),
            decreases self.attrs@.len() - k,
        {
            let attr = self.attrs[k].0;
            let n = self.attrs[k].1;
            let ghost so_far = self.attrs@.take(k as int);
            let ghost handles = accessors.handles();
            let ghost before = renderer.history();
            proof {
                assert(self.attrs@.take(k + 1).drop_last() == so_far);
                assert(self.attrs@.take(k + 1).last() == self.attrs@[k as int]);
                assert(self@.attrs[k as int].1 < layout.data_accessors.len());
            }
            accessors.create_data_accessor_client(n, attr, renderer);
            proof {
                let later = accessors.handles();
                later.lemma_keeps_transitive(handles, started);
                lemma_attrs_requests_kept(layout, indexed, handles, later, so_far);
                assert(self@.indices_requests(layout, clients, later) == self@.indices_requests(
                    layout,
                    clients,
                    handles,
                )) by {
                    if let Some(i) = self@.indices {
                        assert(indexed == clients.with_index_accessor(layout, i as int));
                        layout.lemma_index_accessor_requests_kept(
                            clients,
                            handles,
                            later,
                            i as int,
                        );
                    }
                }
                assert(renderer.history() == before + layout.data_accessor_requests(
                    handles.clients(),
                    later,
                    n as int,
                    attr,
                ));
            }
            k += 1;
        }
        proof {
            assert(self.attrs@.take(self.attrs@.len() as int) == self.attrs@);
        }
    }

    /// The attributes, each with the client of its accessor, borrowed from
    /// the store.
    fn bound_clients<'a>(&self, accessors: &'a DataAccessors<R>) -> (bound: Vec<
        (VertexAttr, &'a R::DataAccessor),
    >)
        requires
            self@.within(accessors.layout()),
            forall|j: int|
                0 <= j < self@.attrs.len() ==> accessors.clients().data_accessors.contains(
                    (#[trigger] self@.attrs[j]).1 as int,
                ),
        ensures
            attr_clients(bound@) == attrs_with_clients(accessors.handles(), self@.attrs),
    {
        let mut bound: Vec<(VertexAttr, &R::DataAccessor)> = Vec::new();
        let mut k: usize = 0;
        while k < self.attrs.len()
            invariant
                k <= self.attrs@.len(),
                self@.within(accessors.layout()),
                bound@.len() == k,
                forall|j: int|
                    0 <= j < k ==> (#[trigger] bound@[j]).0 == self.attrs@[j].0 && Some(
                        *bound@[j].1,
                    ) == accessors.handles().data_accessors[self.attrs@[j].1 as int],
                forall|j: int|
                    0 <= j < self@.attrs.len() ==> accessors.clients().data_accessors.contains(
                        (#[trigger] self@.attrs[j]).1 as int,
                    ),
            decreases self.attrs@.len() - k,
        {
            let attr = self.attrs[k].0;
            let n = self.attrs[k].1;
            assert(self@.attrs[k as int].1 < accessors.layout().data_accessors.len());
            assert(accessors.clients().data_accessors.contains(self@.attrs[k as int].1 as int));
            if let Some(client) = accessors.data_accessor(n).borrow_client() {
                bound.push((attr, client));
            }
            k += 1;
        }
        proof {
            assert(attr_clients(bound@) =~= attrs_with_clients(accessors.handles(), self.attrs@));
        }
        bound
    }

    /// Create the client of the vertices, unless it has been created
    /// before, after the clients of all their accessors.
    ///
    /// If the vertices have a client, nothing happens: it stays, and the
    /// accessors and the renderer are left as they are. Otherwise the
    /// index accessor gets its client first, if there is one, then the
    /// accessor of each attribute for its attribute, in the order of the
    /// attributes, and last the renderer is asked for the client of the
    /// vertices, with the clients of the accessors. Whatever has a client
    /// keeps it, and the renderer gets no request for it.
    pub fn create_client(
        &mut self,
        accessors: &mut DataAccessors<R>,
        renderer: &mut RenderContext<R>,
    )
        requires
            old(accessors).wf(),
            old(self)@.within(old(accessors).layout()),
        ensures
            final(self)@ == old(self)@,
            final(self).client() is Some,
            old(self).client() is Some ==> {
                &&& *final(self) == *old(self)
                &&& *final(accessors) == *old(accessors)
                &&& *final(renderer) == *old(renderer)
            },
            final(accessors).layout() == old(accessors).layout(),
            final(accessors).keeps_clients_of(old(accessors)),
            old(self).client() is None ==> final(accessors).clients() == old(self)@.clients_after(
                old(accessors).layout(),
                old(accessors).clients(),
            ),
            final(renderer).history() == old(renderer).history() + old(self).pending(
                old(accessors),
                final(self),
                final(accessors),
            ),
    {
        if self.client.is_some() {
            proof {
                accessors.handles().lemma_keeps_itself();
            }
            return ;
        }
        self.create_accessor_clients(accessors, renderer);
        let indices = match self.indices {
            Some(i) => accessors.indices(Some(i)).unwrap().borrow_client(),
            None => None,
        };
        let bound = self.bound_clients(accessors);
        let client = renderer.create_vertices_client(indices, bound.as_slice());
        self.set_client(client);
    }

    /// Borrow the client, if it has been created
    pub fn borrow_client(&self) -> (client: Option<&R::Vertices>)
        ensures
            client is Some == self.client() is Some,
            client matches Some(c) ==> self.client() == Some(*c),
    {
        self.client.as_ref()
    }
}

} // verus!
