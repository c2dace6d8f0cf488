use mod3d_base::example_client::Id;
use mod3d_base::{VertexAttr, Vertices};

const ALL: [VertexAttr; 9] = [
    VertexAttr::Position,
    VertexAttr::Normal,
    VertexAttr::Color,
    VertexAttr::Tangent,
    VertexAttr::Joints,
    VertexAttr::Weights,
    VertexAttr::TexCoords0,
    VertexAttr::TexCoords1,
    VertexAttr::TexCoords2,
];

#[test]
fn new_vertices_have_the_position_only() {
    let v: Vertices<Id> = Vertices::new(Some(4), 7);
    assert_eq!(v.borrow_indices(), Some(4));
    assert_eq!(v.iter_attrs(), &[(VertexAttr::Position, 7)]);
    assert_eq!(v.borrow_attr(VertexAttr::Position), Some(7));
    assert_eq!(v.borrow_attr(VertexAttr::Normal), None);
    assert!(!v.has_client());
    assert!(v.borrow_client().is_none());
    let w: Vertices<Id> = Vertices::new(None, 0);
    assert_eq!(w.borrow_indices(), None);
}

#[test]
fn attributes_are_kept_in_order() {
    let mut v: Vertices<Id> = Vertices::new(None, 0);
    v.add_attr(VertexAttr::TexCoords0, 3);
    v.add_attr(VertexAttr::Normal, 1);
    v.add_attr(VertexAttr::Joints, 2);
    assert_eq!(
        v.iter_attrs(),
        &[
            (VertexAttr::Position, 0),
            (VertexAttr::Normal, 1),
            (VertexAttr::Joints, 2),
            (VertexAttr::TexCoords0, 3),
        ]
    );
    assert_eq!(v.borrow_attr(VertexAttr::Joints), Some(2));
    assert_eq!(v.borrow_attr(VertexAttr::Color), None);
}

#[test]
fn adding_an_attribute_again_replaces_its_accessor() {
    let mut v: Vertices<Id> = Vertices::new(None, 0);
    v.add_attr(VertexAttr::Normal, 1);
    v.add_attr(VertexAttr::Color, 2);
    assert_eq!(v.iter_attrs().len(), 3);
    v.add_attr(VertexAttr::Normal, 9);
    assert_eq!(v.iter_attrs().len(), 3);
    assert_eq!(
        v.iter_attrs(),
        &[(VertexAttr::Position, 0), (VertexAttr::Normal, 9), (VertexAttr::Color, 2)]
    );
    v.add_attr(VertexAttr::Position, 5);
    assert_eq!(v.iter_attrs().len(), 3);
    assert_eq!(v.borrow_attr(VertexAttr::Position), Some(5));
    v.add_attr(VertexAttr::Color, 2);
    assert_eq!(
        v.iter_attrs(),
        &[(VertexAttr::Position, 5), (VertexAttr::Normal, 9), (VertexAttr::Color, 2)]
    );
}

fn next_permutation(order: &mut [usize]) -> bool {
    let n = order.len();
    if n < 2 {
        return false;
    }
    let mut i = n - 1;
    while i > 0 && order[i - 1] >= order[i] {
        i -= 1;
    }
    if i == 0 {
        return false;
    }
    let mut j = n - 1;
    while order[j] <= order[i - 1] {
        j -= 1;
    }
    order.swap(i - 1, j);
    order[i..].reverse();
    true
}

#[test]
fn every_order_of_adding_gives_the_same_attributes() {
    let tags = [
        VertexAttr::Normal,
        VertexAttr::Color,
        VertexAttr::Weights,
        VertexAttr::TexCoords1,
        VertexAttr::Tangent,
    ];
    let expected = [
        (VertexAttr::Position, 100),
        (VertexAttr::Normal, 0),
        (VertexAttr::Color, 1),
        (VertexAttr::Tangent, 4),
        (VertexAttr::Weights, 2),
        (VertexAttr::TexCoords1, 3),
    ];
    let mut order = [0usize, 1, 2, 3, 4];
    let mut seen = 0;
    loop {
        let mut v: Vertices<Id> = Vertices::new(None, 100);
        for i in order {
            v.add_attr(tags[i], i);
        }
        assert_eq!(v.iter_attrs(), &expected);
        seen += 1;
        if !next_permutation(&mut order) {
            break;
        }
    }
    assert_eq!(seen, 120);
}

#[test]
fn all_the_attributes_can_be_there() {
    let mut v: Vertices<Id> = Vertices::new(None, 0);
    for (i, a) in ALL.iter().enumerate().rev() {
        v.add_attr(*a, i);
    }
    assert_eq!(v.iter_attrs().len(), 9);
    for (i, a) in ALL.iter().enumerate() {
        assert_eq!(v.iter_attrs()[i], (*a, i));
        assert_eq!(v.borrow_attr(*a), Some(i));
    }
}
