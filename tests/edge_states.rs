use grid_board::graph::{EdgeData, Graph, VertexPointAndData};
use grid_board::graph_key::{EdgeKey, Vertex3Key};

fn v(x: i16, y: i16, z: i16) -> Vertex3Key {
    Vertex3Key::new(x, y, z)
}

fn edge(from: Vertex3Key, to: Vertex3Key) -> EdgeKey {
    EdgeKey::new(from, to).unwrap()
}

fn a() -> Vertex3Key {
    v(0, 0, 0)
}

fn b() -> Vertex3Key {
    v(1, 1, 1)
}

#[test]
fn one_way_round_trip_leaves_reverse_unset() {
    let mut graph = Graph::new();
    graph.insert_edge_one_way(edge(a(), b()), 7);
    assert_eq!(graph.get_edge_one_way(edge(a(), b())), Some(&7));
    assert_eq!(graph.get_edge_one_way(edge(b(), a())), None);
}

#[test]
fn asymmetric_merge_keeps_both_values() {
    let mut graph = Graph::new();
    graph.insert_edge_one_way(edge(a(), b()), 1);
    graph.insert_edge_one_way(edge(b(), a()), 2);
    match graph.get_edge_two_way(edge(a(), b())) {
        Some(EdgeData::NonIdenticalTwo(first, second)) => {
            assert_eq!(first.0, a());
            assert_eq!(first.1, 1);
            assert_eq!(second.0, b());
            assert_eq!(second.1, 2);
        }
        other => panic!("unexpected entry {:?}", other),
    }
    assert_eq!(graph.get_edge_one_way(edge(a(), b())), Some(&1));
    assert_eq!(graph.get_edge_one_way(edge(b(), a())), Some(&2));
}

#[test]
fn symmetric_collapse_to_identical_two() {
    let mut graph = Graph::new();
    graph.insert_edge_one_way(edge(a(), b()), 5);
    graph.insert_edge_one_way(edge(b(), a()), 5);
    assert_eq!(
        graph.get_edge_two_way(edge(a(), b())),
        Some(&EdgeData::IdenticalTwo(5))
    );
}

#[test]
fn one_way_overwrite_same_direction() {
    let mut graph = Graph::new();
    graph.insert_edge_one_way(edge(a(), b()), 1);
    graph.insert_edge_one_way(edge(a(), b()), 4);
    assert_eq!(
        graph.get_edge_two_way(edge(b(), a())),
        Some(&EdgeData::One(VertexPointAndData(a(), 4)))
    );
}

#[test]
fn one_way_insert_splits_identical_two() {
    let mut graph = Graph::new();
    graph.insert_edge_two_way(edge(a(), b()), 3);
    graph.insert_edge_one_way(edge(a(), b()), 3);
    match graph.get_edge_two_way(edge(a(), b())) {
        Some(EdgeData::NonIdenticalTwo(first, second)) => {
            assert_eq!((first.0, first.1), (b(), 3));
            assert_eq!((second.0, second.1), (a(), 3));
        }
        other => panic!("unexpected entry {:?}", other),
    }
}

#[test]
fn one_way_insert_replaces_first_half_of_non_identical() {
    let mut graph = Graph::new();
    graph.insert_edge_one_way(edge(a(), b()), 1);
    graph.insert_edge_one_way(edge(b(), a()), 2);
    graph.insert_edge_one_way(edge(a(), b()), 9);
    match graph.get_edge_two_way(edge(a(), b())) {
        Some(EdgeData::NonIdenticalTwo(first, second)) => {
            assert_eq!((first.0, first.1), (a(), 9));
            assert_eq!((second.0, second.1), (b(), 2));
        }
        other => panic!("unexpected entry {:?}", other),
    }
}

#[test]
fn one_way_insert_replaces_second_half_of_non_identical() {
    let mut graph = Graph::new();
    graph.insert_edge_one_way(edge(a(), b()), 1);
    graph.insert_edge_one_way(edge(b(), a()), 2);
    graph.insert_edge_one_way(edge(b(), a()), 8);
    match graph.get_edge_two_way(edge(a(), b())) {
        Some(EdgeData::NonIdenticalTwo(first, second)) => {
            assert_eq!((first.0, first.1), (a(), 1));
            assert_eq!((second.0, second.1), (b(), 8));
        }
        other => panic!("unexpected entry {:?}", other),
    }
    assert_eq!(graph.get_edge_one_way(edge(b(), a())), Some(&8));
}

#[test]
fn two_way_insert_collapses_non_identical() {
    let mut graph = Graph::new();
    graph.insert_edge_one_way(edge(a(), b()), 1);
    graph.insert_edge_one_way(edge(b(), a()), 2);
    graph.insert_edge_two_way(edge(b(), a()), 6);
    assert_eq!(
        graph.get_edge_two_way(edge(a(), b())),
        Some(&EdgeData::IdenticalTwo(6))
    );
    assert_eq!(graph.get_edge_one_way(edge(a(), b())), Some(&6));
    assert_eq!(graph.get_edge_one_way(edge(b(), a())), Some(&6));
}

#[test]
fn remove_one_way_from_non_identical_keeps_other_half() {
    let mut graph = Graph::new();
    graph.insert_edge_one_way(edge(a(), b()), 1);
    graph.insert_edge_one_way(edge(b(), a()), 2);
    graph.remove_edge_one_way(edge(a(), b()));
    assert_eq!(
        graph.get_edge_two_way(edge(a(), b())),
        Some(&EdgeData::One(VertexPointAndData(b(), 2)))
    );
    graph.insert_edge_one_way(edge(a(), b()), 1);
    graph.remove_edge_one_way(edge(b(), a()));
    assert_eq!(
        graph.get_edge_two_way(edge(a(), b())),
        Some(&EdgeData::One(VertexPointAndData(a(), 1)))
    );
}

#[test]
fn remove_one_way_of_reverse_single_direction_deletes_entry() {
    let mut graph = Graph::new();
    graph.insert_edge_one_way(edge(a(), b()), 1);
    graph.remove_edge_one_way(edge(b(), a()));
    assert_eq!(graph.get_edge_two_way(edge(a(), b())), None);
}

#[test]
fn removals_of_absent_edges_change_nothing() {
    let mut graph: Graph<i32> = Graph::new();
    graph.insert_edge_two_way(edge(a(), v(2, 2, 2)), 4);
    graph.remove_edge_one_way(edge(a(), b()));
    graph.remove_edge_two_way(edge(b(), a()));
    assert_eq!(graph.get_edge_two_way(edge(a(), b())), None);
    assert_eq!(
        graph.get_edge_two_way(edge(v(2, 2, 2), a())),
        Some(&EdgeData::IdenticalTwo(4))
    );
}

#[test]
fn full_removal_from_every_state() {
    let mut graph = Graph::new();
    graph.insert_edge_one_way(edge(a(), b()), 1);
    graph.insert_edge_one_way(edge(a(), v(0, 0, 1)), 1);
    graph.insert_edge_one_way(edge(v(0, 0, 1), a()), 2);
    graph.insert_edge_two_way(edge(a(), v(0, 1, 0)), 3);
    graph.remove_edge_two_way(edge(b(), a()));
    graph.remove_edge_two_way(edge(v(0, 0, 1), a()));
    graph.remove_edge_two_way(edge(a(), v(0, 1, 0)));
    for other in [b(), v(0, 0, 1), v(0, 1, 0)] {
        assert_eq!(graph.get_edge_two_way(edge(a(), other)), None);
        assert_eq!(graph.get_edge_two_way(edge(other, a())), None);
        assert_eq!(graph.get_edge_one_way(edge(a(), other)), None);
        assert_eq!(graph.get_edge_one_way(edge(other, a())), None);
    }
}

#[test]
fn separate_edges_do_not_interfere() {
    let mut graph = Graph::new();
    graph.insert_edge_one_way(edge(a(), b()), 1);
    graph.insert_edge_one_way(edge(b(), v(2, 2, 2)), 2);
    graph.insert_edge_two_way(edge(v(2, 2, 2), a()), 3);
    assert_eq!(graph.get_edge_one_way(edge(a(), b())), Some(&1));
    assert_eq!(graph.get_edge_one_way(edge(b(), v(2, 2, 2))), Some(&2));
    assert_eq!(graph.get_edge_one_way(edge(v(2, 2, 2), b())), None);
    assert_eq!(graph.get_edge_one_way(edge(a(), v(2, 2, 2))), Some(&3));
    graph.remove_edge_two_way(edge(b(), a()));
    assert_eq!(graph.get_edge_one_way(edge(b(), v(2, 2, 2))), Some(&2));
    assert_eq!(graph.get_edge_one_way(edge(a(), v(2, 2, 2))), Some(&3));
}

#[test]
fn non_identical_equality_ignores_half_order() {
    let x: EdgeData<i32> =
        EdgeData::NonIdenticalTwo(VertexPointAndData(a(), 1), VertexPointAndData(b(), 2));
    let y: EdgeData<i32> =
        EdgeData::NonIdenticalTwo(VertexPointAndData(b(), 2), VertexPointAndData(a(), 1));
    let z: EdgeData<i32> =
        EdgeData::NonIdenticalTwo(VertexPointAndData(a(), 2), VertexPointAndData(b(), 1));
    assert_eq!(x, y);
    assert_ne!(x, z);
    assert_ne!(x, EdgeData::IdenticalTwo(1));
    assert_ne!(
        EdgeData::One(VertexPointAndData(a(), 1)),
        EdgeData::One(VertexPointAndData(b(), 1))
    );
}

#[test]
fn two_way_insert_reads_back_both_directions() {
    let mut graph = Graph::new();
    graph.insert_edge_two_way(edge(a(), b()), 3);
    assert_eq!(graph.get_edge_one_way(edge(a(), b())), Some(&3));
    assert_eq!(graph.get_edge_one_way(edge(b(), a())), Some(&3));
}

#[test]
fn partial_then_full_removal_of_two_way_edge() {
    let mut graph = Graph::new();
    graph.insert_edge_two_way(edge(a(), b()), 3);
    graph.remove_edge_one_way(edge(a(), b()));
    assert_eq!(
        graph.get_edge_two_way(edge(a(), b())),
        Some(&EdgeData::One(VertexPointAndData(b(), 3)))
    );
    assert_eq!(
        graph.get_edge_two_way(edge(b(), a())),
        Some(&EdgeData::One(VertexPointAndData(b(), 3)))
    );
    assert_eq!(graph.get_edge_one_way(edge(a(), b())), None);
    assert_eq!(graph.get_edge_one_way(edge(b(), a())), Some(&3));
    graph.remove_edge_one_way(edge(b(), a()));
    assert_eq!(graph.get_edge_two_way(edge(a(), b())), None);
    assert_eq!(graph.get_edge_two_way(edge(b(), a())), None);
}
