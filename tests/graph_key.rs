use core::cmp::Ordering;
use grid_board::graph_key::{EdgeKey, Vertex3Key};

#[test]
fn test_create_edge_keys() {
    let a = Vertex3Key::new(0, 0, 0);
    let b = Vertex3Key::new(1, 1, 1);
    let c = Vertex3Key::new(2, 2, 2);
    let d = Vertex3Key::new(3, 3, 3);
    let e = Vertex3Key::new(4, 4, 4);

    let nodes = [a, b, c, d, e];

    for from in &nodes {
        for to in &nodes {
            if from == to {
                assert_eq!(EdgeKey::new(*from, *to), None);
            } else {
                let key = EdgeKey::new(*from, *to).unwrap();
                assert_eq!(key.from(), *from);
                assert_eq!(key.to(), *to);
            }
        }
    }
}

#[test]
fn self_loop_is_rejected() {
    let origin = Vertex3Key::new(0, 0, 0);
    assert!(EdgeKey::new(origin, origin).is_none());
    let far = Vertex3Key::new(i16::MIN, -7, i16::MAX);
    assert!(EdgeKey::new(far, far).is_none());
}

#[test]
fn keys_are_symmetric() {
    let a = Vertex3Key::new(0, 0, 0);
    let b = Vertex3Key::new(1, -1, 5);
    let ab = EdgeKey::new(a, b).unwrap();
    let ba = EdgeKey::new(b, a).unwrap();
    assert_eq!(ab, ba);
    assert_eq!(ab.compare(&ba), Ordering::Equal);
    assert_ne!(ab, EdgeKey::new(a, Vertex3Key::new(1, -1, 6)).unwrap());
}

#[test]
fn vertex_order_is_lexicographic() {
    let p = Vertex3Key::new(1, 5, 5);
    let q = Vertex3Key::new(2, 0, 0);
    let r = Vertex3Key::new(1, 6, 0);
    let s = Vertex3Key::new(1, 5, 6);
    assert_eq!(p.compare(&q), Ordering::Less);
    assert_eq!(q.compare(&p), Ordering::Greater);
    assert_eq!(p.compare(&r), Ordering::Less);
    assert_eq!(p.compare(&s), Ordering::Less);
    assert_eq!(s.compare(&p), Ordering::Greater);
    assert_eq!(p.compare(&p), Ordering::Equal);
}

#[test]
fn edge_order_uses_sorted_ends() {
    let a = Vertex3Key::new(0, 0, 0);
    let b = Vertex3Key::new(0, 0, 1);
    let c = Vertex3Key::new(0, 1, 0);
    let ba = EdgeKey::new(b, a).unwrap();
    let ca = EdgeKey::new(c, a).unwrap();
    let bc = EdgeKey::new(b, c).unwrap();
    assert_eq!(ba.compare(&ca), Ordering::Less);
    assert_eq!(ca.compare(&ba), Ordering::Greater);
    assert_eq!(ca.compare(&bc), Ordering::Less);
    assert_eq!(bc.compare(&EdgeKey::new(c, b).unwrap()), Ordering::Equal);
}
