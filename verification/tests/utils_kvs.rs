use kruemel::kvs::KvStore;
use kruemel::utils::{
    adjacency_left, adjacency_right, join_dy_dx, rand_dir, rand_dir_2, rand_int, rand_low100,
    rand_vec, rand_vec_8, split_dy_dx,
};

#[test]
fn test_rand_int_range() {
    // A one-element range leaves no choice at all.
    assert_eq!(rand_int(1), 0);
    for _ in 0..200 {
        let r = rand_int(7);
        assert!((0..7).contains(&r));
    }
}

#[test]
fn test_rand_low100_range() {
    for _ in 0..200 {
        let r = rand_low100();
        assert!((0..100).contains(&r));
    }
}

#[test]
fn test_rand_dir_range() {
    for _ in 0..200 {
        let r = rand_dir();
        assert!((-1..=1).contains(&r));
        let r2 = rand_dir_2();
        assert!(r2 == -1 || r2 == 1);
    }
}

#[test]
fn test_rand_vec_range() {
    for _ in 0..200 {
        let (x, y) = rand_vec();
        assert!((-1..=1).contains(&x) && (-1..=1).contains(&y));
        let (x8, y8) = rand_vec_8();
        assert!((-1..=1).contains(&x8) && (-1..=1).contains(&y8));
        assert!((x8, y8) != (0, 0));
    }
}

#[test]
fn test_join_split_round_trip() {
    for dx in -1..=1 {
        for dy in -1..=1 {
            let s = join_dy_dx(dx, dy);
            assert!(s <= 8);
            assert_eq!(split_dy_dx(s), (dx, dy));
        }
    }
}

#[test]
fn test_adjacency_rotations() {
    let dirs = [
        (0, 1),
        (1, 1),
        (1, 0),
        (1, -1),
        (0, -1),
        (-1, -1),
        (-1, 0),
        (-1, 1),
    ];
    assert_eq!(adjacency_right((0, 1)), (1, 1));
    assert_eq!(adjacency_left((0, 1)), (-1, 1));
    for &d in &dirs {
        // One step right then one step left comes back.
        assert_eq!(adjacency_left(adjacency_right(d)), d);
        // Eight right turns are a full circle.
        let mut r = d;
        for _ in 0..8 {
            r = adjacency_right(r);
        }
        assert_eq!(r, d);
    }
    assert_eq!(adjacency_right((0, 0)), (0, 0));
    assert_eq!(adjacency_left((2, 2)), (0, 0));
}

#[test]
fn test_kvs_set_get_remove() {
    let mut store = KvStore::new();
    assert_eq!(store.get(String::from("a")), None);
    store.set(String::from("a"), String::from("1"));
    store.set(String::from("b"), String::from("2"));
    assert_eq!(store.get(String::from("a")), Some(String::from("1")));
    assert_eq!(store.get(String::from("b")), Some(String::from("2")));
    store.set(String::from("a"), String::from("3"));
    assert_eq!(store.get(String::from("a")), Some(String::from("3")));
    store.remove(String::from("a"));
    assert_eq!(store.get(String::from("a")), None);
    assert_eq!(store.get(String::from("b")), Some(String::from("2")));
    // Removing an absent key is silently ignored.
    store.remove(String::from("zzz"));
    assert_eq!(store.get(String::from("b")), Some(String::from("2")));
}
