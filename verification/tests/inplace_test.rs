use rust_practice::collection::inplace_vec::InplaceVec;
use rust_practice::collection::slice::IndexBound;

#[test]
fn inplace_basic_operations() {
    let mut v: InplaceVec<4, i32> = InplaceVec::new();
    assert!(v.is_empty());
    assert_eq!(v.capacity(), 4);
    assert!(v.has_room());

    v.push(1);
    v.push(2);
    assert_eq!(v.len(), 2);
    assert_eq!(*v.index(0), 1);

    assert_eq!(v.pop(), Some(2));
    assert_eq!(v.len(), 1);

    v.set(0, 7);
    assert_eq!(*v.index(0), 7);

    v.extend_from_slice(&[8, 9]);
    assert_eq!(v.as_slice(), &[7, 8, 9]);

    v.clear();
    assert!(v.is_empty());
    assert_eq!(v.pop(), None);
}

#[test]
fn inplace_full_container_has_no_room() {
    let mut v: InplaceVec<2, u8> = InplaceVec::new();
    v.push(1);
    assert!(v.has_room());
    v.push(2);
    assert!(!v.has_room());
    assert_eq!(v.len(), v.capacity());
}

#[test]
fn inplace_insert_and_remove() {
    let mut v: InplaceVec<5, char> = InplaceVec::from_slice(&['a', 'b', 'c']);
    v.insert(1, 'd');
    assert_eq!(v.as_slice(), &['a', 'd', 'b', 'c']);
    v.insert(4, 'e');
    assert_eq!(v.as_slice(), &['a', 'd', 'b', 'c', 'e']);
    assert_eq!(v.remove(1), 'd');
    assert_eq!(v.as_slice(), &['a', 'b', 'c', 'e']);
    assert_eq!(v.remove(0), 'a');
    assert_eq!(v.as_slice(), &['b', 'c', 'e']);
}

#[test]
fn inplace_clone_and_clone_from() {
    let x: InplaceVec<4, i32> = InplaceVec::from_slice(&[5, 6, 7]);
    let y = x.clone();
    assert_eq!(x, y);

    let mut z: InplaceVec<4, i32> = InplaceVec::from_slice(&[1]);
    z.clone_from(&x);
    assert_eq!(z.as_slice(), &[5, 6, 7]);
}

#[test]
fn inplace_default_is_empty() {
    let v: InplaceVec<3, i32> = Default::default();
    assert!(v.is_empty());
    assert_eq!(v.capacity(), 3);
}

#[test]
fn inplace_drain_scenario() {
    // push 1..=5, drain 2..4: yields 3 and 4, the rest is 1, 2, 5.
    let mut v: InplaceVec<5, i32> = InplaceVec::new();
    for x in [1, 2, 3, 4, 5] {
        v.push(x);
    }
    let mut d = v.drain(IndexBound::Included(2), IndexBound::Excluded(4));
    assert_eq!(v.len(), 0);
    assert_eq!(d.size_hint(), (2, Some(2)));
    assert_eq!(d.next(), Some(3));
    assert_eq!(d.next(), Some(4));
    assert_eq!(d.next(), None);
    d.finish(&mut v);
    assert_eq!(v.as_slice(), &[1, 2, 5]);
}

#[test]
fn inplace_abandoned_drain_leaves_empty() {
    let mut v: InplaceVec<3, i32> = InplaceVec::from_slice(&[1, 2, 3]);
    let d = v.drain(IndexBound::Unbounded, IndexBound::Excluded(2));
    drop(d);
    assert_eq!(v.len(), 0);
    assert_eq!(v.capacity(), 3);
    v.push(4);
    assert_eq!(v.as_slice(), &[4]);
}

#[test]
fn inplace_drain_back_to_front() {
    let mut v: InplaceVec<4, i32> = InplaceVec::from_slice(&[1, 2, 3, 4]);
    let mut d = v.drain(IndexBound::Included(0), IndexBound::Unbounded);
    assert_eq!(d.next_back(), Some(4));
    assert_eq!(d.next_back(), Some(3));
    assert_eq!(d.next(), Some(1));
    assert_eq!(d.next_back(), Some(2));
    assert_eq!(d.next_back(), None);
    d.finish(&mut v);
    assert!(v.is_empty());
}

#[test]
fn inplace_into_iter_owns_elements() {
    let mut v: InplaceVec<2, String> = InplaceVec::new();
    v.push("Hello".to_string());
    let mut it = v.into_iter();
    assert_eq!(it.next(), Some("Hello".to_string()));
    assert_eq!(it.next(), None);
}

#[test]
fn inplace_into_iter_both_ends() {
    let v: InplaceVec<4, i32> = InplaceVec::from_slice(&[1, 2, 3]);
    let mut it = v.into_iter();
    assert_eq!(it.len(), 3);
    assert_eq!(it.size_hint(), (3, Some(3)));
    assert_eq!(it.next_back(), Some(3));
    assert_eq!(it.next(), Some(1));
    assert_eq!(it.next(), Some(2));
    assert_eq!(it.next(), None);
    assert_eq!(it.next_back(), None);
}

#[test]
fn inplace_push_pop_round_trip() {
    let mut v: InplaceVec<8, i32> = InplaceVec::new();
    v.push(42);
    for x in [1, 2, 3] {
        v.push(x);
    }
    let mut popped = Vec::new();
    for _ in 0..3 {
        popped.push(v.pop().unwrap());
    }
    assert_eq!(popped, vec![3, 2, 1]);
    assert_eq!(v.as_slice(), &[42]);
}

#[test]
fn inplace_lexicographic_ordering() {
    let a: InplaceVec<4, i32> = InplaceVec::from_slice(&[1, 2]);
    let b: InplaceVec<4, i32> = InplaceVec::from_slice(&[1, 3]);
    assert!(a < b);
    let p: InplaceVec<4, i32> = InplaceVec::from_slice(&[1]);
    assert!(p < a);
    assert_eq!(a.partial_cmp(&a), Some(std::cmp::Ordering::Equal));
}
