use rust_practice::collection::slice::IndexBound;
use rust_practice::collection::vec::MyVec;

#[test]
fn simple_vec_usage_1() {
    let mut vec = MyVec::new();
    vec.push(1);
    vec.push(2);

    assert_eq!(vec.len(), 2);
    assert_eq!(*vec.index(0), 1);

    assert_eq!(vec.pop(), Some(2));
    assert_eq!(vec.len(), 1);

    vec.set(0, 7);
    assert_eq!(*vec.index(0), 7);

    vec.extend_from_slice(&[1, 2, 3]);

    for i in 0..vec.len() {
        let x = *vec.index(i);
        println!("{x}");
    }
    assert_eq!(vec.as_slice(), &[7, 1, 2, 3]);
}

#[test]
fn simple_vec_usage_2() {
    let mut vec1 = MyVec::from_slice(&[1, 2, 3]);
    vec1.push(4);
    let vec2 = MyVec::from_slice(&[1, 2, 3, 4]);
    assert_eq!(vec1, vec2);
}

#[test]
fn vec_with_capacity() {
    let mut vec = MyVec::with_capacity(10);

    // The vector contains no items, even though it has capacity for more
    assert_eq!(vec.len(), 0);
    assert!(vec.capacity() >= 10);

    // These are all done without reallocating...
    for i in 0..10 {
        vec.push(i);
    }
    assert_eq!(vec.len(), 10);
    assert!(vec.capacity() >= 10);

    // ...but this may make the vector reallocate
    vec.push(11);
    assert_eq!(vec.len(), 11);
    assert!(vec.capacity() >= 11);

    // A vector of a zero-sized type will always over-allocate, since no
    // allocation is necessary
    let vec_units = MyVec::<()>::with_capacity(10);
    assert_eq!(vec_units.capacity(), isize::MAX as usize);
}

#[test]
fn vec_drain() {
    let mut v = MyVec::from_slice(&[1, 2, 3]);
    let mut d = v.drain(IndexBound::Included(1), IndexBound::Unbounded);
    let mut u = MyVec::new();
    while let Some(x) = d.next() {
        u.push(x);
    }
    d.finish(&mut v);
    assert_eq!(v.as_slice(), &[1]);
    assert_eq!(u.as_slice(), &[2, 3]);

    // A full range clears the vector, like `clear()` does
    let d = v.drain(IndexBound::Unbounded, IndexBound::Unbounded);
    d.finish(&mut v);
    assert_eq!(v.as_slice(), &[] as &[i32]);

    let mut v = MyVec::from_slice(&[10, 20, 30]);
    let mut d = v.drain(IndexBound::Included(1), IndexBound::Excluded(2));
    let mut drained = MyVec::new();
    while let Some(x) = d.next() {
        drained.push(x);
    }
    d.finish(&mut v);
    assert_eq!(drained.as_slice(), &[20]);
    assert_eq!(v.as_slice(), &[10, 30]);
}

#[test]
fn vec_from_iter() {
    let mut five_fives = MyVec::new();
    for _ in 0..5 {
        five_fives.push(5);
    }
    let v: MyVec<i32> = MyVec::from_slice(five_fives.as_slice());
    assert_eq!(v.as_slice(), &[5, 5, 5, 5, 5]);
}

#[test]
fn vec_basic_operate() {
    let mut vec = MyVec::from_slice(&['a', 'b', 'c']);
    vec.insert(1, 'd');
    assert_eq!(vec.as_slice(), &['a', 'd', 'b', 'c']);
    vec.insert(4, 'e');
    assert_eq!(vec.as_slice(), &['a', 'd', 'b', 'c', 'e']);

    let mut v = MyVec::from_slice(&['a', 'b', 'c']);
    assert_eq!(v.remove(1), 'b');
    assert_eq!(v.as_slice(), &['a', 'c']);

    let mut vec = MyVec::from_slice(&[1, 2]);
    vec.push(3);
    assert_eq!(vec.as_slice(), &[1, 2, 3]);

    let mut vec = MyVec::from_slice(&[1, 2, 3]);
    assert_eq!(vec.pop(), Some(3));
    assert_eq!(vec.as_slice(), &[1, 2]);

    vec.clear();
    assert!(vec.is_empty());
}

#[test]
fn vec_len() {
    let a = MyVec::from_slice(&[1, 2, 3]);
    assert_eq!(a.len(), 3);

    let mut v = MyVec::new();
    assert!(v.is_empty());

    v.push(1);
    assert!(!v.is_empty());

    let v: MyVec<i32> = MyVec::from_slice(&[]);
    assert!(v.is_empty());
    assert_eq!(v.capacity(), 0);
}

#[test]
fn vec_extend_and_from_slice() {
    let mut vec = MyVec::from_slice(&[1]);
    vec.extend_from_slice(&[2, 3, 4]);
    assert_eq!(vec.as_slice(), &[1, 2, 3, 4]);

    assert_eq!(
        MyVec::from_slice(&[1, 2, 3][..]).as_slice(),
        MyVec::from_slice(&[1, 2, 3]).as_slice()
    );

    let mut v1 = MyVec::from_slice(&[1, 2]);
    let v2 = MyVec::from_slice(&[3, 4]);
    let v2_copy = v2.clone();
    v1.extend_from_slice(v2_copy.as_slice());
    assert_eq!(v1.as_slice(), &[1, 2, 3, 4]);
    assert_eq!(v2.as_slice(), &[3, 4]); // v2 should not be consumed
}

#[test]
fn vec_clone_from() {
    let x = MyVec::from_slice(&[5, 6, 7]);
    let mut y = MyVec::from_slice(&[8, 9, 10]);

    y.clone_from(&x);

    // The value is the same
    assert_eq!(x, y);
}

#[test]
fn vec_zst_support() {
    let mut v = MyVec::new();
    assert_eq!(v.len(), 0);
    assert_eq!(v.capacity(), isize::MAX as usize);
    v.push(());
    v.push(());
    assert_eq!(v.len(), 2);
    assert_eq!(v.pop(), Some(()));
    assert_eq!(v.len(), 1);
    v.clear();
    assert!(v.is_empty());
}

#[test]
fn vec_insert_various_positions() {
    let mut v = MyVec::from_slice(&[1, 3]);
    v.insert(1, 2); // insert in the middle
    assert_eq!(v.as_slice(), &[1, 2, 3]);
    v.insert(0, 0); // insert at start
    assert_eq!(v.as_slice(), &[0, 1, 2, 3]);
    v.insert(4, 4); // insert at end
    assert_eq!(v.as_slice(), &[0, 1, 2, 3, 4]);
}

#[test]
fn vec_remove_various_positions() {
    let mut v = MyVec::from_slice(&[10, 20, 30, 40, 50]);
    assert_eq!(v.remove(0), 10); // remove from start
    assert_eq!(v.as_slice(), &[20, 30, 40, 50]);
    assert_eq!(v.remove(1), 30); // remove from middle
    assert_eq!(v.as_slice(), &[20, 40, 50]);
    assert_eq!(v.remove(2), 50); // remove from end
    assert_eq!(v.as_slice(), &[20, 40]);
}
