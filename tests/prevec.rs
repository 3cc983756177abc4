use sonr::errors::Error;
use sonr::PreVec;

#[derive(Clone)]
struct Foo {
    a: usize,
    b: usize,
}

fn values(cap: usize) -> Vec<Foo> {
    vec![Foo { a: 1, b: 2 }; cap]
}

#[test]
fn remove_with_offset() -> Result<(), Error> {
    let mut v = PreVec::with_capacity_and_offset(10, 1);
    assert_eq!(v.insert(0)?, 1);
    assert_eq!(v.insert(1)?, 2);
    assert_eq!(v.insert(2)?, 3);
    assert_eq!(v.remove(1), Some(0));
    assert_eq!(v.remove(1), None);
    assert_eq!(v.insert(1)?, 1);
    Ok(())
}

#[test]
fn insert_get_index() {
    let mut v = PreVec::with_capacity(10);
    assert_eq!(v.insert("foo").unwrap(), 0);
    assert_eq!(v.insert("foo").unwrap(), 1);
}

#[test]
fn get_mut() {
    let mut v = PreVec::with_capacity(1);
    v.insert("foo").unwrap();
    let x = v.get_mut(0).unwrap();
    assert_eq!(x, &"foo");
}

#[test]
fn remove() {
    let mut v = PreVec::with_capacity(10);
    assert_eq!(v.insert("foo").unwrap(), 0);
    v.remove(0);
    assert_eq!(v.insert("foo").unwrap(), 0);
}

#[test]
fn insert_many() {
    let cap = 10;
    let values = values(cap);
    let mut store = PreVec::with_capacity(cap);

    // Twice as many rounds as the capacity forces several resizes.
    for _ in 0..cap * 2 {
        for v in &values {
            let _ = store.insert(v);
        }

        for v in &values {
            let _v = store.get(v.a).unwrap();
            assert_eq!(_v.b, 2);
        }
    }

    let x = store.remove(15).unwrap();
    assert_eq!(store.insert(x).unwrap(), 15);
}

#[test]
fn insert_with_offset() {
    let mut store = PreVec::with_capacity(2);
    store.set_offset(10);

    let index = store.insert(1u32).unwrap();
    assert_eq!(index, 10);
    let index = store.insert(1u32).unwrap();
    assert_eq!(index, 11);
}

#[test]
fn removing_with_offset_returns_correct_value() {
    let mut store = PreVec::with_capacity(2);
    store.set_offset(10);

    let index = store.insert(1u32).unwrap();
    assert_eq!(index, 10);
    let val = store.remove(index).unwrap();
    assert_eq!(val, 1u32);
}

#[test]
fn get_with_offset() {
    let mut store = PreVec::with_capacity(2);
    store.set_offset(10);

    let _ = store.insert(1u32);
    let _ = store.insert(2u32);

    assert_eq!(*store.get(10).unwrap(), 1);
    assert_eq!(*store.get(11).unwrap(), 2);
}

#[test]
fn get_mut_with_offset() {
    let mut store = PreVec::with_capacity(2);
    store.set_offset(10);

    let _ = store.insert(1u32);
    let _ = store.insert(2u32);

    assert_eq!(*store.get_mut(10).unwrap(), 1);
    assert_eq!(*store.get_mut(11).unwrap(), 2);
}

#[test]
fn index_with_offset() {
    let mut store = PreVec::with_capacity(2);
    store.set_offset(10);
    let _ = store.insert(1);
    let _ = store.insert(2);

    assert_eq!(*store.get(10).unwrap(), 1);
    assert_eq!(*store.get(11).unwrap(), 2);
}

#[test]
fn max_index_with_offset() {
    let mut store = PreVec::with_capacity_and_offset(1, usize::MAX);
    let index = store.insert(1u32).unwrap();
    assert_eq!(index, usize::MAX);
}

#[test]
fn in_range() {
    let store: PreVec<u32> = PreVec::with_capacity(100);

    assert!(store.in_range(0));
    assert!(store.in_range(99));
    assert!(!store.in_range(100));
}

#[test]
fn len_after_remove() {
    let mut store: PreVec<u32> = PreVec::with_capacity(100);
    let _ = store.insert(10);
    store.remove(0);
    assert_eq!(store.len(), 0);
}

#[test]
fn allow_growth() {
    let mut store: PreVec<u32> = PreVec::with_capacity(1);
    let _ = store.insert(1);
    let _ = store.insert(1);

    assert_eq!(store.capacity(), 2);
}

#[test]
fn disable_growth() {
    let mut store: PreVec<u32> = PreVec::with_capacity(1);
    store.prevent_growth();
    assert_eq!(store.insert(1).unwrap(), 0);
    match store.insert(1) {
        Err(Error::NoCapacity) => {}
        _ => panic!("Should return a NoCapacity error"),
    }

    assert_eq!(store.capacity(), 1);
}

// Further cases of the slot vector's rules.

#[test]
fn second_insert_past_max_offset_fails() {
    let mut store = PreVec::with_capacity_and_offset(1, usize::MAX);
    assert_eq!(store.insert(1u32), Ok(usize::MAX));
    assert_eq!(store.insert(2u32), Err(Error::NoCapacity));
    assert_eq!(store.len(), 1);
}

#[test]
fn growth_from_zero_capacity() {
    let mut store: PreVec<u8> = PreVec::with_capacity(0);
    assert_eq!(store.insert(7), Ok(0));
    assert_eq!(store.capacity(), 1);
    assert_eq!(store.insert(8), Ok(1));
    assert_eq!(store.capacity(), 2);
}

#[test]
fn zero_capacity_without_growth_refuses() {
    let mut store: PreVec<u8> = PreVec::with_capacity(0);
    store.prevent_growth();
    assert_eq!(store.insert(7), Err(Error::NoCapacity));
    assert!(store.is_empty());
}

#[test]
fn last_removed_is_reused_first() {
    let mut store = PreVec::with_capacity(4);
    for i in 0..4u8 {
        assert_eq!(store.insert(i), Ok(i as usize));
    }
    assert_eq!(store.remove(1), Some(1));
    assert_eq!(store.remove(3), Some(3));
    assert_eq!(store.insert(30), Ok(3));
    assert_eq!(store.insert(10), Ok(1));
    assert_eq!(store.get(3), Some(&30));
}

#[test]
fn removal_below_offset_or_past_end_is_absent() {
    let mut store = PreVec::with_capacity_and_offset(4, 10);
    assert_eq!(store.insert('a'), Ok(10));
    assert_eq!(store.remove(3), None);
    assert_eq!(store.remove(13), None);
    assert_eq!(store.remove(500), None);
    assert_eq!(store.get(9), None);
    assert_eq!(store.len(), 1);
}

#[test]
fn disjoint_ranges_issue_disjoint_indices() {
    let mut lower = PreVec::with_capacity(3);
    let mut upper = PreVec::with_capacity_and_offset(3, 3);
    lower.prevent_growth();
    upper.prevent_growth();
    let mut seen = Vec::new();
    for _ in 0..3 {
        seen.push(lower.insert(()).unwrap());
        seen.push(upper.insert(()).unwrap());
    }
    assert_eq!(lower.insert(()), Err(Error::NoCapacity));
    assert_eq!(upper.insert(()), Err(Error::NoCapacity));
    seen.sort();
    assert_eq!(seen, vec![0, 1, 2, 3, 4, 5]);
}

#[test]
fn clear_resets_to_ascending_order() {
    let mut store = PreVec::with_capacity_and_offset(3, 5);
    let _ = store.insert(1u8);
    let _ = store.insert(2u8);
    store.remove(5);
    store.clear();
    assert!(store.is_empty());
    assert_eq!(store.get(6), None);
    assert_eq!(store.insert(9), Ok(5));
    assert_eq!(store.insert(9), Ok(6));
    assert_eq!(store.insert(9), Ok(7));
}

#[test]
fn in_range_counts_from_offset() {
    let store: PreVec<u32> = PreVec::with_capacity_and_offset(2, 10);
    assert!(!store.in_range(9));
    assert!(store.in_range(10));
    assert!(store.in_range(11));
    assert!(!store.in_range(12));
}
