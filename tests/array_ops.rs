use apriltag_safe::array::Array;

fn filled(values: &[u32]) -> Array<u32> {
    let mut a: Array<u32> = Array::new().unwrap();
    for v in values {
        a.push(*v);
    }
    a
}

fn contents(a: &Array<u32>) -> Vec<u32> {
    let mut out = Vec::new();
    for i in 0..a.len() {
        out.push(a.get_value(i).unwrap());
    }
    out
}

#[test]
fn new_array_is_empty() {
    let a: Array<u64> = Array::new().unwrap();
    assert_eq!(a.len(), 0);
    let b: Array<(u8, i16)> = Array::new().unwrap();
    assert_eq!(b.len(), 0);
}

#[test]
fn pushes_read_back_in_order() {
    let values = [7u32, 0, 42, 7, u32::MAX];
    let a = filled(&values);
    assert_eq!(a.len(), values.len());
    for (i, v) in values.iter().enumerate() {
        assert_eq!(a.get_value(i), Some(*v));
        assert_eq!(a.get(i), Some(v));
        assert_eq!(a.get_value_unchecked(i), *v);
        assert_eq!(*a.get_unchecked(i), *v);
    }
}

#[test]
fn swap_remove_moves_last_into_gap() {
    let mut a = filled(&[1, 2, 3]);
    assert_eq!(a.swap_remove(0), Some(1));
    assert_eq!(contents(&a), vec![3, 2]);
}

#[test]
fn swap_remove_of_last_element() {
    let mut a = filled(&[1, 2, 3]);
    assert_eq!(a.swap_remove(2), Some(3));
    assert_eq!(contents(&a), vec![1, 2]);
}

#[test]
fn remove_keeps_order() {
    let mut a = filled(&[10, 20, 30]);
    assert_eq!(a.remove(1), Some(20));
    assert_eq!(contents(&a), vec![10, 30]);
}

#[test]
fn remove_first_and_last() {
    let mut a = filled(&[10, 20, 30, 40]);
    assert_eq!(a.remove(0), Some(10));
    assert_eq!(a.remove(2), Some(40));
    assert_eq!(contents(&a), vec![20, 30]);
}

#[test]
fn out_of_range_is_reported() {
    let mut a = filled(&[5, 6, 7]);
    assert_eq!(a.get_value(3), None);
    assert_eq!(a.get(3), None);
    assert!(a.get_mut(3).is_none());
    assert_eq!(a.set(3, 9), Err(9));
    assert_eq!(a.insert(3, 9), Err(9));
    assert_eq!(a.remove(3), None);
    assert_eq!(a.swap_remove(usize::MAX), None);
    assert_eq!(contents(&a), vec![5, 6, 7]);

    let mut e: Array<u32> = Array::new().unwrap();
    assert_eq!(e.get_value(0), None);
    assert_eq!(e.set(0, 1), Err(1));
    assert_eq!(e.insert(0, 1), Err(1));
    assert_eq!(e.remove(0), None);
    assert_eq!(e.len(), 0);
}

#[test]
fn insert_and_set_in_range() {
    let mut a = filled(&[1, 2, 3]);
    assert_eq!(a.insert(1, 9), Ok(()));
    assert_eq!(contents(&a), vec![1, 9, 2, 3]);
    assert_eq!(a.insert(0, 8), Ok(()));
    assert_eq!(contents(&a), vec![8, 1, 9, 2, 3]);
    assert_eq!(a.set(4, 0), Ok(()));
    assert_eq!(contents(&a), vec![8, 1, 9, 2, 0]);
}

#[test]
fn writes_through_mutable_reference() {
    let mut a = filled(&[1, 2, 3]);
    *a.get_mut(1).unwrap() = 20;
    *a.get_mut_unchecked(2) += 10;
    assert_eq!(contents(&a), vec![1, 20, 13]);
}

#[test]
fn clone_is_independent() {
    let a = filled(&[4, 5, 6]);
    let mut b = a.clone();
    assert_eq!(b.len(), a.len());
    assert_eq!(contents(&b), contents(&a));
    assert_eq!(b.set(0, 40), Ok(()));
    b.push(7);
    assert_eq!(b.remove(1), Some(5));
    assert_eq!(contents(&a), vec![4, 5, 6]);
    assert_eq!(contents(&b), vec![40, 6, 7]);
}

#[test]
fn clear_truncate_reserve() {
    let mut a = filled(&[1, 2, 3, 4]);
    a.reserve(100);
    assert_eq!(contents(&a), vec![1, 2, 3, 4]);
    a.reserve(-5);
    assert_eq!(a.len(), 4);
    a.truncate(2);
    assert_eq!(contents(&a), vec![1, 2]);
    a.clear();
    assert_eq!(a.len(), 0);
    a.push(9);
    assert_eq!(contents(&a), vec![9]);
}

#[test]
fn find_and_contains() {
    let a = filled(&[3, 1, 4, 1, 5]);
    assert_eq!(a.find(&1), Some(1));
    assert_eq!(a.find(&5), Some(4));
    assert_eq!(a.find(&9), None);
    assert!(a.contains(&4));
    assert!(!a.contains(&2));
    let e: Array<u32> = Array::new().unwrap();
    assert_eq!(e.find(&0), None);
}

#[test]
fn iter_walks_in_order_and_restarts() {
    let a = filled(&[2, 4, 6]);
    let mut it = a.iter();
    assert_eq!(it.next(), Some(&2));
    assert_eq!(it.next(), Some(&4));
    assert_eq!(it.next(), Some(&6));
    assert_eq!(it.next(), None);
    assert_eq!(it.next(), None);
    let mut again = a.iter();
    assert_eq!(again.next(), Some(&2));
}

#[test]
fn from_raw_adopts_contents() {
    let a = Array::from_raw(vec![9u8, 8, 7]);
    assert_eq!(a.len(), 3);
    assert_eq!(a.get_value(2), Some(7));
}
