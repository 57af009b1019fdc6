use euleretal::entity_store::{Index, List};

#[test]
fn push_then_index_reads_back() {
    let mut list = List::new();
    let a = list.push("a");
    let b = list.push("b");
    assert_eq!(*list.index(a), "a");
    assert_eq!(*list.index(b), "b");
    assert_eq!(list.len(), 2);
    assert!(a != b);
}

#[test]
fn delete_keeps_other_indexes() {
    let mut list = List::new();
    let a = list.push(1);
    let b = list.push(2);
    let c = list.push(3);
    list.delete(b);
    assert_eq!(list.get(a), Some(&1));
    assert_eq!(list.get(b), None);
    assert_eq!(list.get(c), Some(&3));
    assert_eq!(list.len(), 2);
}

#[test]
fn delete_of_missing_index_changes_nothing() {
    let mut list = List::new();
    let a = list.push(1);
    list.delete(a);
    list.delete(a);
    assert_eq!(list.len(), 0);
    assert_eq!(list.get(a), None);
}

#[test]
fn push_after_delete_hands_out_a_new_index() {
    let mut list = List::new();
    let a = list.push('a');
    let b = list.push('b');
    list.delete(b);
    let c = list.push('c');
    assert!(c != b);
    assert!(c != a);
    assert_eq!(list.get(b), None);
    assert_eq!(*list.index(c), 'c');
}

#[test]
fn iter_yields_entries_in_key_order() {
    let mut list = List::new();
    let _ = list.push(10);
    let b = list.push(20);
    let _ = list.push(30);
    list.delete(b);
    let _ = list.push(40);
    let values: Vec<i32> = list.iter().copied().collect();
    assert_eq!(values, vec![10, 30, 40]);
}

#[test]
fn iter_of_empty_list_is_empty() {
    let list: List<u8> = List::default();
    assert_eq!(list.iter().count(), 0);
}

#[test]
fn first_index_is_smallest_key() {
    let mut list = List::new();
    assert!(list.first_index().is_none());
    let a = list.push("a");
    let b = list.push("b");
    assert!(list.first_index() == Some(a));
    list.delete(a);
    assert!(list.first_index() == Some(b));
}

#[test]
fn replace_and_take_entries() {
    let mut list = List::new();
    let a = list.push(String::from("old"));
    assert_eq!(list.replace(a, String::from("new")), Some(String::from("old")));
    assert_eq!(list.index(a), "new");
    assert_eq!(list.take(a), Some(String::from("new")));
    assert_eq!(list.take(a), None);
    assert_eq!(list.len(), 0);
}

#[test]
fn index_copies_compare_equal() {
    let mut list = List::new();
    let a = list.push(5u8);
    let copy = a;
    #[allow(clippy::clone_on_copy)]
    let cloned = a.clone();
    assert!(copy == a);
    assert!(cloned == a);
}

/// The index that the `n`-th push into a fresh list hands out, counting from zero.
fn nth_fresh_index<T: Default>(n: usize) -> Index<T> {
    let mut fresh = List::new();
    let mut idx = fresh.push(T::default());
    for _ in 0..n {
        idx = fresh.push(T::default());
    }
    idx
}

#[test]
fn push_hands_out_keys_counting_up() {
    let mut l = List::<char>::new();
    let i0 = l.push('a');
    let i1 = l.push('b');
    assert!(i0 == nth_fresh_index(0));
    assert!(i1 == nth_fresh_index(1));
    assert_eq!(*l.index(i0), 'a');
    assert_eq!(*l.index(i1), 'b');
    assert_eq!(l.iter().copied().collect::<Vec<_>>(), vec!['a', 'b']);
}

#[test]
fn push_after_delete_does_not_reuse_the_key() {
    let mut l = List::<i32>::new();
    let a = l.push(10);
    let b = l.push(20);
    l.delete(a);
    let c = l.push(30);
    assert!(c == nth_fresh_index(2));
    assert!(c != b);
    assert!(c != a);
    assert_eq!(*l.index(b), 20);
    assert_eq!(*l.index(c), 30);
    assert_eq!(l.iter().copied().collect::<Vec<_>>(), vec![20, 30]);
}

#[test]
fn delete_keeps_the_key_count() {
    let mut l = List::<i32>::new();
    let a = l.push(1);
    let b = l.push(2);
    l.delete(b);
    l.delete(a);
    let c = l.push(3);
    assert!(c == nth_fresh_index(2));
}

#[test]
fn default_list_starts_counting_at_zero() {
    let mut l: List<u8> = List::default();
    let first = l.push(1);
    assert!(first == nth_fresh_index(0));
}
