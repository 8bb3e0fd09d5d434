use amy_math::containers::multi_vec::MultiVecColumns;
use amy_math::containers::multi_vec2::{MultiVec2, MultiVec2Item};
use std::cell::Cell;
use std::rc::Rc;

const R0C0: i32 = 24754;
const R0C1: u8 = b'V';

const COL0: [i32; 3] = [4, 7, 2];
const COL1: [u8; 3] = [b'A', b'9', 3];

/// Counts, through shared counters, how often a value was duplicated and
/// how often one was destroyed.
#[derive(Debug)]
struct Counted {
    clones: Rc<Cell<usize>>,
    drops: Rc<Cell<usize>>,
}

impl Counted {
    fn new() -> Self {
        Counted { clones: Rc::new(Cell::new(0)), drops: Rc::new(Cell::new(0)) }
    }

    fn times_cloned(&self) -> usize {
        self.clones.get()
    }

    fn times_dropped(&self) -> usize {
        self.drops.get()
    }
}

impl Clone for Counted {
    fn clone(&self) -> Self {
        self.clones.set(self.clones.get() + 1);
        Counted { clones: self.clones.clone(), drops: self.drops.clone() }
    }
}

impl Drop for Counted {
    fn drop(&mut self) {
        self.drops.set(self.drops.get() + 1);
    }
}

#[test]
#[should_panic(expected = "index out of bounds")]
fn test0() {
    let v = MultiVec2::<i32, f32>::new();
    _ = v.row(0).0;
}

#[test]
fn test1() {
    let mut v = MultiVec2::<i32, u8>::new();
    v.push(R0C0, R0C1);
    assert_eq!(v.row(0), (&R0C0, &R0C1), "row[0] should match pushed value");
    assert_eq!(v.col0()[0], R0C0, "col0 should match pushed value");
    assert_eq!(v.col1()[0], R0C1, "col1 should match pushed value");
}

#[test]
fn test_extend_rows() {
    let v = MultiVec2::<i32, u8>::from_cols((COL0.to_vec(), COL1.to_vec()));
    assert_eq!(v.row(0), (&COL0[0], &COL1[0]));
    assert_eq!(v.row(1), (&COL0[1], &COL1[1]));
    assert_eq!(v.row(2), (&COL0[2], &COL1[2]));
}

#[test]
fn push_pop_inverse() {
    let mut v = MultiVec2::<u32, u8>::new();
    v.push(5, 6);
    v.push(7, 8);
    let len_before = v.len();
    v.push(100, 200);
    assert_eq!(v.pop(), Some((100, 200)));
    assert_eq!(v.len(), len_before);
    assert_eq!(v.row(0), (&5, &6));
    assert_eq!(v.row(1), (&7, &8));
}

#[test]
fn insert_remove_inverse() {
    let mut v = MultiVec2::<u32, u8>::new();
    v.push(1, 10);
    v.push(2, 20);
    v.push(3, 30);
    v.insert(1, 99, 99);
    assert_eq!(v.len(), 4);
    assert_eq!(v.row(1), (&99, &99));
    assert_eq!(v.remove(1), (99, 99));
    assert_eq!(v.len(), 3);
    assert_eq!(v.row(0), (&1, &10));
    assert_eq!(v.row(1), (&2, &20));
    assert_eq!(v.row(2), (&3, &30));
}

#[test]
fn rows_match_columns() {
    let mut v = MultiVec2::<u32, u8>::new();
    v.push(11, 1);
    v.push(22, 2);
    v.push(33, 3);
    let (c0, c1) = v.cols();
    for i in 0..v.len() {
        assert_eq!(v.row(i), (&c0[i], &c1[i]));
    }
}

#[test]
fn extend_cols_truncates_to_shorter() {
    let mut v = MultiVec2::<u32, u8>::new();
    v.extend_cols((vec![1, 2, 3, 4, 5], vec![10, 20, 30]));
    assert_eq!(v.len(), 3);
    assert_eq!(v.row(0), (&1, &10));
    assert_eq!(v.row(1), (&2, &20));
    assert_eq!(v.row(2), (&3, &30));

    let w = MultiVec2::<u8, u32>::from_cols((vec![9], vec![7, 8]));
    assert_eq!(w.len(), 1);
    assert_eq!(w.row(0), (&9, &7));

    let mut e = MultiVec2::<u32, u8>::new();
    e.extend_cols((Vec::new(), vec![1, 2]));
    assert_eq!(e.len(), 0, "an exhausted source stops the append at once");
}

#[test]
fn growth_preserves_rows() {
    let mut v = MultiVec2::<u32, u32>::new();
    for i in 0..10_000u32 {
        v.push(i, i.wrapping_mul(3));
    }
    assert_eq!(v.len(), 10_000);
    for i in 0..10_000u32 {
        let r = v.row(i as usize);
        assert_eq!((*r.0, *r.1), (i, i.wrapping_mul(3)));
    }
}

#[test]
fn boundary_behavior() {
    let mut v = MultiVec2::<u32, u8>::new();
    assert_eq!(v.len(), 0);
    assert_eq!(v.pop(), None);
    v.push(1, 2);
    let at_len = v.len();
    v.insert(at_len, 3, 4);
    assert_eq!(v.len(), 2);
    assert_eq!(v.row(1), (&3, &4));
    assert_eq!(v.pop(), Some((3, 4)));
}

#[test]
fn example_scenario() {
    let mut v = MultiVec2::<u32, u8>::new();
    v.push(24754, 86);
    assert_eq!(v.len(), 1);
    assert_eq!(v.row(0), (&24754, &86));
    assert_eq!(v.col0(), &[24754]);
    assert_eq!(v.col1(), &[86]);
    v.insert(0, 4, 65);
    assert_eq!(v.len(), 2);
    assert_eq!(v.row(0), (&4, &65));
    assert_eq!(v.row(1), (&24754, &86));
}

#[test]
fn extend_rows_appends_in_order() {
    let mut v = MultiVec2::<u32, u8>::new();
    v.push(1, 1);
    v.extend_rows(vec![(2, 2), (3, 3)]);
    assert_eq!(v.len(), 3);
    assert_eq!(v.row(1), (&2, &2));
    assert_eq!(v.row(2), (&3, &3));

    let w = MultiVec2::<u32, u8>::from_rows(vec![(8, 9)]);
    assert_eq!(w.len(), 1);
    assert_eq!(w.row(0), (&8, &9));
}

#[test]
fn row_mut_updates_one_row() {
    let mut v = MultiVec2::<u32, u8>::new();
    v.push(1, 2);
    v.push(3, 4);
    {
        let (a, b) = v.row_mut(0);
        *a = 10;
        *b = 20;
    }
    assert_eq!(v.row(0), (&10, &20));
    assert_eq!(v.row(1), (&3, &4));
}

#[test]
fn col_mut_updates_one_column() {
    let mut v = MultiVec2::<u32, u8>::new();
    v.push(1, 2);
    v.push(3, 4);
    v.col0_mut()[1] = 30;
    v.col1_mut()[0] = 5;
    assert_eq!(v.row(0), (&1, &5));
    assert_eq!(v.row(1), (&30, &4));
}

#[test]
fn runtime_indexed_access() {
    let mut v = MultiVec2::<u32, u8>::new();
    v.push(1, 2);
    v.push(3, 4);
    assert_eq!(v.col(0), MultiVec2Item::Col0(&[1, 3][..]));
    assert_eq!(v.col(1), MultiVec2Item::Col1(&[2, 4][..]));
    assert_eq!(v.item(0, 0), MultiVec2Item::Col0(&1));
    assert_eq!(v.item(1, 1), MultiVec2Item::Col1(&4));
    // The same cell from different columns never compares equal.
    assert_ne!(
        MultiVec2Item::<u32, u32>::Col0(7),
        MultiVec2Item::<u32, u32>::Col1(7)
    );
    if let MultiVec2Item::Col1(cell) = v.item_mut(0, 1) {
        *cell = 9;
    }
    assert_eq!(v.row(0), (&1, &9));
    if let MultiVec2Item::Col0(col) = v.col_mut(0) {
        col[0] = 100;
    }
    assert_eq!(v.row(0), (&100, &9));
}

#[test]
fn into_iter_yields_rows_in_order() {
    let mut v = MultiVec2::<u32, u8>::new();
    v.push(1, 10);
    v.push(2, 20);
    v.push(3, 30);
    let mut it = v.into_iter();
    assert_eq!(it.remaining(), 3);
    assert_eq!(it.size_hint(), (3, Some(3)));
    assert_eq!(it.next(), Some((1, 10)));
    assert_eq!(it.next_back(), Some((3, 30)));
    assert_eq!(it.remaining(), 1);
    assert_eq!(it.next(), Some((2, 20)));
    assert_eq!(it.next(), None);
    assert_eq!(it.next_back(), None);
    assert_eq!(it.count(), 0);
}

#[test]
fn drop_completeness() {
    let c = Counted::new();
    let mut v = MultiVec2::<Counted, u8>::new();
    v.push(c.clone(), 1);
    v.push(c.clone(), 2);
    v.push(c.clone(), 3);
    assert_eq!(c.times_cloned(), 3);
    assert_eq!(c.times_dropped(), 0);
    drop(v);
    assert_eq!(c.times_dropped(), 3);
}

#[test]
fn drop_completeness_partial_iteration() {
    let c = Counted::new();
    let mut v = MultiVec2::<Counted, u8>::new();
    for i in 0..5u8 {
        v.push(c.clone(), i);
    }
    assert_eq!(c.times_cloned(), 5);
    let mut it = v.into_iter();
    let first = it.next();
    let last = it.next_back();
    assert!(first.is_some());
    assert!(last.is_some());
    drop(first);
    drop(last);
    assert_eq!(c.times_dropped(), 2);
    drop(it);
    assert_eq!(c.times_dropped(), 5);
}
