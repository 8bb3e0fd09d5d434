use amy_math::containers::multi_vec::MultiVecColumns;
use amy_math::containers::multi_vec6::{MultiVec6, MultiVec6Item};

#[test]
fn multi_vec_test0() {
    let mut v = MultiVec6::<u8, i8, f32, u16, bool, &str>::new();
    assert_eq!(v.len(), 0);

    v.push(1, -3, 7.0, 2, true, "apple");
    assert_eq!(v.len(), 1);
    assert_eq!(v.row(0), (&1, &-3, &7.0, &2, &true, &"apple"));

    v.push(9, 102, -46.2, 67, false, "orange");
    assert_eq!(v.len(), 2);
    assert_eq!(v.row(1), (&9, &102, &-46.2, &67, &false, &"orange"));

    assert_eq!(v.col0(), &[1, 9]);
    assert_eq!(v.col1(), &[-3, 102]);
    assert_eq!(v.col2(), &[7.0, -46.2]);
    assert_eq!(v.col3(), &[2, 67]);
    assert_eq!(v.col4(), &[true, false]);
    assert_eq!(v.col5(), &["apple", "orange"]);

    assert_eq!(v.item(0, 3), MultiVec6Item::Col3(&2));
}

#[test]
fn six_column_row_operations() {
    let mut v = MultiVec6::<u8, u16, u32, u64, i8, i16>::new();
    v.push(1, 2, 3, 4, 5, 6);
    v.insert(0, 10, 20, 30, 40, 50, 60);
    assert_eq!(v.len(), 2);
    assert_eq!(v.row(0), (&10, &20, &30, &40, &50, &60));
    assert_eq!(v.row(1), (&1, &2, &3, &4, &5, &6));
    assert_eq!(v.remove(0), (10, 20, 30, 40, 50, 60));
    assert_eq!(v.pop(), Some((1, 2, 3, 4, 5, 6)));
    assert_eq!(v.pop(), None);
}

#[test]
fn six_column_extend_and_iterate() {
    let mut v = MultiVec6::<u8, u16, u32, u64, i8, i16>::new();
    v.extend_cols((
        vec![1, 2, 3],
        vec![10, 20, 30],
        vec![100, 200],
        vec![7, 8, 9],
        vec![-1, -2, -3],
        vec![-10, -20, -30],
    ));
    assert_eq!(v.len(), 2, "the shortest source sets the row count");
    assert_eq!(v.row(0), (&1, &10, &100, &7, &-1, &-10));
    assert_eq!(v.row(1), (&2, &20, &200, &8, &-2, &-20));

    v.extend_rows(vec![(4, 40, 400, 10, -4, -40)]);
    assert_eq!(v.len(), 3);

    let mut it = v.into_iter();
    assert_eq!(it.remaining(), 3);
    assert_eq!(it.next(), Some((1, 10, 100, 7, -1, -10)));
    assert_eq!(it.next_back(), Some((4, 40, 400, 10, -4, -40)));
    assert_eq!(it.next(), Some((2, 20, 200, 8, -2, -20)));
    assert_eq!(it.next(), None);
}

#[test]
fn six_column_runtime_indexed_access() {
    let mut v = MultiVec6::<u8, u16, u32, u64, i8, i16>::new();
    v.push(1, 2, 3, 4, 5, 6);
    assert_eq!(v.col(4), MultiVec6Item::Col4(&[5][..]));
    assert_eq!(v.item(0, 5), MultiVec6Item::Col5(&6));
    if let MultiVec6Item::Col2(cell) = v.item_mut(0, 2) {
        *cell = 33;
    }
    assert_eq!(v.row(0), (&1, &2, &33, &4, &5, &6));
    if let MultiVec6Item::Col1(col) = v.col_mut(1) {
        col[0] = 22;
    }
    assert_eq!(v.row(0), (&1, &22, &33, &4, &5, &6));
    // Values from different columns never compare equal.
    let (a, b) = (v.item(0, 0), v.item(0, 1));
    assert!(a == a);
    assert!(b != a);
}

#[test]
fn six_column_mutable_rows_and_columns() {
    let mut v = MultiVec6::<u8, u16, u32, u64, i8, i16>::new();
    v.push(1, 2, 3, 4, 5, 6);
    v.push(7, 8, 9, 10, 11, 12);
    {
        let r = v.row_mut(1);
        *r.0 = 70;
        *r.5 = 120;
    }
    assert_eq!(v.row(1), (&70, &8, &9, &10, &11, &120));
    v.col3_mut()[0] = 44;
    assert_eq!(v.row(0), (&1, &2, &3, &44, &5, &6));
    let from_rows = MultiVec6::<u8, u16, u32, u64, i8, i16>::from_rows(vec![(1, 2, 3, 4, 5, 6)]);
    assert_eq!(from_rows.len(), 1);
    let from_cols = MultiVec6::<u8, u16, u32, u64, i8, i16>::from_cols((
        vec![1],
        vec![2],
        vec![3],
        vec![4],
        vec![5],
        vec![6, 7],
    ));
    assert_eq!(from_cols.len(), 1);
    assert_eq!(from_cols.row(0), (&1, &2, &3, &4, &5, &6));
}
