//! A six-column structure-of-arrays vector: six independently typed columns
//! stored as six contiguous buffers that share one logical length, behaving
//! like a relational table whose rows are inserted and removed atomically.

use crate::containers::multi_vec::MultiVecColumns;
use vstd::prelude::*;
use vstd::std_specs::cmp::PartialEqSpec;

verus! {

/// A value taken from one table cell or column of a [`MultiVec6`], tagged
/// with the column it came from.
#[derive(Debug, Clone, Copy)]
pub enum MultiVec6Item<T0, T1, T2, T3, T4, T5> {
    /// The type stored in column 0.
    Col0(T0),
    /// The type stored in column 1.
    Col1(T1),
    /// The type stored in column 2.
    Col2(T2),
    /// The type stored in column 3.
    Col3(T3),
    /// The type stored in column 4.
    Col4(T4),
    /// The type stored in column 5.
    Col5(T5),
}

impl<
    T0: PartialEq,
    T1: PartialEq,
    T2: PartialEq,
    T3: PartialEq,
    T4: PartialEq,
    T5: PartialEq,
> PartialEq for MultiVec6Item<T0, T1, T2, T3, T4, T5> {
    /// Values from different columns never compare equal, even when the
    /// wrapped values would.
    fn eq(&self, other: &Self) -> (r: bool) {
        match (self, other) {
            (MultiVec6Item::Col0(a), MultiVec6Item::Col0(b)) => a.eq(b),
            (MultiVec6Item::Col1(a), MultiVec6Item::Col1(b)) => a.eq(b),
            (MultiVec6Item::Col2(a), MultiVec6Item::Col2(b)) => a.eq(b),
            (MultiVec6Item::Col3(a), MultiVec6Item::Col3(b)) => a.eq(b),
            (MultiVec6Item::Col4(a), MultiVec6Item::Col4(b)) => a.eq(b),
            (MultiVec6Item::Col5(a), MultiVec6Item::Col5(b)) => a.eq(b),
            _ => false,
        }
    }
}

impl<
    T0: PartialEq,
    T1: PartialEq,
    T2: PartialEq,
    T3: PartialEq,
    T4: PartialEq,
    T5: PartialEq,
> vstd::std_specs::cmp::PartialEqSpecImpl for MultiVec6Item<T0, T1, T2, T3, T4, T5> {
    open spec fn obeys_eq_spec() -> bool {
        T0::obeys_eq_spec() && T1::obeys_eq_spec() && T2::obeys_eq_spec() && T3::obeys_eq_spec()
            && T4::obeys_eq_spec() && T5::obeys_eq_spec()
    }

    open spec fn eq_spec(&self, other: &Self) -> bool {
        match (self, other) {
            (MultiVec6Item::Col0(a), MultiVec6Item::Col0(b)) => a.eq_spec(b),
            (MultiVec6Item::Col1(a), MultiVec6Item::Col1(b)) => a.eq_spec(b),
            (MultiVec6Item::Col2(a), MultiVec6Item::Col2(b)) => a.eq_spec(b),
            (MultiVec6Item::Col3(a), MultiVec6Item::Col3(b)) => a.eq_spec(b),
            (MultiVec6Item::Col4(a), MultiVec6Item::Col4(b)) => a.eq_spec(b),
            (MultiVec6Item::Col5(a), MultiVec6Item::Col5(b)) => a.eq_spec(b),
            _ => false,
        }
    }
}

/// The length of the shortest of six column sequences.
pub open spec fn shortest_of6(n0: nat, n1: nat, n2: nat, n3: nat, n4: nat, n5: nat) -> nat {
    let a = if n0 <= n1 {
        n0
    } else {
        n1
    };
    let b = if a <= n2 {
        a
    } else {
        n2
    };
    let c = if b <= n3 {
        b
    } else {
        n3
    };
    let d = if c <= n4 {
        c
    } else {
        n4
    };
    if d <= n5 {
        d
    } else {
        n5
    }
}

/// Rows formed by pairing six column sequences index by index; the longer
/// ones are cut to the length of the shortest, as in a zip.
pub open spec fn zip_columns<T0, T1, T2, T3, T4, T5>(
    s0: Seq<T0>,
    s1: Seq<T1>,
    s2: Seq<T2>,
    s3: Seq<T3>,
    s4: Seq<T4>,
    s5: Seq<T5>,
) -> Seq<(T0, T1, T2, T3, T4, T5)> {
    Seq::new(
        shortest_of6(s0.len(), s1.len(), s2.len(), s3.len(), s4.len(), s5.len()),
        |i: int| (s0[i], s1[i], s2[i], s3[i], s4[i], s5[i]),
    )
}

/// Six growable columns with a shared length.
///
/// Viewed abstractly (`self@`) as a sequence of rows, each row one value
/// per column.
pub struct MultiVec6<T0, T1, T2, T3, T4, T5> {
    col0: Vec<T0>,
    col1: Vec<T1>,
    col2: Vec<T2>,
    col3: Vec<T3>,
    col4: Vec<T4>,
    col5: Vec<T5>,
}

impl<T0, T1, T2, T3, T4, T5> View for MultiVec6<T0, T1, T2, T3, T4, T5> {
    type V = Seq<(T0, T1, T2, T3, T4, T5)>;

    closed spec fn view(&self) -> Seq<(T0, T1, T2, T3, T4, T5)> {
        Seq::new(
            self.col0@.len(),
            |i: int| (self.col0@[i], self.col1@[i], self.col2@[i], self.col3@[i], self.col4@[i], self.col5@[i]),
        )
    }
}

impl<T0, T1, T2, T3, T4, T5> MultiVec6<T0, T1, T2, T3, T4, T5> {
    /// Every column holds the same number of live values: a row is never
    /// present in one column and absent from another.
    pub closed spec fn well_formed(self) -> bool {
        self.col0@.len() == self.col1@.len() && self.col0@.len() == self.col2@.len()
            && self.col0@.len() == self.col3@.len() && self.col0@.len() == self.col4@.len()
            && self.col0@.len() == self.col5@.len()
    }

    /// The live prefix of column 0, as a sequence.
    pub closed spec fn col0_view(self) -> Seq<T0> {
        self.col0@
    }

    /// The live prefix of column 1, as a sequence.
    pub closed spec fn col1_view(self) -> Seq<T1> {
        self.col1@
    }

    /// The live prefix of column 2, as a sequence.
    pub closed spec fn col2_view(self) -> Seq<T2> {
        self.col2@
    }

    /// The live prefix of column 3, as a sequence.
    pub closed spec fn col3_view(self) -> Seq<T3> {
        self.col3@
    }

    /// The live prefix of column 4, as a sequence.
    pub closed spec fn col4_view(self) -> Seq<T4> {
        self.col4@
    }

    /// The live prefix of column 5, as a sequence.
    pub closed spec fn col5_view(self) -> Seq<T5> {
        self.col5@
    }

    /// Construct an empty MultiVec6 without allocating.
    pub fn new() -> (v: Self)
        ensures
            v.well_formed(),
            v@ =~= Seq::<(T0, T1, T2, T3, T4, T5)>::empty(),
    {
        MultiVec6 {
            col0: Vec::new(),
            col1: Vec::new(),
            col2: Vec::new(),
            col3: Vec::new(),
            col4: Vec::new(),
            col5: Vec::new(),
        }
    }

    /// Get the number of rows in the vec.
    pub fn len(&self) -> (n: usize)
        requires
            self.well_formed(),
        ensures
            n == self@.len(),
    {
        self.col0.len()
    }

    /// Append a row to the end of the vec.
    pub fn push(&mut self, col0: T0, col1: T1, col2: T2, col3: T3, col4: T4, col5: T5)
        requires
            old(self).well_formed(),
        ensures
            final(self).well_formed(),
            final(self)@ =~= old(self)@.push((col0, col1, col2, col3, col4, col5)),
    {
        self.col0.push(col0);
        self.col1.push(col1);
        self.col2.push(col2);
        self.col3.push(col3);
        self.col4.push(col4);
        self.col5.push(col5);
    }

    /// Remove the last row from the vec and hand its values to the caller;
    /// yields nothing when the vec is empty.
    pub fn pop(&mut self) -> (r: Option<(T0, T1, T2, T3, T4, T5)>)
        requires
            old(self).well_formed(),
        ensures
            final(self).well_formed(),
            old(self)@.len() == 0 ==> r is None && final(self)@ =~= old(self)@,
            old(self)@.len() > 0 ==> r == Some(old(self)@.last()) && final(self)@ =~= old(
                self,
            )@.drop_last(),
    {
        let v0 = self.col0.pop();
        let v1 = self.col1.pop();
        let v2 = self.col2.pop();
        let v3 = self.col3.pop();
        let v4 = self.col4.pop();
        let v5 = self.col5.pop();
        match (v0, v1, v2, v3, v4, v5) {
            (Some(a0), Some(a1), Some(a2), Some(a3), Some(a4), Some(a5)) => Some(
                (a0, a1, a2, a3, a4, a5),
            ),
            _ => None,
        }
    }

    /// Insert a row at an index, shifting the rows at and after it one
    /// place toward the tail; inserting at the length appends.
    pub fn insert(&mut self, index: usize, col0: T0, col1: T1, col2: T2, col3: T3, col4: T4, col5: T5)
        requires
            old(self).well_formed(),
            index <= old(self)@.len(),
        ensures
            final(self).well_formed(),
            final(self)@ =~= old(self)@.insert(index as int, (col0, col1, col2, col3, col4, col5)),
    {
        self.col0.insert(index, col0);
        self.col1.insert(index, col1);
        self.col2.insert(index, col2);
        self.col3.insert(index, col3);
        self.col4.insert(index, col4);
        self.col5.insert(index, col5);
    }

    /// Remove the row at an index, handing its values to the caller and
    /// shifting the rows after it one place toward the head.
    pub fn remove(&mut self, index: usize) -> (r: (T0, T1, T2, T3, T4, T5))
        requires
            old(self).well_formed(),
            index < old(self)@.len(),
        ensures
            final(self).well_formed(),
            r == old(self)@[index as int],
            final(self)@ =~= old(self)@.remove(index as int),
    {
        let v0 = self.col0.remove(index);
        let v1 = self.col1.remove(index);
        let v2 = self.col2.remove(index);
        let v3 = self.col3.remove(index);
        let v4 = self.col4.remove(index);
        let v5 = self.col5.remove(index);
        (v0, v1, v2, v3, v4, v5)
    }

    /// Get the nth row (one item of each column) as a tuple of references.
    pub fn row<'a>(&'a self, index: usize) -> (r: (&'a T0, &'a T1, &'a T2, &'a T3, &'a T4, &'a T5))
        requires
            self.well_formed(),
            index < self@.len(),
        ensures
            (*r.0, *r.1, *r.2, *r.3, *r.4, *r.5) == self@[index as int],
    {
        (
            &self.col0[index],
            &self.col1[index],
            &self.col2[index],
            &self.col3[index],
            &self.col4[index],
            &self.col5[index],
        )
    }

    /// Get the nth row (one item of each column) as a tuple of mutable
    /// references.
    pub fn row_mut<'a>(&'a mut self, index: usize) -> (r: (
        &'a mut T0,
        &'a mut T1,
        &'a mut T2,
        &'a mut T3,
        &'a mut T4,
        &'a mut T5,
    ))
        requires
            old(self).well_formed(),
            index < old(self)@.len(),
        ensures
            (*r.0, *r.1, *r.2, *r.3, *r.4, *r.5) == old(self)@[index as int],
            final(self).well_formed(),
            final(self)@ =~= old(self)@.update(
                index as int,
                (*final(r.0), *final(r.1), *final(r.2), *final(r.3), *final(r.4), *final(r.5)),
            ),
    {
        (
            &mut self.col0[index],
            &mut self.col1[index],
            &mut self.col2[index],
            &mut self.col3[index],
            &mut self.col4[index],
            &mut self.col5[index],
        )
    }

    /// Column 0 (all items of the first type) as a slice.
    pub fn col0<'a>(&'a self) -> (r: &'a [T0])
        requires
            self.well_formed(),
        ensures
            r@ == self.col0_view(),
            r@.len() == self@.len(),
            forall|i: int| 0 <= i < self@.len() ==> r@[i] == self@[i].0,
    {
        self.col0.as_slice()
    }

    /// Column 1 (all items of the second type) as a slice.
    pub fn col1<'a>(&'a self) -> (r: &'a [T1])
        requires
            self.well_formed(),
        ensures
            r@ == self.col1_view(),
            r@.len() == self@.len(),
            forall|i: int| 0 <= i < self@.len() ==> r@[i] == self@[i].1,
    {
        self.col1.as_slice()
    }

    /// Column 2 (all items of the third type) as a slice.
    pub fn col2<'a>(&'a self) -> (r: &'a [T2])
        requires
            self.well_formed(),
        ensures
            r@ == self.col2_view(),
            r@.len() == self@.len(),
            forall|i: int| 0 <= i < self@.len() ==> r@[i] == self@[i].2,
    {
        self.col2.as_slice()
    }

    /// Column 3 (all items of the fourth type) as a slice.
    pub fn col3<'a>(&'a self) -> (r: &'a [T3])
        requires
            self.well_formed(),
        ensures
            r@ == self.col3_view(),
            r@.len() == self@.len(),
            forall|i: int| 0 <= i < self@.len() ==> r@[i] == self@[i].3,
    {
        self.col3.as_slice()
    }

    /// Column 4 (all items of the fifth type) as a slice.
    pub fn col4<'a>(&'a self) -> (r: &'a [T4])
        requires
            self.well_formed(),
        ensures
            r@ == self.col4_view(),
            r@.len() == self@.len(),
            forall|i: int| 0 <= i < self@.len() ==> r@[i] == self@[i].4,
    {
        self.col4.as_slice()
    }

    /// Column 5 (all items of the sixth type) as a slice.
    pub fn col5<'a>(&'a self) -> (r: &'a [T5])
        requires
            self.well_formed(),
        ensures
            r@ == self.col5_view(),
            r@.len() == self@.len(),
            forall|i: int| 0 <= i < self@.len() ==> r@[i] == self@[i].5,
    {
        self.col5.as_slice()
    }

    /// Column 0 as a mutable slice.
    pub fn col0_mut<'a>(&'a mut self) -> (r: &'a mut [T0])
        requires
            old(self).well_formed(),
        ensures
            r@ == old(self).col0_view(),
            final(self).col0_view() == final(r)@,
            final(self).col1_view() == old(self).col1_view(),
            final(self).col2_view() == old(self).col2_view(),
            final(self).col3_view() == old(self).col3_view(),
            final(self).col4_view() == old(self).col4_view(),
            final(self).col5_view() == old(self).col5_view(),
            final(r)@.len() == old(self)@.len() ==> final(self).well_formed(),
    {
        self.col0.as_mut_slice()
    }

    /// Column 1 as a mutable slice.
    pub fn col1_mut<'a>(&'a mut self) -> (r: &'a mut [T1])
        requires
            old(self).well_formed(),
        ensures
            r@ == old(self).col1_view(),
            final(self).col1_view() == final(r)@,
            final(self).col0_view() == old(self).col0_view(),
            final(self).col2_view() == old(self).col2_view(),
            final(self).col3_view() == old(self).col3_view(),
            final(self).col4_view() == old(self).col4_view(),
            final(self).col5_view() == old(self).col5_view(),
            final(r)@.len() == old(self)@.len() ==> final(self).well_formed(),
    {
        self.col1.as_mut_slice()
    }

    /// Column 2 as a mutable slice.
    pub fn col2_mut<'a>(&'a mut self) -> (r: &'a mut [T2])
        requires
            old(self).well_formed(),
        ensures
            r@ == old(self).col2_view(),
            final(self).col2_view() == final(r)@,
            final(self).col0_view() == old(self).col0_view(),
            final(self).col1_view() == old(self).col1_view(),
            final(self).col3_view() == old(self).col3_view(),
            final(self).col4_view() == old(self).col4_view(),
            final(self).col5_view() == old(self).col5_view(),
            final(r)@.len() == old(self)@.len() ==> final(self).well_formed(),
    {
        self.col2.as_mut_slice()
    }

    /// Column 3 as a mutable slice.
    pub fn col3_mut<'a>(&'a mut self) -> (r: &'a mut [T3])
        requires
            old(self).well_formed(),
        ensures
            r@ == old(self).col3_view(),
            final(self).col3_view() == final(r)@,
            final(self).col0_view() == old(self).col0_view(),
            final(self).col1_view() == old(self).col1_view(),
            final(self).col2_view() == old(self).col2_view(),
            final(self).col4_view() == old(self).col4_view(),
            final(self).col5_view() == old(self).col5_view(),
            final(r)@.len() == old(self)@.len() ==> final(self).well_formed(),
    {
        self.col3.as_mut_slice()
    }

    /// Column 4 as a mutable slice.
    pub fn col4_mut<'a>(&'a mut self) -> (r: &'a mut [T4])
        requires
            old(self).well_formed(),
        ensures
            r@ == old(self).col4_view(),
            final(self).col4_view() == final(r)@,
            final(self).col0_view() == old(self).col0_view(),
            final(self).col1_view() == old(self).col1_view(),
            final(self).col2_view() == old(self).col2_view(),
            final(self).col3_view() == old(self).col3_view(),
            final(self).col5_view() == old(self).col5_view(),
            final(r)@.len() == old(self)@.len() ==> final(self).well_formed(),
    {
        self.col4.as_mut_slice()
    }

    /// Column 5 as a mutable slice.
    pub fn col5_mut<'a>(&'a mut self) -> (r: &'a mut [T5])
        requires
            old(self).well_formed(),
        ensures
            r@ == old(self).col5_view(),
            final(self).col5_view() == final(r)@,
            final(self).col0_view() == old(self).col0_view(),
            final(self).col1_view() == old(self).col1_view(),
            final(self).col2_view() == old(self).col2_view(),
            final(self).col3_view() == old(self).col3_view(),
            final(self).col4_view() == old(self).col4_view(),
            final(r)@.len() == old(self)@.len() ==> final(self).well_formed(),
    {
        self.col5.as_mut_slice()
    }

    /// Get all columns at once, as a tuple of slices.
    pub fn cols<'a>(&'a self) -> (r: (&'a [T0], &'a [T1], &'a [T2], &'a [T3], &'a [T4], &'a [T5]))
        requires
            self.well_formed(),
        ensures
            r.0@ == self.col0_view(),
            r.1@ == self.col1_view(),
            r.2@ == self.col2_view(),
            r.3@ == self.col3_view(),
            r.4@ == self.col4_view(),
            r.5@ == self.col5_view(),
            forall|i: int|
                0 <= i < self@.len() ==> (
                    r.0@[i],
                    r.1@[i],
                    r.2@[i],
                    r.3@[i],
                    r.4@[i],
                    r.5@[i],
                ) == self@[i],
    {
        (
            self.col0.as_slice(),
            self.col1.as_slice(),
            self.col2.as_slice(),
            self.col3.as_slice(),
            self.col4.as_slice(),
            self.col5.as_slice(),
        )
    }

    /// Append every row of a sequence of rows, in order.
    pub fn extend_rows(&mut self, rows: Vec<(T0, T1, T2, T3, T4, T5)>)
        requires
            old(self).well_formed(),
        ensures
            final(self).well_formed(),
            final(self)@ =~= old(self)@ + rows@,
    {
        let ghost all_rows: Seq<(T0, T1, T2, T3, T4, T5)> = rows@;
        let mut rows = rows;
        while rows.len() > 0
            invariant
                self.well_formed(),
                self@ + rows@ =~= old(self)@ + all_rows,
            decreases rows@.len(),
        {
            let r = rows.remove(0);
            self.push(r.0, r.1, r.2, r.3, r.4, r.5);
        }
    }

    /// Append rows drawn from a tuple of per-column value sequences: one
    /// value is taken from each column source per row, and the append stops
    /// as soon as the first source is exhausted, leaving the rest of the
    /// longer sources unused.
    pub fn extend_cols(&mut self, cols: (Vec<T0>, Vec<T1>, Vec<T2>, Vec<T3>, Vec<T4>, Vec<T5>))
        requires
            old(self).well_formed(),
        ensures
            final(self).well_formed(),
            final(self)@ =~= old(self)@ + zip_columns(
                cols.0@,
                cols.1@,
                cols.2@,
                cols.3@,
                cols.4@,
                cols.5@,
            ),
    {
        let ghost all0: Seq<T0> = cols.0@;
        let ghost all1: Seq<T1> = cols.1@;
        let ghost all2: Seq<T2> = cols.2@;
        let ghost all3: Seq<T3> = cols.3@;
        let ghost all4: Seq<T4> = cols.4@;
        let ghost all5: Seq<T5> = cols.5@;
        let (mut c0, mut c1, mut c2, mut c3, mut c4, mut c5) = cols;
        while c0.len() > 0 && c1.len() > 0 && c2.len() > 0 && c3.len() > 0 && c4.len() > 0
            && c5.len() > 0
            invariant
                self.well_formed(),
                self@ + zip_columns(c0@, c1@, c2@, c3@, c4@, c5@) =~= old(self)@ + zip_columns(
                    all0,
                    all1,
                    all2,
                    all3,
                    all4,
                    all5,
                ),
            decreases c0@.len(),
        {
            let v0 = c0.remove(0);
            let v1 = c1.remove(0);
            let v2 = c2.remove(0);
            let v3 = c3.remove(0);
            let v4 = c4.remove(0);
            let v5 = c5.remove(0);
            self.push(v0, v1, v2, v3, v4, v5);
        }
    }

    /// Build a vec from an owned sequence of rows.
    pub fn from_rows(rows: Vec<(T0, T1, T2, T3, T4, T5)>) -> (v: Self)
        ensures
            v.well_formed(),
            v@ =~= rows@,
    {
        let mut v = Self::new();
        v.extend_rows(rows);
        v
    }

    /// Build a vec from a tuple of per-column value sequences, cutting the
    /// longer ones to the length of the shortest as `extend_cols` does.
    pub fn from_cols(cols: (Vec<T0>, Vec<T1>, Vec<T2>, Vec<T3>, Vec<T4>, Vec<T5>)) -> (v: Self)
        ensures
            v.well_formed(),
            v@ =~= zip_columns(cols.0@, cols.1@, cols.2@, cols.3@, cols.4@, cols.5@),
    {
        let mut v = Self::new();
        v.extend_cols(cols);
        v
    }

    /// Turn the vec into a consuming iterator over its rows, transferring
    /// ownership of every live value to the iterator.
    pub fn into_iter(self) -> (it: IntoIter<T0, T1, T2, T3, T4, T5>)
        requires
            self.well_formed(),
        ensures
            it.well_formed(),
            it@ =~= self@,
    {
        let MultiVec6 { col0, col1, col2, col3, col4, col5 } = self;
        IntoIter { col0, col1, col2, col3, col4, col5 }
    }
}

/// A consuming iterator over the rows of a [`MultiVec6`]: it owns the
/// remaining values of every column and hands them out row by row, from the
/// front or from the back. Rows never taken are dropped with the iterator,
/// since the columns own them to the end.
pub struct IntoIter<T0, T1, T2, T3, T4, T5> {
    col0: Vec<T0>,
    col1: Vec<T1>,
    col2: Vec<T2>,
    col3: Vec<T3>,
    col4: Vec<T4>,
    col5: Vec<T5>,
}

impl<T0, T1, T2, T3, T4, T5> View for IntoIter<T0, T1, T2, T3, T4, T5> {
    type V = Seq<(T0, T1, T2, T3, T4, T5)>;

    /// The rows not yet handed out, in front-to-back order.
    closed spec fn view(&self) -> Seq<(T0, T1, T2, T3, T4, T5)> {
        Seq::new(
            self.col0@.len(),
            |i: int| (self.col0@[i], self.col1@[i], self.col2@[i], self.col3@[i], self.col4@[i], self.col5@[i]),
        )
    }
}

impl<T0, T1, T2, T3, T4, T5> IntoIter<T0, T1, T2, T3, T4, T5> {
    /// Every column holds the same number of not-yet-yielded values.
    pub closed spec fn well_formed(self) -> bool {
        self.col0@.len() == self.col1@.len() && self.col0@.len() == self.col2@.len()
            && self.col0@.len() == self.col3@.len() && self.col0@.len() == self.col4@.len()
            && self.col0@.len() == self.col5@.len()
    }

    /// Take the foremost remaining row, or nothing once every row has been
    /// handed out.
    pub fn next(&mut self) -> (r: Option<(T0, T1, T2, T3, T4, T5)>)
        requires
            old(self).well_formed(),
        ensures
            final(self).well_formed(),
            old(self)@.len() == 0 ==> r is None && final(self)@ =~= old(self)@,
            old(self)@.len() > 0 ==> r == Some(old(self)@.first()) && final(self)@ =~= old(
                self,
            )@.drop_first(),
    {
        if self.col0.len() == 0 {
            None
        } else {
            let v0 = self.col0.remove(0);
            let v1 = self.col1.remove(0);
            let v2 = self.col2.remove(0);
            let v3 = self.col3.remove(0);
            let v4 = self.col4.remove(0);
            let v5 = self.col5.remove(0);
            Some((v0, v1, v2, v3, v4, v5))
        }
    }

    /// Take the hindmost remaining row; may be interleaved with `next`.
    pub fn next_back(&mut self) -> (r: Option<(T0, T1, T2, T3, T4, T5)>)
        requires
            old(self).well_formed(),
        ensures
            final(self).well_formed(),
            old(self)@.len() == 0 ==> r is None && final(self)@ =~= old(self)@,
            old(self)@.len() > 0 ==> r == Some(old(self)@.last()) && final(self)@ =~= old(
                self,
            )@.drop_last(),
    {
        let v0 = self.col0.pop();
        let v1 = self.col1.pop();
        let v2 = self.col2.pop();
        let v3 = self.col3.pop();
        let v4 = self.col4.pop();
        let v5 = self.col5.pop();
        match (v0, v1, v2, v3, v4, v5) {
            (Some(a0), Some(a1), Some(a2), Some(a3), Some(a4), Some(a5)) => Some(
                (a0, a1, a2, a3, a4, a5),
            ),
            _ => None,
        }
    }

    /// The exact number of rows still to come; the same for every column.
    pub fn remaining(&self) -> (n: usize)
        requires
            self.well_formed(),
        ensures
            n == self@.len(),
    {
        self.col0.len()
    }

    /// Lower and upper bound on the rows still to come; both are exact.
    pub fn size_hint(&self) -> (r: (usize, Option<usize>))
        requires
            self.well_formed(),
        ensures
            r.0 == self@.len(),
            r.1 == Some(self@.len() as usize),
    {
        let n = self.remaining();
        (n, Some(n))
    }

    /// Consume the iterator and report how many rows it still held.
    pub fn count(self) -> (n: usize)
        requires
            self.well_formed(),
        ensures
            n == self@.len(),
    {
        self.remaining()
    }
}

impl<'a, T0: 'a, T1: 'a, T2: 'a, T3: 'a, T4: 'a, T5: 'a> MultiVecColumns<'a> for MultiVec6<
    T0,
    T1,
    T2,
    T3,
    T4,
    T5,
> {
    type ColRef = MultiVec6Item<&'a [T0], &'a [T1], &'a [T2], &'a [T3], &'a [T4], &'a [T5]>;

    type ColMut = MultiVec6Item<
        &'a mut [T0],
        &'a mut [T1],
        &'a mut [T2],
        &'a mut [T3],
        &'a mut [T4],
        &'a mut [T5],
    >;

    type ItemRef = MultiVec6Item<&'a T0, &'a T1, &'a T2, &'a T3, &'a T4, &'a T5>;

    type ItemMut = MultiVec6Item<
        &'a mut T0,
        &'a mut T1,
        &'a mut T2,
        &'a mut T3,
        &'a mut T4,
        &'a mut T5,
    >;

    open spec fn valid(&self) -> bool {
        self.well_formed()
    }

    open spec fn col_count(&self) -> nat {
        6
    }

    open spec fn row_count(&self) -> nat {
        self@.len()
    }

    open spec fn is_col(&self, index: int, r: Self::ColRef) -> bool {
        match r {
            MultiVec6Item::Col0(s) => index == 0 && s@ == self.col0_view(),
            MultiVec6Item::Col1(s) => index == 1 && s@ == self.col1_view(),
            MultiVec6Item::Col2(s) => index == 2 && s@ == self.col2_view(),
            MultiVec6Item::Col3(s) => index == 3 && s@ == self.col3_view(),
            MultiVec6Item::Col4(s) => index == 4 && s@ == self.col4_view(),
            MultiVec6Item::Col5(s) => index == 5 && s@ == self.col5_view(),
        }
    }

    open spec fn is_item(&self, row: int, col: int, r: Self::ItemRef) -> bool {
        match r {
            MultiVec6Item::Col0(x) => col == 0 && *x == self@[row].0,
            MultiVec6Item::Col1(x) => col == 1 && *x == self@[row].1,
            MultiVec6Item::Col2(x) => col == 2 && *x == self@[row].2,
            MultiVec6Item::Col3(x) => col == 3 && *x == self@[row].3,
            MultiVec6Item::Col4(x) => col == 4 && *x == self@[row].4,
            MultiVec6Item::Col5(x) => col == 5 && *x == self@[row].5,
        }
    }

    open spec fn is_col_mut(pre: Self, post: Self, index: int, r: Self::ColMut) -> bool {
        match r {
            MultiVec6Item::Col0(s) => {
                &&& index == 0
                &&& s@ == pre.col0_view()
                &&& post.col1_view() == pre.col1_view()
                &&& post.col2_view() == pre.col2_view()
                &&& post.col3_view() == pre.col3_view()
                &&& post.col4_view() == pre.col4_view()
                &&& post.col5_view() == pre.col5_view()
                &&& (post.col0_view().len() == pre.col0_view().len() ==> post.well_formed())
            },
            MultiVec6Item::Col1(s) => {
                &&& index == 1
                &&& s@ == pre.col1_view()
                &&& post.col0_view() == pre.col0_view()
                &&& post.col2_view() == pre.col2_view()
                &&& post.col3_view() == pre.col3_view()
                &&& post.col4_view() == pre.col4_view()
                &&& post.col5_view() == pre.col5_view()
                &&& (post.col1_view().len() == pre.col1_view().len() ==> post.well_formed())
            },
            MultiVec6Item::Col2(s) => {
                &&& index == 2
                &&& s@ == pre.col2_view()
                &&& post.col0_view() == pre.col0_view()
                &&& post.col1_view() == pre.col1_view()
                &&& post.col3_view() == pre.col3_view()
                &&& post.col4_view() == pre.col4_view()
                &&& post.col5_view() == pre.col5_view()
                &&& (post.col2_view().len() == pre.col2_view().len() ==> post.well_formed())
            },
            MultiVec6Item::Col3(s) => {
                &&& index == 3
                &&& s@ == pre.col3_view()
                &&& post.col0_view() == pre.col0_view()
                &&& post.col1_view() == pre.col1_view()
                &&& post.col2_view() == pre.col2_view()
                &&& post.col4_view() == pre.col4_view()
                &&& post.col5_view() == pre.col5_view()
                &&& (post.col3_view().len() == pre.col3_view().len() ==> post.well_formed())
            },
            MultiVec6Item::Col4(s) => {
                &&& index == 4
                &&& s@ == pre.col4_view()
                &&& post.col0_view() == pre.col0_view()
                &&& post.col1_view() == pre.col1_view()
                &&& post.col2_view() == pre.col2_view()
                &&& post.col3_view() == pre.col3_view()
                &&& post.col5_view() == pre.col5_view()
                &&& (post.col4_view().len() == pre.col4_view().len() ==> post.well_formed())
            },
            MultiVec6Item::Col5(s) => {
                &&& index == 5
                &&& s@ == pre.col5_view()
                &&& post.col0_view() == pre.col0_view()
                &&& post.col1_view() == pre.col1_view()
                &&& post.col2_view() == pre.col2_view()
                &&& post.col3_view() == pre.col3_view()
                &&& post.col4_view() == pre.col4_view()
                &&& (post.col5_view().len() == pre.col5_view().len() ==> post.well_formed())
            },
        }
    }

    open spec fn is_item_mut(pre: Self, post: Self, row: int, col: int, r: Self::ItemMut) -> bool {
        &&& post.well_formed()
        &&& post@.len() == pre@.len()
        &&& forall|j: int| 0 <= j < pre@.len() && j != row ==> post@[j] == pre@[j]
        &&& match r {
            MultiVec6Item::Col0(x) => {
                &&& col == 0
                &&& *x == pre@[row].0
                &&& post@[row].1 == pre@[row].1
                &&& post@[row].2 == pre@[row].2
                &&& post@[row].3 == pre@[row].3
                &&& post@[row].4 == pre@[row].4
                &&& post@[row].5 == pre@[row].5
            },
            MultiVec6Item::Col1(x) => {
                &&& col == 1
                &&& *x == pre@[row].1
                &&& post@[row].0 == pre@[row].0
                &&& post@[row].2 == pre@[row].2
                &&& post@[row].3 == pre@[row].3
                &&& post@[row].4 == pre@[row].4
                &&& post@[row].5 == pre@[row].5
            },
            MultiVec6Item::Col2(x) => {
                &&& col == 2
                &&& *x == pre@[row].2
                &&& post@[row].0 == pre@[row].0
                &&& post@[row].1 == pre@[row].1
                &&& post@[row].3 == pre@[row].3
                &&& post@[row].4 == pre@[row].4
                &&& post@[row].5 == pre@[row].5
            },
            MultiVec6Item::Col3(x) => {
                &&& col == 3
                &&& *x == pre@[row].3
                &&& post@[row].0 == pre@[row].0
                &&& post@[row].1 == pre@[row].1
                &&& post@[row].2 == pre@[row].2
                &&& post@[row].4 == pre@[row].4
                &&& post@[row].5 == pre@[row].5
            },
            MultiVec6Item::Col4(x) => {
                &&& col == 4
                &&& *x == pre@[row].4
                &&& post@[row].0 == pre@[row].0
                &&& post@[row].1 == pre@[row].1
                &&& post@[row].2 == pre@[row].2
                &&& post@[row].3 == pre@[row].3
                &&& post@[row].5 == pre@[row].5
            },
            MultiVec6Item::Col5(x) => {
                &&& col == 5
                &&& *x == pre@[row].5
                &&& post@[row].0 == pre@[row].0
                &&& post@[row].1 == pre@[row].1
                &&& post@[row].2 == pre@[row].2
                &&& post@[row].3 == pre@[row].3
                &&& post@[row].4 == pre@[row].4
            },
        }
    }

    fn col(&'a self, index: usize) -> (r: Self::ColRef) {
        match index {
            0 => MultiVec6Item::Col0(self.col0()),
            1 => MultiVec6Item::Col1(self.col1()),
            2 => MultiVec6Item::Col2(self.col2()),
            3 => MultiVec6Item::Col3(self.col3()),
            4 => MultiVec6Item::Col4(self.col4()),
            _ => MultiVec6Item::Col5(self.col5()),
        }
    }

    fn col_mut(&'a mut self, index: usize) -> (r: Self::ColMut) {
        match index {
            0 => MultiVec6Item::Col0(self.col0.as_mut_slice()),
            1 => MultiVec6Item::Col1(self.col1.as_mut_slice()),
            2 => MultiVec6Item::Col2(self.col2.as_mut_slice()),
            3 => MultiVec6Item::Col3(self.col3.as_mut_slice()),
            4 => MultiVec6Item::Col4(self.col4.as_mut_slice()),
            _ => MultiVec6Item::Col5(self.col5.as_mut_slice()),
        }
    }

    fn item(&'a self, row: usize, col: usize) -> (r: Self::ItemRef) {
        match col {
            0 => MultiVec6Item::Col0(&self.col0[row]),
            1 => MultiVec6Item::Col1(&self.col1[row]),
            2 => MultiVec6Item::Col2(&self.col2[row]),
            3 => MultiVec6Item::Col3(&self.col3[row]),
            4 => MultiVec6Item::Col4(&self.col4[row]),
            _ => MultiVec6Item::Col5(&self.col5[row]),
        }
    }

    fn item_mut(&'a mut self, row: usize, col: usize) -> (r: Self::ItemMut) {
        match col {
            0 => MultiVec6Item::Col0(&mut self.col0[row]),
            1 => MultiVec6Item::Col1(&mut self.col1[row]),
            2 => MultiVec6Item::Col2(&mut self.col2[row]),
            3 => MultiVec6Item::Col3(&mut self.col3[row]),
            4 => MultiVec6Item::Col4(&mut self.col4[row]),
            _ => MultiVec6Item::Col5(&mut self.col5[row]),
        }
    }
}

/// Law: a row is exactly the tuple of the column views at its index, so
/// `row(i)` equals the tuple formed by indexing every column's view at `i`.
pub proof fn lemma_row_matches_columns<T0, T1, T2, T3, T4, T5>(m: MultiVec6<T0, T1, T2, T3, T4, T5>)
    requires
        m.well_formed(),
    ensures
        m.col0_view().len() == m@.len(),
        m.col1_view().len() == m@.len(),
        m.col2_view().len() == m@.len(),
        m.col3_view().len() == m@.len(),
        m.col4_view().len() == m@.len(),
        m.col5_view().len() == m@.len(),
        forall|i: int|
            0 <= i < m@.len() ==> m@[i] == (
                m.col0_view()[i],
                m.col1_view()[i],
                m.col2_view()[i],
                m.col3_view()[i],
                m.col4_view()[i],
                m.col5_view()[i],
            ),
{
}

/// Law: pairing six column sources truncates to the shortest one, so
/// `extend_cols` and `from_cols` append exactly as many rows as the
/// shortest source holds, each the tuple of the sources at its index.
pub proof fn lemma_zip_truncates<T0, T1, T2, T3, T4, T5>(
    s0: Seq<T0>,
    s1: Seq<T1>,
    s2: Seq<T2>,
    s3: Seq<T3>,
    s4: Seq<T4>,
    s5: Seq<T5>,
)
    ensures
        zip_columns(s0, s1, s2, s3, s4, s5).len() == shortest_of6(
            s0.len(),
            s1.len(),
            s2.len(),
            s3.len(),
            s4.len(),
            s5.len(),
        ),
        zip_columns(s0, s1, s2, s3, s4, s5).len() <= s0.len(),
        zip_columns(s0, s1, s2, s3, s4, s5).len() <= s1.len(),
        zip_columns(s0, s1, s2, s3, s4, s5).len() <= s2.len(),
        zip_columns(s0, s1, s2, s3, s4, s5).len() <= s3.len(),
        zip_columns(s0, s1, s2, s3, s4, s5).len() <= s4.len(),
        zip_columns(s0, s1, s2, s3, s4, s5).len() <= s5.len(),
        zip_columns(s0, s1, s2, s3, s4, s5).len() == s0.len() || zip_columns(
            s0,
            s1,
            s2,
            s3,
            s4,
            s5,
        ).len() == s1.len() || zip_columns(s0, s1, s2, s3, s4, s5).len() == s2.len()
            || zip_columns(s0, s1, s2, s3, s4, s5).len() == s3.len() || zip_columns(
            s0,
            s1,
            s2,
            s3,
            s4,
            s5,
        ).len() == s4.len() || zip_columns(s0, s1, s2, s3, s4, s5).len() == s5.len(),
        forall|i: int|
            0 <= i < zip_columns(s0, s1, s2, s3, s4, s5).len() ==> zip_columns(
                s0,
                s1,
                s2,
                s3,
                s4,
                s5,
            )[i] == (s0[i], s1[i], s2[i], s3[i], s4[i], s5[i]),
{
}

} // verus!
