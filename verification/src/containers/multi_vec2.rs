//! A two-column structure-of-arrays vector: two independently typed columns
//! stored as two contiguous buffers that share one logical length, behaving
//! like a relational table whose rows are inserted and removed atomically.

use crate::containers::multi_vec::MultiVecColumns;
use vstd::prelude::*;
use vstd::std_specs::cmp::PartialEqSpec;

verus! {

/// A value taken from one table cell or column of a [`MultiVec2`], tagged
/// with the column it came from.
#[derive(Debug, Clone, Copy)]
pub enum MultiVec2Item<T0, T1> {
    /// The type stored in column 0.
    Col0(T0),
    /// The type stored in column 1.
    Col1(T1),
}

impl<T0: PartialEq, T1: PartialEq> PartialEq for MultiVec2Item<T0, T1> {
    /// Values from different columns never compare equal, even when the
    /// wrapped values would.
    fn eq(&self, other: &Self) -> (r: bool) {
        match (self, other) {
            (MultiVec2Item::Col0(a), MultiVec2Item::Col0(b)) => a.eq(b),
            (MultiVec2Item::Col1(a), MultiVec2Item::Col1(b)) => a.eq(b),
            _ => false,
        }
    }
}

impl<T0: PartialEq, T1: PartialEq> vstd::std_specs::cmp::PartialEqSpecImpl for MultiVec2Item<T0, T1> {
    open spec fn obeys_eq_spec() -> bool {
        T0::obeys_eq_spec() && T1::obeys_eq_spec()
    }

    open spec fn eq_spec(&self, other: &Self) -> bool {
        match (self, other) {
            (MultiVec2Item::Col0(a), MultiVec2Item::Col0(b)) => a.eq_spec(b),
            (MultiVec2Item::Col1(a), MultiVec2Item::Col1(b)) => a.eq_spec(b),
            _ => false,
        }
    }
}

/// Rows formed by pairing two column sequences index by index; the longer
/// one is cut to the length of the shorter, as in a zip.
pub open spec fn zip_columns<T0, T1>(s0: Seq<T0>, s1: Seq<T1>) -> Seq<(T0, T1)> {
    Seq::new(if s0.len() <= s1.len() { s0.len() } else { s1.len() }, |i: int| (s0[i], s1[i]))
}

/// Two growable columns with a shared length.
///
/// Viewed abstractly (`self@`) as a sequence of rows, each row one value
/// per column.
pub struct MultiVec2<T0, T1> {
    col0: Vec<T0>,
    col1: Vec<T1>,
}

impl<T0, T1> View for MultiVec2<T0, T1> {
    type V = Seq<(T0, T1)>;

    closed spec fn view(&self) -> Seq<(T0, T1)> {
        Seq::new(self.col0@.len(), |i: int| (self.col0@[i], self.col1@[i]))
    }
}

impl<T0, T1> MultiVec2<T0, T1> {
    /// Both columns hold the same number of live values: a row is never
    /// present in one column and absent from the other.
    pub closed spec fn well_formed(self) -> bool {
        self.col0@.len() == self.col1@.len()
    }

    /// The live prefix of column 0, as a sequence.
    pub closed spec fn col0_view(self) -> Seq<T0> {
        self.col0@
    }

    /// The live prefix of column 1, as a sequence.
    pub closed spec fn col1_view(self) -> Seq<T1> {
        self.col1@
    }

    /// Construct an empty MultiVec2 without allocating.
    pub fn new() -> (v: Self)
        ensures
            v.well_formed(),
            v@ =~= Seq::<(T0, T1)>::empty(),
    {
        MultiVec2 { col0: Vec::new(), col1: Vec::new() }
    }

    /// Get the number of rows in the vec.
    pub fn len(&self) -> (n: usize)
        requires
            self.well_formed(),
        ensures
            n == self@.len(),
    {
        self.col0.len()
    }

    /// Append a row to the end of the vec.
    pub fn push(&mut self, col0: T0, col1: T1)
        requires
            old(self).well_formed(),
        ensures
            final(self).well_formed(),
            final(self)@ =~= old(self)@.push((col0, col1)),
    {
        self.col0.push(col0);
        self.col1.push(col1);
    }

    /// Remove the last row from the vec and hand its values to the caller;
    /// yields nothing when the vec is empty.
    pub fn pop(&mut self) -> (r: Option<(T0, T1)>)
        requires
            old(self).well_formed(),
        ensures
            final(self).well_formed(),
            old(self)@.len() == 0 ==> r is None && final(self)@ =~= old(self)@,
            old(self)@.len() > 0 ==> r == Some(old(self)@.last()) && final(self)@ =~= old(
                self,
            )@.drop_last(),
    {
        let v0 = self.col0.pop();
        let v1 = self.col1.pop();
        match (v0, v1) {
            (Some(a), Some(b)) => Some((a, b)),
            _ => None,
        }
    }

    /// Insert a row at an index, shifting the rows at and after it one
    /// place toward the tail; inserting at the length appends.
    pub fn insert(&mut self, index: usize, col0: T0, col1: T1)
        requires
            old(self).well_formed(),
            index <= old(self)@.len(),
        ensures
            final(self).well_formed(),
            final(self)@ =~= old(self)@.insert(index as int, (col0, col1)),
    {
        self.col0.insert(index, col0);
        self.col1.insert(index, col1);
    }

    /// Remove the row at an index, handing its values to the caller and
    /// shifting the rows after it one place toward the head.
    pub fn remove(&mut self, index: usize) -> (r: (T0, T1))
        requires
            old(self).well_formed(),
            index < old(self)@.len(),
        ensures
            final(self).well_formed(),
            r == old(self)@[index as int],
            final(self)@ =~= old(self)@.remove(index as int),
    {
        let v0 = self.col0.remove(index);
        let v1 = self.col1.remove(index);
        (v0, v1)
    }

    /// Get the nth row (one item of each column) as a tuple of references.
    pub fn row<'a>(&'a self, index: usize) -> (r: (&'a T0, &'a T1))
        requires
            self.well_formed(),
            index < self@.len(),
        ensures
            (*r.0, *r.1) == self@[index as int],
    {
        (&self.col0[index], &self.col1[index])
    }

    /// Get the nth row (one item of each column) as a tuple of mutable
    /// references.
    pub fn row_mut<'a>(&'a mut self, index: usize) -> (r: (&'a mut T0, &'a mut T1))
        requires
            old(self).well_formed(),
            index < old(self)@.len(),
        ensures
            (*r.0, *r.1) == old(self)@[index as int],
            final(self).well_formed(),
            final(self)@ =~= old(self)@.update(index as int, (*final(r.0), *final(r.1))),
    {
        (&mut self.col0[index], &mut self.col1[index])
    }

    /// Column 0 (all items of the first type) as a slice.
    pub fn col0<'a>(&'a self) -> (r: &'a [T0])
        requires
            self.well_formed(),
        ensures
            r@ == self.col0_view(),
            r@.len() == self@.len(),
            forall|i: int| 0 <= i < self@.len() ==> r@[i] == self@[i].0,
    {
        self.col0.as_slice()
    }

    /// Column 1 (all items of the second type) as a slice.
    pub fn col1<'a>(&'a self) -> (r: &'a [T1])
        requires
            self.well_formed(),
        ensures
            r@ == self.col1_view(),
            r@.len() == self@.len(),
            forall|i: int| 0 <= i < self@.len() ==> r@[i] == self@[i].1,
    {
        self.col1.as_slice()
    }

    /// Column 0 as a mutable slice.
    pub fn col0_mut<'a>(&'a mut self) -> (r: &'a mut [T0])
        requires
            old(self).well_formed(),
        ensures
            r@ == old(self).col0_view(),
            final(self).col0_view() == final(r)@,
            final(self).col1_view() == old(self).col1_view(),
            final(r)@.len() == old(self)@.len() ==> final(self).well_formed() && final(self)@
                =~= Seq::new(old(self)@.len(), |i: int| (final(r)@[i], old(self)@[i].1)),
    {
        self.col0.as_mut_slice()
    }

    /// Column 1 as a mutable slice.
    pub fn col1_mut<'a>(&'a mut self) -> (r: &'a mut [T1])
        requires
            old(self).well_formed(),
        ensures
            r@ == old(self).col1_view(),
            final(self).col1_view() == final(r)@,
            final(self).col0_view() == old(self).col0_view(),
            final(r)@.len() == old(self)@.len() ==> final(self).well_formed() && final(self)@
                =~= Seq::new(old(self)@.len(), |i: int| (old(self)@[i].0, final(r)@[i])),
    {
        self.col1.as_mut_slice()
    }

    /// Append every row of a sequence of rows, in order.
    pub fn extend_rows(&mut self, rows: Vec<(T0, T1)>)
        requires
            old(self).well_formed(),
        ensures
            final(self).well_formed(),
            final(self)@ =~= old(self)@ + rows@,
    {
        let ghost all_rows: Seq<(T0, T1)> = rows@;
        let mut rows = rows;
        while rows.len() > 0
            invariant
                self.well_formed(),
                self@ + rows@ =~= old(self)@ + all_rows,
            decreases rows@.len(),
        {
            let r = rows.remove(0);
            self.push(r.0, r.1);
        }
    }

    /// Append rows drawn from a pair of per-column value sequences: one
    /// value is taken from each column source per row, and the append stops
    /// as soon as the first source is exhausted, leaving the rest of the
    /// longer source unused.
    pub fn extend_cols(&mut self, cols: (Vec<T0>, Vec<T1>))
        requires
            old(self).well_formed(),
        ensures
            final(self).well_formed(),
            final(self)@ =~= old(self)@ + zip_columns(cols.0@, cols.1@),
    {
        let ghost all0: Seq<T0> = cols.0@;
        let ghost all1: Seq<T1> = cols.1@;
        let (mut c0, mut c1) = cols;
        while c0.len() > 0 && c1.len() > 0
            invariant
                self.well_formed(),
                self@ + zip_columns(c0@, c1@) =~= old(self)@ + zip_columns(all0, all1),
            decreases c0@.len(),
        {
            let v0 = c0.remove(0);
            let v1 = c1.remove(0);
            self.push(v0, v1);
        }
    }

    /// Build a vec from an owned sequence of rows.
    pub fn from_rows(rows: Vec<(T0, T1)>) -> (v: Self)
        ensures
            v.well_formed(),
            v@ =~= rows@,
    {
        let mut v = Self::new();
        v.extend_rows(rows);
        v
    }

    /// Build a vec from a pair of per-column value sequences, cutting the
    /// longer one to the length of the shorter as `extend_cols` does.
    pub fn from_cols(cols: (Vec<T0>, Vec<T1>)) -> (v: Self)
        ensures
            v.well_formed(),
            v@ =~= zip_columns(cols.0@, cols.1@),
    {
        let mut v = Self::new();
        v.extend_cols(cols);
        v
    }

    /// Get all columns at once, as a tuple of slices.
    pub fn cols<'a>(&'a self) -> (r: (&'a [T0], &'a [T1]))
        requires
            self.well_formed(),
        ensures
            r.0@ == self.col0_view(),
            r.1@ == self.col1_view(),
            forall|i: int| 0 <= i < self@.len() ==> (r.0@[i], r.1@[i]) == self@[i],
    {
        (self.col0.as_slice(), self.col1.as_slice())
    }
}

impl<'a, T0: 'a, T1: 'a> MultiVecColumns<'a> for MultiVec2<T0, T1> {
    type ColRef = MultiVec2Item<&'a [T0], &'a [T1]>;

    type ColMut = MultiVec2Item<&'a mut [T0], &'a mut [T1]>;

    type ItemRef = MultiVec2Item<&'a T0, &'a T1>;

    type ItemMut = MultiVec2Item<&'a mut T0, &'a mut T1>;

    open spec fn valid(&self) -> bool {
        self.well_formed()
    }

    open spec fn col_count(&self) -> nat {
        2
    }

    open spec fn row_count(&self) -> nat {
        self@.len()
    }

    open spec fn is_col(&self, index: int, r: Self::ColRef) -> bool {
        match r {
            MultiVec2Item::Col0(s) => index == 0 && s@ == self.col0_view(),
            MultiVec2Item::Col1(s) => index == 1 && s@ == self.col1_view(),
        }
    }

    open spec fn is_item(&self, row: int, col: int, r: Self::ItemRef) -> bool {
        match r {
            MultiVec2Item::Col0(x) => col == 0 && *x == self@[row].0,
            MultiVec2Item::Col1(x) => col == 1 && *x == self@[row].1,
        }
    }

    open spec fn is_col_mut(pre: Self, post: Self, index: int, r: Self::ColMut) -> bool {
        match r {
            MultiVec2Item::Col0(s) => {
                &&& index == 0
                &&& s@ == pre.col0_view()
                &&& post.col1_view() == pre.col1_view()
                &&& (post.col0_view().len() == pre.col0_view().len() ==> post.well_formed())
            },
            MultiVec2Item::Col1(s) => {
                &&& index == 1
                &&& s@ == pre.col1_view()
                &&& post.col0_view() == pre.col0_view()
                &&& (post.col1_view().len() == pre.col1_view().len() ==> post.well_formed())
            },
        }
    }

    open spec fn is_item_mut(pre: Self, post: Self, row: int, col: int, r: Self::ItemMut) -> bool {
        match r {
            MultiVec2Item::Col0(x) => {
                &&& col == 0
                &&& *x == pre@[row].0
                &&& post.well_formed()
                &&& post@.len() == pre@.len()
                &&& forall|j: int| 0 <= j < pre@.len() && j != row ==> post@[j] == pre@[j]
                &&& post@[row].1 == pre@[row].1
            },
            MultiVec2Item::Col1(x) => {
                &&& col == 1
                &&& *x == pre@[row].1
                &&& post.well_formed()
                &&& post@.len() == pre@.len()
                &&& forall|j: int| 0 <= j < pre@.len() && j != row ==> post@[j] == pre@[j]
                &&& post@[row].0 == pre@[row].0
            },
        }
    }

    fn col(&'a self, index: usize) -> (r: Self::ColRef) {
        match index {
            0 => MultiVec2Item::Col0(self.col0()),
            _ => MultiVec2Item::Col1(self.col1()),
        }
    }

    fn col_mut(&'a mut self, index: usize) -> (r: Self::ColMut) {
        match index {
            0 => MultiVec2Item::Col0(self.col0.as_mut_slice()),
            _ => MultiVec2Item::Col1(self.col1.as_mut_slice()),
        }
    }

    fn item(&'a self, row: usize, col: usize) -> (r: Self::ItemRef) {
        match col {
            0 => MultiVec2Item::Col0(&self.col0[row]),
            _ => MultiVec2Item::Col1(&self.col1[row]),
        }
    }

    fn item_mut(&'a mut self, row: usize, col: usize) -> (r: Self::ItemMut) {
        match col {
            0 => MultiVec2Item::Col0(&mut self.col0[row]),
            _ => MultiVec2Item::Col1(&mut self.col1[row]),
        }
    }
}

/// A consuming iterator over the rows of a [`MultiVec2`]: it owns the
/// remaining values of both columns and hands them out row by row, from the
/// front or from the back. Rows never taken are dropped with the iterator,
/// since the columns own them to the end.
pub struct IntoIter<T0, T1> {
    col0: Vec<T0>,
    col1: Vec<T1>,
}

impl<T0, T1> View for IntoIter<T0, T1> {
    type V = Seq<(T0, T1)>;

    /// The rows not yet handed out, in front-to-back order.
    closed spec fn view(&self) -> Seq<(T0, T1)> {
        Seq::new(self.col0@.len(), |i: int| (self.col0@[i], self.col1@[i]))
    }
}

impl<T0, T1> IntoIter<T0, T1> {
    /// Every column holds the same number of not-yet-yielded values.
    pub closed spec fn well_formed(self) -> bool {
        self.col0@.len() == self.col1@.len()
    }

    /// Take the foremost remaining row, or nothing once every row has been
    /// handed out.
    pub fn next(&mut self) -> (r: Option<(T0, T1)>)
        requires
            old(self).well_formed(),
        ensures
            final(self).well_formed(),
            old(self)@.len() == 0 ==> r is None && final(self)@ =~= old(self)@,
            old(self)@.len() > 0 ==> r == Some(old(self)@.first()) && final(self)@ =~= old(
                self,
            )@.drop_first(),
    {
        if self.col0.len() == 0 {
            None
        } else {
            let v0 = self.col0.remove(0);
            let v1 = self.col1.remove(0);
            Some((v0, v1))
        }
    }

    /// Take the hindmost remaining row; may be interleaved with `next`.
    pub fn next_back(&mut self) -> (r: Option<(T0, T1)>)
        requires
            old(self).well_formed(),
        ensures
            final(self).well_formed(),
            old(self)@.len() == 0 ==> r is None && final(self)@ =~= old(self)@,
            old(self)@.len() > 0 ==> r == Some(old(self)@.last()) && final(self)@ =~= old(
                self,
            )@.drop_last(),
    {
        let v0 = self.col0.pop();
        let v1 = self.col1.pop();
        match (v0, v1) {
            (Some(a), Some(b)) => Some((a, b)),
            _ => None,
        }
    }

    /// The exact number of rows still to come; the same for every column.
    pub fn remaining(&self) -> (n: usize)
        requires
            self.well_formed(),
        ensures
            n == self@.len(),
    {
        self.col0.len()
    }

    /// Lower and upper bound on the rows still to come; both are exact.
    pub fn size_hint(&self) -> (r: (usize, Option<usize>))
        requires
            self.well_formed(),
        ensures
            r.0 == self@.len(),
            r.1 == Some(self@.len() as usize),
    {
        let n = self.remaining();
        (n, Some(n))
    }

    /// Consume the iterator and report how many rows it still held.
    pub fn count(self) -> (n: usize)
        requires
            self.well_formed(),
        ensures
            n == self@.len(),
    {
        self.remaining()
    }
}

impl<T0, T1> MultiVec2<T0, T1> {
    /// Turn the vec into a consuming iterator over its rows, transferring
    /// ownership of every live value to the iterator.
    pub fn into_iter(self) -> (it: IntoIter<T0, T1>)
        requires
            self.well_formed(),
        ensures
            it.well_formed(),
            it@ =~= self@,
    {
        let MultiVec2 { col0, col1 } = self;
        IntoIter { col0, col1 }
    }
}

/// Law: a row is exactly the pairing of the column views at its index, so
/// `row(i)` equals the tuple formed by indexing every column's view at `i`.
pub proof fn lemma_row_matches_columns<T0, T1>(m: MultiVec2<T0, T1>)
    requires
        m.well_formed(),
    ensures
        m.col0_view().len() == m@.len(),
        m.col1_view().len() == m@.len(),
        forall|i: int| 0 <= i < m@.len() ==> m@[i] == (m.col0_view()[i], m.col1_view()[i]),
{
}

/// Law: pairing two column sources truncates to the shorter one, so
/// `extend_cols` and `from_cols` append exactly as many rows as the
/// shorter source holds, each the pairing of the sources at its index.
pub proof fn lemma_zip_truncates<T0, T1>(s0: Seq<T0>, s1: Seq<T1>)
    ensures
        s0.len() <= s1.len() ==> zip_columns(s0, s1).len() == s0.len(),
        s1.len() <= s0.len() ==> zip_columns(s0, s1).len() == s1.len(),
        forall|i: int|
            0 <= i < zip_columns(s0, s1).len() ==> zip_columns(s0, s1)[i] == (s0[i], s1[i]),
{
}

} // verus!
