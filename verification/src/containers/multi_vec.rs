//! Runtime-indexed access to the columns and cells of a multi-column vector.

use vstd::prelude::*;

verus! {

/// Access to the columns and cells of a multi-column vector by a runtime
/// column index, as a tagged union over the per-column types.
///
/// The result of each access is pinned down by a spec predicate of the
/// implementing type (`is_col`, `is_item`, ...): an implementation states
/// there exactly which column view or cell value each index yields.
pub trait MultiVecColumns<'a>: Sized {
    type ColRef;

    type ColMut;

    type ItemRef;

    type ItemMut;

    /// The container's internal invariant.
    spec fn valid(&self) -> bool;

    /// Number of columns (fixed per implementing type).
    spec fn col_count(&self) -> nat;

    /// Number of rows currently held.
    spec fn row_count(&self) -> nat;

    /// Exactly when `r` is the view of column `index`.
    spec fn is_col(&self, index: int, r: Self::ColRef) -> bool;

    /// Exactly when `r` is the value of the cell at `row`, `col`.
    spec fn is_item(&self, row: int, col: int, r: Self::ItemRef) -> bool;

    /// Constrains a mutable borrow `r` of column `index` of `pre` together
    /// with `post`, the container once the borrow ends: which column `r` is,
    /// what it holds, and that no other column is touched through it.
    spec fn is_col_mut(pre: Self, post: Self, index: int, r: Self::ColMut) -> bool;

    /// Constrains a mutable borrow `r` of the cell at `row`, `col` of `pre`
    /// together with `post`, the container once the borrow ends: which cell
    /// `r` is, what it holds, and that no other cell is touched through it.
    spec fn is_item_mut(pre: Self, post: Self, row: int, col: int, r: Self::ItemMut) -> bool;

    /// View of one whole column, selected at runtime.
    fn col(&'a self, index: usize) -> (r: Self::ColRef)
        requires
            self.valid(),
            index < self.col_count(),
        ensures
            self.is_col(index as int, r),
    ;

    /// Mutable view of one whole column, selected at runtime.
    fn col_mut(&'a mut self, index: usize) -> (r: Self::ColMut)
        requires
            old(self).valid(),
            index < old(self).col_count(),
        ensures
            Self::is_col_mut(*old(self), *final(self), index as int, r),
    ;

    /// One cell, selected by runtime row and column indices.
    fn item(&'a self, row: usize, col: usize) -> (r: Self::ItemRef)
        requires
            self.valid(),
            row < self.row_count(),
            col < self.col_count(),
        ensures
            self.is_item(row as int, col as int, r),
    ;

    /// One mutable cell, selected by runtime row and column indices.
    fn item_mut(&'a mut self, row: usize, col: usize) -> (r: Self::ItemMut)
        requires
            old(self).valid(),
            row < old(self).row_count(),
            col < old(self).col_count(),
        ensures
            Self::is_item_mut(*old(self), *final(self), row as int, col as int, r),
    ;
}

/// The row sequence left behind by pushing each row of `rows`, in turn,
/// onto a vec whose rows are `s` — one `push` per row, as `extend_rows`
/// performs them.
pub open spec fn push_all<R>(s: Seq<R>, rows: Seq<R>) -> Seq<R>
    decreases rows.len(),
{
    if rows.len() == 0 {
        s
    } else {
        push_all(s.push(rows.first()), rows.drop_first())
    }
}

/// Law: pushing a row and then popping hands the same row back and restores
/// the previous rows and length — stated over the row-sequence views that
/// `push` and `pop` of every multi vector are specified with.
pub proof fn lemma_push_pop_inverse<R>(s: Seq<R>, r: R)
    ensures
        s.push(r).len() == s.len() + 1,
        s.push(r).last() == r,
        s.push(r).drop_last() =~= s,
{
}

/// Law: inserting a row at a valid index and then removing at the same
/// index hands the row back and restores every other row, in order.
pub proof fn lemma_insert_remove_inverse<R>(s: Seq<R>, i: int, r: R)
    requires
        0 <= i <= s.len(),
    ensures
        s.insert(i, r).len() == s.len() + 1,
        s.insert(i, r)[i] == r,
        s.insert(i, r).remove(i) =~= s,
{
}

/// Law: inserting at an index equal to the length appends the row, exactly
/// as a push does.
pub proof fn lemma_insert_at_len_is_push<R>(s: Seq<R>, r: R)
    ensures
        s.insert(s.len() as int, r) =~= s.push(r),
{
}

/// Law: a sequence of single-row pushes keeps every row already present and
/// appends the pushed rows in order — growth never loses data.
pub proof fn lemma_repeated_push_appends<R>(s: Seq<R>, rows: Seq<R>)
    ensures
        push_all(s, rows) =~= s + rows,
    decreases rows.len(),
{
    if rows.len() == 0 {
        assert(push_all(s, rows) =~= s + rows);
    } else {
        lemma_repeated_push_appends(s.push(rows.first()), rows.drop_first());
        assert(s.push(rows.first()) + rows.drop_first() =~= s + rows);
    }
}

/// Law: rows pushed one by one onto an empty vec are read back unchanged
/// and in order, however many there are.
pub proof fn lemma_pushes_read_back<R>(rows: Seq<R>)
    ensures
        push_all(Seq::empty(), rows).len() == rows.len(),
        forall|i: int| 0 <= i < rows.len() ==> push_all(Seq::empty(), rows)[i] == rows[i],
{
    lemma_repeated_push_appends(Seq::empty(), rows);
    assert(push_all(Seq::empty(), rows) =~= rows);
}

} // verus!
