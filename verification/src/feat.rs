//! Active sparse inputs.
//!
//! A sample lists its active features in a row of fixed width. The row ends
//! at its first [`Feat::END`], or at its full width when it holds none.

use vstd::prelude::*;

verus! {

/// One active input of one sample: an index into the input space. Its value
/// is implicitly one.
#[derive(Clone, Copy, Debug, PartialEq, Eq, Structural)]
pub struct Feat {
    pub index: u32,
}

impl Feat {
    /// The index that marks the end of a row. It names no input.
    pub const END: u32 = 0xffff_ffff;

    /// Whether this entry marks the end of its row.
    pub open spec fn is_end_spec(self) -> bool {
        self.index == Feat::END
    }

    /// The entry for the input at `index`.
    pub fn new(index: u32) -> (r: Feat)
        ensures
            r.index == index,
    {
        Feat { index }
    }

    /// The entry that ends a row.
    pub fn end() -> (r: Feat)
        ensures
            r.is_end_spec(),
            r.index == Feat::END,
    {
        Feat { index: Feat::END }
    }

    /// Whether this entry marks the end of its row.
    pub fn is_end(self) -> (b: bool)
        ensures
            b == self.is_end_spec(),
    {
        self.index == Feat::END
    }
}

/// How many entries of `row` come before its end.
pub open spec fn active_len(row: Seq<Feat>) -> nat
    decreases row.len(),
{
    if row.len() == 0 || row.first().is_end_spec() {
        0
    } else {
        1 + active_len(row.drop_first())
    }
}

/// The entries of `row` before its end.
pub open spec fn active(row: Seq<Feat>) -> Seq<Feat> {
    row.take(active_len(row) as int)
}

/// The row of sample `sample` in a batch whose rows are `width` wide.
pub open spec fn sample_row(inputs: Seq<Feat>, width: nat, sample: int) -> Seq<Feat> {
    inputs.subrange(sample * width, sample * width + width)
}

/// The active features of sample `sample`.
pub open spec fn sample_active(inputs: Seq<Feat>, width: nat, sample: int) -> Seq<Feat> {
    active(sample_row(inputs, width, sample))
}

/// `n` is the active length exactly when no entry before `n` ends the row
/// and the row stops at `n`.
pub proof fn active_len_is(row: Seq<Feat>, n: nat)
    requires
        n <= row.len(),
        forall|k: int| 0 <= k < n ==> !(#[trigger] row[k]).is_end_spec(),
        n == row.len() || row[n as int].is_end_spec(),
    ensures
        active_len(row) == n,
    decreases row.len(),
{
    if n != 0 {
        let rest = row.drop_first();
        assert forall|k: int| 0 <= k < n - 1 implies !(#[trigger] rest[k]).is_end_spec() by {}
        active_len_is(rest, (n - 1) as nat);
    }
}

/// No active entry ends the row, and the row stops right after them.
pub proof fn active_len_means(row: Seq<Feat>)
    ensures
        active_len(row) <= row.len(),
        forall|k: int| 0 <= k < active_len(row) ==> !(#[trigger] row[k]).is_end_spec(),
        active_len(row) == row.len() || row[active_len(row) as int].is_end_spec(),
    decreases row.len(),
{
    if row.len() != 0 && !row.first().is_end_spec() {
        let rest = row.drop_first();
        active_len_means(rest);
        assert forall|k: int| 0 <= k < active_len(row) implies !(#[trigger] row[k]).is_end_spec() by {
            if k > 0 {
                assert(row[k] == rest[k - 1]);
            }
        }
    }
}

} // verus!
