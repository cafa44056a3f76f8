//! The row layout: three named columns over a flat span of values.

use vstd::prelude::*;

verus! {

/// One trace row, with its columns named.
///
/// `cond_a` and `cond_b` are meant to hold the encodings of 0 or 1; nothing
/// enforces that. `c` is free except where the transition rule applies.
#[derive(Clone, Copy)]
pub struct ToyCols<T> {
    pub cond_a: T,
    pub cond_b: T,
    pub c: T,
}

/// The number of columns of a row: one per field of `ToyCols`, no padding.
pub const NUM_TOY_COLS: usize = 3;

impl<T> ToyCols<T> {
    /// The row that a span of exactly `NUM_TOY_COLS` values stands for,
    /// offset 0 being `cond_a`, 1 being `cond_b` and 2 being `c`.
    pub open spec fn from_seq(s: Seq<T>) -> ToyCols<T> {
        ToyCols { cond_a: s[0], cond_b: s[1], c: s[2] }
    }

    /// The span of values that this row occupies.
    pub open spec fn to_seq(self) -> Seq<T> {
        seq![self.cond_a, self.cond_b, self.c]
    }

    /// A read view of a row span: each field refers to the value at its
    /// offset, without copying.
    pub fn borrow(row: &[T]) -> (r: ToyCols<&T>)
        requires
            row@.len() == NUM_TOY_COLS,
        ensures
            *r.cond_a == row@[0],
            *r.cond_b == row@[1],
            *r.c == row@[2],
    {
        ToyCols { cond_a: &row[0], cond_b: &row[1], c: &row[2] }
    }

    /// A write view of a row span: each field refers to the value at its
    /// offset, and what is written through a field lands at that offset.
    pub fn borrow_mut(row: &mut [T]) -> (r: ToyCols<&mut T>)
        requires
            old(row)@.len() == NUM_TOY_COLS,
        ensures
            *r.cond_a == old(row)@[0],
            *r.cond_b == old(row)@[1],
            *r.c == old(row)@[2],
            final(row)@ == seq![*final(r.cond_a), *final(r.cond_b), *final(r.c)],
    {
        let (head, rest) = row.split_at_mut(1);
        let (mid, tail) = rest.split_at_mut(1);
        let cond_a = head.first_mut().unwrap();
        let cond_b = mid.first_mut().unwrap();
        let c = tail.first_mut().unwrap();
        ToyCols { cond_a, cond_b, c }
    }
}

/// Reading a row span as named columns and laying those columns back out
/// gives the span again, and the other way round.
pub proof fn lemma_row_round_trip<T>(s: Seq<T>, row: ToyCols<T>)
    requires
        s.len() == NUM_TOY_COLS,
    ensures
        ToyCols::from_seq(s).to_seq() == s,
        ToyCols::from_seq(row.to_seq()) == row,
        row.to_seq().len() == NUM_TOY_COLS,
{
    assert(ToyCols::from_seq(s).to_seq() =~= s);
}

} // verus!
